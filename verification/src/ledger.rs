//! The voyage log: every completed haul filed with what came home.

use crate::career::after_voyage;
use crate::data::GameData;
use crate::drone_directive::DroneDirective;
use crate::engine::{market_quote_spec, RiskResult, VoyagePlan};
use crate::return_policy::ReturnPolicy;
use crate::scan_profile::WorkspaceScanProfile;
use crate::session::{GameSession, ReturnedItem};
use crate::voyage_record::VoyageRecord;
use vstd::prelude::*;

verus! {

/// Returned loads whose object the catalog knows: how many, their market
/// value in their cycle, and the alloy and electronics they yield.
pub open spec fn haul_totals(returned: Seq<ReturnedItem>, data: GameData) -> (int, int, int, int)
    decreases returned.len(),
{
    if returned.len() == 0 {
        (0, 0, 0, 0)
    } else {
        let (n, value, alloy, electronics) = haul_totals(returned.drop_last(), data);
        let item = returned.last();
        match data.object_spec(item.object_id@) {
            Some(o) => (
                n + 1,
                value + market_quote_spec(o, item.market_cycle, data.config.market).sale_value,
                alloy + o.alloy_yield,
                electronics + o.electronics_yield,
            ),
            None => (n, value, alloy, electronics),
        }
    }
}

proof fn lemma_haul_bounds(returned: Seq<ReturnedItem>, data: GameData)
    requires
        data.wf(),
    ensures
        0 <= haul_totals(returned, data).0 <= returned.len(),
        0 <= haul_totals(returned, data).1 <= 10_000_000_000 * returned.len(),
        0 <= haul_totals(returned, data).2 <= 1000 * returned.len(),
        0 <= haul_totals(returned, data).3 <= 1000 * returned.len(),
    decreases returned.len(),
{
    if returned.len() > 0 {
        lemma_haul_bounds(returned.drop_last(), data);
        let item = returned.last();
        match data.object_spec(item.object_id@) {
            Some(o) => {
                let k = crate::data::key_index(data.salvage_objects@, item.object_id@);
                lemma_keyed_member(data.salvage_objects@, item.object_id@);
                assert(data.salvage_objects@[k].wf());
                let q = market_quote_spec(o, item.market_cycle, data.config.market);
                let percent = crate::engine::market_percent(item.market_cycle, data.config.market);
                let idx = (item.market_cycle as int) % (data.config.market.cycle_percent.len() as int);
                assert(0 <= data.config.market.cycle_percent@[idx] <= 1000);
                assert(0 <= o.sale_value * percent <= 1_000_000_000 * 1000) by (nonlinear_arith)
                    requires
                        0 <= o.sale_value <= 1_000_000_000,
                        0 <= percent <= 1000,
                ;
                assert(0 <= q.sale_value <= 10_000_000_000);
            },
            None => {},
        }
    }
}

/// A keyed lookup that finds something finds a member of the list.
pub proof fn lemma_keyed_member<T: crate::data::Keyed>(s: Seq<T>, k: Seq<char>)
    requires
        crate::data::keyed(s, k) is Some,
    ensures
        0 <= crate::data::key_index(s, k) < s.len(),
        crate::data::keyed(s, k) == Some(s[crate::data::key_index(s, k)]),
        s[crate::data::key_index(s, k)].key() == k,
        crate::data::first_match(s, k, crate::data::key_index(s, k)),
{
    lemma_first_match_exists(s, k, s.len() as int);
}

/// A list that holds the key has a first position holding it.
proof fn lemma_first_match_exists<T: crate::data::Keyed>(s: Seq<T>, k: Seq<char>, n: int)
    requires
        0 <= n <= s.len(),
        exists|i: int| 0 <= i < n && s[i].key() == k,
    ensures
        exists|i: int| crate::data::first_match(s, k, i),
        0 <= crate::data::key_index(s, k) < s.len(),
        s[crate::data::key_index(s, k)].key() == k,
    decreases n,
{
    if exists|i: int| 0 <= i < n - 1 && s[i].key() == k {
        lemma_first_match_exists(s, k, n - 1);
    } else {
        assert(s[n - 1].key() == k);
        assert(crate::data::first_match(s, k, n - 1));
    }
}

impl GameSession {
    /// The record a completed voyage files.
    pub open spec fn voyage_record_matches(
        &self,
        record: VoyageRecord,
        site_id: Seq<char>,
        risk: RiskResult,
        voyage_plan: VoyagePlan,
        return_policy: ReturnPolicy,
        reconnaissance_level: u8,
        external_load: i32,
        contract_completed: bool,
        contract_failed: bool,
        contract_accepted: bool,
        scan_profile: WorkspaceScanProfile,
        drone_directive: DroneDirective,
        condition_after: i32,
        return_fuel: i32,
        cleared_sections: Seq<Seq<char>>,
        clearance_payout: i64,
        insured: bool,
        insurance_premium: i64,
        insurance_payout: i64,
        data: GameData,
    ) -> bool {
        let (n, value, alloy, electronics) = haul_totals(self.returned@, data);
        &&& record.site_id@ == site_id
        &&& record.recovered_count == n
        &&& record.recovered_value == value
        &&& record.recovered_alloy == alloy
        &&& record.recovered_electronics == electronics
        &&& record.external_load == if external_load > 0 {
            external_load as u32
        } else {
            0
        }
        &&& record.risk_outcome == risk.outcome
        &&& record.danger_score == risk.danger_score
        &&& record.reconnaissance_level == reconnaissance_level
        &&& record.voyage_plan == voyage_plan
        &&& record.return_policy == return_policy
        &&& record.contract_completed == contract_completed
        &&& record.contract_failed == contract_failed
        &&& record.contract_accepted == contract_accepted
        &&& record.scan_profile == scan_profile
        &&& record.drone_directive == drone_directive
        &&& record.condition_after == condition_after
        &&& crate::text::views(record.cleared_sections@) == cleared_sections
        &&& record.clearance_payout == clearance_payout
        &&& record.return_fuel == if return_fuel > 0 {
            return_fuel
        } else {
            0
        }
        &&& record.insured == insured
        &&& record.insurance_premium == insurance_premium
        &&& record.insurance_payout == insurance_payout
        &&& record.market_cycle == self.market_cycle
    }

    /// Files a completed voyage: the record of what came home joins the
    /// log, the dossier counts it, and the crew gains experience.
    pub fn record_voyage(
        &mut self,
        site_id: &str,
        risk: &RiskResult,
        voyage_plan: VoyagePlan,
        return_policy: ReturnPolicy,
        reconnaissance_level: u8,
        external_load: i32,
        contract_completed: bool,
        contract_failed: bool,
        contract_accepted: bool,
        scan_profile: WorkspaceScanProfile,
        drone_directive: DroneDirective,
        condition_after: i32,
        return_fuel: i32,
        cleared_sections: &[String],
        clearance_payout: i64,
        insured: bool,
        insurance_premium: i64,
        insurance_payout: i64,
        data: &GameData,
    )
        requires
            old(self).wf(),
            data.wf(),
        ensures
            final(self).wf(),
            final(self).voyage_log@.len() == old(self).voyage_log@.len() + 1,
            final(self).voyage_log@.drop_last() == old(self).voyage_log@,
            old(self).voyage_record_matches(
                final(self).voyage_log@.last(),
                site_id@,
                *risk,
                voyage_plan,
                return_policy,
                reconnaissance_level,
                external_load,
                contract_completed,
                contract_failed,
                contract_accepted,
                scan_profile,
                drone_directive,
                condition_after,
                return_fuel,
                crate::text::views(cleared_sections@),
                clearance_payout,
                insured,
                insurance_premium,
                insurance_payout,
                *data,
            ),
            final(self).career == (crate::career::CareerStats {
                crew_experience: final(self).career.crew_experience,
                ..after_voyage(old(self).career, final(self).voyage_log@.last())
            }),
            final(self).career.crew_experience == old(self).career.crew_experience.with(
                old(self).crew_role,
                (if old(self).experience_spec() >= crate::crew::MAX_CREW_EXPERIENCE {
                    old(self).experience_spec()
                } else if old(self).experience_spec() + crate::crew::experience_gain_spec(
                    risk.outcome,
                    contract_completed,
                ) > crate::crew::MAX_CREW_EXPERIENCE {
                    crate::crew::MAX_CREW_EXPERIENCE as int
                } else {
                    old(self).experience_spec() + crate::crew::experience_gain_spec(
                        risk.outcome,
                        contract_completed,
                    )
                }) as u16,
            ),
            *final(self) == (GameSession {
                career: final(self).career,
                voyage_log: final(self).voyage_log,
                ..*old(self)
            }),
    {
        let mut count: u32 = 0;
        let mut value: i64 = 0;
        let mut alloy: i32 = 0;
        let mut electronics: i32 = 0;
        let mut i: usize = 0;
        while i < self.returned.len()
            invariant
                i <= self.returned.len(),
                self.returned.len() <= 1_000_000,
                data.wf(),
                (count as int, value as int, alloy as int, electronics as int) == haul_totals(
                    self.returned@.take(i as int),
                    *data,
                ),
            decreases self.returned.len() - i,
        {
            proof {
                assert(self.returned@.take(i + 1).drop_last() =~= self.returned@.take(i as int));
                assert(self.returned@.take(i + 1).last() == self.returned@[i as int]);
                lemma_haul_bounds(self.returned@.take(i + 1), *data);
            }
            let item = &self.returned[i];
            match data.object(item.object_id.as_str()) {
                Some(o) => {
                    let q = crate::engine::quote_for(o, item.market_cycle, &data.config.market);
                    count = count + 1;
                    value = value + q.sale_value;
                    alloy = alloy + o.alloy_yield;
                    electronics = electronics + o.electronics_yield;
                },
                None => {},
            }
            i = i + 1;
        }
        proof {
            assert(self.returned@.take(self.returned.len() as int) =~= self.returned@);
        }
        let mut cleared: Vec<String> = Vec::new();
        let mut j: usize = 0;
        while j < cleared_sections.len()
            invariant
                j <= cleared_sections.len(),
                crate::text::views(cleared@) == crate::text::views(cleared_sections@.take(j as int)),
            decreases cleared_sections.len() - j,
        {
            let ghost before = cleared@;
            let name = cleared_sections[j].clone();
            assert(name@ == cleared_sections@[j as int]@);
            cleared.push(name);
            proof {
                assert(crate::text::views(cleared@) =~= crate::text::views(before).push(
                    cleared_sections@[j as int]@,
                ));
                assert(cleared_sections@.take(j + 1) =~= cleared_sections@.take(j as int).push(
                    cleared_sections@[j as int],
                ));
                assert(crate::text::views(cleared@) =~= crate::text::views(
                    cleared_sections@.take(j + 1),
                ));
            }
            j = j + 1;
        }
        proof {
            assert(cleared_sections@.take(cleared_sections.len() as int) =~= cleared_sections@);
        }
        let record = VoyageRecord {
            site_id: site_id.to_owned(),
            recovered_count: count,
            recovered_value: value,
            recovered_alloy: alloy,
            recovered_electronics: electronics,
            external_load: if external_load > 0 {
                external_load as u32
            } else {
                0
            },
            risk_outcome: risk.outcome,
            danger_score: risk.danger_score,
            reconnaissance_level,
            voyage_plan,
            return_policy,
            contract_completed,
            contract_failed,
            contract_accepted,
            scan_profile,
            drone_directive,
            condition_after,
            cleared_sections: cleared,
            clearance_payout,
            return_fuel: if return_fuel > 0 {
                return_fuel
            } else {
                0
            },
            market_cycle: self.market_cycle,
            insured,
            insurance_premium,
            insurance_payout,
        };
        self.career.record_voyage(&record);
        self.record_crew_experience(risk.outcome, contract_completed);
        self.voyage_log.push(record);
    }
}

} // verus!
