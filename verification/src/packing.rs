//! Closing a run: the return-risk preview, the casualty a rough return
//! claims, and the return to port with everything it settles.

use crate::career::CareerAward;
use crate::contracts::ContractObjectiveState;
use crate::data::{first_match, GameData, Keyed, WreckSectionData};
use crate::engine::{claim_payout_spec, clamp, market_quote_spec, outcome_text, risk_outcome_spec, RiskOutcome, RiskResult};
use crate::return_policy::ReturnPolicy;
use crate::session::{cargo_layout_id, CargoItem, CargoStatus, ExpeditionState, GameSession, ReturnedItem, SiteProgress, WALLET};
use crate::text::{decimal, err_msg, push_int, views};
use vstd::prelude::*;

verus! {

pub const TITLE: &'static str = "PACK THE HAUL";

/// Whether the manifest entry at `k` may be sacrificed under the policy:
/// it is packed, and a protected objective is spared while another packed
/// load is on hand.
pub open spec fn eligible(
    cargo: Seq<CargoItem>,
    policy: ReturnPolicy,
    protected: Option<Seq<char>>,
    k: int,
) -> bool {
    &&& 0 <= k < cargo.len()
    &&& cargo[k].status == CargoStatus::Packed
    &&& (policy == ReturnPolicy::ProtectObjective && spare_exists(cargo, protected)) ==> unprotected(
        cargo,
        protected,
        k,
    )
}

pub open spec fn unprotected(cargo: Seq<CargoItem>, protected: Option<Seq<char>>, k: int) -> bool {
    protected is None || cargo[k].object_id@ != protected.unwrap()
}

pub open spec fn spare_exists(cargo: Seq<CargoItem>, protected: Option<Seq<char>>) -> bool {
    exists|k: int|
        0 <= k < cargo.len() && (#[trigger] cargo[k]).status == CargoStatus::Packed && unprotected(
            cargo,
            protected,
            k,
        )
}

/// The ranking of a casualty candidate: its sale value, or the negated
/// value when the cheapest load goes first.
pub open spec fn casualty_key(cargo: Seq<CargoItem>, data: GameData, k: int, lose_highest: bool) -> int {
    let value = match data.object_spec(cargo[k].object_id@) {
        Some(o) => o.sale_value as int,
        None => 0,
    };
    if lose_highest {
        value
    } else {
        -value
    }
}

/// The casualty of a rough return: the eligible load ranked highest, the
/// last of equals; the most valuable one goes for a lost-salvage outcome
/// unless value is protected, the cheapest one otherwise.
pub open spec fn casualty_spec(
    cargo: Seq<CargoItem>,
    data: GameData,
    policy: ReturnPolicy,
    protected: Option<Seq<char>>,
    outcome: RiskOutcome,
    k: int,
) -> bool {
    let lose_highest = outcome == RiskOutcome::LostSalvage && policy != ReturnPolicy::ProtectValue;
    &&& eligible(cargo, policy, protected, k)
    &&& forall|j: int|
        eligible(cargo, policy, protected, j) ==> casualty_key(cargo, data, j, lose_highest)
            <= casualty_key(cargo, data, k, lose_highest)
    &&& forall|j: int|
        k < j && eligible(cargo, policy, protected, j) ==> casualty_key(cargo, data, j, lose_highest)
            < casualty_key(cargo, data, k, lose_highest)
}

/// The loads that wait at port after a run: every packed manifest entry
/// with a spot in the grid, in manifest order, priced at `cycle`.
pub open spec fn returned_spec(cargo: Seq<CargoItem>, cycle: u32) -> Seq<ReturnedItem>
    decreases cargo.len(),
{
    if cargo.len() == 0 {
        Seq::empty()
    } else {
        let before = returned_spec(cargo.drop_last(), cycle);
        let item = cargo.last();
        if item.status == CargoStatus::Packed && item.position is Some {
            before.push(
                ReturnedItem {
                    object_id: item.object_id,
                    position: item.position.unwrap(),
                    rotation: item.rotation,
                    market_cycle: cycle,
                },
            )
        } else {
            before
        }
    }
}

/// The labels of the commendations of `after` that `before` lacks, in
/// filing order.
pub open spec fn new_award_labels(after: Seq<CareerAward>, before: Seq<CareerAward>) -> Seq<Seq<char>>
    decreases after.len(),
{
    if after.len() == 0 {
        Seq::empty()
    } else {
        let earlier = new_award_labels(after.drop_last(), before);
        if before.contains(after.last()) {
            earlier
        } else {
            earlier.push(after.last().label_spec())
        }
    }
}

/// Position of the first manifest entry marked lost or left behind, or -1.
pub open spec fn first_lost(cargo: Seq<CargoItem>) -> int
    decreases cargo.len(),
{
    if cargo.len() == 0 {
        -1
    } else {
        let k = first_lost(cargo.drop_last());
        if k >= 0 {
            k
        } else if cargo.last().status == CargoStatus::Lost || cargo.last().status
            == CargoStatus::LeftBehind {
            cargo.len() - 1
        } else {
            -1
        }
    }
}

proof fn lemma_first_lost_prefix(cargo: Seq<CargoItem>, n: int)
    requires
        0 <= n <= cargo.len(),
        first_lost(cargo.take(n)) >= 0,
    ensures
        first_lost(cargo) == first_lost(cargo.take(n)),
    decreases cargo.len() - n,
{
    if n < cargo.len() {
        assert(cargo.take(n + 1).drop_last() =~= cargo.take(n));
        lemma_first_lost_prefix(cargo, n + 1);
    } else {
        assert(cargo.take(n) =~= cargo);
    }
}

/// The market value at `cycle` of the first load the manifest marks lost or
/// left behind; zero when none is.
pub open spec fn impacted_spec(cargo: Seq<CargoItem>, data: GameData, cycle: u32) -> int {
    let k = first_lost(cargo);
    if 0 <= k < cargo.len() {
        match data.object_spec(cargo[k].object_id@) {
            Some(o) => market_quote_spec(o, cycle, data.config.market).sale_value as int,
            None => 0,
        }
    } else {
        0
    }
}

/// The emergency repair bill of a return: three hulls' worth of repairs,
/// at least sixty credits, for an emergency-repair outcome; nothing
/// otherwise.
pub open spec fn emergency_bill_spec(outcome: RiskOutcome, data: GameData) -> int {
    if outcome == RiskOutcome::EmergencyRepair {
        if data.config.repair_price_per_hull * 3 > 60 {
            data.config.repair_price_per_hull * 3
        } else {
            60
        }
    } else {
        0
    }
}

/// Rewriting the record of a tracked wreck under its own name keeps it
/// where it was.
proof fn lemma_progress_rewritten(a: GameSession, b: GameSession, site_id: Seq<char>, x: SiteProgress)
    requires
        a.progress_spec(site_id) is Some,
        b.site_progress@ == a.site_progress@.update(a.progress_index(site_id), x),
        x.site_id@ == site_id,
    ensures
        b.progress_spec(site_id) == Some(x),
        b.progress_index(site_id) == a.progress_index(site_id),
{
    crate::ledger::lemma_keyed_member(a.site_progress@, site_id);
    let i = a.progress_index(site_id);
    assert(b.site_progress@[i].key() == site_id);
    assert forall|j: int| 0 <= j < i implies b.site_progress@[j].key() != site_id by {
        assert(b.site_progress@[j] == a.site_progress@[j]);
    }
    assert(first_match(b.site_progress@, site_id, i));
    crate::data::lemma_first_match_unique(b.site_progress@, site_id, i);
}

/// A return's contract money and section bounties are those the session
/// owed before the wreck was weathered: a visit changes neither the
/// contract's flags nor what the sections record, and closing the contract
/// leaves the sections as they were.
proof fn lemma_return_pays_as_before(
    old: GameSession,
    w: GameSession,
    s3: GameSession,
    s4: GameSession,
    s5: GameSession,
    site: Seq<char>,
    cargo: Seq<CargoItem>,
    data: GameData,
    accepted: bool,
    closing: Option<String>,
)
    requires
        old.weathered_from(w, site),
        s3.site_progress == w.site_progress,
        s3.reputation == old.reputation,
        s3.career.contract_streak == old.career.contract_streak,
        GameSession::contract_closed(s3, s4, site, cargo, data, accepted, closing),
        s5.site_progress == s4.site_progress,
    ensures
        crate::contracts::contract_pay_spec(s3, site, cargo, data, accepted)
            == crate::contracts::contract_pay_spec(old, site, cargo, data, accepted),
        crate::section_clearance::clearance_pay_spec(s5, site, data)
            == crate::section_clearance::clearance_pay_spec(old, site, data),
{
    if old.progress_spec(site) is Some {
        let i = old.progress_index(site);
        let p = old.site_progress@[i];
        crate::ledger::lemma_keyed_member(old.site_progress@, site);
        lemma_progress_rewritten(
            old,
            w,
            site,
            SiteProgress { visits: (p.visits + 1) as u32, condition: old.weathered_condition(site), ..p },
        );
        assert(s3.progress_spec(site) == w.progress_spec(site));
        if s3.contract_open(site, data, accepted) {
            let j = s3.progress_index(site);
            let q = s3.site_progress@[j];
            crate::ledger::lemma_keyed_member(s3.site_progress@, site);
            if crate::contracts::packed_in(cargo, data.site_spec(site).unwrap().contract_target.unwrap()@) {
                lemma_progress_rewritten(s3, s4, site, SiteProgress { contract_completed: true, ..q });
            } else if views(q.removed_targets@).contains(data.site_spec(site).unwrap().contract_target.unwrap()@) {
                lemma_progress_rewritten(s3, s4, site, SiteProgress { contract_failed: true, ..q });
            }
        }
        assert(s5.progress_spec(site) == s4.progress_spec(site));
        if data.site_spec(site) is Some {
            lemma_ready_alike(
                s5.progress_spec(site).unwrap(),
                old.progress_spec(site).unwrap(),
                data.site_spec(site).unwrap().sections@,
            );
        }
    } else {
        assert(w == old);
    }
}

/// Whether a section is ready reads only the cleared sections and the
/// operation log of the wreck.
proof fn lemma_ready_alike(p: SiteProgress, q: SiteProgress, sections: Seq<WreckSectionData>)
    requires
        p.cleared_sections == q.cleared_sections,
        p.operation_log == q.operation_log,
    ensures
        crate::section_clearance::ready_sections(p, sections)
            == crate::section_clearance::ready_sections(q, sections),
{
    let f = |s: WreckSectionData| crate::section_clearance::section_ready(p, s);
    let g = |s: WreckSectionData| crate::section_clearance::section_ready(q, s);
    assert(f =~= g);
}

/// No more loads wait at port than the manifest lists.
pub proof fn lemma_returned_len(cargo: Seq<CargoItem>, cycle: u32)
    ensures
        returned_spec(cargo, cycle).len() <= cargo.len(),
    decreases cargo.len(),
{
    if cargo.len() > 0 {
        lemma_returned_len(cargo.drop_last(), cycle);
    }
}

/// The manifest entry a rough return claims: for a lost-salvage or abandon
/// outcome, the casualty, if any load qualifies.
pub open spec fn casualty_of(
    cargo: Seq<CargoItem>,
    data: GameData,
    policy: ReturnPolicy,
    protected: Option<Seq<char>>,
    outcome: RiskOutcome,
) -> Option<int> {
    if (outcome == RiskOutcome::LostSalvage || outcome == RiskOutcome::ForcedAbandon) && exists|k: int|
        casualty_spec(cargo, data, policy, protected, outcome, k) {
        Some(choose|k: int| casualty_spec(cargo, data, policy, protected, outcome, k))
    } else {
        None
    }
}

/// The manifest after a rough return: the casualty, if any, gives up its
/// spot and is marked lost (lost-salvage outcome) or left behind.
pub open spec fn cargo_after_setback(
    cargo: Seq<CargoItem>,
    data: GameData,
    policy: ReturnPolicy,
    protected: Option<Seq<char>>,
    outcome: RiskOutcome,
) -> Seq<CargoItem> {
    match casualty_of(cargo, data, policy, protected, outcome) {
        Some(k) => cargo.update(
            k,
            CargoItem {
                status: if outcome == RiskOutcome::LostSalvage {
                    CargoStatus::Lost
                } else {
                    CargoStatus::LeftBehind
                },
                position: None,
                ..cargo[k]
            },
        ),
        None => cargo,
    }
}

/// The grid after a rough return: the casualty's load leaves it.
pub open spec fn grid_after_setback(
    placements: Seq<crate::layout::PlacedItem>,
    cargo: Seq<CargoItem>,
    data: GameData,
    policy: ReturnPolicy,
    protected: Option<Seq<char>>,
    outcome: RiskOutcome,
) -> Seq<crate::layout::PlacedItem> {
    match casualty_of(cargo, data, policy, protected, outcome) {
        Some(k) => crate::layout::ShipLayout::without(
            placements,
            crate::session::cargo_layout_key(cargo[k].object_id@),
        ),
        None => placements,
    }
}

/// The damage records after a return: a damaged-module outcome marks the
/// first working permanent module, if there is one.
pub open spec fn damage_after_setback(
    placements: Seq<crate::layout::PlacedItem>,
    damaged: Seq<Seq<char>>,
    outcome: RiskOutcome,
) -> Seq<Seq<char>> {
    let k = crate::workspace_ops::first_undamaged(placements, damaged);
    if outcome == RiskOutcome::DamagedModule && k >= 0 {
        damaged.push(placements[k].id@)
    } else {
        damaged
    }
}

/// At most one load is the casualty of a return.
pub proof fn lemma_casualty_unique(
    cargo: Seq<CargoItem>,
    data: GameData,
    policy: ReturnPolicy,
    protected: Option<Seq<char>>,
    outcome: RiskOutcome,
    k1: int,
    k2: int,
)
    requires
        casualty_spec(cargo, data, policy, protected, outcome, k1),
        casualty_spec(cargo, data, policy, protected, outcome, k2),
    ensures
        k1 == k2,
{
    let lose_highest = outcome == RiskOutcome::LostSalvage && policy != ReturnPolicy::ProtectValue;
    if k1 < k2 {
        assert(casualty_key(cargo, data, k2, lose_highest) < casualty_key(cargo, data, k1, lose_highest));
        assert(casualty_key(cargo, data, k1, lose_highest) <= casualty_key(cargo, data, k2, lose_highest));
    } else if k2 < k1 {
        assert(casualty_key(cargo, data, k1, lose_highest) < casualty_key(cargo, data, k2, lose_highest));
        assert(casualty_key(cargo, data, k2, lose_highest) <= casualty_key(cargo, data, k1, lose_highest));
    }
}

fn object_value(data: &GameData, id: &String) -> (r: i64)
    requires
        data.wf(),
    ensures
        r == match data.object_spec(id@) {
            Some(o) => o.sale_value as int,
            None => 0,
        },
        0 <= r <= crate::data::AUTHORED_LIMIT,
{
    match data.object(id.as_str()) {
        Some(o) => o.sale_value,
        None => 0,
    }
}

/// Picks the load a rough return claims, if any load is packed.
pub fn select_casualty(
    cargo: &Vec<CargoItem>,
    data: &GameData,
    policy: ReturnPolicy,
    protected_objective: Option<&str>,
    outcome: RiskOutcome,
) -> (r: Option<usize>)
    requires
        data.wf(),
    ensures
        match r {
            Some(k) => casualty_spec(
                cargo@,
                *data,
                policy,
                crate::workspace_records::opt_str_view(protected_objective),
                outcome,
                k as int,
            ),
            None => forall|j: int|
                !eligible(
                    cargo@,
                    policy,
                    crate::workspace_records::opt_str_view(protected_objective),
                    j,
                ),
        },
{
    let ghost protected = crate::workspace_records::opt_str_view(protected_objective);
    let mut spare = false;
    let mut i: usize = 0;
    while i < cargo.len()
        invariant
            i <= cargo.len(),
            protected == crate::workspace_records::opt_str_view(protected_objective),
            spare == exists|k: int|
                0 <= k < i && (#[trigger] cargo@[k]).status == CargoStatus::Packed && unprotected(
                    cargo@,
                    protected,
                    k,
                ),
        decreases cargo.len() - i,
    {
        let free = match protected_objective {
            Some(t) => !crate::text::same_text(cargo[i].object_id.as_str(), t),
            None => true,
        };
        assert(free == unprotected(cargo@, protected, i as int));
        if cargo[i].status == CargoStatus::Packed && free {
            spare = true;
            assert(cargo@[i as int].status == CargoStatus::Packed);
        }
        i = i + 1;
    }
    let restrict = policy == ReturnPolicy::ProtectObjective && spare;
    let lose_highest = outcome == RiskOutcome::LostSalvage && policy != ReturnPolicy::ProtectValue;
    let mut best: Option<usize> = None;
    let mut best_key: i64 = 0;
    let mut j: usize = 0;
    while j < cargo.len()
        invariant
            j <= cargo.len(),
            data.wf(),
            protected == crate::workspace_records::opt_str_view(protected_objective),
            restrict == (policy == ReturnPolicy::ProtectObjective && spare_exists(cargo@, protected)),
            lose_highest == (outcome == RiskOutcome::LostSalvage && policy
                != ReturnPolicy::ProtectValue),
            match best {
                Some(k) => {
                    &&& k < j
                    &&& eligible(cargo@, policy, protected, k as int)
                    &&& best_key == casualty_key(cargo@, *data, k as int, lose_highest)
                    &&& forall|x: int|
                        0 <= x < j && eligible(cargo@, policy, protected, x) ==> casualty_key(
                            cargo@,
                            *data,
                            x,
                            lose_highest,
                        ) <= best_key
                    &&& forall|x: int|
                        k < x < j && eligible(cargo@, policy, protected, x) ==> casualty_key(
                            cargo@,
                            *data,
                            x,
                            lose_highest,
                        ) < best_key
                },
                None => forall|x: int| 0 <= x < j ==> !eligible(cargo@, policy, protected, x),
            },
        decreases cargo.len() - j,
    {
        let free = match protected_objective {
            Some(t) => !crate::text::same_text(cargo[j].object_id.as_str(), t),
            None => true,
        };
        assert(free == unprotected(cargo@, protected, j as int));
        assert(eligible(cargo@, policy, protected, j as int) == (cargo@[j as int].status
            == CargoStatus::Packed && (!restrict || free)));
        if cargo[j].status == CargoStatus::Packed && (!restrict || free) {
            let value = object_value(data, &cargo[j].object_id);
            let key = if lose_highest {
                value
            } else {
                -value
            };
            let better = match best {
                Some(_) => key >= best_key,
                None => true,
            };
            if better {
                best = Some(j);
                best_key = key;
            }
        }
        j = j + 1;
    }
    best
}

impl GameSession {
    pub open spec fn preview_danger_spec(&self, data: GameData) -> int {
        let e = self.expedition.unwrap();
        let site = data.site_spec(e.site_id@).unwrap();
        let lost = 100 - self.site_condition_spec(site);
        let penalty = if lost > 0 {
            lost / 4
        } else {
            0
        };
        let external = self.load_count_spec(data, None, true)
            * data.config.risk.external_cargo_risk_per_item;
        self.plan_danger_spec(site.danger + penalty + external, site.id@, data, e.voyage_plan)
    }

    /// The return risk of the run as it stands: the departure danger plus
    /// the strain of every external load, drawn with the run's seed.
    pub fn expedition_risk_preview(&self, data: &GameData) -> (r: Option<RiskResult>)
        requires
            self.wf(),
            data.wf(),
        ensures
            r is Some <==> self.expedition is Some && data.site_spec(
                self.expedition.unwrap().site_id@,
            ) is Some,
            r matches Some(risk) ==> {
                &&& risk.danger_score == clamp(self.preview_danger_spec(*data), 0, 100)
                &&& risk.outcome == risk_outcome_spec(
                    self.expedition.unwrap().seed,
                    risk.danger_score as int,
                    data.config.risk,
                )
                &&& risk.explanation@ == outcome_text(risk.outcome)
            },
    {
        let e = match &self.expedition {
            Some(e) => e,
            None => {
                return None;
            },
        };
        let site = data.site(e.site_id.as_str())?;
        let slot = self.progress_slot(e.site_id.as_str());
        let condition = match slot {
            Some(i) => self.site_progress[i].condition,
            None => site.condition,
        };
        let lost = 100 - condition;
        let penalty = if lost > 0 {
            lost / 4
        } else {
            0
        };
        let count = self.external_cargo_count(data, None);
        assert(count <= 2_000_000);
        assert(count * data.config.risk.external_cargo_risk_per_item <= 200_000_000) by (nonlinear_arith)
            requires
                0 <= count <= 2_000_000,
                0 <= data.config.risk.external_cargo_risk_per_item <= 100,
        ;
        let external = count * data.config.risk.external_cargo_risk_per_item;
        let danger = self.plan_danger(site.danger + penalty + external, e.site_id.as_str(), data, e.voyage_plan);
        Some(crate::engine::resolve_risk(e.seed, danger, &data.config.risk))
    }

    /// The contract objective a return that protects it spares: the target
    /// of the run's contract while it is still open or recovered.
    pub open spec fn protected_target(&self, data: GameData) -> Option<Seq<char>> {
        let site_id = self.expedition.unwrap().site_id@;
        if !self.contract_declined(site_id) && data.site_spec(site_id) is Some && data.site_spec(
            site_id,
        ).unwrap().contract_target is Some {
            let target = data.site_spec(site_id).unwrap().contract_target.unwrap()@;
            let state = self.objective_state_spec(site_id, target);
            if state == ContractObjectiveState::Open || state == ContractObjectiveState::Recovered {
                Some(target)
            } else {
                None
            }
        } else {
            None
        }
    }

    /// The condition a wreck is left in by one more visit: eighteen points
    /// less, never below zero; zero for a wreck the session does not track.
    pub open spec fn weathered_condition(&self, site_id: Seq<char>) -> i32 {
        match self.progress_spec(site_id) {
            Some(p) => if p.condition > 18 {
                (p.condition - 18) as i32
            } else {
                0
            },
            None => 0,
        }
    }

    /// `w` is this session after one more visit to `site_id`: the visit is
    /// counted and the wreck's condition is worn down; a wreck the session
    /// does not track leaves it as it is.
    pub open spec fn weathered_from(&self, w: GameSession, site_id: Seq<char>) -> bool {
        &&& w == (GameSession { site_progress: w.site_progress, ..*self })
        &&& self.progress_spec(site_id) is None ==> w == *self
        &&& self.progress_spec(site_id) is Some ==> {
            let i = self.progress_index(site_id);
            let p = self.site_progress@[i];
            w.site_progress@ == self.site_progress@.update(
                i,
                SiteProgress {
                    visits: (p.visits + 1) as u32,
                    condition: self.weathered_condition(site_id),
                    ..p
                },
            )
        }
    }

    /// The session's return burn reserve: the safe return buffer, never
    /// below zero.
    pub open spec fn return_fuel_spec(data: GameData) -> int {
        if data.config.safe_return_buffer > 0 {
            data.config.safe_return_buffer as int
        } else {
            0
        }
    }

    /// Why the run cannot close now, if it cannot.
    pub open spec fn packing_error(&self, data: GameData) -> Option<Seq<char>> {
        if self.pending_spec() > 0 {
            Some("leave or discard every unplaced object first"@)
        } else if self.economy.fuel < Self::return_fuel_spec(data) {
            Some(
                "the return burn requires "@ + decimal(Self::return_fuel_spec(data))
                    + " fuel after packing"@,
            )
        } else if self.expedition is None {
            Some("there is no active expedition"@)
        } else {
            None
        }
    }

    /// Leaves the wreck: the run's return risk is redrawn with its loads,
    /// and the run is taken off the session.
    fn begin_return(&mut self, data: &GameData) -> (r: (ExpeditionState, i32, Vec<CareerAward>))
        requires
            old(self).wf(),
            old(self).expedition is Some,
            data.wf(),
        ensures
            final(self).wf(),
            ({
                let e = old(self).expedition.unwrap();
                &&& r.0 == (ExpeditionState { risk: r.0.risk, ..e })
                &&& data.site_spec(e.site_id@) is Some ==> {
                    &&& r.0.risk.danger_score == clamp(old(self).preview_danger_spec(*data), 0, 100)
                    &&& r.0.risk.outcome == risk_outcome_spec(
                        e.seed,
                        r.0.risk.danger_score as int,
                        data.config.risk,
                    )
                }
                &&& data.site_spec(e.site_id@) is None ==> r.0.risk == e.risk
                &&& *final(self) == (GameSession {
                    expedition: None,
                    last_return_policy: e.return_policy,
                    ..*old(self)
                })
            }),
            r.1 == old(self).load_count_spec(*data, None, true),
            0 <= r.1 <= 2_000_000,
            r.2@ == old(self).career.awards_spec(),
    {
        let external_load = self.external_cargo_count(data, None);
        let awards_before = self.career.earned_awards();
        let preview = self.expedition_risk_preview(data);
        let mut expedition = match self.expedition.take() {
            Some(e) => e,
            None => {
                return (self.expedition.take().unwrap(), 0, awards_before);
            },
        };
        match preview {
            Some(risk) => {
                expedition.risk = risk;
            },
            None => {},
        }
        self.last_return_policy = expedition.return_policy;
        (expedition, external_load, awards_before)
    }

    /// Fatigue, wear and the setback of the return: a damaged module, a
    /// lost or abandoned load, or an emergency repair bill.
    fn return_consequences(
        &mut self,
        expedition: &mut ExpeditionState,
        data: &GameData,
        external_load: i32,
        protected: &Option<String>,
    ) -> (r: (String, i64))
        requires
            old(self).wf(),
            old(self).expedition is None,
            old(self).damaged_modules.len() < 1_000_000,
            0 <= external_load <= 2_000_000,
            data.wf(),
        ensures
            final(self).wf(),
            *final(expedition) == (ExpeditionState { cargo: final(expedition).cargo, ..*old(expedition) }),
            final(expedition).cargo@ == cargo_after_setback(
                old(expedition).cargo@,
                *data,
                old(expedition).return_policy,
                crate::workspace_records::opt_view(*protected),
                old(expedition).risk.outcome,
            ),
            final(self).crew_fatigue == clamp(
                old(self).fatigue_spec() + old(self).registered_fatigue_gain(
                    old(expedition).risk.outcome,
                    external_load as int,
                    old(expedition).power_cycles_used as int,
                ),
                0,
                crate::crew_readiness::MAX_CREW_FATIGUE as int,
            ),
            final(self).ship_wear == clamp(
                old(self).wear_spec() + crate::ship_wear::wear_gain_spec(
                    old(expedition).risk.outcome,
                    external_load as int,
                    old(expedition).power_cycles_used as int,
                    data.config.maintenance,
                ),
                0,
                crate::ship_wear::MAX_SHIP_WEAR as int,
            ),
            final(self).hull == if old(expedition).risk.outcome == RiskOutcome::DamagedModule {
                if old(self).hull - 1 < 1 {
                    1
                } else {
                    old(self).hull - 1
                }
            } else {
                old(self).hull as int
            },
            final(self).economy.fuel <= old(self).economy.fuel,
            final(self).economy.fuel >= 0 || final(self).economy.fuel == old(self).economy.fuel,
            final(self).economy == (crate::session::Economy {
                fuel: if old(expedition).risk.outcome == RiskOutcome::DamagedModule
                    && crate::workspace_ops::first_undamaged(
                    old(self).ship_layout.placements@,
                    views(old(self).damaged_modules@),
                ) >= 0 && old(self).economy.fuel > final(self).max_fuel_spec(*data) {
                    final(self).max_fuel_spec(*data) as i32
                } else {
                    old(self).economy.fuel
                },
                credits: if old(expedition).risk.outcome == RiskOutcome::EmergencyRepair {
                    if old(self).economy.credits - r.1 > 0 {
                        (old(self).economy.credits - r.1) as i64
                    } else {
                        0
                    }
                } else {
                    old(self).economy.credits
                },
                ..old(self).economy
            }),
            final(self).ship_layout.width == old(self).ship_layout.width,
            final(self).ship_layout.height == old(self).ship_layout.height,
            final(self).ship_layout.placements@ == grid_after_setback(
                old(self).ship_layout.placements@,
                old(expedition).cargo@,
                *data,
                old(expedition).return_policy,
                crate::workspace_records::opt_view(*protected),
                old(expedition).risk.outcome,
            ),
            views(final(self).damaged_modules@) == damage_after_setback(
                old(self).ship_layout.placements@,
                views(old(self).damaged_modules@),
                old(expedition).risk.outcome,
            ),
            old(expedition).risk.outcome != RiskOutcome::DamagedModule ==> final(self).damaged_modules
                == old(self).damaged_modules,
            0 <= r.1 <= 3000,
            r.1 == emergency_bill_spec(old(expedition).risk.outcome, *data),
            *final(self) == (GameSession {
                economy: final(self).economy,
                hull: final(self).hull,
                damaged_modules: final(self).damaged_modules,
                ship_layout: final(self).ship_layout,
                crew_fatigue: final(self).crew_fatigue,
                ship_wear: final(self).ship_wear,
                ..*old(self)
            }),
    {
        let outcome = expedition.risk.outcome;
        let return_policy = expedition.return_policy;
        let fatigue_gain = self.register_crew_fatigue(outcome, external_load, expedition.power_cycles_used);
        let wear_gain = self.register_ship_wear(
            outcome,
            external_load,
            expedition.power_cycles_used,
            &data.config.maintenance,
        );
        let mut message = expedition.risk.explanation.clone();
        if external_load > 0 {
            message.append(" External load added +");
            assert(external_load * data.config.risk.external_cargo_risk_per_item <= 200_000_000) by (nonlinear_arith)
                requires
                    0 <= external_load <= 2_000_000,
                    0 <= data.config.risk.external_cargo_risk_per_item <= 100,
            ;
            push_int(&mut message, (external_load * data.config.risk.external_cargo_risk_per_item) as i64);
            message.append(" risk.");
        }
        message.append(" Return policy: ");
        message.append(return_policy.label());
        message.append(".");
        message.append(" Crew fatigue +");
        push_int(&mut message, fatigue_gain as i64);
        message.append("; readiness ");
        push_int(&mut message, self.crew_readiness() as i64);
        message.append("%.");
        message.append(" Ship wear +");
        push_int(&mut message, wear_gain as i64);
        message.append("; systems ");
        push_int(&mut message, self.ship_wear() as i64);
        message.append("% worn.");
        let mut bill: i64 = 0;
        if outcome == RiskOutcome::DamagedModule {
            let note = self.apply_workspace_damage(data);
            message.append(note.as_str());
        } else if outcome == RiskOutcome::LostSalvage || outcome == RiskOutcome::ForcedAbandon {
            let target = match protected {
                Some(t) => Some(t.as_str()),
                None => None,
            };
            assert(crate::workspace_records::opt_str_view(target) == crate::workspace_records::opt_view(
                *protected,
            ));
            match select_casualty(&expedition.cargo, data, return_policy, target, outcome) {
                Some(k) => {
                    proof {
                        assert forall|j: int|
                            casualty_spec(
                                old(expedition).cargo@,
                                *data,
                                return_policy,
                                crate::workspace_records::opt_view(*protected),
                                outcome,
                                j,
                            ) implies j == k as int by {
                            lemma_casualty_unique(
                                old(expedition).cargo@,
                                *data,
                                return_policy,
                                crate::workspace_records::opt_view(*protected),
                                outcome,
                                j,
                                k as int,
                            );
                        }
                    }
                    let key = cargo_layout_id(expedition.cargo[k].object_id.as_str());
                    let ghost before = self.ship_layout;
                    self.ship_layout.remove(key.as_str());
                    proof {
                        crate::port::lemma_remove_keeps_wf(before, self.ship_layout, key@);
                    }
                    let lost_id = expedition.cargo[k].object_id.clone();
                    expedition.cargo[k].position = None;
                    if outcome == RiskOutcome::LostSalvage {
                        expedition.cargo[k].status = CargoStatus::Lost;
                        message.append(" Lost ");
                    } else {
                        expedition.cargo[k].status = CargoStatus::LeftBehind;
                        message.append(" Abandoned ");
                    }
                    message.append(lost_id.as_str());
                    message.append(".");
                    proof {
                        assert(expedition.cargo@ =~= old(expedition).cargo@.update(
                            k as int,
                            CargoItem {
                                status: if outcome == RiskOutcome::LostSalvage {
                                    CargoStatus::Lost
                                } else {
                                    CargoStatus::LeftBehind
                                },
                                position: None,
                                ..old(expedition).cargo@[k as int]
                            },
                        ));
                    }
                },
                None => {},
            }
        } else if outcome == RiskOutcome::EmergencyRepair {
            let base = (data.config.repair_price_per_hull as i64) * 3;
            bill = if base > 60 {
                base
            } else {
                60
            };
            self.economy.credits = if self.economy.credits - bill > 0 {
                self.economy.credits - bill
            } else {
                0
            };
            message.append(" Emergency bill: ");
            push_int(&mut message, bill);
            message.append(" credits.");
        }
        (message, bill)
    }

    /// The market value of the first load the return cost, if any.
    fn impacted_value(&self, cargo: &Vec<CargoItem>, data: &GameData) -> (r: i64)
        requires
            data.wf(),
        ensures
            0 <= r <= 10_000_000_000,
            r == impacted_spec(cargo@, *data, self.market_cycle),
    {
        let mut c: usize = 0;
        while c < cargo.len()
            invariant
                c <= cargo.len(),
                data.wf(),
                first_lost(cargo@.take(c as int)) == -1,
            decreases cargo.len() - c,
        {
            proof {
                assert(cargo@.take(c + 1).drop_last() =~= cargo@.take(c as int));
                assert(cargo@.take(c + 1).last() == cargo@[c as int]);
            }
            let status = cargo[c].status;
            if status == CargoStatus::Lost || status == CargoStatus::LeftBehind {
                proof {
                    lemma_first_lost_prefix(cargo@, c + 1);
                }
                return match data.object(cargo[c].object_id.as_str()) {
                    Some(o) => crate::engine::quote_for(o, self.market_cycle, &data.config.market).sale_value,
                    None => 0,
                };
            }
            c = c + 1;
        }
        proof {
            assert(cargo@.take(cargo.len() as int) =~= cargo@);
        }
        0
    }

    /// Packed loads with a spot in the grid, waiting at port.
    fn returned_loads(&self, cargo: &Vec<CargoItem>) -> (r: Vec<ReturnedItem>)
        ensures
            r@ == returned_spec(cargo@, self.market_cycle),
            r.len() <= cargo.len(),
    {
        let mut returned: Vec<ReturnedItem> = Vec::new();
        let mut k: usize = 0;
        while k < cargo.len()
            invariant
                k <= cargo.len(),
                returned@ == returned_spec(cargo@.take(k as int), self.market_cycle),
            decreases cargo.len() - k,
        {
            proof {
                assert(cargo@.take(k + 1).drop_last() =~= cargo@.take(k as int));
                assert(cargo@.take(k + 1).last() == cargo@[k as int]);
            }
            let item = &cargo[k];
            if item.status == CargoStatus::Packed {
                match item.position {
                    Some(pos) => {
                        returned.push(
                            ReturnedItem {
                                object_id: item.object_id.clone(),
                                position: pos,
                                rotation: item.rotation,
                                market_cycle: self.market_cycle,
                            },
                        );
                    },
                    None => {},
                }
            }
            k = k + 1;
        }
        proof {
            assert(cargo@.take(cargo.len() as int) =~= cargo@);
            lemma_returned_len(cargo@, self.market_cycle);
        }
        returned
    }

    /// Counts one more visit to a wreck and takes eighteen points off its
    /// condition; returns the condition left.
    fn weather_site(&mut self, site_id: &str) -> (r: i32)
        requires
            old(self).wf(),
            forall|i: int|
                0 <= i < old(self).site_progress.len() ==> (#[trigger] old(self).site_progress@[i]).visits < u32::MAX,
        ensures
            final(self).wf(),
            old(self).progress_spec(site_id@) is None ==> *final(self) == *old(self) && r == 0,
            old(self).progress_spec(site_id@) is Some ==> {
                let i = old(self).progress_index(site_id@);
                let p = old(self).site_progress@[i];
                &&& 0 <= i < old(self).site_progress.len()
                &&& final(self).site_progress@ == old(self).site_progress@.update(
                    i,
                    SiteProgress {
                        visits: (p.visits + 1) as u32,
                        condition: r,
                        ..p
                    },
                )
                &&& r == if p.condition > 18 {
                    p.condition - 18
                } else {
                    0
                }
            },
            *final(self) == (GameSession { site_progress: final(self).site_progress, ..*old(self) }),
            old(self).weathered_from(*final(self), site_id@),
            r == old(self).weathered_condition(site_id@),
    {
        match self.progress_slot(site_id) {
            Some(i) => {
                assert(self.site_progress@[i as int].visits < u32::MAX);
                let visits = self.site_progress[i].visits;
                self.site_progress[i].visits = visits + 1;
                let cond = self.site_progress[i].condition;
                let next = if cond > 18 {
                    cond - 18
                } else {
                    0
                };
                self.site_progress[i].condition = next;
                proof {
                    assert(self.site_progress@ =~= old(self).site_progress@.update(
                        i as int,
                        SiteProgress {
                            visits: (old(self).site_progress@[i as int].visits + 1) as u32,
                            condition: next,
                            ..old(self).site_progress@[i as int]
                        },
                    ));
                }
                next
            },
            None => 0,
        }
    }

    /// The debrief after a run: a space, the crew's experience report for
    /// the experience gained since `experience_before`, and, when the
    /// dossier now holds commendations that `awards_before` lacked, their
    /// labels joined by commas after " Commendation filed: ", closed by a
    /// full stop.
    pub open spec fn debrief_spec(
        &self,
        experience_before: u16,
        expertise_before: u8,
        awards_before: Seq<CareerAward>,
    ) -> Seq<char> {
        let gain = if self.experience_spec() > experience_before {
            self.experience_spec() - experience_before
        } else {
            0
        };
        let labels = new_award_labels(self.career.awards_spec(), awards_before);
        " "@ + self.experience_report_spec(gain as u16, expertise_before) + if labels.len() > 0 {
            " Commendation filed: "@ + crate::text::joined(labels, ", "@) + "."@
        } else {
            Seq::<char>::empty()
        }
    }

    /// The debrief of the crew's experience and any new commendations.
    fn debrief(&self, experience_before: u16, expertise_before: u8, awards_before: &Vec<CareerAward>) -> (r:
        String)
        ensures
            r@ == self.debrief_spec(experience_before, expertise_before, awards_before@),
    {
        let experience_after = self.crew_experience();
        let gain: u16 = if experience_after > experience_before {
            experience_after - experience_before
        } else {
            0
        };
        let mut message = " ".to_owned();
        let report = self.crew_experience_report(gain, expertise_before);
        message.append(report.as_str());
        let awards_after = self.career.earned_awards();
        let mut labels: Vec<String> = Vec::new();
        let mut a: usize = 0;
        while a < awards_after.len()
            invariant
                a <= awards_after.len(),
                views(labels@) == new_award_labels(awards_after@.take(a as int), awards_before@),
            decreases awards_after.len() - a,
        {
            let award = awards_after[a];
            let mut seen = false;
            let mut b: usize = 0;
            while b < awards_before.len()
                invariant
                    b <= awards_before.len(),
                    seen == awards_before@.take(b as int).contains(award),
                decreases awards_before.len() - b,
            {
                proof {
                    assert(awards_before@.take(b + 1) =~= awards_before@.take(b as int).push(
                        awards_before@[b as int],
                    ));
                    crate::validation::lemma_contains_push(
                        awards_before@.take(b as int),
                        awards_before@[b as int],
                        award,
                    );
                }
                if awards_before[b] == award {
                    seen = true;
                }
                b = b + 1;
            }
            proof {
                assert(awards_before@.take(awards_before.len() as int) =~= awards_before@);
                assert(awards_after@.take(a + 1).drop_last() =~= awards_after@.take(a as int));
                assert(awards_after@.take(a + 1).last() == award);
            }
            if !seen {
                let ghost before = labels@;
                labels.push(award.label().to_owned());
                proof {
                    assert(views(labels@) =~= views(before).push(award.label_spec()));
                }
            }
            a = a + 1;
        }
        proof {
            assert(awards_after@.take(awards_after.len() as int) =~= awards_after@);
        }
        if labels.len() > 0 {
            let joined_labels = crate::text::join(&labels, ", ");
            message.append(" Commendation filed: ");
            message.append(joined_labels.as_str());
            message.append(".");
        }
        message
    }

    /// Closes the run and sails home: the return risk is drawn, crew fatigue
    /// and ship wear grow, a setback strikes the ship or the cargo, coverage
    /// pays its claim, the contract and any section bounties are settled,
    /// packed cargo waits at port, the voyage is filed, and the return burn
    /// is paid.
    #[verifier::rlimit(100)]
    #[verifier::spinoff_prover]
    pub fn finish_packing(&mut self, data: &GameData) -> (r: Result<String, String>)
        requires
            old(self).wf(),
            old(self).log_room(1001),
            old(self).economy.credits <= WALLET - 2_000_000_000_000,
            old(self).damaged_modules.len() < 1_000_000,
            forall|i: int|
                0 <= i < old(self).site_progress.len() ==> (#[trigger] old(self).site_progress@[i]).visits < u32::MAX,
            data.wf(),
        ensures
            final(self).wf(),
            old(self).packing_error(*data) is Some ==> *final(self) == *old(self) && err_msg(
                r,
                old(self).packing_error(*data).unwrap(),
            ),
            old(self).packing_error(*data) is None ==> {
                let e = old(self).expedition.unwrap();
                let rf = Self::return_fuel_spec(*data);
                let risk = final(self).last_risk.unwrap();
                let load = old(self).load_count_spec(*data, None, true);
                let record = final(self).voyage_log@.last();
                let totals = crate::ledger::haul_totals(final(self).returned@, *data);
                let cargo = cargo_after_setback(
                    e.cargo@,
                    *data,
                    e.return_policy,
                    old(self).protected_target(*data),
                    risk.outcome,
                );
                &&& r is Ok
                &&& exists|head: Seq<char>|
                    r->Ok_0@ == head + " Return burn: "@ + decimal(rf) + " fuel. "@ + decimal(
                        final(self).economy.fuel as int,
                    ) + " fuel remains."@
                &&& final(self).expedition is None
                &&& final(self).economy.fuel == (if risk.outcome == RiskOutcome::DamagedModule
                    && crate::workspace_ops::first_undamaged(
                    old(self).ship_layout.placements@,
                    views(old(self).damaged_modules@),
                ) >= 0 && old(self).economy.fuel > final(self).max_fuel_spec(*data) {
                    final(self).max_fuel_spec(*data)
                } else {
                    old(self).economy.fuel as int
                }) - rf
                &&& final(self).economy.alloy == old(self).economy.alloy
                &&& final(self).economy.electronics == old(self).economy.electronics
                &&& final(self).ship_layout.width == old(self).ship_layout.width
                &&& final(self).ship_layout.height == old(self).ship_layout.height
                &&& final(self).ship_layout.placements@ == grid_after_setback(
                    old(self).ship_layout.placements@,
                    e.cargo@,
                    *data,
                    e.return_policy,
                    old(self).protected_target(*data),
                    risk.outcome,
                )
                &&& views(final(self).damaged_modules@) == damage_after_setback(
                    old(self).ship_layout.placements@,
                    views(old(self).damaged_modules@),
                    risk.outcome,
                )
                &&& final(self).market_cycle == if old(self).market_cycle == u32::MAX {
                    0
                } else {
                    (old(self).market_cycle + 1) as u32
                }
                &&& final(self).last_return_policy == e.return_policy
                &&& final(self).last_risk is Some
                &&& data.site_spec(e.site_id@) is Some ==> {
                    &&& exists|w: GameSession|
                        old(self).weathered_from(w, e.site_id@) && risk.danger_score == clamp(
                            #[trigger] w.preview_danger_spec(*data),
                            0,
                            100,
                        )
                    &&& risk.outcome == risk_outcome_spec(e.seed, risk.danger_score as int, data.config.risk)
                }
                &&& data.site_spec(e.site_id@) is None ==> risk == e.risk
                &&& final(self).crew_fatigue == clamp(
                    old(self).fatigue_spec() + old(self).registered_fatigue_gain(
                        risk.outcome,
                        load,
                        e.power_cycles_used as int,
                    ),
                    0,
                    crate::crew_readiness::MAX_CREW_FATIGUE as int,
                )
                &&& final(self).ship_wear == clamp(
                    old(self).wear_spec() + crate::ship_wear::wear_gain_spec(
                        risk.outcome,
                        load,
                        e.power_cycles_used as int,
                        data.config.maintenance,
                    ),
                    0,
                    crate::ship_wear::MAX_SHIP_WEAR as int,
                )
                &&& final(self).hull == if risk.outcome == RiskOutcome::DamagedModule {
                    if old(self).hull - 1 < 1 {
                        1
                    } else {
                        old(self).hull - 1
                    }
                } else {
                    old(self).hull as int
                }
                &&& final(self).returned@ == returned_spec(cargo, old(self).market_cycle)
                &&& final(self).economy.credits == (if risk.outcome == RiskOutcome::EmergencyRepair {
                    if old(self).economy.credits - emergency_bill_spec(risk.outcome, *data) > 0 {
                        old(self).economy.credits - emergency_bill_spec(risk.outcome, *data)
                    } else {
                        0
                    }
                } else {
                    old(self).economy.credits as int
                }) + record.insurance_payout + crate::contracts::contract_pay_spec(
                    *old(self),
                    e.site_id@,
                    cargo,
                    *data,
                    e.contract_accepted,
                ) + crate::section_clearance::clearance_pay_spec(*old(self), e.site_id@, *data)
                &&& final(self).voyage_log@.len() == old(self).voyage_log@.len() + 1
                &&& final(self).voyage_log@.drop_last() == old(self).voyage_log@
                &&& record.site_id@ == e.site_id@
                &&& record.risk_outcome == risk.outcome
                &&& record.danger_score == risk.danger_score
                &&& record.voyage_plan == e.voyage_plan
                &&& record.return_policy == e.return_policy
                &&& record.scan_profile == e.scan_profile
                &&& record.drone_directive == e.drone_directive
                &&& record.insured == e.insured
                &&& record.contract_accepted == e.contract_accepted
                &&& record.market_cycle == old(self).market_cycle
                &&& record.return_fuel == rf
                &&& record.condition_after == old(self).weathered_condition(e.site_id@)
                &&& record.external_load == load
                &&& record.recovered_count == totals.0
                &&& record.recovered_value == totals.1
                &&& record.recovered_alloy == totals.2
                &&& record.recovered_electronics == totals.3
                &&& record.clearance_payout == crate::section_clearance::clearance_pay_spec(
                    *old(self),
                    e.site_id@,
                    *data,
                )
                &&& record.insurance_payout == if e.insured {
                    claim_payout_spec(
                        risk.outcome,
                        impacted_spec(cargo, *data, old(self).market_cycle),
                        emergency_bill_spec(risk.outcome, *data),
                        data.config.insurance,
                    )
                } else {
                    0
                }
            },
    {
        if self.pending_count() > 0 {
            return Err("leave or discard every unplaced object first".to_owned());
        }
        let return_fuel: i32 = if data.config.safe_return_buffer > 0 {
            data.config.safe_return_buffer
        } else {
            0
        };
        if self.economy.fuel < return_fuel {
            let mut e = "the return burn requires ".to_owned();
            push_int(&mut e, return_fuel as i64);
            e.append(" fuel after packing");
            return Err(e);
        }
        if self.expedition.is_none() {
            return Err("there is no active expedition".to_owned());
        }
        let protected: Option<String> = match &self.expedition {
            Some(e) => match self.contract_objective_status(e.site_id.as_str(), data) {
                Some(status) => if status.state == ContractObjectiveState::Open || status.state
                    == ContractObjectiveState::Recovered {
                    Some(status.target_id)
                } else {
                    None
                },
                None => None,
            },
            None => None,
        };
        assert(crate::workspace_records::opt_view(protected) == old(self).protected_target(*data));
        let site_key = match &self.expedition {
            Some(e) => e.site_id.clone(),
            None => String::new(),
        };
        let condition_after = self.weather_site(site_key.as_str());
        let ghost s0 = *self;
        let (mut expedition, external_load, awards_before) = self.begin_return(data);
        let ghost s1 = *self;
        let ghost e1 = expedition;
        assert(data.site_spec(e1.site_id@) is Some ==> old(self).weathered_from(s0, e1.site_id@)
            && e1.risk.danger_score == clamp(s0.preview_danger_spec(*data), 0, 100));
        let insured = expedition.insured;
        let premium: i64 = if insured {
            match self.insurance_quote_with_plan(expedition.site_id.as_str(), data, expedition.voyage_plan) {
                Some(q) => q.premium,
                None => 0,
            }
        } else {
            0
        };
        let level = self.reconnaissance_level(expedition.site_id.as_str());
        let (mut message, bill) = self.return_consequences(&mut expedition, data, external_load, &protected);
        let ghost s2 = *self;
        let impacted = self.impacted_value(&expedition.cargo, data);
        let payout: i64 = if insured {
            crate::engine::claim_payout(expedition.risk.outcome, impacted, bill, &data.config.insurance)
        } else {
            0
        };
        if payout > 0 {
            self.economy.credits = self.economy.credits + payout;
            self.career.record_insurance_claim(payout);
            message.append(" Insurance claim: +");
            push_int(&mut message, payout);
            message.append(" credits.");
        }
        let ghost s3 = *self;
        let closing = self.complete_site_contract_for_run(
            expedition.site_id.as_str(),
            &expedition.cargo,
            data,
            expedition.contract_accepted,
        );
        let ghost closing_v = closing;
        match closing {
            Some(m) => message.append(m.as_str()),
            None => if !expedition.contract_accepted {
                message.append(" Private haul; client contract declined. Contract standing held.");
            },
        }
        let ghost s4 = *self;
        self.returned = self.returned_loads(&expedition.cargo);
        let ghost s5 = *self;
        proof {
            lemma_return_pays_as_before(
                *old(self),
                s0,
                s3,
                s4,
                s5,
                e1.site_id@,
                expedition.cargo@,
                *data,
                e1.contract_accepted,
                closing_v,
            );
        }
        let clearance = self.resolve_section_clearance(expedition.site_id.as_str(), data);
        let clearance_note = clearance.message(data);
        message.append(clearance_note.as_str());
        let (contract_completed, contract_failed) = if expedition.contract_accepted {
            match self.progress(expedition.site_id.as_str()) {
                Some(p) => (p.contract_completed, p.contract_failed),
                None => (false, false),
            }
        } else {
            (false, false)
        };
        let experience_before = self.crew_experience();
        let expertise_before = self.crew_expertise_level();
        let ghost s6 = *self;
        self.record_voyage(
            expedition.site_id.as_str(),
            &expedition.risk,
            expedition.voyage_plan,
            expedition.return_policy,
            level,
            external_load,
            contract_completed,
            contract_failed,
            expedition.contract_accepted,
            expedition.scan_profile,
            expedition.drone_directive,
            condition_after,
            return_fuel,
            clearance.section_ids.as_slice(),
            clearance.payout,
            insured,
            premium,
            payout,
            data,
        );
        let debrief = self.debrief(experience_before, expertise_before, &awards_before);
        message.append(debrief.as_str());
        self.economy.fuel = self.economy.fuel - return_fuel;
        self.last_risk = Some(expedition.risk);
        self.market_cycle = if self.market_cycle == u32::MAX {
            0
        } else {
            self.market_cycle + 1
        };
        let ghost head = message@;
        message.append(" Return burn: ");
        push_int(&mut message, return_fuel as i64);
        message.append(" fuel. ");
        push_int(&mut message, self.economy.fuel as i64);
        message.append(" fuel remains.");
        proof {
            assert(message@ =~= head + " Return burn: "@ + decimal(return_fuel as int) + " fuel. "@ + decimal(
                self.economy.fuel as int,
            ) + " fuel remains."@);
        }
        Ok(message)
    }
}

} // verus!
