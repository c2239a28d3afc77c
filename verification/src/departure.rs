//! Departures: the outbound burn, optional coverage, the seeded return risk
//! and the salvage manifest of a new run.

use crate::data::{GameData, SiteData};
use crate::drone_directive::DroneDirective;
use crate::engine::{clamp, outcome_text, risk_outcome_spec, salvage_spec, VoyagePlan};
use crate::return_policy::ReturnPolicy;
use crate::scan_profile::WorkspaceScanProfile;
use crate::session::{logged, CargoItem, CargoStatus, Economy, ExpeditionState, GameSession};
use crate::text::{decimal, err_msg, ok_msg, push_int, views};
use crate::workspace_records::WorkspaceLogEvent;
use vstd::prelude::*;

verus! {

/// A manifest of the given objects, all waiting to be packed.
pub open spec fn pending_manifest(cargo: Seq<CargoItem>, ids: Seq<Seq<char>>) -> bool {
    &&& cargo.len() == ids.len()
    &&& forall|k: int|
        0 <= k < ids.len() ==> (#[trigger] cargo[k]).object_id@ == ids[k] && cargo[k].status
            == CargoStatus::Pending && cargo[k].position is None && cargo[k].rotation == 0
}

fn manifest_of(ids: &Vec<String>) -> (r: Vec<CargoItem>)
    ensures
        pending_manifest(r@, views(ids@)),
{
    let mut out: Vec<CargoItem> = Vec::new();
    let mut i: usize = 0;
    while i < ids.len()
        invariant
            i <= ids.len(),
            pending_manifest(out@, views(ids@).take(i as int)),
        decreases ids.len() - i,
    {
        out.push(
            CargoItem {
                object_id: ids[i].clone(),
                status: CargoStatus::Pending,
                position: None,
                rotation: 0,
            },
        );
        i = i + 1;
    }
    proof {
        assert(views(ids@).take(ids.len() as int) =~= views(ids@));
    }
    out
}

pub open spec fn departure_text(
    display: Seq<char>,
    fuel: int,
    count: int,
    premium: int,
    level: int,
    plan: VoyagePlan,
    role: crate::crew::CrewRole,
    accepted: bool,
) -> Seq<char> {
    "Travelled to "@ + display + " for "@ + decimal(fuel) + " fuel. Manifest: "@ + decimal(count)
        + " target(s) remain."@ + (if premium > 0 {
        " Coverage secured for "@ + decimal(premium) + " credits."@
    } else {
        Seq::empty()
    }) + (if level == 0 {
        Seq::<char>::empty()
    } else {
        " Route intel level "@ + decimal(level) + " reduced departure danger."@
    }) + " Operating plan: "@ + plan.label_spec() + ". Crew: "@ + role.label_spec() + " // "@
        + role.description_spec() + "."@ + (if accepted {
        Seq::<char>::empty()
    } else {
        " Private haul; client contract declined."@
    })
}

fn departure_report(
    display: &String,
    fuel: i32,
    count: usize,
    premium: i64,
    level: u8,
    plan: VoyagePlan,
    role: crate::crew::CrewRole,
    accepted: bool,
) -> (r: String)
    ensures
        r@ == departure_text(
            display@,
            fuel as int,
            count as int,
            premium as int,
            level as int,
            plan,
            role,
            accepted,
        ),
{
    let mut msg = "Travelled to ".to_owned();
    msg.append(display.as_str());
    msg.append(" for ");
    push_int(&mut msg, fuel as i64);
    msg.append(" fuel. Manifest: ");
    crate::text::push_digits(&mut msg, count as u64);
    msg.append(" target(s) remain.");
    if premium > 0 {
        msg.append(" Coverage secured for ");
        push_int(&mut msg, premium);
        msg.append(" credits.");
    }
    if level != 0 {
        msg.append(" Route intel level ");
        push_int(&mut msg, level as i64);
        msg.append(" reduced departure danger.");
    }
    msg.append(" Operating plan: ");
    msg.append(plan.label());
    msg.append(". Crew: ");
    msg.append(role.label());
    msg.append(" // ");
    msg.append(role.description());
    msg.append(".");
    if !accepted {
        msg.append(" Private haul; client contract declined.");
    }
    msg
}

impl GameSession {
    /// Condition of a wreck as the session remembers it.
    pub open spec fn site_condition_spec(&self, site: SiteData) -> int {
        match self.progress_spec(site.id@) {
            Some(p) => p.condition as int,
            None => site.condition as int,
        }
    }

    /// Targets the session has taken from a wreck.
    pub open spec fn removed_spec(&self, site_id: Seq<char>) -> Seq<Seq<char>> {
        match self.progress_spec(site_id) {
            Some(p) => views(p.removed_targets@),
            None => Seq::empty(),
        }
    }

    /// Departure danger: the authored danger plus a quarter of the wreck's
    /// lost condition, adjusted for the route, plan, crew and wear.
    pub open spec fn departure_danger_spec(&self, site: SiteData, data: GameData, plan: VoyagePlan) -> int {
        let lost = 100 - self.site_condition_spec(site);
        let penalty = if lost > 0 {
            lost / 4
        } else {
            0
        };
        self.plan_danger_spec(site.danger + penalty, site.id@, data, plan)
    }

    pub open spec fn premium_spec(&self, site_id: Seq<char>, data: GameData, plan: VoyagePlan, insured: bool) -> int {
        if insured {
            self.insurance_spec(site_id, data, plan).unwrap().premium as int
        } else {
            0
        }
    }

    /// Why a departure is refused, if it is.
    pub open spec fn departure_error(
        &self,
        site_id: Seq<char>,
        data: GameData,
        insured: bool,
        plan: VoyagePlan,
    ) -> Option<Seq<char>> {
        if data.site_spec(site_id) is None {
            Some("unknown salvage site '"@ + site_id + "'"@)
        } else if self.depleted_spec(site_id, data) {
            Some(data.salvage_ui.depleted_departure@)
        } else if !self.can_depart_spec(site_id, data, plan) {
            Some("you need enough fuel for the trip and a safe return"@)
        } else if insured && self.economy.credits < self.insurance_spec(
            site_id,
            data,
            plan,
        ).unwrap().premium {
            Some(
                "insurance requires "@ + decimal(
                    self.insurance_spec(site_id, data, plan).unwrap().premium as int,
                ) + " credits before departure"@,
            )
        } else {
            None
        }
    }

    /// The report of a departure.
    pub open spec fn departure_message(
        &self,
        site: SiteData,
        data: GameData,
        insured: bool,
        plan: VoyagePlan,
        accepted: bool,
    ) -> Seq<char> {
        departure_text(
            site.display_name@,
            self.fuel_cost_spec(site.id@, data, plan).unwrap(),
            salvage_spec(site, self.removed_spec(site.id@)).len() as int,
            self.premium_spec(site.id@, data, plan, insured),
            self.intel_level_spec(site.id@) as int,
            plan,
            self.crew_role,
            accepted,
        )
    }

    /// What a departure does: fuel and any premium are paid, the seed
    /// advances, and the run starts at the wreck's first section with a full
    /// power reserve, the seeded return risk, and a manifest of the salvage
    /// the wreck still holds.
    pub open spec fn departed(
        old: GameSession,
        new: GameSession,
        site_id: Seq<char>,
        data: GameData,
        insured: bool,
        plan: VoyagePlan,
        accepted: bool,
    ) -> bool {
        let site = data.site_spec(site_id).unwrap();
        let stats = old.stats_spec(data);
        let capacity = (if stats.power > 1 {
            stats.power as int
        } else {
            1
        }) * 6;
        let e = new.expedition.unwrap();
        &&& new.expedition is Some
        &&& new.economy == (Economy {
            fuel: (old.economy.fuel - old.fuel_cost_spec(site_id, data, plan).unwrap()) as i32,
            credits: (old.economy.credits - old.premium_spec(site_id, data, plan, insured)) as i64,
            ..old.economy
        })
        &&& new.seed == if old.seed == u64::MAX {
            0
        } else {
            (old.seed + 1) as u64
        }
        &&& e.site_id@ == site_id
        &&& pending_manifest(e.cargo@, salvage_spec(site, old.removed_spec(site_id)))
        &&& e.workspace_transfer is None
        &&& e.risk.danger_score == clamp(old.departure_danger_spec(site, data, plan), 0, 100)
        &&& e.risk.outcome == risk_outcome_spec(
            old.seed,
            e.risk.danger_score as int,
            data.config.risk,
        )
        &&& e.risk.explanation@ == outcome_text(e.risk.outcome)
        &&& e.seed == old.seed
        &&& e.workspace_section@ == if site.sections.len() > 0 {
            site.sections@[0].id@
        } else {
            Seq::<char>::empty()
        }
        &&& !e.workspace_scanned
        &&& e.revealed_targets@.len() == 0
        &&& e.stabilized_targets@.len() == 0
        &&& e.scan_profile == WorkspaceScanProfile::from_capability_spec(
            old.capability_spec("scanner_array"@, data),
        )
        &&& !e.drones_deployed
        &&& e.drone_directive == DroneDirective::PullSupport
        &&& e.workspace_energy == capacity
        &&& e.workspace_energy_capacity == capacity
        &&& e.power_cycles_used == 0
        &&& e.insured == insured
        &&& e.contract_accepted == accepted
        &&& e.voyage_plan == plan
        &&& e.return_policy == ReturnPolicy::Standard
        &&& logged(
            old,
            new.site_progress@,
            site_id,
            WorkspaceLogEvent::Departed,
            Some(e.workspace_section@),
            None,
        )
        &&& new.selected_site is Some && new.selected_site.unwrap()@ == site_id
        &&& new == (GameSession {
            economy: new.economy,
            seed: new.seed,
            expedition: new.expedition,
            site_progress: new.site_progress,
            selected_site: new.selected_site,
            ..old
        })
    }

    /// Departs for a wreck with the chosen coverage, plan and contract.
    #[verifier::rlimit(40)]
    pub fn begin_expedition_with_plan_and_contract(
        &mut self,
        site_id: &str,
        data: &GameData,
        insured: bool,
        plan: VoyagePlan,
        contract_accepted: bool,
    ) -> (r: Result<String, String>)
        requires
            old(self).wf(),
            old(self).log_room(1),
            data.wf(),
        ensures
            final(self).wf(),
            match old(self).departure_error(site_id@, *data, insured, plan) {
                Some(m) => *final(self) == *old(self) && err_msg(r, m),
                None => Self::departed(
                    *old(self),
                    *final(self),
                    site_id@,
                    *data,
                    insured,
                    plan,
                    contract_accepted,
                ) && ok_msg(
                    r,
                    old(self).departure_message(
                        data.site_spec(site_id@).unwrap(),
                        *data,
                        insured,
                        plan,
                        contract_accepted,
                    ),
                ),
            },
    {
        let site = match data.site(site_id) {
            Some(s) => s,
            None => {
                let mut e = "unknown salvage site '".to_owned();
                e.append(site_id);
                e.append("'");
                return Err(e);
            },
        };
        if self.wreck_depleted(site_id, data) {
            return Err(data.salvage_ui.depleted_departure.clone());
        }
        if !self.can_depart_with_plan(site_id, data, plan) {
            return Err("you need enough fuel for the trip and a safe return".to_owned());
        }
        let premium: i64 = if insured {
            let quote = match self.insurance_quote_with_plan(site_id, data, plan) {
                Some(q) => q,
                None => {
                    return Err("that wreck cannot be insured".to_owned());
                },
            };
            if self.economy.credits < quote.premium {
                let mut e = "insurance requires ".to_owned();
                push_int(&mut e, quote.premium);
                e.append(" credits before departure");
                return Err(e);
            }
            quote.premium
        } else {
            0
        };
        let fuel = match self.effective_fuel_cost_with_plan(site_id, data, plan) {
            Some(c) => c,
            None => site.fuel_cost,
        };
        let level = self.reconnaissance_level(site_id);
        let stats = self.module_stats(data);
        let profile = WorkspaceScanProfile::from_capability(self.has_capability("scanner_array", data));
        let capacity: i32 = (if stats.power > 1 {
            stats.power
        } else {
            1
        }) * 6;
        let slot = self.progress_slot(site_id);
        let condition = match slot {
            Some(i) => self.site_progress[i].condition,
            None => site.condition,
        };
        let removed = match slot {
            Some(i) => crate::text::copy_ids(&self.site_progress[i].removed_targets),
            None => Vec::new(),
        };
        proof {
            assert(views(removed@) == self.removed_spec(site_id@));
        }
        let lost = 100 - condition;
        let penalty = if lost > 0 {
            lost / 4
        } else {
            0
        };
        let danger = self.plan_danger(site.danger + penalty, site_id, data, plan);
        let seed = self.seed;
        let risk = crate::engine::resolve_risk(seed, danger, &data.config.risk);
        let salvage = crate::engine::generate_salvage(site, &removed);
        let manifest = manifest_of(&salvage);
        let first_section = if site.sections.len() > 0 {
            site.sections[0].id.clone()
        } else {
            String::new()
        };
        let salvage_count = salvage.len();
        let ghost before = *self;
        self.economy.fuel = self.economy.fuel - fuel;
        self.economy.credits = self.economy.credits - premium;
        self.seed = if self.seed == u64::MAX {
            0
        } else {
            self.seed + 1
        };
        self.expedition = Some(
            ExpeditionState {
                site_id: site_id.to_owned(),
                cargo: manifest,
                workspace_transfer: None,
                risk,
                seed,
                workspace_section: first_section.clone(),
                workspace_scanned: false,
                revealed_targets: Vec::new(),
                stabilized_targets: Vec::new(),
                scan_profile: profile,
                drones_deployed: false,
                drone_directive: DroneDirective::default_directive(),
                workspace_energy: capacity,
                workspace_energy_capacity: capacity,
                power_cycles_used: 0,
                insured,
                contract_accepted,
                voyage_plan: plan,
                return_policy: ReturnPolicy::Standard,
            },
        );
        let ghost mid = *self;
        self.append_workspace_log(
            site_id,
            WorkspaceLogEvent::Departed,
            Some(first_section.as_str()),
            None,
        );
        proof {
            assert(mid.progress_spec(site_id@) == old(self).progress_spec(site_id@));
            assert(mid.progress_index(site_id@) == old(self).progress_index(site_id@));
        }
        self.selected_site = Some(site_id.to_owned());
        let msg = departure_report(
            &site.display_name,
            fuel,
            salvage_count,
            premium,
            level,
            plan,
            self.crew_role,
            contract_accepted,
        );
        proof {
            let site_v = data.site_spec(site_id@).unwrap();
            assert(site_v == *site);
            assert(old(self).departure_error(site_id@, *data, insured, plan) is None);
            assert(fuel == old(self).fuel_cost_spec(site_id@, *data, plan).unwrap());
            assert(premium == old(self).premium_spec(site_id@, *data, plan, insured));
            assert(condition == old(self).site_condition_spec(site_v));
            assert(danger == old(self).departure_danger_spec(site_v, *data, plan));
            assert(msg@ == old(self).departure_message(site_v, *data, insured, plan, contract_accepted));
            assert(Self::departed(*old(self), *self, site_id@, *data, insured, plan, contract_accepted));
        }
        Ok(msg)
    }

    /// Departs for a wreck on a standard plan under contract, without
    /// coverage.
    pub fn begin_expedition(&mut self, site_id: &str, data: &GameData) -> (r: Result<String, String>)
        requires
            old(self).wf(),
            old(self).log_room(1),
            data.wf(),
        ensures
            final(self).wf(),
            match old(self).departure_error(site_id@, *data, false, VoyagePlan::Standard) {
                Some(m) => *final(self) == *old(self) && err_msg(r, m),
                None => Self::departed(
                    *old(self),
                    *final(self),
                    site_id@,
                    *data,
                    false,
                    VoyagePlan::Standard,
                    true,
                ) && ok_msg(
                    r,
                    old(self).departure_message(
                        data.site_spec(site_id@).unwrap(),
                        *data,
                        false,
                        VoyagePlan::Standard,
                        true,
                    ),
                ),
            },
    {
        self.begin_expedition_with_coverage(site_id, data, false)
    }

    /// Departs on a standard plan under contract, with or without coverage.
    pub fn begin_expedition_with_coverage(&mut self, site_id: &str, data: &GameData, insured: bool) -> (r:
        Result<String, String>)
        requires
            old(self).wf(),
            old(self).log_room(1),
            data.wf(),
        ensures
            final(self).wf(),
            match old(self).departure_error(site_id@, *data, insured, VoyagePlan::Standard) {
                Some(m) => *final(self) == *old(self) && err_msg(r, m),
                None => Self::departed(
                    *old(self),
                    *final(self),
                    site_id@,
                    *data,
                    insured,
                    VoyagePlan::Standard,
                    true,
                ) && ok_msg(
                    r,
                    old(self).departure_message(
                        data.site_spec(site_id@).unwrap(),
                        *data,
                        insured,
                        VoyagePlan::Standard,
                        true,
                    ),
                ),
            },
    {
        self.begin_expedition_with_plan(site_id, data, insured, VoyagePlan::Standard)
    }

    /// Departs under contract with the chosen coverage and plan.
    pub fn begin_expedition_with_plan(
        &mut self,
        site_id: &str,
        data: &GameData,
        insured: bool,
        plan: VoyagePlan,
    ) -> (r: Result<String, String>)
        requires
            old(self).wf(),
            old(self).log_room(1),
            data.wf(),
        ensures
            final(self).wf(),
            match old(self).departure_error(site_id@, *data, insured, plan) {
                Some(m) => *final(self) == *old(self) && err_msg(r, m),
                None => Self::departed(
                    *old(self),
                    *final(self),
                    site_id@,
                    *data,
                    insured,
                    plan,
                    true,
                ) && ok_msg(
                    r,
                    old(self).departure_message(
                        data.site_spec(site_id@).unwrap(),
                        *data,
                        insured,
                        plan,
                        true,
                    ),
                ),
            },
    {
        self.begin_expedition_with_plan_and_contract(site_id, data, insured, plan, true)
    }
}

} // verus!
