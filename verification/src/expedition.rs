//! Departure setup: fuel, seeded risk, salvage manifests, and coverage.

use crate::data::GameData;
use crate::engine::VoyagePlan;
use crate::session::GameSession;
use vstd::prelude::*;

verus! {

impl GameSession {
    pub open spec fn fuel_cost_spec(&self, site_id: Seq<char>, data: GameData, plan: VoyagePlan) -> Option<int> {
        match data.site_spec(site_id) {
            None => None,
            Some(site) => {
                let cost = site.fuel_cost + plan.fuel_delta_spec(data.config.voyage_plan)
                    + self.crew_fuel_delta_spec();
                Some(if cost < 1 { 1 } else { cost })
            },
        }
    }

    /// Outbound fuel to a wreck under a plan, never below one unit.
    pub fn effective_fuel_cost_with_plan(&self, site_id: &str, data: &GameData, plan: VoyagePlan) -> (r:
        Option<i32>)
        requires
            data.wf(),
        ensures
            match r {
                Some(c) => self.fuel_cost_spec(site_id@, *data, plan) == Some(c as int),
                None => self.fuel_cost_spec(site_id@, *data, plan) is None,
            },
            r matches Some(c) ==> 1 <= c <= 1100,
    {
        let site = data.site(site_id)?;
        let cost = site.fuel_cost + plan.fuel_delta(&data.config.voyage_plan) + self.crew_fuel_delta();
        Some(if cost < 1 { 1 } else { cost })
    }

    pub open spec fn can_depart_spec(&self, site_id: Seq<char>, data: GameData, plan: VoyagePlan) -> bool {
        self.at_port() && self.fuel_cost_spec(site_id, data, plan) is Some && self.economy.fuel
            >= self.fuel_cost_spec(site_id, data, plan).unwrap() + data.config.safe_return_buffer
    }

    /// Whether the tank covers the trip out and the reserved return burn.
    pub fn can_depart_with_plan(&self, site_id: &str, data: &GameData, plan: VoyagePlan) -> (r: bool)
        requires
            data.wf(),
            self.wf(),
        ensures
            r == self.can_depart_spec(site_id@, *data, plan),
    {
        if self.expedition.is_some() || self.returned.len() > 0 {
            return false;
        }
        match self.effective_fuel_cost_with_plan(site_id, data, plan) {
            Some(cost) => self.economy.fuel >= cost + data.config.safe_return_buffer,
            None => false,
        }
    }

    pub fn can_depart(&self, site_id: &str, data: &GameData) -> (r: bool)
        requires
            data.wf(),
            self.wf(),
        ensures
            r == self.can_depart_spec(site_id@, *data, VoyagePlan::Standard),
    {
        self.can_depart_with_plan(site_id, data, VoyagePlan::Standard)
    }
}

} // verus!
