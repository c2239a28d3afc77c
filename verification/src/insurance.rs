//! Port-side coverage quotes and departure affordability checks.

use crate::data::GameData;
use crate::engine::{
    clamp, danger_after_intel, danger_after_intel_spec, insurance_quote_for,
    insurance_quote_for_danger, insurance_quote_for_danger_spec, InsuranceQuote, VoyagePlan,
};
use crate::session::GameSession;
use vstd::prelude::*;

verus! {

impl GameSession {
    /// Whether anything adjusts the authored danger of a route: wear, route
    /// briefs, the crew or familiarity.
    pub open spec fn route_adjusted(&self, site_id: Seq<char>) -> bool {
        self.wear_spec() > 0 || self.intel_level_spec(site_id) > 0
            || self.crew_danger_delta_spec() != 0 || self.familiarity_spec(site_id) > 0
    }

    /// Route danger for a plan: the authored danger less briefs and
    /// familiarity, then the plan, the crew and wear.
    pub open spec fn plan_danger_spec(&self, danger: int, site_id: Seq<char>, data: GameData, plan: VoyagePlan) -> int {
        let route = danger_after_intel_spec(
            danger,
            self.intel_level_spec(site_id) as int,
            data.config.reconnaissance,
        ) - self.familiarity_reduction_spec(site_id);
        let planned = plan.adjust_danger_spec(route, data.config.voyage_plan);
        let crewed = clamp(planned + self.crew_danger_bonus_spec(), 0, 100);
        clamp(crewed + self.maintenance_danger_spec(data), 0, 100)
    }

    pub open spec fn insurance_spec(&self, site_id: Seq<char>, data: GameData, plan: VoyagePlan) -> Option<
        InsuranceQuote,
    > {
        match data.site_spec(site_id) {
            None => None,
            Some(site) => if plan == VoyagePlan::Standard && !self.route_adjusted(site_id) {
                Some(insurance_quote_for_danger_spec(site.danger as int, data.config.insurance))
            } else {
                Some(
                    insurance_quote_for_danger_spec(
                        self.plan_danger_spec(site.danger as int, site_id, data, plan),
                        data.config.insurance,
                    ),
                )
            },
        }
    }

    /// Route danger for a plan, from an authored danger.
    pub fn plan_danger(&self, danger: i32, site_id: &str, data: &GameData, plan: VoyagePlan) -> (r:
        i32)
        requires
            data.wf(),
            -1_000_000_000 <= danger <= 1_000_000_000,
        ensures
            r == self.plan_danger_spec(danger as int, site_id@, *data, plan),
            0 <= r <= 100,
    {
        let route = danger_after_intel(
            danger,
            self.reconnaissance_level(site_id),
            &data.config.reconnaissance,
        ) - self.route_familiarity_danger_reduction(site_id);
        let planned = plan.adjust_danger(route, &data.config.voyage_plan);
        let crewed = self.crew_adjusted_danger(planned);
        proof {
            self.lemma_danger_band_bounds(*data);
        }
        self.maintenance_adjusted_danger(crewed, data)
    }

    fn quote_route(&self, site_id: &str, data: &GameData, plan: VoyagePlan) -> (r: Option<
        InsuranceQuote,
    >)
        requires
            data.wf(),
        ensures
            r == self.insurance_spec(site_id@, *data, plan),
            r matches Some(q) ==> 0 <= q.premium <= 1_100_000_000,
    {
        let site = data.site(site_id)?;
        let adjusted = self.ship_wear() > 0 || self.reconnaissance_level(site_id) > 0
            || self.crew_danger_delta() != 0 || self.route_familiarity(site_id) > 0;
        if plan == VoyagePlan::Standard && !adjusted {
            return Some(insurance_quote_for(site, &data.config.insurance));
        }
        let danger = self.plan_danger(site.danger, site_id, data, plan);
        Some(insurance_quote_for_danger(danger, &data.config.insurance))
    }

    /// Coverage for a standard departure to a wreck.
    pub fn insurance_quote(&self, site_id: &str, data: &GameData) -> (r: Option<InsuranceQuote>)
        requires
            data.wf(),
        ensures
            r == self.insurance_spec(site_id@, *data, VoyagePlan::Standard),
            r matches Some(q) ==> 0 <= q.premium <= 1_100_000_000,
    {
        self.quote_route(site_id, data, VoyagePlan::Standard)
    }

    /// Coverage for a departure under a plan.
    pub fn insurance_quote_with_plan(&self, site_id: &str, data: &GameData, plan: VoyagePlan) -> (r:
        Option<InsuranceQuote>)
        requires
            data.wf(),
        ensures
            r == self.insurance_spec(site_id@, *data, plan),
            r matches Some(q) ==> 0 <= q.premium <= 1_100_000_000,
    {
        self.quote_route(site_id, data, plan)
    }

    pub open spec fn can_depart_insured_spec(&self, site_id: Seq<char>, data: GameData, plan: VoyagePlan) -> bool {
        self.can_depart_spec(site_id, data, plan) && self.insurance_spec(site_id, data, plan) is Some
            && self.economy.credits >= self.insurance_spec(site_id, data, plan).unwrap().premium
    }

    /// Whether a standard insured departure is affordable.
    pub fn can_depart_insured(&self, site_id: &str, data: &GameData) -> (r: bool)
        requires
            data.wf(),
            self.wf(),
        ensures
            r == self.can_depart_insured_spec(site_id@, *data, VoyagePlan::Standard),
    {
        self.can_depart(site_id, data) && match self.insurance_quote(site_id, data) {
            Some(q) => self.economy.credits >= q.premium,
            None => false,
        }
    }

    /// Whether an insured departure under a plan is affordable.
    pub fn can_depart_insured_with_plan(&self, site_id: &str, data: &GameData, plan: VoyagePlan) -> (r:
        bool)
        requires
            data.wf(),
            self.wf(),
        ensures
            r == self.can_depart_insured_spec(site_id@, *data, plan),
    {
        self.can_depart_with_plan(site_id, data, plan) && match self.insurance_quote_with_plan(
            site_id,
            data,
            plan,
        ) {
            Some(q) => self.economy.credits >= q.premium,
            None => false,
        }
    }
}

} // verus!
