//! The filed summary of a completed salvage voyage.

use crate::drone_directive::DroneDirective;
use crate::engine::{RiskOutcome, VoyagePlan};
use crate::return_policy::ReturnPolicy;
use crate::scan_profile::WorkspaceScanProfile;
use vstd::prelude::*;

verus! {

#[derive(Clone, Debug)]
pub struct VoyageRecord {
    pub site_id: String,
    pub recovered_count: u32,
    pub recovered_value: i64,
    pub recovered_alloy: i32,
    pub recovered_electronics: i32,
    pub external_load: u32,
    pub risk_outcome: RiskOutcome,
    pub danger_score: i32,
    pub reconnaissance_level: u8,
    pub voyage_plan: VoyagePlan,
    pub return_policy: ReturnPolicy,
    pub contract_completed: bool,
    pub contract_failed: bool,
    pub contract_accepted: bool,
    pub scan_profile: WorkspaceScanProfile,
    pub drone_directive: DroneDirective,
    pub condition_after: i32,
    pub cleared_sections: Vec<String>,
    pub clearance_payout: i64,
    pub return_fuel: i32,
    pub market_cycle: u32,
    pub insured: bool,
    pub insurance_premium: i64,
    pub insurance_payout: i64,
}

} // verus!
