//! Operational wear that turns hard salvage runs into service decisions.

use crate::data::{GameData, MaintenanceTuning};
use crate::engine::{clamp, clamp_i32, RiskOutcome};
use crate::session::GameSession;
use vstd::prelude::*;

verus! {

pub const MAX_SHIP_WEAR: u8 = 100;

pub open spec fn setback_multiplier(outcome: RiskOutcome) -> int {
    match outcome {
        RiskOutcome::OrdinaryReturn => 0,
        RiskOutcome::DamagedModule => 1,
        RiskOutcome::LostSalvage | RiskOutcome::EmergencyRepair => 2,
        RiskOutcome::ForcedAbandon => 3,
    }
}

pub open spec fn wear_gain_spec(
    outcome: RiskOutcome,
    external_load: int,
    power_cycles_used: int,
    tuning: MaintenanceTuning,
) -> int {
    let load = if external_load < 0 {
        0
    } else {
        external_load
    };
    let power = if power_cycles_used > 1 {
        1
    } else {
        power_cycles_used
    };
    clamp(
        tuning.base_wear_per_voyage + setback_multiplier(outcome) * tuning.setback_wear + load
            * tuning.external_load_wear + power * tuning.power_cycle_wear,
        0,
        MAX_SHIP_WEAR as int,
    )
}

/// Wear a run adds: a base amount, more per setback, per external load and
/// for a field power cycle.
pub fn wear_gain(
    outcome: RiskOutcome,
    external_load: i32,
    power_cycles_used: u8,
    tuning: &MaintenanceTuning,
) -> (r: u8)
    ensures
        r == wear_gain_spec(outcome, external_load as int, power_cycles_used as int, *tuning),
{
    let multiplier: i64 = match outcome {
        RiskOutcome::OrdinaryReturn => 0,
        RiskOutcome::DamagedModule => 1,
        RiskOutcome::LostSalvage | RiskOutcome::EmergencyRepair => 2,
        RiskOutcome::ForcedAbandon => 3,
    };
    let load: i64 = if external_load < 0 {
        0
    } else {
        external_load as i64
    };
    let power: i64 = if power_cycles_used > 1 {
        1
    } else {
        power_cycles_used as i64
    };
    let ext = tuning.external_load_wear as i64;
    assert(-0x4000_0000_0000_0000 <= load * ext <= 0x4000_0000_0000_0000) by (nonlinear_arith)
        requires
            0 <= load <= 0x8000_0000,
            -0x8000_0000 <= ext <= 0x8000_0000,
    ;
    assert(-0x1_8000_0000 <= multiplier * (tuning.setback_wear as i64) <= 0x1_8000_0000) by (nonlinear_arith)
        requires
            0 <= multiplier <= 3,
            -0x8000_0000 <= tuning.setback_wear <= 0x8000_0000,
    ;
    assert(-0x8000_0000 <= power * (tuning.power_cycle_wear as i64) <= 0x8000_0000) by (nonlinear_arith)
        requires
            0 <= power <= 1,
            -0x8000_0000 <= tuning.power_cycle_wear <= 0x8000_0000,
    ;
    let gain = (tuning.base_wear_per_voyage as i64) + multiplier * (tuning.setback_wear as i64)
        + load * (tuning.external_load_wear as i64) + power * (tuning.power_cycle_wear as i64);
    let clamped = if gain < 0 {
        0
    } else if gain > MAX_SHIP_WEAR as i64 {
        MAX_SHIP_WEAR as i64
    } else {
        gain
    };
    clamped as u8
}

impl GameSession {
    pub open spec fn wear_spec(&self) -> int {
        if self.ship_wear > MAX_SHIP_WEAR {
            MAX_SHIP_WEAR as int
        } else {
            self.ship_wear as int
        }
    }

    pub fn ship_wear(&self) -> (r: u8)
        ensures
            r == self.wear_spec(),
            r <= MAX_SHIP_WEAR,
    {
        if self.ship_wear > MAX_SHIP_WEAR {
            MAX_SHIP_WEAR
        } else {
            self.ship_wear
        }
    }

    pub open spec fn maintenance_danger_spec(&self, data: GameData) -> int {
        (self.wear_spec() / 20) * data.config.maintenance.danger_per_wear_band
    }

    /// With a band of at most a hundred, wear adds between none and five
    /// hundred points of danger.
    pub proof fn lemma_danger_band_bounds(&self, data: GameData)
        requires
            0 <= data.config.maintenance.danger_per_wear_band <= 100,
        ensures
            0 <= self.maintenance_danger_spec(data) <= 500,
    {
        let bands = self.wear_spec() / 20;
        assert(0 <= bands * data.config.maintenance.danger_per_wear_band <= 500) by (nonlinear_arith)
            requires
                0 <= bands <= 5,
                0 <= data.config.maintenance.danger_per_wear_band <= 100,
        ;
    }

    /// Route danger added by wear: one band per twenty points of wear.
    pub fn maintenance_danger_delta(&self, data: &GameData) -> (r: i32)
        requires
            i32::MIN <= self.maintenance_danger_spec(*data) <= i32::MAX,
        ensures
            r == self.maintenance_danger_spec(*data),
            0 <= data.config.maintenance.danger_per_wear_band <= 100 ==> 0 <= r <= 500,
    {
        let bands = (self.ship_wear() as i32) / 20;
        proof {
            if 0 <= data.config.maintenance.danger_per_wear_band <= 100 {
                assert(0 <= bands * data.config.maintenance.danger_per_wear_band <= 500) by (nonlinear_arith)
                    requires
                        0 <= bands <= 5,
                        0 <= data.config.maintenance.danger_per_wear_band <= 100,
                ;
            }
        }
        bands * data.config.maintenance.danger_per_wear_band
    }

    /// Route danger once wear is applied, kept in 0..=100.
    pub fn maintenance_adjusted_danger(&self, danger: i32, data: &GameData) -> (r: i32)
        requires
            i32::MIN <= self.maintenance_danger_spec(*data) <= i32::MAX,
            i32::MIN <= danger + self.maintenance_danger_spec(*data) <= i32::MAX,
        ensures
            r == clamp(danger + self.maintenance_danger_spec(*data), 0, 100),
    {
        clamp_i32(danger + self.maintenance_danger_delta(data), 0, 100)
    }

    pub open spec fn maintenance_cost_spec(&self, data: GameData) -> int {
        self.wear_spec() * data.config.maintenance.price_per_wear
    }

    /// What servicing the accumulated wear costs.
    pub fn maintenance_cost(&self, data: &GameData) -> (r: i64)
        requires
            0 <= data.config.maintenance.price_per_wear <= 1_000_000,
        ensures
            r == self.maintenance_cost_spec(*data),
            0 <= r <= 100_000_000,
    {
        let wear = self.ship_wear() as i64;
        assert(0 <= wear * data.config.maintenance.price_per_wear <= 100_000_000) by (nonlinear_arith)
            requires
                0 <= wear <= 100,
                0 <= data.config.maintenance.price_per_wear <= 1_000_000,
        ;
        wear * data.config.maintenance.price_per_wear
    }

    /// Files the wear of a finished run; wear never passes the maximum.
    pub fn register_ship_wear(
        &mut self,
        outcome: RiskOutcome,
        external_load: i32,
        power_cycles_used: u8,
        tuning: &MaintenanceTuning,
    ) -> (r: u8)
        requires
            0 <= tuning.base_wear_per_voyage <= 100,
            0 <= tuning.setback_wear <= 100,
            0 <= tuning.external_load_wear <= 100,
            0 <= tuning.power_cycle_wear <= 100,
        ensures
            r == wear_gain_spec(outcome, external_load as int, power_cycles_used as int, *tuning),
            final(self).ship_wear == clamp(old(self).wear_spec() + r, 0, MAX_SHIP_WEAR as int),
            *final(self) == (GameSession { ship_wear: final(self).ship_wear, ..*old(self) }),
    {
        let gain = wear_gain(outcome, external_load, power_cycles_used, tuning);
        let total = self.ship_wear().saturating_add(gain);
        self.ship_wear = if total > MAX_SHIP_WEAR {
            MAX_SHIP_WEAR
        } else {
            total
        };
        gain
    }
}

} // verus!
