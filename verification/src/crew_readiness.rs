//! Crew readiness: hard runs leave the hands tired until shore leave.

use crate::crew::{expertise_level_spec, CrewRole};
use crate::engine::RiskOutcome;
use crate::session::GameSession;
use crate::text::{err_msg, ok_msg};
use vstd::prelude::*;

verus! {

pub const MAX_CREW_FATIGUE: u8 = 100;

pub open spec fn outcome_load(outcome: RiskOutcome) -> int {
    match outcome {
        RiskOutcome::OrdinaryReturn => 8,
        RiskOutcome::DamagedModule => 14,
        RiskOutcome::LostSalvage | RiskOutcome::EmergencyRepair => 18,
        RiskOutcome::ForcedAbandon => 24,
    }
}

pub open spec fn fatigue_gain_spec(outcome: RiskOutcome, external_load: int, power_cycles_used: int) -> int {
    let cargo = if external_load < 0 {
        0
    } else if external_load > 5 {
        5
    } else {
        external_load
    };
    let power = if power_cycles_used > 1 {
        1
    } else {
        power_cycles_used
    };
    crate::engine::clamp(outcome_load(outcome) + cargo * 2 + power * 3, 0, MAX_CREW_FATIGUE as int)
}

/// Fatigue a run adds: by its outcome, up to five external loads, and a
/// field power cycle.
pub fn fatigue_gain(outcome: RiskOutcome, external_load: i32, power_cycles_used: u8) -> (r: u8)
    ensures
        r == fatigue_gain_spec(outcome, external_load as int, power_cycles_used as int),
{
    let outcome_load: i32 = match outcome {
        RiskOutcome::OrdinaryReturn => 8,
        RiskOutcome::DamagedModule => 14,
        RiskOutcome::LostSalvage | RiskOutcome::EmergencyRepair => 18,
        RiskOutcome::ForcedAbandon => 24,
    };
    let cargo = if external_load < 0 {
        0
    } else if external_load > 5 {
        5
    } else {
        external_load
    };
    let power: i32 = if power_cycles_used > 1 {
        1
    } else {
        power_cycles_used as i32
    };
    crate::engine::clamp_i32(outcome_load + cargo * 2 + power * 3, 0, MAX_CREW_FATIGUE as i32) as u8
}

impl GameSession {
    pub open spec fn fatigue_spec(&self) -> int {
        if self.crew_fatigue > MAX_CREW_FATIGUE {
            MAX_CREW_FATIGUE as int
        } else {
            self.crew_fatigue as int
        }
    }

    pub fn crew_fatigue(&self) -> (r: u8)
        ensures
            r == self.fatigue_spec(),
            r <= MAX_CREW_FATIGUE,
    {
        if self.crew_fatigue > MAX_CREW_FATIGUE {
            MAX_CREW_FATIGUE
        } else {
            self.crew_fatigue
        }
    }

    /// Readiness is what fatigue leaves of a full crew.
    pub fn crew_readiness(&self) -> (r: u8)
        ensures
            r == MAX_CREW_FATIGUE - self.fatigue_spec(),
            r + self.fatigue_spec() == 100,
    {
        MAX_CREW_FATIGUE - self.crew_fatigue()
    }

    pub open spec fn fatigue_danger_spec(&self) -> int {
        self.fatigue_spec() / 10
    }

    /// Route danger added by fatigue: one per ten points.
    pub fn crew_fatigue_danger_delta(&self) -> (r: i32)
        ensures
            r == self.fatigue_danger_spec(),
    {
        (self.crew_fatigue() as i32) / 10
    }

    pub open spec fn crew_danger_delta_spec(&self) -> int {
        self.crew_role.danger_delta_spec() + self.fatigue_danger_spec()
    }

    /// Route danger the crew adds or removes: its role and its fatigue.
    pub fn crew_danger_delta(&self) -> (r: i32)
        ensures
            r == self.crew_danger_delta_spec(),
    {
        self.crew_role().danger_delta() + self.crew_fatigue_danger_delta()
    }

    pub open spec fn fatigue_relief_spec(&self) -> int {
        if self.crew_role is Deckhand {
            self.expertise_spec()
        } else {
            0
        }
    }

    pub open spec fn registered_fatigue_gain(
        &self,
        outcome: RiskOutcome,
        external_load: int,
        power_cycles_used: int,
    ) -> int {
        let raw = fatigue_gain_spec(outcome, external_load, power_cycles_used);
        if raw > self.fatigue_relief_spec() {
            raw - self.fatigue_relief_spec()
        } else {
            0
        }
    }

    /// Files the fatigue of a finished run (an experienced deckhand takes a
    /// point off per expertise tier); fatigue never passes the maximum.
    pub fn register_crew_fatigue(
        &mut self,
        outcome: RiskOutcome,
        external_load: i32,
        power_cycles_used: u8,
    ) -> (r: u8)
        ensures
            r == old(self).registered_fatigue_gain(
                outcome,
                external_load as int,
                power_cycles_used as int,
            ),
            final(self).crew_fatigue == crate::engine::clamp(
                old(self).fatigue_spec() + r,
                0,
                MAX_CREW_FATIGUE as int,
            ),
            *final(self) == (GameSession { crew_fatigue: final(self).crew_fatigue, ..*old(self) }),
    {
        let raw = fatigue_gain(outcome, external_load, power_cycles_used);
        let relief = if self.crew_role == CrewRole::Deckhand {
            self.crew_expertise_level()
        } else {
            0
        };
        let gain = raw.saturating_sub(relief);
        let total = self.crew_fatigue().saturating_add(gain);
        self.crew_fatigue = if total > MAX_CREW_FATIGUE {
            MAX_CREW_FATIGUE
        } else {
            total
        };
        gain
    }

    /// Shore leave at the safe port clears all fatigue.
    pub fn rest_crew(&mut self) -> (r: Result<String, String>)
        ensures
            !old(self).at_port() ==> *final(self) == *old(self) && err_msg(
                r,
                "the crew can take shore leave only at the safe port"@,
            ),
            old(self).at_port() && old(self).fatigue_spec() == 0 ==> *final(self) == *old(self)
                && ok_msg(r, "Crew already rested. Readiness 100%."@),
            old(self).at_port() && old(self).fatigue_spec() != 0 ==> *final(self) == (GameSession {
                crew_fatigue: 0,
                ..*old(self)
            }) && ok_msg(
                r,
                "Crew rested at the safe port. Readiness 100%; route watch restored."@,
            ),
    {
        if self.expedition.is_some() || self.returned.len() > 0 {
            return Err("the crew can take shore leave only at the safe port".to_owned());
        }
        if self.crew_fatigue() == 0 {
            return Ok("Crew already rested. Readiness 100%.".to_owned());
        }
        self.crew_fatigue = 0;
        Ok("Crew rested at the safe port. Readiness 100%; route watch restored.".to_owned())
    }
}

} // verus!
