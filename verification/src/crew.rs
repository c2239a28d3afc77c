//! Crew assignment rules for the captain's operating profile, and the
//! expertise each role earns over completed runs.

use crate::data::GameData;
use crate::engine::{clamp, clamp_i32, RiskOutcome};
use crate::session::GameSession;
use crate::text::{err_msg, ok_msg, push_int};
use vstd::prelude::*;

verus! {

#[derive(Clone, Copy, Debug, PartialEq, Eq, Structural)]
pub enum CrewRole {
    Deckhand,
    Navigator,
    Rigger,
    SafetyOfficer,
    Broker,
}

/// Experience at which a role is promoted to each expertise tier.
pub const QUALIFIED_EXPERIENCE: u16 = 3;
pub const VETERAN_EXPERIENCE: u16 = 6;
/// Experience stops growing here.
pub const MAX_CREW_EXPERIENCE: u16 = 6;

impl CrewRole {
    pub open spec fn index_spec(self) -> int {
        match self {
            CrewRole::Deckhand => 0,
            CrewRole::Navigator => 1,
            CrewRole::Rigger => 2,
            CrewRole::SafetyOfficer => 3,
            CrewRole::Broker => 4,
        }
    }

    /// Position of the role in the operating order.
    pub fn index(self) -> (r: usize)
        ensures
            r == self.index_spec(),
            r < 5,
    {
        match self {
            CrewRole::Deckhand => 0,
            CrewRole::Navigator => 1,
            CrewRole::Rigger => 2,
            CrewRole::SafetyOfficer => 3,
            CrewRole::Broker => 4,
        }
    }

    /// Every role, in the operating order.
    pub fn all() -> (r: [CrewRole; 5])
        ensures
            r@ == seq![
                CrewRole::Deckhand,
                CrewRole::Navigator,
                CrewRole::Rigger,
                CrewRole::SafetyOfficer,
                CrewRole::Broker,
            ],
    {
        let r = [
            CrewRole::Deckhand,
            CrewRole::Navigator,
            CrewRole::Rigger,
            CrewRole::SafetyOfficer,
            CrewRole::Broker,
        ];
        assert(r@ =~= seq![
            CrewRole::Deckhand,
            CrewRole::Navigator,
            CrewRole::Rigger,
            CrewRole::SafetyOfficer,
            CrewRole::Broker,
        ]);
        r
    }

    pub open spec fn next_spec(self) -> Self {
        match self {
            CrewRole::Deckhand => CrewRole::Navigator,
            CrewRole::Navigator => CrewRole::Rigger,
            CrewRole::Rigger => CrewRole::SafetyOfficer,
            CrewRole::SafetyOfficer => CrewRole::Broker,
            CrewRole::Broker => CrewRole::Deckhand,
        }
    }

    /// The next role in the operating order, wrapping to the first.
    pub fn next(self) -> (r: Self)
        ensures
            r == self.next_spec(),
            r.index_spec() == (self.index_spec() + 1) % 5,
    {
        match self {
            CrewRole::Deckhand => CrewRole::Navigator,
            CrewRole::Navigator => CrewRole::Rigger,
            CrewRole::Rigger => CrewRole::SafetyOfficer,
            CrewRole::SafetyOfficer => CrewRole::Broker,
            CrewRole::Broker => CrewRole::Deckhand,
        }
    }

    pub open spec fn label_spec(self) -> Seq<char> {
        match self {
            CrewRole::Deckhand => "DECKHAND"@,
            CrewRole::Navigator => "NAVIGATOR"@,
            CrewRole::Rigger => "RIGGER"@,
            CrewRole::SafetyOfficer => "SAFETY OFFICER"@,
            CrewRole::Broker => "BROKER"@,
        }
    }

    pub fn label(self) -> (r: &'static str)
        ensures
            r@ == self.label_spec(),
    {
        match self {
            CrewRole::Deckhand => "DECKHAND",
            CrewRole::Navigator => "NAVIGATOR",
            CrewRole::Rigger => "RIGGER",
            CrewRole::SafetyOfficer => "SAFETY OFFICER",
            CrewRole::Broker => "BROKER",
        }
    }

    pub open spec fn short_label_spec(self) -> Seq<char> {
        match self {
            CrewRole::Deckhand => "DECKHAND"@,
            CrewRole::Navigator => "NAV"@,
            CrewRole::Rigger => "RIGGER"@,
            CrewRole::SafetyOfficer => "SAFETY"@,
            CrewRole::Broker => "BROKER"@,
        }
    }

    pub fn short_label(self) -> (r: &'static str)
        ensures
            r@ == self.short_label_spec(),
    {
        match self {
            CrewRole::Deckhand => "DECKHAND",
            CrewRole::Navigator => "NAV",
            CrewRole::Rigger => "RIGGER",
            CrewRole::SafetyOfficer => "SAFETY",
            CrewRole::Broker => "BROKER",
        }
    }

    pub open spec fn description_spec(self) -> Seq<char> {
        match self {
            CrewRole::Deckhand => "steady hands // no route adjustment"@,
            CrewRole::Navigator => "-1 outbound fuel // clean approach math"@,
            CrewRole::Rigger => "+1 external clamp // heavier loads come home"@,
            CrewRole::SafetyOfficer => "-8 route danger // disciplined return watch"@,
            CrewRole::Broker => "+5% contract reward // buyer relations"@,
        }
    }

    pub fn description(self) -> (r: &'static str)
        ensures
            r@ == self.description_spec(),
    {
        match self {
            CrewRole::Deckhand => "steady hands // no route adjustment",
            CrewRole::Navigator => "-1 outbound fuel // clean approach math",
            CrewRole::Rigger => "+1 external clamp // heavier loads come home",
            CrewRole::SafetyOfficer => "-8 route danger // disciplined return watch",
            CrewRole::Broker => "+5% contract reward // buyer relations",
        }
    }

    pub open spec fn fuel_delta_spec(self) -> int {
        if self is Navigator { -1 } else { 0 }
    }

    pub fn fuel_delta(self) -> (r: i32)
        ensures
            r == self.fuel_delta_spec(),
    {
        match self {
            CrewRole::Navigator => -1,
            _ => 0,
        }
    }

    pub open spec fn danger_delta_spec(self) -> int {
        if self is SafetyOfficer { -8 } else { 0 }
    }

    pub fn danger_delta(self) -> (r: i32)
        ensures
            r == self.danger_delta_spec(),
    {
        match self {
            CrewRole::SafetyOfficer => -8,
            _ => 0,
        }
    }

    pub open spec fn external_capacity_spec(self) -> int {
        if self is Rigger { 1 } else { 0 }
    }

    pub fn external_capacity(self) -> (r: i32)
        ensures
            r == self.external_capacity_spec(),
    {
        match self {
            CrewRole::Rigger => 1,
            _ => 0,
        }
    }

    pub open spec fn contract_bonus_percent_spec(self) -> int {
        if self is Broker { 5 } else { 0 }
    }

    pub fn contract_bonus_percent(self) -> (r: i32)
        ensures
            r == self.contract_bonus_percent_spec(),
    {
        match self {
            CrewRole::Broker => 5,
            _ => 0,
        }
    }
}

pub open spec fn expertise_level_spec(experience: int) -> int {
    if experience >= VETERAN_EXPERIENCE {
        2
    } else if experience >= QUALIFIED_EXPERIENCE {
        1
    } else {
        0
    }
}

/// Expertise tier for an amount of experience: 0 novice, 1 qualified, 2 veteran.
pub fn expertise_level(experience: u16) -> (r: u8)
    ensures
        r == expertise_level_spec(experience as int),
{
    if experience >= VETERAN_EXPERIENCE {
        2
    } else if experience >= QUALIFIED_EXPERIENCE {
        1
    } else {
        0
    }
}

pub open spec fn expertise_label_spec(level: int) -> Seq<char> {
    if level >= 2 {
        "VETERAN"@
    } else if level == 1 {
        "QUALIFIED"@
    } else {
        "NOVICE"@
    }
}

pub fn expertise_label(level: u8) -> (r: &'static str)
    ensures
        r@ == expertise_label_spec(level as int),
{
    if level >= 2 {
        "VETERAN"
    } else if level == 1 {
        "QUALIFIED"
    } else {
        "NOVICE"
    }
}

pub open spec fn experience_gain_spec(outcome: RiskOutcome, contract_completed: bool) -> int {
    if contract_completed && outcome == RiskOutcome::OrdinaryReturn {
        2
    } else {
        1
    }
}

impl GameSession {
    pub open spec fn experience_spec(&self) -> int {
        self.career.crew_experience.of(self.crew_role) as int
    }

    pub open spec fn expertise_spec(&self) -> int {
        expertise_level_spec(self.experience_spec())
    }

    pub fn crew_role(&self) -> (r: CrewRole)
        ensures
            r == self.crew_role,
    {
        self.crew_role
    }

    /// Experience the current role has earned.
    pub fn crew_experience(&self) -> (r: u16)
        ensures
            r == self.experience_spec(),
    {
        self.career.crew_experience.get(self.crew_role)
    }

    /// Expertise tier of the current role.
    pub fn crew_expertise_level(&self) -> (r: u8)
        ensures
            r == self.expertise_spec(),
    {
        expertise_level(self.crew_experience())
    }

    pub fn crew_expertise_label(&self) -> (r: &'static str)
        ensures
            r@ == expertise_label_spec(self.expertise_spec()),
    {
        expertise_label(self.crew_expertise_level())
    }

    /// Experience a run teaches: one, or two for a clean return that
    /// completed its contract.
    pub fn crew_experience_gain(outcome: RiskOutcome, contract_completed: bool) -> (r: u16)
        ensures
            r == experience_gain_spec(outcome, contract_completed),
    {
        if contract_completed && outcome == RiskOutcome::OrdinaryReturn {
            2
        } else {
            1
        }
    }

    /// Files the experience of a completed run for the current role, capped
    /// at the veteran ceiling; returns how much was actually added.
    pub fn record_crew_experience(&mut self, outcome: RiskOutcome, contract_completed: bool) -> (r:
        u16)
        ensures
            final(self).career.crew_experience == old(self).career.crew_experience.with(
                old(self).crew_role,
                (if old(self).experience_spec() >= MAX_CREW_EXPERIENCE {
                    old(self).experience_spec()
                } else if old(self).experience_spec() + experience_gain_spec(
                    outcome,
                    contract_completed,
                ) > MAX_CREW_EXPERIENCE {
                    MAX_CREW_EXPERIENCE as int
                } else {
                    old(self).experience_spec() + experience_gain_spec(outcome, contract_completed)
                }) as u16,
            ),
            r == final(self).career.crew_experience.of(old(self).crew_role) - old(self).experience_spec(),
            *final(self) == (GameSession {
                career: crate::career::CareerStats {
                    crew_experience: final(self).career.crew_experience,
                    ..old(self).career
                },
                ..*old(self)
            }),
    {
        let before = self.crew_experience();
        let gain = Self::crew_experience_gain(outcome, contract_completed);
        let after = if before >= MAX_CREW_EXPERIENCE {
            before
        } else if before + gain > MAX_CREW_EXPERIENCE {
            MAX_CREW_EXPERIENCE
        } else {
            before + gain
        };
        let role = self.crew_role;
        self.career.crew_experience.set(role, after);
        after - before
    }

    pub open spec fn experience_report_spec(&self, gain: u16, previous_level: u8) -> Seq<char> {
        let level = self.expertise_spec();
        "Crew "@ + self.crew_role.label_spec() + " expertise +"@ + crate::text::decimal(gain as int)
            + " // "@ + (if level > previous_level {
            "PROMOTED "@
        } else {
            Seq::empty()
        }) + expertise_label_spec(level) + "."@
    }

    /// The debrief line for the crew's experience after a run.
    pub fn crew_experience_report(&self, gain: u16, previous_level: u8) -> (r: String)
        ensures
            r@ == self.experience_report_spec(gain, previous_level),
    {
        let level = self.crew_expertise_level();
        let mut s = "Crew ".to_owned();
        s.append(self.crew_role.label());
        s.append(" expertise +");
        push_int(&mut s, gain as i64);
        s.append(" // ");
        let ghost mid = s@;
        if level > previous_level {
            s.append("PROMOTED ");
        }
        s.append(expertise_label(level));
        s.append(".");
        proof {
            if level > previous_level {
                assert(s@ =~= mid + "PROMOTED "@ + expertise_label_spec(level as int) + "."@);
            } else {
                assert(s@ =~= mid + Seq::<char>::empty() + expertise_label_spec(level as int)
                    + "."@);
            }
        }
        s
    }

    /// Rotates the crew assignment; only at the safe port.
    pub fn cycle_crew(&mut self) -> (r: Result<String, String>)
        ensures
            old(self).at_port() ==> {
                &&& *final(self) == (GameSession {
                    crew_role: old(self).crew_role.next_spec(),
                    ..*old(self)
                })
                &&& ok_msg(r, "Crew assigned: "@ + final(self).crew_role.label_spec() + ". "@
                    + final(self).crew_role.description_spec() + "."@)
            },
            !old(self).at_port() ==> (*final(self) == *old(self) && err_msg(r, "crew assignments are available at the safe port before departure"@)),
    {
        if self.expedition.is_some() || self.returned.len() > 0 {
            return Err("crew assignments are available at the safe port before departure".to_owned());
        }
        self.crew_role = self.crew_role.next();
        let mut s = "Crew assigned: ".to_owned();
        s.append(self.crew_role.label());
        s.append(". ");
        s.append(self.crew_role.description());
        s.append(".");
        Ok(s)
    }

    pub open spec fn crew_fuel_delta_spec(&self) -> int {
        self.crew_role.fuel_delta_spec() - (if self.crew_role is Navigator {
            self.expertise_spec()
        } else {
            0
        })
    }

    /// Outbound fuel change from the crew: a navigator saves one unit, and
    /// one more per expertise tier.
    pub fn crew_fuel_delta(&self) -> (r: i32)
        ensures
            r == self.crew_fuel_delta_spec(),
            -3 <= r <= 0,
    {
        let bonus = if self.crew_role == CrewRole::Navigator {
            self.crew_expertise_level() as i32
        } else {
            0
        };
        self.crew_role.fuel_delta() - bonus
    }

    pub open spec fn crew_danger_bonus_spec(&self) -> int {
        self.crew_role.danger_delta_spec() - (if self.crew_role is SafetyOfficer {
            4 * self.expertise_spec()
        } else {
            0
        })
    }

    /// Route danger once the crew's watch is applied, kept in 0..=100: a
    /// safety officer takes 8 off, and 4 more per expertise tier.
    pub fn crew_adjusted_danger(&self, danger: i32) -> (r: i32)
        requires
            -1_000_000_000 <= danger <= 1_000_000_000,
        ensures
            r == clamp(danger + self.crew_danger_bonus_spec(), 0, 100),
    {
        let bonus = if self.crew_role == CrewRole::SafetyOfficer {
            4 * (self.crew_expertise_level() as i32)
        } else {
            0
        };
        clamp_i32(danger + self.crew_role.danger_delta() - bonus, 0, 100)
    }

    pub open spec fn crew_external_capacity_spec(&self) -> int {
        self.crew_role.external_capacity_spec() + (if self.crew_role is Rigger {
            self.expertise_spec() / 2
        } else {
            0
        })
    }

    /// Extra clamps the crew works: a rigger adds one, and one more as a veteran.
    pub fn crew_external_capacity(&self) -> (r: i32)
        ensures
            r == self.crew_external_capacity_spec(),
            0 <= r <= 2,
    {
        let bonus = if self.crew_role == CrewRole::Rigger {
            (self.crew_expertise_level() / 2) as i32
        } else {
            0
        };
        self.crew_role.external_capacity() + bonus
    }

    pub open spec fn crew_contract_bonus_spec(&self) -> int {
        self.crew_role.contract_bonus_percent_spec() + (if self.crew_role is Broker {
            2 * self.expertise_spec()
        } else {
            0
        })
    }

    /// Contract reward percentage the crew adds: a broker adds 5, and 2 more
    /// per expertise tier.
    pub fn crew_contract_bonus_percent(&self) -> (r: i32)
        ensures
            r == self.crew_contract_bonus_spec(),
            0 <= r <= 9,
    {
        let bonus = if self.crew_role == CrewRole::Broker {
            2 * (self.crew_expertise_level() as i32)
        } else {
            0
        };
        self.crew_role.contract_bonus_percent() + bonus
    }

    /// The departure briefing line for the crew.
    pub fn crew_briefing_label(&self, data: &GameData) -> (r: String)
        requires
            data.wf(),
            self.ship_layout.placements.len() <= 4096,
        ensures
            self.crew_role != CrewRole::Rigger ==> r@ == "CREW "@ + self.crew_role.short_label_spec()
                + " // "@ + self.crew_role.description_spec(),
            self.crew_role == CrewRole::Rigger ==> r@ == "CREW "@
                + self.crew_role.short_label_spec() + " // "@ + self.crew_role.description_spec()
                + " // CLAMPS "@ + crate::text::decimal(self.external_capacity_spec(*data)),
    {
        let role = self.crew_role;
        let mut s = "CREW ".to_owned();
        s.append(role.short_label());
        s.append(" // ");
        s.append(role.description());
        if role != CrewRole::Rigger {
            return s;
        }
        let capacity = self.external_capacity(data);
        s.append(" // CLAMPS ");
        push_int(&mut s, capacity as i64);
        s
    }
}

} // verus!
