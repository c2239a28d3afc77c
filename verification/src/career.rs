//! Lifetime figures for a captain's salvage career.

use crate::crew::CrewRole;
use crate::engine::RiskOutcome;
use crate::voyage_record::VoyageRecord;
use vstd::prelude::*;

verus! {

pub open spec fn sat_i64(x: int) -> i64 {
    if x > i64::MAX {
        i64::MAX
    } else if x < i64::MIN {
        i64::MIN
    } else {
        x as i64
    }
}

pub open spec fn sat_i32(x: int) -> i32 {
    if x > i32::MAX {
        i32::MAX
    } else if x < i32::MIN {
        i32::MIN
    } else {
        x as i32
    }
}

pub open spec fn sat_u32(x: int) -> u32 {
    if x > u32::MAX {
        u32::MAX
    } else {
        x as u32
    }
}

pub open spec fn nonneg(x: int) -> int {
    if x < 0 {
        0
    } else {
        x
    }
}

/// Saturating signed addition.
pub fn saturating_add_i64(a: i64, b: i64) -> (r: i64)
    ensures
        r == sat_i64(a + b),
{
    if b > 0 && a > i64::MAX - b {
        i64::MAX
    } else if b < 0 && a < i64::MIN - b {
        i64::MIN
    } else {
        a + b
    }
}

pub fn saturating_add_i32(a: i32, b: i32) -> (r: i32)
    ensures
        r == sat_i32(a + b),
{
    if b > 0 && a > i32::MAX - b {
        i32::MAX
    } else if b < 0 && a < i32::MIN - b {
        i32::MIN
    } else {
        a + b
    }
}

/// Experience each crew role has earned on completed runs.
#[derive(Clone, Copy, Debug, PartialEq, Eq, Structural)]
pub struct CrewExperience {
    pub deckhand: u16,
    pub navigator: u16,
    pub rigger: u16,
    pub safety_officer: u16,
    pub broker: u16,
}

impl CrewExperience {
    pub open spec fn of(self, role: CrewRole) -> u16 {
        match role {
            CrewRole::Deckhand => self.deckhand,
            CrewRole::Navigator => self.navigator,
            CrewRole::Rigger => self.rigger,
            CrewRole::SafetyOfficer => self.safety_officer,
            CrewRole::Broker => self.broker,
        }
    }

    pub open spec fn with(self, role: CrewRole, value: u16) -> Self {
        match role {
            CrewRole::Deckhand => CrewExperience { deckhand: value, ..self },
            CrewRole::Navigator => CrewExperience { navigator: value, ..self },
            CrewRole::Rigger => CrewExperience { rigger: value, ..self },
            CrewRole::SafetyOfficer => CrewExperience { safety_officer: value, ..self },
            CrewRole::Broker => CrewExperience { broker: value, ..self },
        }
    }

    /// Experience of one role.
    pub fn get(&self, role: CrewRole) -> (r: u16)
        ensures
            r == self.of(role),
    {
        match role {
            CrewRole::Deckhand => self.deckhand,
            CrewRole::Navigator => self.navigator,
            CrewRole::Rigger => self.rigger,
            CrewRole::SafetyOfficer => self.safety_officer,
            CrewRole::Broker => self.broker,
        }
    }

    /// Sets the experience of one role.
    pub fn set(&mut self, role: CrewRole, value: u16)
        ensures
            *final(self) == old(self).with(role, value),
    {
        match role {
            CrewRole::Deckhand => self.deckhand = value,
            CrewRole::Navigator => self.navigator = value,
            CrewRole::Rigger => self.rigger = value,
            CrewRole::SafetyOfficer => self.safety_officer = value,
            CrewRole::Broker => self.broker = value,
        }
    }
}

/// A commendation filed in the career dossier.
#[derive(Clone, Copy, Debug, PartialEq, Eq, Structural)]
pub enum CareerAward {
    FirstReturn,
    ContractStreak,
    SectionSweeper,
}

impl CareerAward {
    pub open spec fn label_spec(self) -> Seq<char> {
        match self {
            CareerAward::FirstReturn => "FIRST RETURN"@,
            CareerAward::ContractStreak => "CONTRACT STREAK"@,
            CareerAward::SectionSweeper => "SECTION SWEEPER"@,
        }
    }

    pub fn label(self) -> (r: &'static str)
        ensures
            r@ == self.label_spec(),
    {
        match self {
            CareerAward::FirstReturn => "FIRST RETURN",
            CareerAward::ContractStreak => "CONTRACT STREAK",
            CareerAward::SectionSweeper => "SECTION SWEEPER",
        }
    }
}

/// Streak length from which the contract streak commendation is filed.
pub const AWARD_STREAK: u32 = 3;
/// Cleared sections from which the section sweeper commendation is filed.
pub const AWARD_SECTIONS: u32 = 3;
/// Credits added per completed contract after the first in a streak.
pub const STREAK_BONUS_STEP: i64 = 20;
/// The streak bonus stops growing after this many steps.
pub const MAX_STREAK_STEPS: u32 = 4;

pub open spec fn streak_bonus_spec(streak: int) -> int {
    if streak <= 1 {
        0
    } else if streak - 1 > MAX_STREAK_STEPS {
        MAX_STREAK_STEPS * STREAK_BONUS_STEP
    } else {
        (streak - 1) * STREAK_BONUS_STEP
    }
}

/// Bonus credits paid for a contract that makes a streak of `streak`.
pub fn streak_bonus(streak: u32) -> (r: i64)
    ensures
        r == streak_bonus_spec(streak as int),
        0 <= r <= 80,
{
    if streak <= 1 {
        0
    } else if streak - 1 > MAX_STREAK_STEPS {
        (MAX_STREAK_STEPS as i64) * STREAK_BONUS_STEP
    } else {
        ((streak - 1) as i64) * STREAK_BONUS_STEP
    }
}

#[derive(Clone, Debug, PartialEq, Eq)]
pub struct CareerStats {
    pub voyages_completed: u32,
    pub safe_returns: u32,
    pub targets_recovered: u32,
    pub gross_haul_value: i64,
    pub highest_haul_value: i64,
    pub contracts_completed: u32,
    pub sections_cleared: u32,
    pub repairs_completed: u32,
    pub systems_restored: u32,
    pub repair_spend: i64,
    pub fuel_units_bought: i32,
    pub refuel_spend: i64,
    pub contract_income: i64,
    pub insurance_claims: i64,
    pub sale_income: i64,
    pub module_changes: u32,
    pub module_spend: i64,
    pub contract_streak: u32,
    pub best_contract_streak: u32,
    pub contract_failures: u32,
    pub cargo_bay_upgrades: u32,
    pub field_power_cells_fabricated: u32,
    pub crew_experience: CrewExperience,
}

pub open spec fn empty_stats() -> CareerStats {
    CareerStats {
        voyages_completed: 0,
        safe_returns: 0,
        targets_recovered: 0,
        gross_haul_value: 0,
        highest_haul_value: 0,
        contracts_completed: 0,
        sections_cleared: 0,
        repairs_completed: 0,
        systems_restored: 0,
        repair_spend: 0,
        fuel_units_bought: 0,
        refuel_spend: 0,
        contract_income: 0,
        insurance_claims: 0,
        sale_income: 0,
        module_changes: 0,
        module_spend: 0,
        contract_streak: 0,
        best_contract_streak: 0,
        contract_failures: 0,
        cargo_bay_upgrades: 0,
        field_power_cells_fabricated: 0,
        crew_experience: CrewExperience { deckhand: 0, navigator: 0, rigger: 0, safety_officer: 0, broker: 0 },
    }
}

impl Default for CareerStats {
    fn default() -> (r: Self)
        ensures
            r == empty_stats(),
    {
        let r = CareerStats {
            voyages_completed: 0,
            safe_returns: 0,
            targets_recovered: 0,
            gross_haul_value: 0,
            highest_haul_value: 0,
            contracts_completed: 0,
            sections_cleared: 0,
            repairs_completed: 0,
            systems_restored: 0,
            repair_spend: 0,
            fuel_units_bought: 0,
            refuel_spend: 0,
            contract_income: 0,
            insurance_claims: 0,
            sale_income: 0,
            module_changes: 0,
            module_spend: 0,
            contract_streak: 0,
            best_contract_streak: 0,
            contract_failures: 0,
            cargo_bay_upgrades: 0,
            field_power_cells_fabricated: 0,
            crew_experience: CrewExperience { deckhand: 0, navigator: 0, rigger: 0, safety_officer: 0, broker: 0 },
        };
        r
    }
}

/// What one voyage adds to the dossier.
pub open spec fn after_voyage(s: CareerStats, record: VoyageRecord) -> CareerStats {
    let value = nonneg(record.recovered_value as int);
    CareerStats {
        voyages_completed: sat_u32(s.voyages_completed + 1),
        safe_returns: if record.risk_outcome == RiskOutcome::OrdinaryReturn {
            sat_u32(s.safe_returns + 1)
        } else {
            s.safe_returns
        },
        targets_recovered: sat_u32(s.targets_recovered + record.recovered_count),
        gross_haul_value: sat_i64(s.gross_haul_value + value),
        highest_haul_value: if s.highest_haul_value >= value {
            s.highest_haul_value
        } else {
            value as i64
        },
        contracts_completed: if record.contract_completed {
            sat_u32(s.contracts_completed + 1)
        } else {
            s.contracts_completed
        },
        sections_cleared: sat_u32(s.sections_cleared + (record.cleared_sections.len() as u32)),
        ..s
    }
}

/// The dossier rebuilt from a voyage log.
pub open spec fn from_log(records: Seq<VoyageRecord>) -> CareerStats
    decreases records.len(),
{
    if records.len() == 0 {
        empty_stats()
    } else {
        let before = from_log(records.drop_last());
        let v = after_voyage(before, records.last());
        CareerStats {
            insurance_claims: sat_i64(v.insurance_claims + nonneg(records.last().insurance_payout as int)),
            ..v
        }
    }
}

impl CareerStats {
    pub open spec fn is_empty_spec(&self) -> bool {
        &&& self.voyages_completed == 0
        &&& self.safe_returns == 0
        &&& self.targets_recovered == 0
        &&& self.gross_haul_value == 0
        &&& self.highest_haul_value == 0
        &&& self.contracts_completed == 0
        &&& self.sections_cleared == 0
        &&& self.repairs_completed == 0
        &&& self.systems_restored == 0
        &&& self.repair_spend == 0
        &&& self.fuel_units_bought == 0
        &&& self.refuel_spend == 0
        &&& self.contract_income == 0
        &&& self.insurance_claims == 0
        &&& self.sale_income == 0
        &&& self.module_changes == 0
        &&& self.module_spend == 0
        &&& self.contract_streak == 0
        &&& self.best_contract_streak == 0
        &&& self.contract_failures == 0
        &&& self.cargo_bay_upgrades == 0
        &&& self.field_power_cells_fabricated == 0
        &&& self.crew_experience == CrewExperience {
            deckhand: 0,
            navigator: 0,
            rigger: 0,
            safety_officer: 0,
            broker: 0,
        }
    }

    /// Whether nothing has been recorded yet.
    pub fn is_empty(&self) -> (r: bool)
        ensures
            r == self.is_empty_spec(),
    {
        let c = self.crew_experience;
        let crew_idle = c.deckhand == 0 && c.navigator == 0 && c.rigger == 0 && c.safety_officer
            == 0 && c.broker == 0;
        crew_idle && self.voyages_completed == 0 && self.safe_returns == 0
            && self.targets_recovered == 0 && self.gross_haul_value == 0
            && self.highest_haul_value == 0 && self.contracts_completed == 0
            && self.sections_cleared == 0 && self.repairs_completed == 0
            && self.systems_restored == 0 && self.repair_spend == 0 && self.fuel_units_bought == 0
            && self.refuel_spend == 0 && self.contract_income == 0 && self.insurance_claims == 0
            && self.sale_income == 0 && self.module_changes == 0 && self.module_spend == 0
            && self.contract_streak == 0 && self.best_contract_streak == 0
            && self.contract_failures == 0 && self.cargo_bay_upgrades == 0
            && self.field_power_cells_fabricated == 0
    }

    /// Files one completed voyage.
    pub fn record_voyage(&mut self, record: &VoyageRecord)
        ensures
            *final(self) == after_voyage(*old(self), *record),
    {
        self.voyages_completed = self.voyages_completed.saturating_add(1);
        if record.risk_outcome == RiskOutcome::OrdinaryReturn {
            self.safe_returns = self.safe_returns.saturating_add(1);
        }
        self.targets_recovered = self.targets_recovered.saturating_add(record.recovered_count);
        let value = if record.recovered_value < 0 {
            0
        } else {
            record.recovered_value
        };
        self.gross_haul_value = saturating_add_i64(self.gross_haul_value, value);
        if self.highest_haul_value < value {
            self.highest_haul_value = value;
        }
        if record.contract_completed {
            self.contracts_completed = self.contracts_completed.saturating_add(1);
        }
        self.sections_cleared = self.sections_cleared.saturating_add(
            record.cleared_sections.len() as u32,
        );
    }

    /// Rebuilds the dossier of an older save from its voyage log.
    pub fn from_voyage_log(records: &[VoyageRecord]) -> (r: Self)
        ensures
            r == from_log(records@),
    {
        let mut stats = CareerStats::default();
        let mut i: usize = 0;
        while i < records.len()
            invariant
                i <= records.len(),
                stats == from_log(records@.take(i as int)),
            decreases records.len() - i,
        {
            proof {
                assert(records@.take(i + 1).drop_last() =~= records@.take(i as int));
                assert(records@.take(i + 1).last() == records@[i as int]);
            }
            stats.record_voyage(&records[i]);
            stats.record_insurance_claim(records[i].insurance_payout);
            i = i + 1;
        }
        proof {
            assert(records@.take(records.len() as int) =~= records@);
        }
        stats
    }

    pub fn record_repair(&mut self, total_cost: i64, systems_restored: usize)
        ensures
            *final(self) == (CareerStats {
                repairs_completed: sat_u32(old(self).repairs_completed + 1),
                systems_restored: sat_u32(old(self).systems_restored + (systems_restored as u32)),
                repair_spend: sat_i64(old(self).repair_spend + nonneg(total_cost as int)),
                ..*old(self)
            }),
    {
        self.repairs_completed = self.repairs_completed.saturating_add(1);
        self.systems_restored = self.systems_restored.saturating_add(systems_restored as u32);
        let cost = if total_cost < 0 {
            0
        } else {
            total_cost
        };
        self.repair_spend = saturating_add_i64(self.repair_spend, cost);
    }

    pub fn record_refuel(&mut self, units: i32, total_cost: i64)
        ensures
            *final(self) == (CareerStats {
                fuel_units_bought: sat_i32(old(self).fuel_units_bought + nonneg(units as int)),
                refuel_spend: sat_i64(old(self).refuel_spend + nonneg(total_cost as int)),
                ..*old(self)
            }),
    {
        let units = if units < 0 {
            0
        } else {
            units
        };
        self.fuel_units_bought = saturating_add_i32(self.fuel_units_bought, units);
        let cost = if total_cost < 0 {
            0
        } else {
            total_cost
        };
        self.refuel_spend = saturating_add_i64(self.refuel_spend, cost);
    }

    pub fn record_contract_income(&mut self, total: i64)
        ensures
            *final(self) == (CareerStats {
                contract_income: sat_i64(old(self).contract_income + nonneg(total as int)),
                ..*old(self)
            }),
    {
        let total = if total < 0 {
            0
        } else {
            total
        };
        self.contract_income = saturating_add_i64(self.contract_income, total);
    }

    pub fn record_insurance_claim(&mut self, total: i64)
        ensures
            *final(self) == (CareerStats {
                insurance_claims: sat_i64(old(self).insurance_claims + nonneg(total as int)),
                ..*old(self)
            }),
    {
        let total = if total < 0 {
            0
        } else {
            total
        };
        self.insurance_claims = saturating_add_i64(self.insurance_claims, total);
    }

    pub fn record_sale(&mut self, total: i64)
        ensures
            *final(self) == (CareerStats {
                sale_income: sat_i64(old(self).sale_income + nonneg(total as int)),
                ..*old(self)
            }),
    {
        let total = if total < 0 {
            0
        } else {
            total
        };
        self.sale_income = saturating_add_i64(self.sale_income, total);
    }

    pub fn record_module_change(&mut self, total_cost: i64)
        ensures
            *final(self) == (CareerStats {
                module_changes: sat_u32(old(self).module_changes + 1),
                module_spend: sat_i64(old(self).module_spend + nonneg(total_cost as int)),
                ..*old(self)
            }),
    {
        self.module_changes = self.module_changes.saturating_add(1);
        let cost = if total_cost < 0 {
            0
        } else {
            total_cost
        };
        self.module_spend = saturating_add_i64(self.module_spend, cost);
    }

    pub fn record_cargo_bay_upgrade(&mut self)
        ensures
            *final(self) == (CareerStats {
                cargo_bay_upgrades: sat_u32(old(self).cargo_bay_upgrades + 1),
                ..*old(self)
            }),
    {
        self.cargo_bay_upgrades = self.cargo_bay_upgrades.saturating_add(1);
    }

    pub fn record_field_power_cell_fabricated(&mut self)
        ensures
            *final(self) == (CareerStats {
                field_power_cells_fabricated: sat_u32(old(self).field_power_cells_fabricated + 1),
                ..*old(self)
            }),
    {
        self.field_power_cells_fabricated = self.field_power_cells_fabricated.saturating_add(1);
    }

    /// Extends the contract streak; returns the new streak and its bonus.
    pub fn record_contract_success(&mut self) -> (r: (u32, i64))
        ensures
            final(self).contract_streak == sat_u32(old(self).contract_streak + 1),
            final(self).best_contract_streak == if old(self).best_contract_streak >= final(self).contract_streak {
                old(self).best_contract_streak
            } else {
                final(self).contract_streak
            },
            *final(self) == (CareerStats {
                contract_streak: final(self).contract_streak,
                best_contract_streak: final(self).best_contract_streak,
                ..*old(self)
            }),
            r.0 == final(self).contract_streak,
            r.1 == streak_bonus_spec(r.0 as int),
    {
        self.contract_streak = self.contract_streak.saturating_add(1);
        if self.best_contract_streak < self.contract_streak {
            self.best_contract_streak = self.contract_streak;
        }
        let streak = self.contract_streak;
        (streak, streak_bonus(streak))
    }

    /// Breaks the contract streak and files the failure.
    pub fn record_contract_failure(&mut self)
        ensures
            *final(self) == (CareerStats {
                contract_streak: 0,
                contract_failures: sat_u32(old(self).contract_failures + 1),
                ..*old(self)
            }),
    {
        self.contract_streak = 0;
        self.contract_failures = self.contract_failures.saturating_add(1);
    }

    /// The bonus the next completed contract would pay.
    pub fn next_contract_streak_bonus(&self) -> (r: i64)
        ensures
            r == streak_bonus_spec(sat_u32(self.contract_streak + 1) as int),
    {
        streak_bonus(self.contract_streak.saturating_add(1))
    }

    pub open spec fn awards_spec(&self) -> Seq<CareerAward> {
        let a = if self.voyages_completed >= 1 {
            seq![CareerAward::FirstReturn]
        } else {
            Seq::empty()
        };
        let b = if self.best_contract_streak >= AWARD_STREAK {
            a.push(CareerAward::ContractStreak)
        } else {
            a
        };
        if self.sections_cleared >= AWARD_SECTIONS {
            b.push(CareerAward::SectionSweeper)
        } else {
            b
        }
    }

    /// Commendations the dossier has earned, in filing order.
    pub fn earned_awards(&self) -> (r: Vec<CareerAward>)
        ensures
            r@ == self.awards_spec(),
    {
        let mut awards: Vec<CareerAward> = Vec::new();
        if self.voyages_completed >= 1 {
            awards.push(CareerAward::FirstReturn);
        }
        if self.best_contract_streak >= AWARD_STREAK {
            awards.push(CareerAward::ContractStreak);
        }
        if self.sections_cleared >= AWARD_SECTIONS {
            awards.push(CareerAward::SectionSweeper);
        }
        proof {
            let a = if self.voyages_completed >= 1 {
                seq![CareerAward::FirstReturn]
            } else {
                Seq::empty()
            };
            assert(self.voyages_completed >= 1 ==> a =~= seq![CareerAward::FirstReturn]);
        }
        assert(awards@ =~= self.awards_spec());
        awards
    }

    pub open spec fn valid_spec(&self) -> bool {
        !(self.safe_returns > self.voyages_completed || self.contracts_completed
            > self.voyages_completed || self.highest_haul_value < 0 || self.gross_haul_value < 0
            || self.highest_haul_value > self.gross_haul_value || self.repair_spend < 0
            || self.fuel_units_bought < 0 || self.refuel_spend < 0 || self.contract_income < 0
            || self.insurance_claims < 0 || self.sale_income < 0 || self.module_spend < 0)
    }

    /// Refuses totals no career could have produced.
    pub fn validate(&self) -> (r: Result<(), String>)
        ensures
            r is Ok <==> self.valid_spec(),
            r matches Err(e) ==> e@ == "save contains invalid career totals"@,
    {
        if self.safe_returns > self.voyages_completed || self.contracts_completed
            > self.voyages_completed || self.highest_haul_value < 0 || self.gross_haul_value < 0
            || self.highest_haul_value > self.gross_haul_value || self.repair_spend < 0
            || self.fuel_units_bought < 0 || self.refuel_spend < 0 || self.contract_income < 0
            || self.insurance_claims < 0 || self.sale_income < 0 || self.module_spend < 0 {
            return Err("save contains invalid career totals".to_owned());
        }
        Ok(())
    }
}

} // verus!
