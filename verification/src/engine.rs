//! Voyage arithmetic shared by the session rules: route plans, intelligence,
//! risk outcomes, market cycles, insurance, refining and ship stats.

use crate::data::{
    GameData, InsuranceTuning, MarketTuning, ModuleData, ReconnaissanceTuning, RefineryTuning,
    RiskTuning, SalvageObjectData, SiteData, VoyagePlanTuning,
};
use crate::layout::ShipLayout;
use crate::text::views;
use vstd::prelude::*;

verus! {

/// How a return voyage ended.
#[derive(Clone, Copy, Debug, PartialEq, Eq, Structural)]
pub enum RiskOutcome {
    OrdinaryReturn,
    DamagedModule,
    LostSalvage,
    EmergencyRepair,
    ForcedAbandon,
}

/// The resolved return risk of a voyage.
#[derive(Clone, Debug)]
pub struct RiskResult {
    pub outcome: RiskOutcome,
    pub danger_score: i32,
    pub explanation: String,
}

impl RiskResult {
    pub fn duplicate(&self) -> (r: Self)
        ensures
            r == *self,
    {
        RiskResult {
            outcome: self.outcome,
            danger_score: self.danger_score,
            explanation: self.explanation.clone(),
        }
    }
}

/// The operating plan chosen for a departure.
#[derive(Clone, Copy, Debug, PartialEq, Eq, Structural)]
pub enum VoyagePlan {
    Standard,
    Cautious,
    Expedited,
}

impl VoyagePlan {
    pub open spec fn label_spec(self) -> Seq<char> {
        match self {
            VoyagePlan::Standard => "STANDARD"@,
            VoyagePlan::Cautious => "CAUTIOUS"@,
            VoyagePlan::Expedited => "EXPEDITED"@,
        }
    }

    pub fn label(self) -> (r: &'static str)
        ensures
            r@ == self.label_spec(),
    {
        match self {
            VoyagePlan::Standard => "STANDARD",
            VoyagePlan::Cautious => "CAUTIOUS",
            VoyagePlan::Expedited => "EXPEDITED",
        }
    }

    pub open spec fn fuel_delta_spec(self, tuning: VoyagePlanTuning) -> int {
        match self {
            VoyagePlan::Standard => 0,
            VoyagePlan::Cautious => tuning.cautious_fuel_delta as int,
            VoyagePlan::Expedited => tuning.expedited_fuel_delta as int,
        }
    }

    pub fn fuel_delta(self, tuning: &VoyagePlanTuning) -> (r: i32)
        ensures
            r == self.fuel_delta_spec(*tuning),
    {
        match self {
            VoyagePlan::Standard => 0,
            VoyagePlan::Cautious => tuning.cautious_fuel_delta,
            VoyagePlan::Expedited => tuning.expedited_fuel_delta,
        }
    }

    pub open spec fn adjust_danger_spec(self, danger: int, tuning: VoyagePlanTuning) -> int {
        let delta = match self {
            VoyagePlan::Standard => 0,
            VoyagePlan::Cautious => tuning.cautious_danger_delta as int,
            VoyagePlan::Expedited => tuning.expedited_danger_delta as int,
        };
        clamp(danger + delta, 0, 100)
    }

    /// Route danger once the plan's adjustment is applied, kept in 0..=100.
    pub fn adjust_danger(self, danger: i32, tuning: &VoyagePlanTuning) -> (r: i32)
        requires
            -100 <= tuning.cautious_danger_delta <= 100,
            -100 <= tuning.expedited_danger_delta <= 100,
            -1_000_000_000 <= danger <= 1_000_000_000,
        ensures
            r == self.adjust_danger_spec(danger as int, *tuning),
    {
        let delta = match self {
            VoyagePlan::Standard => 0,
            VoyagePlan::Cautious => tuning.cautious_danger_delta,
            VoyagePlan::Expedited => tuning.expedited_danger_delta,
        };
        clamp_i32(danger + delta, 0, 100)
    }
}

pub open spec fn clamp(x: int, lo: int, hi: int) -> int {
    if x < lo {
        lo
    } else if x > hi {
        hi
    } else {
        x
    }
}

pub fn clamp_i32(x: i32, lo: i32, hi: i32) -> (r: i32)
    requires
        lo <= hi,
    ensures
        r == clamp(x as int, lo as int, hi as int),
{
    if x < lo {
        lo
    } else if x > hi {
        hi
    } else {
        x
    }
}

pub open spec fn danger_after_intel_spec(danger: int, level: int, tuning: ReconnaissanceTuning) -> int {
    let reduced = danger - level * tuning.danger_reduction_per_level;
    if reduced < 0 {
        0
    } else {
        reduced
    }
}

/// Route danger once `level` route briefs are applied; never below zero.
pub fn danger_after_intel(danger: i32, level: u8, tuning: &ReconnaissanceTuning) -> (r: i32)
    requires
        -1_000_000_000 <= danger <= 1_000_000_000,
        0 <= tuning.danger_reduction_per_level <= 100,
    ensures
        r == danger_after_intel_spec(danger as int, level as int, *tuning),
        0 <= r,
{
    assert(0 <= (level as i32) * tuning.danger_reduction_per_level <= 25500) by (nonlinear_arith)
        requires
            0 <= level <= 255,
            0 <= tuning.danger_reduction_per_level <= 100,
    ;
    let reduced = danger - (level as i32) * tuning.danger_reduction_per_level;
    if reduced < 0 {
        0
    } else {
        reduced
    }
}

/// A priced route brief.
#[derive(Clone, Copy, Debug, PartialEq, Eq)]
pub struct ReconnaissanceQuote {
    pub cost: i64,
    pub next_level: u8,
    pub max_level: u8,
    pub danger_reduction: i32,
}

pub open spec fn reconnaissance_quote_spec(level: u8, tuning: ReconnaissanceTuning) -> Option<
    ReconnaissanceQuote,
> {
    if level >= tuning.max_level {
        None
    } else {
        Some(
            ReconnaissanceQuote {
                cost: (tuning.base_cost + level * tuning.cost_step) as i64,
                next_level: (level + 1) as u8,
                max_level: tuning.max_level,
                danger_reduction: tuning.danger_reduction_per_level,
            },
        )
    }
}

/// The next route brief for a site at `level`, or none at the ceiling.
pub fn reconnaissance_quote_for(level: u8, tuning: &ReconnaissanceTuning) -> (r: Option<
    ReconnaissanceQuote,
>)
    requires
        0 <= tuning.base_cost <= 1_000_000_000,
        0 <= tuning.cost_step <= 1_000_000_000,
    ensures
        r == reconnaissance_quote_spec(level, *tuning),
        r matches Some(q) ==> 0 <= q.cost <= 256_000_000_000,
{
    if level >= tuning.max_level {
        None
    } else {
        assert(0 <= (level as i64) * tuning.cost_step <= 255_000_000_000) by (nonlinear_arith)
            requires
                0 <= level <= 255,
                0 <= tuning.cost_step <= 1_000_000_000,
        ;
        Some(
            ReconnaissanceQuote {
                cost: tuning.base_cost + (level as i64) * tuning.cost_step,
                next_level: level + 1,
                max_level: tuning.max_level,
                danger_reduction: tuning.danger_reduction_per_level,
            },
        )
    }
}

/// A market price for one object in one cycle.
#[derive(Clone, Copy, Debug, PartialEq, Eq)]
pub struct MarketQuote {
    pub base_value: i64,
    pub percent: i64,
    pub sale_value: i64,
}

pub open spec fn market_percent(cycle: u32, tuning: MarketTuning) -> int {
    tuning.cycle_percent@[(cycle as int) % (tuning.cycle_percent.len() as int)] as int
}

pub open spec fn market_quote_spec(object: SalvageObjectData, cycle: u32, tuning: MarketTuning) -> MarketQuote {
    let percent = market_percent(cycle, tuning);
    MarketQuote {
        base_value: object.sale_value,
        percent: percent as i64,
        sale_value: (object.sale_value * percent / 100) as i64,
    }
}

/// The price `object` fetches in market cycle `cycle`.
pub fn quote_for(object: &SalvageObjectData, cycle: u32, tuning: &MarketTuning) -> (r: MarketQuote)
    requires
        1 <= tuning.cycle_percent.len() <= 1000,
        forall|i: int|
            0 <= i < tuning.cycle_percent.len() ==> 0 <= #[trigger] tuning.cycle_percent@[i] <= 1000,
        0 <= object.sale_value <= 1_000_000_000,
    ensures
        r == market_quote_spec(*object, cycle, *tuning),
        0 <= r.sale_value <= 10 * object.sale_value,
{
    let n = tuning.cycle_percent.len();
    let index = (cycle as usize) % n;
    let percent = tuning.cycle_percent[index];
    assert(0 <= percent <= 1000);
    assert(object.sale_value * percent <= 1_000_000_000_000) by (nonlinear_arith)
        requires
            0 <= object.sale_value <= 1_000_000_000,
            0 <= percent <= 1000,
    ;
    assert(object.sale_value * percent >= 0) by (nonlinear_arith)
        requires
            0 <= object.sale_value,
            0 <= percent,
    ;
    let sale = object.sale_value * percent / 100;
    assert(sale <= 10 * object.sale_value) by (nonlinear_arith)
        requires
            0 <= object.sale_value,
            0 <= percent <= 1000,
            sale == object.sale_value * percent / 100,
    ;
    MarketQuote { base_value: object.sale_value, percent, sale_value: sale }
}

/// A coverage premium for one departure.
#[derive(Clone, Copy, Debug, PartialEq, Eq)]
pub struct InsuranceQuote {
    pub danger: i32,
    pub premium: i64,
}

pub open spec fn insurance_quote_for_danger_spec(danger: int, tuning: InsuranceTuning) -> InsuranceQuote {
    InsuranceQuote {
        danger: danger as i32,
        premium: (tuning.base_premium + danger * tuning.premium_per_danger) as i64,
    }
}

/// The premium for covering a route of the given danger (0..=100).
pub fn insurance_quote_for_danger(danger: i32, tuning: &InsuranceTuning) -> (r: InsuranceQuote)
    requires
        0 <= danger <= 100,
        0 <= tuning.base_premium <= 1_000_000_000,
        0 <= tuning.premium_per_danger <= 1_000_000,
    ensures
        r == insurance_quote_for_danger_spec(danger as int, *tuning),
        0 <= r.premium <= 1_100_000_000,
{
    assert(danger * tuning.premium_per_danger <= 100_000_000) by (nonlinear_arith)
        requires
            0 <= danger <= 100,
            0 <= tuning.premium_per_danger <= 1_000_000,
    ;
    assert(danger * tuning.premium_per_danger >= 0) by (nonlinear_arith)
        requires
            0 <= danger,
            0 <= tuning.premium_per_danger,
    ;
    InsuranceQuote {
        danger,
        premium: tuning.base_premium + (danger as i64) * tuning.premium_per_danger,
    }
}

/// The premium for covering a site at its authored danger.
pub fn insurance_quote_for(site: &SiteData, tuning: &InsuranceTuning) -> (r: InsuranceQuote)
    requires
        0 <= site.danger <= 100,
        0 <= tuning.base_premium <= 1_000_000_000,
        0 <= tuning.premium_per_danger <= 1_000_000,
    ensures
        r == insurance_quote_for_danger_spec(site.danger as int, *tuning),
        0 <= r.premium <= 1_100_000_000,
{
    insurance_quote_for_danger(site.danger, tuning)
}

pub open spec fn claim_payout_spec(
    outcome: RiskOutcome,
    impacted_value: int,
    emergency_bill: int,
    tuning: InsuranceTuning,
) -> int {
    match outcome {
        RiskOutcome::LostSalvage | RiskOutcome::ForcedAbandon => impacted_value
            * tuning.claim_percent / 100,
        RiskOutcome::EmergencyRepair => emergency_bill * tuning.claim_percent / 100,
        _ => 0,
    }
}

/// What an insured voyage is paid back for its setback.
pub fn claim_payout(
    outcome: RiskOutcome,
    impacted_value: i64,
    emergency_bill: i64,
    tuning: &InsuranceTuning,
) -> (r: i64)
    requires
        0 <= impacted_value <= 100_000_000_000,
        0 <= emergency_bill <= 100_000_000_000,
        0 <= tuning.claim_percent <= 100,
    ensures
        r == claim_payout_spec(outcome, impacted_value as int, emergency_bill as int, *tuning),
        0 <= r <= 100_000_000_000,
{
    let base = match outcome {
        RiskOutcome::LostSalvage | RiskOutcome::ForcedAbandon => impacted_value,
        RiskOutcome::EmergencyRepair => emergency_bill,
        _ => {
            return 0;
        },
    };
    assert(0 <= base * tuning.claim_percent <= 10_000_000_000_000) by (nonlinear_arith)
        requires
            0 <= base <= 100_000_000_000,
            0 <= tuning.claim_percent <= 100,
    ;
    assert(base * tuning.claim_percent / 100 <= base) by (nonlinear_arith)
        requires
            0 <= base,
            0 <= tuning.claim_percent <= 100,
    ;
    base * tuning.claim_percent / 100
}

pub open spec fn risk_outcome_spec(seed: u64, danger_score: int, tuning: RiskTuning) -> RiskOutcome {
    let total = tuning.ordinary_return_weight + tuning.damaged_module_weight
        + tuning.lost_salvage_weight + tuning.emergency_repair_weight
        + tuning.forced_abandon_weight;
    if danger_score <= tuning.safe_danger_threshold || total == 0 {
        RiskOutcome::OrdinaryReturn
    } else {
        let roll = (seed as int) % total;
        if roll < tuning.ordinary_return_weight {
            RiskOutcome::OrdinaryReturn
        } else if roll < tuning.ordinary_return_weight + tuning.damaged_module_weight {
            RiskOutcome::DamagedModule
        } else if roll < tuning.ordinary_return_weight + tuning.damaged_module_weight
            + tuning.lost_salvage_weight {
            RiskOutcome::LostSalvage
        } else if roll < tuning.ordinary_return_weight + tuning.damaged_module_weight
            + tuning.lost_salvage_weight + tuning.emergency_repair_weight {
            RiskOutcome::EmergencyRepair
        } else {
            RiskOutcome::ForcedAbandon
        }
    }
}

pub open spec fn outcome_text(outcome: RiskOutcome) -> Seq<char> {
    match outcome {
        RiskOutcome::OrdinaryReturn => "The return burn was routine."@,
        RiskOutcome::DamagedModule => "The return burn damaged the ship."@,
        RiskOutcome::LostSalvage => "Debris tore a load loose on the return burn."@,
        RiskOutcome::EmergencyRepair => "The return burn forced an emergency repair."@,
        RiskOutcome::ForcedAbandon => "The crew had to cut a load free to get home."@,
    }
}

/// Resolves the return risk of a voyage from its seed and departure danger.
/// A route at or under the safe threshold always comes home normally; a
/// riskier one draws its outcome from the weighted table with the seed.
pub fn resolve_risk(seed: u64, danger: i32, tuning: &RiskTuning) -> (r: RiskResult)
    requires
        tuning.ordinary_return_weight <= 1000,
        tuning.damaged_module_weight <= 1000,
        tuning.lost_salvage_weight <= 1000,
        tuning.emergency_repair_weight <= 1000,
        tuning.forced_abandon_weight <= 1000,
    ensures
        r.danger_score == clamp(danger as int, 0, 100),
        r.outcome == risk_outcome_spec(seed, r.danger_score as int, *tuning),
        r.explanation@ == outcome_text(r.outcome),
{
    let score = clamp_i32(danger, 0, 100);
    let ordinary = tuning.ordinary_return_weight as u64;
    let damaged = ordinary + tuning.damaged_module_weight as u64;
    let lost = damaged + tuning.lost_salvage_weight as u64;
    let emergency = lost + tuning.emergency_repair_weight as u64;
    let total = emergency + tuning.forced_abandon_weight as u64;
    let outcome = if score <= tuning.safe_danger_threshold || total == 0 {
        RiskOutcome::OrdinaryReturn
    } else {
        let roll = seed % total;
        if roll < ordinary {
            RiskOutcome::OrdinaryReturn
        } else if roll < damaged {
            RiskOutcome::DamagedModule
        } else if roll < lost {
            RiskOutcome::LostSalvage
        } else if roll < emergency {
            RiskOutcome::EmergencyRepair
        } else {
            RiskOutcome::ForcedAbandon
        }
    };
    let explanation = match outcome {
        RiskOutcome::OrdinaryReturn => "The return burn was routine.",
        RiskOutcome::DamagedModule => "The return burn damaged the ship.",
        RiskOutcome::LostSalvage => "Debris tore a load loose on the return burn.",
        RiskOutcome::EmergencyRepair => "The return burn forced an emergency repair.",
        RiskOutcome::ForcedAbandon => "The crew had to cut a load free to get home.",
    };
    RiskResult { outcome, danger_score: score, explanation: explanation.to_owned() }
}

/// The salvage a site still offers: its candidates minus what was removed,
/// in authored order.
pub open spec fn salvage_spec(site: SiteData, removed: Seq<Seq<char>>) -> Seq<Seq<char>> {
    views(site.candidate_salvage@).filter(|id: Seq<char>| !removed.contains(id))
}

pub fn generate_salvage(site: &SiteData, removed: &Vec<String>) -> (r: Vec<String>)
    ensures
        views(r@) == salvage_spec(*site, views(removed@)),
{
    let mut out: Vec<String> = Vec::new();
    let mut i: usize = 0;
    let ghost pred = |id: Seq<char>| !views(removed@).contains(id);
    while i < site.candidate_salvage.len()
        invariant
            i <= site.candidate_salvage.len(),
            pred == (|id: Seq<char>| !views(removed@).contains(id)),
            views(out@) == views(site.candidate_salvage@).take(i as int).filter(pred),
        decreases site.candidate_salvage.len() - i,
    {
        proof {
            reveal_with_fuel(Seq::<_>::filter, 1);
            assert(views(site.candidate_salvage@).take(i + 1).drop_last() =~= views(
                site.candidate_salvage@,
            ).take(i as int));
            assert(views(site.candidate_salvage@).take(i + 1).last()
                == site.candidate_salvage@[i as int]@);
        }
        let ghost before = out@;
        if !crate::text::has_id(removed, site.candidate_salvage[i].as_str()) {
            out.push(site.candidate_salvage[i].clone());
            proof {
                assert(views(out@) =~= views(before).push(site.candidate_salvage@[i as int]@));
            }
        }
        i = i + 1;
    }
    proof {
        assert(views(site.candidate_salvage@).take(site.candidate_salvage.len() as int) =~= views(
            site.candidate_salvage@,
        ));
    }
    out
}

/// Which raw material a refinery batch consumes.
#[derive(Clone, Copy, Debug, PartialEq, Eq, Structural)]
pub enum RefineryResource {
    Alloy,
    Electronics,
}

impl RefineryResource {
    pub open spec fn label_spec(self) -> Seq<char> {
        match self {
            RefineryResource::Alloy => "Alloy"@,
            RefineryResource::Electronics => "Electronics"@,
        }
    }

    pub fn label(self) -> (r: &'static str)
        ensures
            r@ == self.label_spec(),
    {
        match self {
            RefineryResource::Alloy => "Alloy",
            RefineryResource::Electronics => "Electronics",
        }
    }
}

/// One refinery batch: what it needs, what it pays, what is in stock.
#[derive(Clone, Copy, Debug, PartialEq, Eq)]
pub struct RefineryQuote {
    pub batch_size: i32,
    pub payout: i64,
    pub available: i32,
}

impl RefineryQuote {
    pub open spec fn can_refine_spec(self) -> bool {
        self.batch_size > 0 && self.available >= self.batch_size
    }

    pub fn can_refine(self) -> (r: bool)
        ensures
            r == self.can_refine_spec(),
    {
        self.batch_size > 0 && self.available >= self.batch_size
    }
}

pub open spec fn refinery_quote_spec(
    resource: RefineryResource,
    alloy: i32,
    electronics: i32,
    tuning: RefineryTuning,
) -> RefineryQuote {
    match resource {
        RefineryResource::Alloy => RefineryQuote {
            batch_size: tuning.alloy_batch,
            payout: tuning.alloy_payout,
            available: alloy,
        },
        RefineryResource::Electronics => RefineryQuote {
            batch_size: tuning.electronics_batch,
            payout: tuning.electronics_payout,
            available: electronics,
        },
    }
}

pub fn refinery_quote_for(
    resource: RefineryResource,
    alloy: i32,
    electronics: i32,
    tuning: &RefineryTuning,
) -> (r: RefineryQuote)
    ensures
        r == refinery_quote_spec(resource, alloy, electronics, *tuning),
{
    match resource {
        RefineryResource::Alloy => RefineryQuote {
            batch_size: tuning.alloy_batch,
            payout: tuning.alloy_payout,
            available: alloy,
        },
        RefineryResource::Electronics => RefineryQuote {
            batch_size: tuning.electronics_batch,
            payout: tuning.electronics_payout,
            available: electronics,
        },
    }
}

/// What the online modules add to the ship.
#[derive(Clone, Copy, Debug, PartialEq, Eq, Structural)]
pub struct ModuleStats {
    pub power: i32,
    pub fuel_capacity: i32,
    pub hull: i32,
    pub external_capacity: i32,
    pub drone_support: i32,
}

pub open spec fn zero_stats() -> ModuleStats {
    ModuleStats { power: 0, fuel_capacity: 0, hull: 0, external_capacity: 0, drone_support: 0 }
}

pub open spec fn add_stats(s: ModuleStats, m: ModuleData) -> ModuleStats {
    ModuleStats {
        power: (s.power + m.power) as i32,
        fuel_capacity: (s.fuel_capacity + m.fuel_capacity) as i32,
        hull: (s.hull + m.hull) as i32,
        external_capacity: (s.external_capacity + m.external_capacity) as i32,
        drone_support: (s.drone_support + m.drone_support) as i32,
    }
}

/// Whether a placed item counts as an online module: permanent, a known
/// module, and not marked damaged.
pub open spec fn online(data: GameData, damaged: Seq<Seq<char>>, item: crate::layout::PlacedItem) -> bool {
    item.permanent && !damaged.contains(item.id@) && data.module_spec(item.id@) is Some
}

/// Stats summed over the first `n` placements.
pub open spec fn stats_upto(
    data: GameData,
    damaged: Seq<Seq<char>>,
    placements: Seq<crate::layout::PlacedItem>,
) -> ModuleStats
    decreases placements.len(),
{
    if placements.len() == 0 {
        zero_stats()
    } else {
        let rest = stats_upto(data, damaged, placements.drop_last());
        let item = placements.last();
        if online(data, damaged, item) {
            add_stats(rest, data.module_spec(item.id@).unwrap())
        } else {
            rest
        }
    }
}

pub open spec fn stats_bounded(s: ModuleStats, n: int) -> bool {
    &&& 0 <= s.power <= 1000 * n
    &&& 0 <= s.fuel_capacity <= 1000 * n
    &&& 0 <= s.hull <= 1000 * n
    &&& 0 <= s.external_capacity <= 1000 * n
    &&& 0 <= s.drone_support <= 1000 * n
}

/// The stats of a layout: every online permanent module counted once per
/// placement.
pub fn stats_from_layout(layout: &ShipLayout, data: &GameData, damaged: &Vec<String>) -> (r:
    ModuleStats)
    requires
        data.wf(),
        layout.placements.len() <= 4096,
    ensures
        r == stats_upto(*data, views(damaged@), layout.placements@),
        stats_bounded(r, layout.placements.len() as int),
{
    let mut stats = ModuleStats {
        power: 0,
        fuel_capacity: 0,
        hull: 0,
        external_capacity: 0,
        drone_support: 0,
    };
    let mut i: usize = 0;
    while i < layout.placements.len()
        invariant
            i <= layout.placements.len(),
            layout.placements.len() <= 4096,
            data.wf(),
            stats == stats_upto(*data, views(damaged@), layout.placements@.take(i as int)),
            stats_bounded(stats, i as int),
        decreases layout.placements.len() - i,
    {
        proof {
            assert(layout.placements@.take(i + 1).drop_last() =~= layout.placements@.take(i as int));
            assert(layout.placements@.take(i + 1).last() == layout.placements@[i as int]);
        }
        let item = &layout.placements[i];
        if item.permanent && !crate::text::has_id(damaged, item.id.as_str()) {
            match data.module(item.id.as_str()) {
                Some(m) => {
                    stats = ModuleStats {
                        power: stats.power + m.power,
                        fuel_capacity: stats.fuel_capacity + m.fuel_capacity,
                        hull: stats.hull + m.hull,
                        external_capacity: stats.external_capacity + m.external_capacity,
                        drone_support: stats.drone_support + m.drone_support,
                    };
                },
                None => {},
            }
        }
        i = i + 1;
    }
    proof {
        assert(layout.placements@.take(layout.placements.len() as int) =~= layout.placements@);
    }
    stats
}

} // verus!
