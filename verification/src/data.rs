//! The authored catalog the session rules read: wreck sites and their
//! sections, salvage objects, ship modules and the tuning tables.

use crate::layout::{Footprint, GridPosition};
use vstd::prelude::*;

verus! {

/// Bound on every authored amount of credits, so that sums of a few of them
/// and the session's wallet stay far inside `i64`.
pub const AUTHORED_LIMIT: i64 = 1_000_000_000;

/// A catalog entry that is found by its identifier.
pub trait Keyed {
    spec fn key(&self) -> Seq<char>;

    fn key_text(&self) -> (r: &String)
        ensures
            r@ == self.key(),
    ;
}

/// Whether `i` is the first position of `s` holding key `k`.
pub open spec fn first_match<T: Keyed>(s: Seq<T>, k: Seq<char>, i: int) -> bool {
    &&& 0 <= i < s.len()
    &&& s[i].key() == k
    &&& forall|j: int| 0 <= j < i ==> s[j].key() != k
}

pub open spec fn has_key<T: Keyed>(s: Seq<T>, k: Seq<char>) -> bool {
    exists|i: int| 0 <= i < s.len() && s[i].key() == k
}

/// The first position holding key `k` (meaningful when `has_key`).
pub open spec fn key_index<T: Keyed>(s: Seq<T>, k: Seq<char>) -> int {
    choose|i: int| first_match(s, k, i)
}

/// The entry found under key `k`: the first one that carries it.
pub open spec fn keyed<T: Keyed>(s: Seq<T>, k: Seq<char>) -> Option<T> {
    if has_key(s, k) {
        Some(s[key_index(s, k)])
    } else {
        None
    }
}

pub proof fn lemma_first_match_unique<T: Keyed>(s: Seq<T>, k: Seq<char>, i: int)
    requires
        first_match(s, k, i),
    ensures
        has_key(s, k),
        key_index(s, k) == i,
        keyed(s, k) == Some(s[i]),
{
    assert(first_match(s, k, i));
    let w = key_index(s, k);
    assert(first_match(s, k, w));
    if w < i {
        assert(s[w].key() != k);
    }
    if w > i {
        assert(s[i].key() != k);
    }
}

/// Position of the first entry carrying `id`.
pub fn find_keyed<T: Keyed>(v: &Vec<T>, id: &str) -> (r: Option<usize>)
    ensures
        match r {
            Some(i) => i < v.len() && first_match(v@, id@, i as int) && keyed(v@, id@) == Some(
                v@[i as int],
            ),
            None => !has_key(v@, id@) && keyed(v@, id@) is None,
        },
{
    let key = id.to_owned();
    let mut i: usize = 0;
    while i < v.len()
        invariant
            i <= v.len(),
            key@ == id@,
            forall|j: int| 0 <= j < i ==> v@[j].key() != id@,
        decreases v.len() - i,
    {
        if *v[i].key_text() == key {
            proof {
                lemma_first_match_unique(v@, id@, i as int);
            }
            return Some(i);
        }
        i = i + 1;
    }
    None
}

/// One section of a wreck that the workboat can enter.
#[derive(Clone, Debug)]
pub struct WreckSectionData {
    pub id: String,
    pub display_name: String,
    pub candidate_targets: Vec<String>,
    pub clearance_reward: i64,
    pub connected_sections: Vec<String>,
    pub required_capability: Option<String>,
    pub arrival_text: String,
}

/// An authored wreck site.
#[derive(Clone, Debug)]
pub struct SiteData {
    pub id: String,
    pub display_name: String,
    pub danger: i32,
    pub fuel_cost: i32,
    pub condition: i32,
    pub contract_target: Option<String>,
    pub contract_reward: i64,
    pub candidate_salvage: Vec<String>,
    pub sections: Vec<WreckSectionData>,
}

/// An authored piece of salvage. Its mass is kept in tenths of a ton.
#[derive(Clone, Debug)]
pub struct SalvageObjectData {
    pub id: String,
    pub display_name: String,
    pub workspace_name: String,
    pub footprint: Footprint,
    pub rotatable: bool,
    pub transfer_mode: String,
    pub sale_value: i64,
    pub alloy_yield: i32,
    pub electronics_yield: i32,
    pub required_capability: Option<String>,
    pub hazard: Option<String>,
    pub mass_tenths: i32,
    pub energy_cost: i32,
    pub integrity: i32,
    pub extraction_difficulty: i32,
    pub install_module_id: Option<String>,
}

/// An authored ship module with what it adds to the ship when online.
#[derive(Clone, Debug)]
pub struct ModuleData {
    pub id: String,
    pub display_name: String,
    pub footprint: Footprint,
    pub purchase_cost: i64,
    pub remove_cost: i64,
    pub unlock_credits: i64,
    pub capability: Option<String>,
    pub power: i32,
    pub fuel_capacity: i32,
    pub hull: i32,
    pub external_capacity: i32,
    pub drone_support: i32,
    pub install_cost: i64,
}

/// A module that a new ship starts with, and where it sits.
#[derive(Clone, Debug)]
pub struct StartingModule {
    pub module_id: String,
    pub position: GridPosition,
    pub rotation: u8,
}

#[derive(Clone, Debug)]
pub struct RiskTuning {
    pub safe_danger_threshold: i32,
    pub ordinary_return_weight: u32,
    pub damaged_module_weight: u32,
    pub lost_salvage_weight: u32,
    pub emergency_repair_weight: u32,
    pub forced_abandon_weight: u32,
    pub external_cargo_risk_per_item: i32,
}

#[derive(Clone, Debug)]
pub struct ReconnaissanceTuning {
    pub max_level: u8,
    pub base_cost: i64,
    pub cost_step: i64,
    pub danger_reduction_per_level: i32,
}

#[derive(Clone, Debug)]
pub struct InsuranceTuning {
    pub base_premium: i64,
    pub premium_per_danger: i64,
    pub claim_percent: i64,
}

#[derive(Clone, Debug)]
pub struct MarketTuning {
    /// Sale price percentage for each market cycle, repeating.
    pub cycle_percent: Vec<i64>,
}

#[derive(Clone, Debug)]
pub struct VoyagePlanTuning {
    pub cautious_fuel_delta: i32,
    pub cautious_danger_delta: i32,
    pub expedited_fuel_delta: i32,
    pub expedited_danger_delta: i32,
}

#[derive(Clone, Debug)]
pub struct MaintenanceTuning {
    pub base_wear_per_voyage: i32,
    pub setback_wear: i32,
    pub external_load_wear: i32,
    pub power_cycle_wear: i32,
    pub danger_per_wear_band: i32,
    pub price_per_wear: i64,
}

#[derive(Clone, Debug)]
pub struct RefineryTuning {
    pub alloy_batch: i32,
    pub alloy_payout: i64,
    pub electronics_batch: i32,
    pub electronics_payout: i64,
}

/// Operator-facing text for the salvage workspace.
#[derive(Clone, Debug)]
pub struct SalvageUiCopy {
    pub transfer_busy: String,
    pub choose_destination: String,
    pub transfer_complete: String,
    pub clamps_full: String,
    pub hold_full: String,
    pub depleted_departure: String,
}

/// How a new wreck lead is sought from port: the free local lead, or a
/// paid specialist lead.
#[derive(Clone, Copy, Debug, PartialEq, Eq, Structural)]
pub enum LeadKind {
    Local,
    Specialist,
}

/// A pool of wrecks that leads are drawn from, and the standing it needs.
#[derive(Clone, Debug)]
pub struct DiscoveryPool {
    pub specialist: bool,
    pub minimum_reputation: i32,
}

/// The port's texts for wreck discovery.
#[derive(Clone, Debug)]
pub struct DiscoveryCopy {
    pub busy: String,
    pub full: String,
    pub locked: String,
    pub unaffordable: String,
    pub starter_ready: String,
}

/// How wreck discovery is tuned: how many wrecks may be listed at once,
/// what a specialist lead costs, the pools, and the port's texts.
#[derive(Clone, Debug)]
pub struct DiscoveryTuning {
    pub active_limit: usize,
    pub specialist_cost: i64,
    pub pools: Vec<DiscoveryPool>,
    pub copy: DiscoveryCopy,
}

#[derive(Clone, Debug)]
pub struct GameConfig {
    pub version: String,
    pub grid_width: i32,
    pub grid_height: i32,
    pub starting_credits: i64,
    pub starting_fuel: i32,
    pub max_fuel: i32,
    pub max_hull: i32,
    pub starting_modules: Vec<StartingModule>,
    pub safe_return_buffer: i32,
    pub refuel_price_per_unit: i32,
    pub repair_price_per_hull: i32,
    pub module_repair_price: i32,
    pub progression_credit_threshold: i64,
    pub workspace_scan_energy_cost: i32,
    pub risk: RiskTuning,
    pub reconnaissance: ReconnaissanceTuning,
    pub insurance: InsuranceTuning,
    pub market: MarketTuning,
    pub voyage_plan: VoyagePlanTuning,
    pub maintenance: MaintenanceTuning,
    pub refinery: RefineryTuning,
}

/// The whole authored catalog.
#[derive(Clone, Debug)]
pub struct GameData {
    pub sites: Vec<SiteData>,
    pub salvage_objects: Vec<SalvageObjectData>,
    pub modules: Vec<ModuleData>,
    pub config: GameConfig,
    pub salvage_ui: SalvageUiCopy,
    pub discovery: DiscoveryTuning,
}

impl Keyed for SiteData {
    open spec fn key(&self) -> Seq<char> {
        self.id@
    }

    fn key_text(&self) -> (r: &String) {
        &self.id
    }
}

impl Keyed for WreckSectionData {
    open spec fn key(&self) -> Seq<char> {
        self.id@
    }

    fn key_text(&self) -> (r: &String) {
        &self.id
    }
}

impl Keyed for SalvageObjectData {
    open spec fn key(&self) -> Seq<char> {
        self.id@
    }

    fn key_text(&self) -> (r: &String) {
        &self.id
    }
}

impl Keyed for ModuleData {
    open spec fn key(&self) -> Seq<char> {
        self.id@
    }

    fn key_text(&self) -> (r: &String) {
        &self.id
    }
}

pub open spec fn amount(x: int) -> bool {
    0 <= x <= AUTHORED_LIMIT
}

impl WreckSectionData {
    pub open spec fn wf(&self) -> bool {
        &&& amount(self.clearance_reward as int)
        &&& self.candidate_targets.len() <= 1000
    }
}

impl SiteData {
    pub open spec fn wf(&self) -> bool {
        &&& 0 <= self.danger <= 100
        &&& 0 <= self.fuel_cost <= 1000
        &&& 0 <= self.condition <= 100
        &&& amount(self.contract_reward as int)
        &&& self.sections.len() <= 1000
        &&& self.candidate_salvage.len() <= 1000
        &&& forall|i: int| 0 <= i < self.sections.len() ==> #[trigger] self.sections@[i].wf()
    }
}

impl SalvageObjectData {
    pub open spec fn wf(&self) -> bool {
        &&& amount(self.sale_value as int)
        &&& 0 <= self.alloy_yield <= 1000
        &&& 0 <= self.electronics_yield <= 1000
        &&& 0 <= self.mass_tenths <= 1_000_000
        &&& 0 <= self.energy_cost <= 1000
        &&& self.footprint.wf()
    }
}

impl ModuleData {
    pub open spec fn wf(&self) -> bool {
        &&& amount(self.purchase_cost as int)
        &&& amount(self.remove_cost as int)
        &&& amount(self.unlock_credits as int)
        &&& amount(self.install_cost as int)
        &&& 0 <= self.power <= 1000
        &&& 0 <= self.fuel_capacity <= 1000
        &&& 0 <= self.hull <= 1000
        &&& 0 <= self.external_capacity <= 1000
        &&& 0 <= self.drone_support <= 1000
        &&& self.footprint.wf()
    }
}

impl GameConfig {
    pub open spec fn wf(&self) -> bool {
        &&& 1 <= self.grid_width <= 64
        &&& 1 <= self.grid_height <= 64
        &&& amount(self.starting_credits as int)
        &&& 0 <= self.starting_fuel <= 1000
        &&& 0 <= self.max_fuel <= 1000
        &&& 1 <= self.max_hull <= 1000
        &&& 0 <= self.safe_return_buffer <= 1000
        &&& 1 <= self.refuel_price_per_unit <= 1000
        &&& 0 <= self.repair_price_per_hull <= 1000
        &&& 0 <= self.module_repair_price <= 1000
        &&& amount(self.progression_credit_threshold as int)
        &&& 0 <= self.workspace_scan_energy_cost <= 1000
        &&& 0 <= self.risk.safe_danger_threshold <= 100
        &&& self.risk.ordinary_return_weight <= 1000
        &&& self.risk.damaged_module_weight <= 1000
        &&& self.risk.lost_salvage_weight <= 1000
        &&& self.risk.emergency_repair_weight <= 1000
        &&& self.risk.forced_abandon_weight <= 1000
        &&& 0 <= self.risk.external_cargo_risk_per_item <= 100
        &&& self.reconnaissance.max_level <= 10
        &&& amount(self.reconnaissance.base_cost as int)
        &&& amount(self.reconnaissance.cost_step as int)
        &&& 0 <= self.reconnaissance.danger_reduction_per_level <= 100
        &&& amount(self.insurance.base_premium as int)
        &&& 0 <= self.insurance.premium_per_danger <= 1_000_000
        &&& 0 <= self.insurance.claim_percent <= 100
        &&& 1 <= self.market.cycle_percent.len() <= 1000
        &&& forall|i: int|
            0 <= i < self.market.cycle_percent.len() ==> 0 <= #[trigger] self.market.cycle_percent@[i]
                <= 1000
        &&& -100 <= self.voyage_plan.cautious_fuel_delta <= 100
        &&& -100 <= self.voyage_plan.cautious_danger_delta <= 100
        &&& -100 <= self.voyage_plan.expedited_fuel_delta <= 100
        &&& -100 <= self.voyage_plan.expedited_danger_delta <= 100
        &&& 0 <= self.maintenance.base_wear_per_voyage <= 100
        &&& 0 <= self.maintenance.setback_wear <= 100
        &&& 0 <= self.maintenance.external_load_wear <= 100
        &&& 0 <= self.maintenance.power_cycle_wear <= 100
        &&& 0 <= self.maintenance.danger_per_wear_band <= 100
        &&& 0 <= self.maintenance.price_per_wear <= 1_000_000
        &&& 1 <= self.refinery.alloy_batch <= 1000
        &&& amount(self.refinery.alloy_payout as int)
        &&& 1 <= self.refinery.electronics_batch <= 1000
        &&& amount(self.refinery.electronics_payout as int)
        &&& self.starting_modules.len() <= 64
    }
}

impl GameData {
    /// The catalog is within the authored ranges that the rules rely on.
    pub open spec fn wf(&self) -> bool {
        &&& self.config.wf()
        &&& self.sites.len() <= 1000
        &&& self.salvage_objects.len() <= 100_000
        &&& self.modules.len() <= 1000
        &&& forall|i: int| 0 <= i < self.sites.len() ==> #[trigger] self.sites@[i].wf()
        &&& forall|i: int|
            0 <= i < self.salvage_objects.len() ==> #[trigger] self.salvage_objects@[i].wf()
        &&& forall|i: int| 0 <= i < self.modules.len() ==> #[trigger] self.modules@[i].wf()
    }

    pub open spec fn site_spec(&self, id: Seq<char>) -> Option<SiteData> {
        keyed(self.sites@, id)
    }

    pub open spec fn object_spec(&self, id: Seq<char>) -> Option<SalvageObjectData> {
        keyed(self.salvage_objects@, id)
    }

    pub open spec fn module_spec(&self, id: Seq<char>) -> Option<ModuleData> {
        keyed(self.modules@, id)
    }

    pub fn site(&self, id: &str) -> (r: Option<&SiteData>)
        ensures
            match r {
                Some(s) => self.site_spec(id@) == Some(*s),
                None => self.site_spec(id@) is None,
            },
            r matches Some(s) ==> (self.wf() ==> s.wf()) && s.id@ == id@,
    {
        match find_keyed(&self.sites, id) {
            Some(i) => Some(&self.sites[i]),
            None => None,
        }
    }

    pub fn object(&self, id: &str) -> (r: Option<&SalvageObjectData>)
        ensures
            match r {
                Some(s) => self.object_spec(id@) == Some(*s),
                None => self.object_spec(id@) is None,
            },
            r matches Some(s) ==> (self.wf() ==> s.wf()) && s.id@ == id@,
    {
        match find_keyed(&self.salvage_objects, id) {
            Some(i) => Some(&self.salvage_objects[i]),
            None => None,
        }
    }

    pub fn module(&self, id: &str) -> (r: Option<&ModuleData>)
        ensures
            match r {
                Some(s) => self.module_spec(id@) == Some(*s),
                None => self.module_spec(id@) is None,
            },
            r matches Some(s) ==> (self.wf() ==> s.wf()) && s.id@ == id@,
    {
        match find_keyed(&self.modules, id) {
            Some(i) => Some(&self.modules[i]),
            None => None,
        }
    }

    /// Checks the catalog against the authored ranges.
    pub fn validate(&self) -> (r: Result<(), String>)
        ensures
            r is Ok <==> self.wf(),
    {
        if !self.config.check() || self.sites.len() > 1000 || self.salvage_objects.len() > 100_000
            || self.modules.len() > 1000 {
            return Err("game data is outside its authored ranges".to_owned());
        }
        let mut i: usize = 0;
        while i < self.sites.len()
            invariant
                i <= self.sites.len(),
                forall|j: int| 0 <= j < i ==> #[trigger] self.sites@[j].wf(),
            decreases self.sites.len() - i,
        {
            if !self.sites[i].check() {
                return Err("game data is outside its authored ranges".to_owned());
            }
            i = i + 1;
        }
        let mut i: usize = 0;
        while i < self.salvage_objects.len()
            invariant
                i <= self.salvage_objects.len(),
                forall|j: int| 0 <= j < i ==> #[trigger] self.salvage_objects@[j].wf(),
            decreases self.salvage_objects.len() - i,
        {
            if !self.salvage_objects[i].check() {
                return Err("game data is outside its authored ranges".to_owned());
            }
            i = i + 1;
        }
        let mut i: usize = 0;
        while i < self.modules.len()
            invariant
                i <= self.modules.len(),
                forall|j: int| 0 <= j < i ==> #[trigger] self.modules@[j].wf(),
            decreases self.modules.len() - i,
        {
            if !self.modules[i].check() {
                return Err("game data is outside its authored ranges".to_owned());
            }
            i = i + 1;
        }
        Ok(())
    }
}

impl SiteData {
    /// The section with the given identifier.
    pub fn section(&self, id: &str) -> (r: Option<&WreckSectionData>)
        ensures
            match r {
                Some(s) => keyed(self.sections@, id@) == Some(*s),
                None => keyed(self.sections@, id@) is None,
            },
            r matches Some(s) ==> (self.wf() ==> s.wf()) && s.id@ == id@,
    {
        match find_keyed(&self.sections, id) {
            Some(i) => Some(&self.sections[i]),
            None => None,
        }
    }

    pub fn check(&self) -> (r: bool)
        ensures
            r == self.wf(),
    {
        if !(0 <= self.danger && self.danger <= 100 && 0 <= self.fuel_cost && self.fuel_cost <= 1000
            && 0 <= self.condition && self.condition <= 100 && 0 <= self.contract_reward
            && self.contract_reward <= AUTHORED_LIMIT && self.sections.len() <= 1000
            && self.candidate_salvage.len() <= 1000) {
            return false;
        }
        let mut i: usize = 0;
        while i < self.sections.len()
            invariant
                i <= self.sections.len(),
                forall|j: int| 0 <= j < i ==> #[trigger] self.sections@[j].wf(),
            decreases self.sections.len() - i,
        {
            let s = &self.sections[i];
            if !(0 <= s.clearance_reward && s.clearance_reward <= AUTHORED_LIMIT
                && s.candidate_targets.len() <= 1000) {
                assert(!self.sections@[i as int].wf());
                return false;
            }
            i = i + 1;
        }
        true
    }
}

impl SalvageObjectData {
    pub fn check(&self) -> (r: bool)
        ensures
            r == self.wf(),
    {
        0 <= self.sale_value && self.sale_value <= AUTHORED_LIMIT && 0 <= self.alloy_yield
            && self.alloy_yield <= 1000 && 0 <= self.electronics_yield && self.electronics_yield
            <= 1000 && 0 <= self.mass_tenths && self.mass_tenths <= 1_000_000 && 0
            <= self.energy_cost && self.energy_cost <= 1000 && self.footprint.check()
    }
}

impl ModuleData {
    pub fn check(&self) -> (r: bool)
        ensures
            r == self.wf(),
    {
        0 <= self.purchase_cost && self.purchase_cost <= AUTHORED_LIMIT && 0 <= self.remove_cost
            && self.remove_cost <= AUTHORED_LIMIT && 0 <= self.unlock_credits
            && self.unlock_credits <= AUTHORED_LIMIT && 0 <= self.install_cost
            && self.install_cost <= AUTHORED_LIMIT && 0 <= self.power && self.power <= 1000 && 0
            <= self.fuel_capacity && self.fuel_capacity <= 1000 && 0 <= self.hull && self.hull
            <= 1000 && 0 <= self.external_capacity && self.external_capacity <= 1000 && 0
            <= self.drone_support && self.drone_support <= 1000 && self.footprint.check()
    }
}

impl GameConfig {
    pub fn check(&self) -> (r: bool)
        ensures
            r == self.wf(),
    {
        let basic = 1 <= self.grid_width && self.grid_width <= 64 && 1 <= self.grid_height
            && self.grid_height <= 64 && 0 <= self.starting_credits && self.starting_credits
            <= AUTHORED_LIMIT && 0 <= self.starting_fuel && self.starting_fuel <= 1000 && 0
            <= self.max_fuel && self.max_fuel <= 1000 && 1 <= self.max_hull && self.max_hull
            <= 1000 && 0 <= self.safe_return_buffer && self.safe_return_buffer <= 1000 && 1
            <= self.refuel_price_per_unit && self.refuel_price_per_unit <= 1000 && 0
            <= self.repair_price_per_hull && self.repair_price_per_hull <= 1000 && 0
            <= self.module_repair_price && self.module_repair_price <= 1000 && 0
            <= self.progression_credit_threshold && self.progression_credit_threshold
            <= AUTHORED_LIMIT && 0 <= self.workspace_scan_energy_cost
            && self.workspace_scan_energy_cost <= 1000 && self.starting_modules.len() <= 64;
        let risk = 0 <= self.risk.safe_danger_threshold && self.risk.safe_danger_threshold <= 100
            && self.risk.ordinary_return_weight <= 1000 && self.risk.damaged_module_weight <= 1000
            && self.risk.lost_salvage_weight <= 1000 && self.risk.emergency_repair_weight <= 1000
            && self.risk.forced_abandon_weight <= 1000 && 0
            <= self.risk.external_cargo_risk_per_item && self.risk.external_cargo_risk_per_item
            <= 100;
        let intel = self.reconnaissance.max_level <= 10 && 0 <= self.reconnaissance.base_cost
            && self.reconnaissance.base_cost <= AUTHORED_LIMIT && 0
            <= self.reconnaissance.cost_step && self.reconnaissance.cost_step <= AUTHORED_LIMIT
            && 0 <= self.reconnaissance.danger_reduction_per_level
            && self.reconnaissance.danger_reduction_per_level <= 100;
        let cover = 0 <= self.insurance.base_premium && self.insurance.base_premium
            <= AUTHORED_LIMIT && 0 <= self.insurance.premium_per_danger
            && self.insurance.premium_per_danger <= 1_000_000 && 0 <= self.insurance.claim_percent
            && self.insurance.claim_percent <= 100;
        let plan = -100 <= self.voyage_plan.cautious_fuel_delta
            && self.voyage_plan.cautious_fuel_delta <= 100 && -100
            <= self.voyage_plan.cautious_danger_delta && self.voyage_plan.cautious_danger_delta
            <= 100 && -100 <= self.voyage_plan.expedited_fuel_delta
            && self.voyage_plan.expedited_fuel_delta <= 100 && -100
            <= self.voyage_plan.expedited_danger_delta && self.voyage_plan.expedited_danger_delta
            <= 100;
        let wear = 0 <= self.maintenance.base_wear_per_voyage
            && self.maintenance.base_wear_per_voyage <= 100 && 0 <= self.maintenance.setback_wear
            && self.maintenance.setback_wear <= 100 && 0 <= self.maintenance.external_load_wear
            && self.maintenance.external_load_wear <= 100 && 0
            <= self.maintenance.power_cycle_wear && self.maintenance.power_cycle_wear <= 100 && 0
            <= self.maintenance.danger_per_wear_band && self.maintenance.danger_per_wear_band
            <= 100 && 0 <= self.maintenance.price_per_wear && self.maintenance.price_per_wear
            <= 1_000_000;
        let refine = 1 <= self.refinery.alloy_batch && self.refinery.alloy_batch <= 1000 && 0
            <= self.refinery.alloy_payout && self.refinery.alloy_payout <= AUTHORED_LIMIT && 1
            <= self.refinery.electronics_batch && self.refinery.electronics_batch <= 1000 && 0
            <= self.refinery.electronics_payout && self.refinery.electronics_payout
            <= AUTHORED_LIMIT;
        if !(basic && risk && intel && cover && plan && wear && refine) {
            return false;
        }
        let n = self.market.cycle_percent.len();
        if n < 1 || n > 1000 {
            return false;
        }
        let mut i: usize = 0;
        while i < n
            invariant
                i <= n,
                n == self.market.cycle_percent.len(),
                forall|j: int| 0 <= j < i ==> 0 <= #[trigger] self.market.cycle_percent@[j] <= 1000,
            decreases n - i,
        {
            let p = self.market.cycle_percent[i];
            if p < 0 || p > 1000 {
                return false;
            }
            i = i + 1;
        }
        true
    }
}

} // verus!
