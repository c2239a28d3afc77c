//! The live game session: economy, ship, wreck progress and the run in
//! progress, with the lookups every rule shares.

use crate::career::{empty_stats, CareerStats};
use crate::crew::CrewRole;
use crate::data::{first_match, has_key, key_index, keyed, GameData, Keyed, SiteData};
use crate::drone_directive::DroneDirective;
use crate::engine::{RiskResult, VoyagePlan};
use crate::layout::{GridPosition, PlacedItem, ShipLayout};
use crate::return_policy::ReturnPolicy;
use crate::scan_profile::WorkspaceScanProfile;
use crate::text::views;
use crate::voyage_record::VoyageRecord;
use crate::workspace::WorkspaceTransfer;
use crate::workspace_records::{TargetSurveyNote, WorkspaceLogEntry};
use vstd::prelude::*;

verus! {

/// Wallet magnitude a session stays within, far inside `i64`.
pub const WALLET: i64 = 1_000_000_000_000_000;
/// Magnitude of every other stock a session keeps (fuel, materials, hull).
pub const STOCK: i32 = 10_000_000;
/// Bound on a site's operation-log length: every entry's sequence number,
/// one more than the entries before it, fits in a `u32`.
pub const LOG_LIMIT: u64 = 4_294_967_296;

#[derive(Clone, Copy, Debug, PartialEq, Eq, Structural)]
pub struct Economy {
    pub credits: i64,
    pub fuel: i32,
    pub alloy: i32,
    pub electronics: i32,
}

#[derive(Clone, Copy, Debug, PartialEq, Eq, Structural)]
pub enum CargoStatus {
    Pending,
    Packed,
    LeftBehind,
    Discarded,
    Lost,
}

impl CargoStatus {
    pub open spec fn name_spec(self) -> Seq<char> {
        match self {
            CargoStatus::Pending => "Pending"@,
            CargoStatus::Packed => "Packed"@,
            CargoStatus::LeftBehind => "LeftBehind"@,
            CargoStatus::Discarded => "Discarded"@,
            CargoStatus::Lost => "Lost"@,
        }
    }

    pub fn name(self) -> (r: &'static str)
        ensures
            r@ == self.name_spec(),
    {
        match self {
            CargoStatus::Pending => "Pending",
            CargoStatus::Packed => "Packed",
            CargoStatus::LeftBehind => "LeftBehind",
            CargoStatus::Discarded => "Discarded",
            CargoStatus::Lost => "Lost",
        }
    }
}

/// A piece of salvage on the manifest of the current run.
#[derive(Clone, Debug)]
pub struct CargoItem {
    pub object_id: String,
    pub status: CargoStatus,
    pub position: Option<GridPosition>,
    pub rotation: u8,
}

impl CargoItem {
    pub fn duplicate(&self) -> (r: Self)
        ensures
            r == *self,
    {
        CargoItem {
            object_id: self.object_id.clone(),
            status: self.status,
            position: self.position,
            rotation: self.rotation,
        }
    }
}

/// Salvage brought home and waiting for a decision at port, priced at the
/// market cycle of its run.
#[derive(Clone, Debug)]
pub struct ReturnedItem {
    pub object_id: String,
    pub position: GridPosition,
    pub rotation: u8,
    pub market_cycle: u32,
}

/// The run in progress.
#[derive(Clone, Debug)]
pub struct ExpeditionState {
    pub site_id: String,
    pub cargo: Vec<CargoItem>,
    pub workspace_transfer: Option<WorkspaceTransfer>,
    pub risk: RiskResult,
    pub seed: u64,
    pub workspace_section: String,
    pub workspace_scanned: bool,
    pub revealed_targets: Vec<String>,
    pub stabilized_targets: Vec<String>,
    pub scan_profile: WorkspaceScanProfile,
    pub drones_deployed: bool,
    pub drone_directive: DroneDirective,
    pub workspace_energy: i32,
    pub workspace_energy_capacity: i32,
    pub power_cycles_used: u8,
    pub insured: bool,
    pub contract_accepted: bool,
    pub voyage_plan: VoyagePlan,
    pub return_policy: ReturnPolicy,
}

/// What the session remembers about one wreck between runs.
#[derive(Clone, Debug)]
pub struct SiteProgress {
    pub site_id: String,
    pub condition: i32,
    pub visits: u32,
    pub reconnaissance_level: u8,
    pub removed_targets: Vec<String>,
    pub discovered_sections: Vec<String>,
    pub cleared_sections: Vec<String>,
    pub contract_completed: bool,
    pub contract_failed: bool,
    pub operation_log: Vec<WorkspaceLogEntry>,
    pub surveyed_targets: Vec<TargetSurveyNote>,
}

impl Keyed for SiteProgress {
    open spec fn key(&self) -> Seq<char> {
        self.site_id@
    }

    fn key_text(&self) -> (r: &String) {
        &self.site_id
    }
}

impl SiteProgress {
    /// Progress for a wreck nobody has worked yet.
    pub fn fresh(site_id: &String, condition: i32) -> (r: Self)
        ensures
            r.site_id == *site_id,
            r.condition == condition,
            r.visits == 0,
            r.reconnaissance_level == 0,
            r.removed_targets@.len() == 0,
            r.discovered_sections@.len() == 0,
            r.cleared_sections@.len() == 0,
            !r.contract_completed,
            !r.contract_failed,
            r.operation_log@.len() == 0,
            r.surveyed_targets@.len() == 0,
    {
        SiteProgress {
            site_id: site_id.clone(),
            condition,
            visits: 0,
            reconnaissance_level: 0,
            removed_targets: Vec::new(),
            discovered_sections: Vec::new(),
            cleared_sections: Vec::new(),
            contract_completed: false,
            contract_failed: false,
            operation_log: Vec::new(),
            surveyed_targets: Vec::new(),
        }
    }
}

/// What was decided for a load brought home: the object and the
/// disposition's name.
#[derive(Clone, Debug)]
pub struct DecisionRecord {
    pub object_id: String,
    pub disposition: String,
}

/// A wreck the session charted from port, and the order it was charted in.
#[derive(Clone, Debug)]
pub struct WreckRecord {
    pub site_id: String,
    pub serial: u64,
}

/// A stored arrangement of permanent modules.
#[derive(Clone, Debug)]
pub struct LoadoutPreset {
    pub placements: Vec<PlacedItem>,
}

#[derive(Clone, Debug)]
pub struct GameSession {
    pub economy: Economy,
    pub hull: i32,
    pub max_hull: i32,
    pub ship_layout: ShipLayout,
    pub damaged_modules: Vec<String>,
    pub unlocked_modules: Vec<String>,
    pub milestone_reached: bool,
    pub expedition: Option<ExpeditionState>,
    pub returned: Vec<ReturnedItem>,
    pub site_progress: Vec<SiteProgress>,
    pub selected_site: Option<String>,
    pub seed: u64,
    pub market_cycle: u32,
    pub reputation: i32,
    pub career: CareerStats,
    pub voyage_log: Vec<VoyageRecord>,
    pub crew_role: CrewRole,
    pub crew_fatigue: u8,
    pub ship_wear: u8,
    pub cargo_bay_level: u8,
    pub field_power_cells: u8,
    pub loadout_slots: Vec<Option<LoadoutPreset>>,
    pub last_return_policy: ReturnPolicy,
    pub last_risk: Option<RiskResult>,
    pub briefing_voyage_plan: VoyagePlan,
    pub decisions: Vec<DecisionRecord>,
    pub wrecks: Vec<WreckRecord>,
}

/// The save file: a version tag and the session.
#[derive(Clone, Debug)]
pub struct SaveData {
    pub version: String,
    pub session: GameSession,
}

/// `new` differs from `old` only in the operation log of entry `i`.
pub open spec fn only_log_changed(old: Seq<SiteProgress>, new: Seq<SiteProgress>, i: int) -> bool {
    &&& new.len() == old.len()
    &&& forall|j: int| 0 <= j < old.len() && j != i ==> new[j] == old[j]
    &&& new[i] == (SiteProgress { operation_log: new[i].operation_log, ..old[i] })
}

/// `new` is `old` with one entry filed in the log of `site_id`, or unchanged
/// when the session keeps no progress for that site.
pub open spec fn logged(
    old: GameSession,
    new: Seq<SiteProgress>,
    site_id: Seq<char>,
    event: crate::workspace_records::WorkspaceLogEvent,
    section: Option<Seq<char>>,
    target: Option<Seq<char>>,
) -> bool {
    if old.progress_spec(site_id) is None {
        new == old.site_progress@
    } else {
        let i = old.progress_index(site_id);
        let log = old.site_progress@[i].operation_log@;
        &&& 0 <= i < old.site_progress.len()
        &&& only_log_changed(old.site_progress@, new, i)
        &&& new[i].operation_log@.len() == log.len() + 1
        &&& new[i].operation_log@.drop_last() == log
        &&& crate::workspace_records::entry_is(
            new[i].operation_log@.last(),
            (log.len() + 1) as int,
            event,
            section,
            target,
        )
    }
}

/// The layout identifier of a piece of cargo.
pub open spec fn cargo_layout_key(object_id: Seq<char>) -> Seq<char> {
    "cargo:"@ + object_id
}

pub fn cargo_layout_id(object_id: &str) -> (r: String)
    ensures
        r@ == cargo_layout_key(object_id@),
{
    let mut s = "cargo:".to_owned();
    s.append(object_id);
    s
}

pub open spec fn stock(x: int) -> bool {
    -STOCK <= x <= STOCK
}

/// `r` is a new career on the catalog: starting wallet and fuel, full hull,
/// the starting modules placed, fresh progress for every authored wreck, the
/// blueprints the starting wallet already reaches unlocked, and everything
/// else empty or at its first value.
pub open spec fn new_career(r: GameSession, data: GameData) -> bool {
    &&& r.economy == (Economy {
        credits: data.config.starting_credits,
        fuel: data.config.starting_fuel,
        alloy: 0,
        electronics: 0,
    })
    &&& r.hull == data.config.max_hull
    &&& r.max_hull == data.config.max_hull
    &&& r.at_port()
    &&& r.crew_role == CrewRole::Deckhand
    &&& r.crew_fatigue == 0
    &&& r.ship_wear == 0
    &&& r.cargo_bay_level == 0
    &&& r.field_power_cells == 0
    &&& r.reputation == 0
    &&& r.market_cycle == 0
    &&& r.career == empty_stats()
    &&& r.voyage_log@.len() == 0
    &&& r.damaged_modules@.len() == 0
    &&& r.loadout_slots@ == seq![None::<LoadoutPreset>, None, None]
    &&& r.ship_layout.width == data.config.grid_width
    &&& r.ship_layout.height == data.config.grid_height
    &&& crate::rebuild::pvs(r.ship_layout.placements@) == GameSession::starting_grid(
        data,
        data.config.starting_modules.len() as int,
    )
    &&& views(r.unlocked_modules@) == crate::progression::newly_unlocked_spec(
        data.modules@,
        data.config.starting_credits,
        Seq::empty(),
    )
    &&& r.milestone_reached == (data.config.starting_credits >= data.config.progression_credit_threshold
        && r.unlocked_modules.len() > data.config.starting_modules.len())
    &&& r.expedition is None
    &&& r.returned@.len() == 0
    &&& r.selected_site is None
    &&& r.seed == 7
    &&& r.decisions@.len() == 0
    &&& r.wrecks@.len() == 0
    &&& r.last_risk is None
    &&& r.last_return_policy == ReturnPolicy::Standard
    &&& r.briefing_voyage_plan == VoyagePlan::Standard
    &&& r.site_progress.len() == data.sites.len()
    &&& forall|i: int|
        0 <= i < data.sites.len() ==> {
            let p = #[trigger] r.site_progress@[i];
            &&& p.site_id == data.sites@[i].id
            &&& p.condition == data.sites@[i].condition
            &&& p.visits == 0
            &&& p.reconnaissance_level == 0
            &&& p.removed_targets@.len() == 0
            &&& p.discovered_sections@.len() == 0
            &&& p.cleared_sections@.len() == 0
            &&& !p.contract_completed
            &&& !p.contract_failed
            &&& p.operation_log@.len() == 0
            &&& p.surveyed_targets@.len() == 0
        }
}

impl GameSession {
    /// The session stays within the ranges its arithmetic is sized for and
    /// its grid is sound.
    pub open spec fn wf(&self) -> bool {
        &&& self.bounded()
        &&& self.ship_layout.wf()
    }

    /// Every stock, list and log of the session lies within the ranges its
    /// arithmetic is sized for.
    pub open spec fn bounded(&self) -> bool {
        &&& -WALLET <= self.economy.credits <= WALLET
        &&& stock(self.economy.fuel as int)
        &&& stock(self.economy.alloy as int)
        &&& stock(self.economy.electronics as int)
        &&& stock(self.hull as int)
        &&& 1 <= self.max_hull <= 1000
        &&& self.ship_layout.placements.len() < 1000
        &&& self.site_progress.len() <= 1000
        &&& forall|i: int|
            0 <= i < self.site_progress.len() ==> (#[trigger] self.site_progress@[i]).operation_log.len()
                < LOG_LIMIT && 0 <= self.site_progress@[i].condition <= 100
        &&& self.returned.len() <= 1_000_000
        &&& self.damaged_modules.len() <= 1_000_000
        &&& match self.expedition {
            Some(e) => e.cargo.len() <= 1_000_000 && stock(e.workspace_energy as int) && stock(
                e.workspace_energy_capacity as int,
            ),
            None => true,
        }
    }

    pub open spec fn progress_spec(&self, site_id: Seq<char>) -> Option<SiteProgress> {
        keyed(self.site_progress@, site_id)
    }

    pub open spec fn progress_index(&self, site_id: Seq<char>) -> int {
        key_index(self.site_progress@, site_id)
    }

    /// Every site's log can take `n` more entries inside its limit.
    pub open spec fn log_room(&self, n: int) -> bool {
        forall|i: int|
            0 <= i < self.site_progress.len() ==> (#[trigger] self.site_progress@[i]).operation_log.len()
                + n < LOG_LIMIT
    }

    pub open spec fn at_port(&self) -> bool {
        self.expedition is None && self.returned.len() == 0
    }

    /// Position of the progress record of a site.
    pub fn progress_slot(&self, site_id: &str) -> (r: Option<usize>)
        ensures
            match r {
                Some(i) => i < self.site_progress.len() && first_match(
                    self.site_progress@,
                    site_id@,
                    i as int,
                ) && self.progress_spec(site_id@) == Some(self.site_progress@[i as int])
                    && self.progress_index(site_id@) == i,
                None => self.progress_spec(site_id@) is None && !has_key(
                    self.site_progress@,
                    site_id@,
                ),
            },
    {
        let r = crate::data::find_keyed(&self.site_progress, site_id);
        proof {
            if let Some(i) = r {
                crate::data::lemma_first_match_unique(self.site_progress@, site_id@, i as int);
            }
        }
        r
    }

    /// The progress record of a site.
    pub fn progress(&self, site_id: &str) -> (r: Option<&SiteProgress>)
        ensures
            match r {
                Some(p) => self.progress_spec(site_id@) == Some(*p),
                None => self.progress_spec(site_id@) is None,
            },
            r matches Some(p) ==> p.site_id@ == site_id@,
    {
        match self.progress_slot(site_id) {
            Some(i) => Some(&self.site_progress[i]),
            None => None,
        }
    }

    /// The record a starting module places, when the catalog knows it.
    pub open spec fn start_record(data: GameData, i: int) -> Option<
        (Seq<char>, crate::layout::Footprint, GridPosition, u8, bool),
    > {
        let st = data.config.starting_modules@[i];
        match data.module_spec(st.module_id@) {
            Some(m) => Some((st.module_id@, m.footprint, st.position, st.rotation, true)),
            None => None,
        }
    }

    /// The grid records of a new ship after its first `n` starting modules:
    /// each known module placed in order, replacing an earlier one of its
    /// name; one the grid refuses, or the catalog lacks, is skipped.
    pub open spec fn starting_grid(data: GameData, n: int) -> Seq<
        (Seq<char>, crate::layout::Footprint, GridPosition, u8, bool),
    >
        decreases n,
    {
        if n <= 0 {
            Seq::empty()
        } else {
            let g = Self::starting_grid(data, n - 1);
            match Self::start_record(data, n - 1) {
                Some(v) => if crate::rebuild::pv_placeable(
                    data.config.grid_width as int,
                    data.config.grid_height as int,
                    g,
                    v,
                ) {
                    g.filter(crate::rebuild::other_than(v.0)).push(v)
                } else {
                    g
                },
                None => g,
            }
        }
    }

    pub open spec fn new_spec_layout_ok(data: GameData) -> bool {
        1 <= data.config.grid_width <= 64 && 1 <= data.config.grid_height <= 64
    }

    /// A new career: starting wallet and fuel, full hull, the starting
    /// modules placed, fresh progress for every authored wreck, and the
    /// blueprints the starting wallet already reaches unlocked.
    pub fn new(data: &GameData) -> (r: Self)
        requires
            data.wf(),
        ensures
            r.wf(),
            new_career(r, *data),
    {
        let mut layout = ShipLayout::new(data.config.grid_width, data.config.grid_height);
        proof {
            assert(crate::rebuild::pvs(layout.placements@) =~= Self::starting_grid(*data, 0));
        }
        let mut i: usize = 0;
        while i < data.config.starting_modules.len()
            invariant
                i <= data.config.starting_modules.len(),
                data.wf(),
                layout.wf(),
                layout.width == data.config.grid_width,
                layout.height == data.config.grid_height,
                layout.placements.len() <= i,
                crate::rebuild::pvs(layout.placements@) == Self::starting_grid(*data, i as int),
            decreases data.config.starting_modules.len() - i,
        {
            let start = &data.config.starting_modules[i];
            match data.module(start.module_id.as_str()) {
                Some(module) => {
                    let ghost before = layout;
                    let placed = layout.place(
                        start.module_id.as_str(),
                        module.footprint,
                        start.position,
                        start.rotation,
                        true,
                    );
                    proof {
                        let v = (start.module_id@, module.footprint, start.position, start.rotation, true);
                        crate::rebuild::lemma_placeable_pv(before, v);
                        if placed is Ok {
                            crate::rebuild::lemma_place_step(before, layout, v);
                            crate::layout::lemma_place_keeps_wf(
                                before,
                                layout,
                                start.module_id@,
                                module.footprint,
                                start.position,
                                start.rotation,
                            );
                            crate::layout::lemma_without_len(before.placements@, start.module_id@);
                        }
                    }
                },
                None => {},
            }
            i = i + 1;
        }
        let mut progress: Vec<SiteProgress> = Vec::new();
        let mut j: usize = 0;
        while j < data.sites.len()
            invariant
                j <= data.sites.len(),
                data.wf(),
                progress.len() == j,
                forall|k: int|
                    0 <= k < j ==> {
                        let p = #[trigger] progress@[k];
                        &&& p.site_id == data.sites@[k].id
                        &&& p.condition == data.sites@[k].condition
                        &&& p.visits == 0
                        &&& p.reconnaissance_level == 0
                        &&& p.removed_targets@.len() == 0
                        &&& p.discovered_sections@.len() == 0
                        &&& p.cleared_sections@.len() == 0
                        &&& !p.contract_completed
                        &&& !p.contract_failed
                        &&& p.operation_log@.len() == 0
                        &&& p.surveyed_targets@.len() == 0
                    },
            decreases data.sites.len() - j,
        {
            assert(data.sites@[j as int].wf());
            progress.push(SiteProgress::fresh(&data.sites[j].id, data.sites[j].condition));
            j = j + 1;
        }
        let mut slots: Vec<Option<LoadoutPreset>> = Vec::new();
        slots.push(None);
        slots.push(None);
        slots.push(None);
        assert(slots@ =~= seq![None::<LoadoutPreset>, None, None]);
        let mut session = GameSession {
            economy: Economy {
                credits: data.config.starting_credits,
                fuel: data.config.starting_fuel,
                alloy: 0,
                electronics: 0,
            },
            hull: data.config.max_hull,
            max_hull: data.config.max_hull,
            ship_layout: layout,
            damaged_modules: Vec::new(),
            unlocked_modules: Vec::new(),
            milestone_reached: false,
            expedition: None,
            returned: Vec::new(),
            site_progress: progress,
            selected_site: None,
            seed: 7,
            market_cycle: 0,
            reputation: 0,
            career: CareerStats::default(),
            voyage_log: Vec::new(),
            crew_role: CrewRole::Deckhand,
            crew_fatigue: 0,
            ship_wear: 0,
            cargo_bay_level: 0,
            field_power_cells: 0,
            loadout_slots: slots,
            last_return_policy: ReturnPolicy::Standard,
            last_risk: None,
            briefing_voyage_plan: VoyagePlan::Standard,
            decisions: Vec::new(),
            wrecks: Vec::new(),
        };
        proof {
            assert forall|i: int| 0 <= i < session.site_progress.len() implies (
            #[trigger] session.site_progress@[i]).operation_log.len() < LOG_LIMIT && 0
                <= session.site_progress@[i].condition <= 100 by {
                assert(data.sites@[i].wf());
            }
        }
        assert(views(session.unlocked_modules@) =~= Seq::<Seq<char>>::empty());
        session.refresh_module_unlocks(data);
        proof {
            assert(views(session.unlocked_modules@) =~= crate::progression::newly_unlocked_spec(
                data.modules@,
                data.config.starting_credits,
                Seq::empty(),
            ));
        }
        session
    }
}

} // verus!
