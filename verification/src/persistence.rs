//! Saving a session and loading one back: fields older saves lacked are
//! filled in, the save is held to the game's limits and to the catalog, its
//! grid is rebuilt item by item, and the blueprints are re-evaluated.

use crate::career::{from_log, CareerStats};
use crate::cargo_bay::MAX_CARGO_BAY_LEVEL;
use crate::crew_readiness::MAX_CREW_FATIGUE;
use crate::data::GameData;
use crate::layout::{Footprint, PlacedItem, ShipLayout};
use crate::loadout::{loadouts_ok, slots_refused, validate_saved_loadouts, SLOT_COUNT};
use crate::progression::newly_unlocked_spec;
use crate::rebuild::{
    lemma_listed_step, lemma_listed_whole, list_refused, listed_failure, listed_ok, place_record,
    pv, pvs, rebuilt, refusal,
};
use crate::session::{CargoItem, ExpeditionState, GameSession, ReturnedItem, SaveData};
use crate::ship_wear::MAX_SHIP_WEAR;
use crate::text::views;
use crate::validation::{runtime_error, runtime_valid};
use crate::workspace_power::MAX_FIELD_POWER_CELLS;
use vstd::prelude::*;

verus! {

impl GameSession {
    /// The save file of this session under a version tag.
    pub fn to_save(self, version: &str) -> (r: SaveData)
        ensures
            r.version@ == version@,
            r.session == self,
    {
        SaveData { version: version.to_owned(), session: self }
    }
}

/// The section a run without one opens on: the first section of its site,
/// or none.
pub open spec fn default_section(data: GameData, site_id: Seq<char>) -> Seq<char> {
    match data.site_spec(site_id) {
        Some(site) => if site.sections.len() > 0 {
            site.sections@[0].id@
        } else {
            Seq::empty()
        },
        None => Seq::empty(),
    }
}

/// `r` is the save `s` with what older saves lacked filled in: a career
/// rebuilt from the voyage log when the dossier is empty but voyages were
/// filed, and the opening section of a run that names none.
pub open spec fn legacy_restored(s: GameSession, r: GameSession, data: GameData) -> bool {
    &&& r == (GameSession { career: r.career, expedition: r.expedition, ..s })
    &&& r.career == (if s.career.is_empty_spec() && s.voyage_log.len() > 0 {
        from_log(s.voyage_log@)
    } else {
        s.career
    })
    &&& match (s.expedition, r.expedition) {
        (Some(e), Some(f)) => if e.workspace_section@.len() == 0 {
            &&& f == (ExpeditionState { workspace_section: f.workspace_section, ..e })
            &&& f.workspace_section@ == default_section(data, e.site_id@)
        } else {
            f == e
        },
        (None, None) => true,
        _ => false,
    }
}

fn opening_section(data: &GameData, site_id: &str) -> (r: String)
    ensures
        r@ == default_section(*data, site_id@),
{
    match data.site(site_id) {
        Some(site) => if site.sections.len() > 0 {
            site.sections[0].id.clone()
        } else {
            String::new()
        },
        None => String::new(),
    }
}

/// Fills in what older saves lacked.
pub fn restore_legacy_fields(session: &mut GameSession, data: &GameData)
    ensures
        legacy_restored(*old(session), *final(session), *data),
{
    if session.career.is_empty() && session.voyage_log.len() > 0 {
        session.career = CareerStats::from_voyage_log(session.voyage_log.as_slice());
    }
    let fill = match &session.expedition {
        Some(e) => if e.workspace_section.unicode_len() == 0 {
            Some(opening_section(data, e.site_id.as_str()))
        } else {
            None
        },
        None => None,
    };
    match fill {
        Some(section) => match session.expedition.take() {
            Some(mut e) => {
                e.workspace_section = section;
                session.expedition = Some(e);
            },
            None => {},
        },
        None => {},
    }
}

pub open spec fn ranges_message() -> Seq<char> {
    "save contains values outside the supported ranges"@
}

/// The first of the game's limits a save breaks, if any.
pub open spec fn limits_message(s: GameSession, data: GameData) -> Option<Seq<char>> {
    if !s.career.valid_spec() {
        Some("save contains invalid career totals"@)
    } else if s.ship_layout.width != data.config.grid_width || s.ship_layout.height
        != data.config.grid_height {
        Some("save uses an incompatible ship grid"@)
    } else if s.crew_fatigue > MAX_CREW_FATIGUE {
        Some("save contains invalid crew fatigue"@)
    } else if s.ship_wear > MAX_SHIP_WEAR {
        Some("save contains invalid ship wear"@)
    } else if s.field_power_cells > MAX_FIELD_POWER_CELLS {
        Some("save contains too many field power cells"@)
    } else if s.cargo_bay_level > MAX_CARGO_BAY_LEVEL {
        Some("save contains an invalid cargo bay level"@)
    } else if s.economy.credits < 0 || s.economy.fuel < 0 || s.economy.alloy < 0
        || s.economy.electronics < 0 || s.reputation < 0 || s.hull <= 0 || s.max_hull
        != data.config.max_hull {
        Some("save contains invalid economy or hull values"@)
    } else if !s.bounded() || !s.loadouts_bounded() {
        Some(ranges_message())
    } else {
        None
    }
}

impl GameSession {
    /// Whether every stock, list and log lies within the ranges the rules
    /// are sized for.
    pub fn within_bounds(&self) -> (r: bool)
        ensures
            r == self.bounded(),
    {
        let basic = -crate::session::WALLET <= self.economy.credits && self.economy.credits
            <= crate::session::WALLET && -crate::session::STOCK <= self.economy.fuel
            && self.economy.fuel <= crate::session::STOCK && -crate::session::STOCK
            <= self.economy.alloy && self.economy.alloy <= crate::session::STOCK
            && -crate::session::STOCK <= self.economy.electronics && self.economy.electronics
            <= crate::session::STOCK && -crate::session::STOCK <= self.hull && self.hull
            <= crate::session::STOCK && 1 <= self.max_hull && self.max_hull <= 1000
            && self.ship_layout.placements.len() < 1000 && self.site_progress.len() <= 1000
            && self.returned.len() <= 1_000_000 && self.damaged_modules.len() <= 1_000_000;
        if !basic {
            return false;
        }
        let run_ok = match &self.expedition {
            Some(e) => e.cargo.len() <= 1_000_000 && -crate::session::STOCK <= e.workspace_energy
                && e.workspace_energy <= crate::session::STOCK && -crate::session::STOCK
                <= e.workspace_energy_capacity && e.workspace_energy_capacity
                <= crate::session::STOCK,
            None => true,
        };
        if !run_ok {
            return false;
        }
        let mut i: usize = 0;
        while i < self.site_progress.len()
            invariant
                i <= self.site_progress.len(),
                forall|k: int|
                    0 <= k < i ==> (#[trigger] self.site_progress@[k]).operation_log.len()
                        < crate::session::LOG_LIMIT && 0 <= self.site_progress@[k].condition <= 100,
            decreases self.site_progress.len() - i,
        {
            let p = &self.site_progress[i];
            if p.operation_log.len() as u64 >= crate::session::LOG_LIMIT || p.condition < 0 || p.condition
                > 100 {
                return false;
            }
            i = i + 1;
        }
        true
    }

    /// Whether the refit slots are three and each preset is of a size a
    /// grid can hold.
    pub fn loadouts_within_bounds(&self) -> (r: bool)
        ensures
            r == self.loadouts_bounded(),
    {
        if self.loadout_slots.len() != SLOT_COUNT {
            return false;
        }
        let mut k: usize = 0;
        while k < self.loadout_slots.len()
            invariant
                k <= self.loadout_slots.len(),
                forall|j: int|
                    0 <= j < k && (#[trigger] self.loadout_slots@[j]) is Some
                        ==> self.loadout_slots@[j].unwrap().placements.len() < 1000,
            decreases self.loadout_slots.len() - k,
        {
            match &self.loadout_slots[k] {
                Some(p) => if p.placements.len() >= 1000 {
                    return false;
                },
                None => {},
            }
            k = k + 1;
        }
        true
    }
}

fn validate_session_limits(session: &GameSession, data: &GameData) -> (r: Result<(), String>)
    ensures
        match r {
            Ok(()) => limits_message(*session, *data) is None,
            Err(m) => limits_message(*session, *data) == Some(m@),
        },
{
    match session.career.validate() {
        Err(m) => return Err(m),
        Ok(()) => {},
    }
    if session.ship_layout.width != data.config.grid_width || session.ship_layout.height
        != data.config.grid_height {
        return Err("save uses an incompatible ship grid".to_owned());
    }
    if session.crew_fatigue > MAX_CREW_FATIGUE {
        return Err("save contains invalid crew fatigue".to_owned());
    }
    if session.ship_wear > MAX_SHIP_WEAR {
        return Err("save contains invalid ship wear".to_owned());
    }
    if session.field_power_cells > MAX_FIELD_POWER_CELLS {
        return Err("save contains too many field power cells".to_owned());
    }
    if session.cargo_bay_level > MAX_CARGO_BAY_LEVEL {
        return Err("save contains an invalid cargo bay level".to_owned());
    }
    if session.economy.credits < 0 || session.economy.fuel < 0 || session.economy.alloy < 0
        || session.economy.electronics < 0 || session.reputation < 0 || session.hull <= 0
        || session.max_hull != data.config.max_hull {
        return Err("save contains invalid economy or hull values".to_owned());
    }
    if !session.within_bounds() || !session.loadouts_within_bounds() {
        return Err("save contains values outside the supported ranges".to_owned());
    }
    Ok(())
}

/// Whether a grid identifier names a piece of cargo.
pub open spec fn is_cargo_key(id: Seq<char>) -> bool {
    id.len() >= 6 && id.take(6) == "cargo:"@
}

/// The catalog footprint of a saved grid item: its salvage object's for
/// cargo, its module's otherwise.
pub open spec fn saved_footprint(id: Seq<char>, data: GameData) -> Option<Footprint> {
    if is_cargo_key(id) {
        match data.object_spec(id.skip(6)) {
            Some(o) => Some(o.footprint),
            None => None,
        }
    } else {
        match data.module_spec(id) {
            Some(m) => Some(m.footprint),
            None => None,
        }
    }
}

pub open spec fn missing_footprint_message(id: Seq<char>) -> Seq<char> {
    if is_cargo_key(id) {
        "save references missing salvage '"@ + id.skip(6) + "'"@
    } else {
        "save references missing module '"@ + id + "'"@
    }
}

/// A saved grid item is known to the catalog with the catalog's footprint.
pub open spec fn saved_item_ok(data: GameData) -> spec_fn(PlacedItem) -> bool {
    |p: PlacedItem| saved_footprint(p.id@, data) == Some(p.footprint)
}

pub open spec fn saved_item_why(data: GameData) -> spec_fn(PlacedItem) -> Seq<char> {
    |p: PlacedItem|
        if saved_footprint(p.id@, data) is None {
            missing_footprint_message(p.id@)
        } else {
            "save footprint mismatch for '"@ + p.id@ + "'"@
        }
}

pub open spec fn saved_lead() -> spec_fn(PlacedItem) -> Seq<char> {
    |p: PlacedItem| "invalid saved layout: "@
}

/// Every saved grid item is known and places in order.
pub open spec fn saved_layout_ok(s: GameSession, data: GameData) -> bool {
    listed_ok(
        s.ship_layout.width as int,
        s.ship_layout.height as int,
        s.ship_layout.placements@,
        saved_item_ok(data),
        s.ship_layout.placements.len() as int,
    )
}

/// `c` is the grid rebuilt from the saved one.
pub open spec fn saved_grid(s: GameSession, c: ShipLayout) -> bool {
    &&& pvs(c.placements@) == rebuilt(
        s.ship_layout.width as int,
        s.ship_layout.height as int,
        pvs(s.ship_layout.placements@),
    ).unwrap()
    &&& c.wf()
    &&& c.width == s.ship_layout.width
    &&& c.height == s.ship_layout.height
    &&& c.placements.len() <= s.ship_layout.placements.len()
}

fn saved_item_footprint(id: &str, data: &GameData) -> (r: Result<Footprint, String>)
    requires
        data.wf(),
    ensures
        match r {
            Ok(f) => saved_footprint(id@, *data) == Some(f) && f.wf(),
            Err(m) => saved_footprint(id@, *data) is None && m@ == missing_footprint_message(id@),
        },
{
    let n = id.unicode_len();
    let mut cargo = false;
    if n >= 6 {
        let head = id.substring_char(0, 6);
        cargo = crate::text::same_text(head, "cargo:");
        proof {
            assert(head@ == id@.take(6));
        }
    }
    if cargo {
        let object_id = id.substring_char(6, n);
        proof {
            assert(object_id@ == id@.skip(6));
        }
        match data.object(object_id) {
            Some(o) => Ok(o.footprint),
            None => {
                let mut m = "save references missing salvage '".to_owned();
                m.append(object_id);
                m.append("'");
                Err(m)
            },
        }
    } else {
        match data.module(id) {
            Some(module) => Ok(module.footprint),
            None => {
                let mut m = "save references missing module '".to_owned();
                m.append(id);
                m.append("'");
                Err(m)
            },
        }
    }
}

/// Rebuilds the saved grid item by item onto an empty grid of its size.
fn validate_saved_layout(session: &GameSession, data: &GameData) -> (r: Result<ShipLayout, String>)
    requires
        data.wf(),
        1 <= session.ship_layout.width <= 64,
        1 <= session.ship_layout.height <= 64,
        session.ship_layout.placements.len() < 1000,
    ensures
        r is Ok <==> saved_layout_ok(*session, *data),
        match r {
            Ok(c) => saved_grid(*session, c),
            Err(m) => list_refused(
                session.ship_layout.width as int,
                session.ship_layout.height as int,
                session.ship_layout.placements@,
                saved_item_ok(*data),
                saved_item_why(*data),
                saved_lead(),
                m@,
            ),
        },
{
    let ghost w = session.ship_layout.width as int;
    let ghost h = session.ship_layout.height as int;
    let ghost items = session.ship_layout.placements@;
    let ghost ok = saved_item_ok(*data);
    let ghost why = saved_item_why(*data);
    let ghost lead = saved_lead();
    let mut layout = ShipLayout::new(session.ship_layout.width, session.ship_layout.height);
    proof {
        assert(items.take(0) =~= Seq::<PlacedItem>::empty());
        assert(pvs(items.take(0)) =~= Seq::empty());
    }
    let placements = &session.ship_layout.placements;
    let mut i: usize = 0;
    while i < placements.len()
        invariant
            i <= placements.len(),
            items == placements@,
            items == session.ship_layout.placements@,
            placements.len() < 1000,
            w == session.ship_layout.width,
            h == session.ship_layout.height,
            ok == saved_item_ok(*data),
            why == saved_item_why(*data),
            lead == saved_lead(),
            data.wf(),
            listed_ok(w, h, items, ok, i as int),
            pvs(layout.placements@) == rebuilt(w, h, pvs(items.take(i as int))).unwrap(),
            layout.wf(),
            layout.width == session.ship_layout.width,
            layout.height == session.ship_layout.height,
            layout.placements.len() <= i,
        decreases placements.len() - i,
    {
        let item = &placements[i];
        proof {
            lemma_listed_step(w, h, items, ok, i as int);
        }
        let footprint = match saved_item_footprint(item.id.as_str(), data) {
            Ok(f) => f,
            Err(m) => {
                proof {
                    assert(listed_failure(w, h, items, ok, why, lead, i as int, m@));
                    crate::loadout::lemma_refused_not_ok(w, h, items, ok, i as int, items.len() as int);
                }
                return Err(m);
            },
        };
        if footprint != item.footprint {
            let mut m = "save footprint mismatch for '".to_owned();
            m.append(item.id.as_str());
            m.append("'");
            proof {
                assert(listed_failure(w, h, items, ok, why, lead, i as int, m@));
                crate::loadout::lemma_refused_not_ok(w, h, items, ok, i as int, items.len() as int);
            }
            return Err(m);
        }
        assert(ok(items[i as int]));
        match place_record(&mut layout, item) {
            Err(e) => {
                let mut m = "invalid saved layout: ".to_owned();
                let text = e.message();
                m.append(text.as_str());
                proof {
                    assert(refusal(w, h, rebuilt(w, h, pvs(items.take(i as int))).unwrap(), pv(items[i as int]), e));
                    assert(m@ == lead(items[i as int]) + e.message_spec());
                    assert(listed_failure(w, h, items, ok, why, lead, i as int, m@));
                    crate::loadout::lemma_refused_not_ok(w, h, items, ok, i as int, items.len() as int);
                }
                return Err(m);
            },
            Ok(()) => {},
        }
        i = i + 1;
    }
    proof {
        lemma_listed_whole(items);
    }
    Ok(layout)
}

/// The first identifier of `ids` the catalog does not know as salvage.
pub open spec fn first_unknown_object(ids: Seq<Seq<char>>, data: GameData) -> Option<Seq<char>>
    decreases ids.len(),
{
    if ids.len() == 0 {
        None
    } else {
        match first_unknown_object(ids.drop_last(), data) {
            Some(x) => Some(x),
            None => if data.object_spec(ids.last()) is None {
                Some(ids.last())
            } else {
                None
            },
        }
    }
}

pub open spec fn cargo_ids(cargo: Seq<CargoItem>) -> Seq<Seq<char>> {
    cargo.map_values(|c: CargoItem| c.object_id@)
}

pub open spec fn returned_ids(returned: Seq<ReturnedItem>) -> Seq<Seq<char>> {
    returned.map_values(|c: ReturnedItem| c.object_id@)
}

pub open spec fn returned_references_message(s: GameSession, data: GameData) -> Option<Seq<char>> {
    match first_unknown_object(returned_ids(s.returned@), data) {
        Some(x) => Some("save references missing returned salvage '"@ + x + "'"@),
        None => None,
    }
}

/// The first catalog reference of a save that names nothing, if any: the
/// run's site, then its cargo, then the salvage waiting at port.
pub open spec fn references_message(s: GameSession, data: GameData) -> Option<Seq<char>> {
    match s.expedition {
        Some(e) => if data.site_spec(e.site_id@) is None {
            Some("save references missing expedition site '"@ + e.site_id@ + "'"@)
        } else {
            match first_unknown_object(cargo_ids(e.cargo@), data) {
                Some(x) => Some("save references missing salvage '"@ + x + "'"@),
                None => returned_references_message(s, data),
            }
        },
        None => returned_references_message(s, data),
    }
}

fn first_unknown_cargo<'a>(cargo: &'a Vec<CargoItem>, data: &GameData) -> (r: Option<&'a String>)
    ensures
        match r {
            Some(x) => first_unknown_object(cargo_ids(cargo@), *data) == Some(x@),
            None => first_unknown_object(cargo_ids(cargo@), *data) is None,
        },
{
    let ghost ids = cargo_ids(cargo@);
    let mut i: usize = 0;
    while i < cargo.len()
        invariant
            i <= cargo.len(),
            ids == cargo_ids(cargo@),
            first_unknown_object(ids.take(i as int), *data) is None,
        decreases cargo.len() - i,
    {
        proof {
            assert(ids.take(i + 1).drop_last() =~= ids.take(i as int));
            assert(ids.take(i + 1).last() == cargo@[i as int].object_id@);
        }
        if data.object(cargo[i].object_id.as_str()).is_none() {
            proof {
                lemma_first_unknown_extends(ids, *data, i as int + 1);
            }
            return Some(&cargo[i].object_id);
        }
        i = i + 1;
    }
    proof {
        assert(ids.take(cargo.len() as int) =~= ids);
    }
    None
}

fn first_unknown_returned<'a>(returned: &'a Vec<ReturnedItem>, data: &GameData) -> (r: Option<&'a String>)
    ensures
        match r {
            Some(x) => first_unknown_object(returned_ids(returned@), *data) == Some(x@),
            None => first_unknown_object(returned_ids(returned@), *data) is None,
        },
{
    let ghost ids = returned_ids(returned@);
    let mut i: usize = 0;
    while i < returned.len()
        invariant
            i <= returned.len(),
            ids == returned_ids(returned@),
            first_unknown_object(ids.take(i as int), *data) is None,
        decreases returned.len() - i,
    {
        proof {
            assert(ids.take(i + 1).drop_last() =~= ids.take(i as int));
            assert(ids.take(i + 1).last() == returned@[i as int].object_id@);
        }
        if data.object(returned[i].object_id.as_str()).is_none() {
            proof {
                lemma_first_unknown_extends(ids, *data, i as int + 1);
            }
            return Some(&returned[i].object_id);
        }
        i = i + 1;
    }
    proof {
        assert(ids.take(returned.len() as int) =~= ids);
    }
    None
}

/// Once a prefix holds an unknown identifier, so does the whole list, and
/// the first one stays the first.
proof fn lemma_first_unknown_extends(ids: Seq<Seq<char>>, data: GameData, k: int)
    requires
        0 < k <= ids.len(),
        first_unknown_object(ids.take(k), data) is Some,
    ensures
        first_unknown_object(ids, data) == first_unknown_object(ids.take(k), data),
    decreases ids.len() - k,
{
    if k < ids.len() {
        assert(ids.take(k + 1).drop_last() =~= ids.take(k));
        lemma_first_unknown_extends(ids, data, k + 1);
    } else {
        assert(ids.take(k) =~= ids);
    }
}

fn validate_saved_references(session: &GameSession, data: &GameData) -> (r: Result<(), String>)
    ensures
        match r {
            Ok(()) => references_message(*session, *data) is None,
            Err(m) => references_message(*session, *data) == Some(m@),
        },
{
    match &session.expedition {
        Some(e) => {
            if data.site(e.site_id.as_str()).is_none() {
                let mut m = "save references missing expedition site '".to_owned();
                m.append(e.site_id.as_str());
                m.append("'");
                return Err(m);
            }
            match first_unknown_cargo(&e.cargo, data) {
                Some(x) => {
                    let mut m = "save references missing salvage '".to_owned();
                    m.append(x.as_str());
                    m.append("'");
                    return Err(m);
                },
                None => {},
            }
        },
        None => {},
    }
    match first_unknown_returned(&session.returned, data) {
        Some(x) => {
            let mut m = "save references missing returned salvage '".to_owned();
            m.append(x.as_str());
            m.append("'");
            Err(m)
        },
        None => Ok(()),
    }
}

pub open spec fn capacity_message() -> Seq<char> {
    "save exceeds the ship's current fuel or hull capacity"@
}

/// The fuel aboard and the hull fit what the saved ship holds.
pub open spec fn capacities_ok(s: GameSession, data: GameData) -> bool {
    s.economy.fuel <= s.max_fuel_spec(data) && s.hull <= s.max_hull_spec(data)
}

/// What a save that passed every other check is refused for: the first
/// failing rule for a run in progress and the port, checked against the
/// rebuilt grid `c`, else the fuel and hull capacities.
pub open spec fn late_refusal(s: GameSession, data: GameData, c: ShipLayout, m: Seq<char>) -> bool {
    &&& saved_grid(s, c)
    &&& match runtime_error(s, c.placements@, data) {
        Some(e) => m == e,
        None => !capacities_ok(s, data) && m == capacity_message(),
    }
}

/// Why a save, once its legacy fields are filled in, is refused: the
/// first failing check, in the order the checks run.
pub open spec fn load_refused(s: GameSession, data: GameData, m: Seq<char>) -> bool {
    if limits_message(s, data) is Some {
        m == limits_message(s, data).unwrap()
    } else if !saved_layout_ok(s, data) {
        list_refused(
            s.ship_layout.width as int,
            s.ship_layout.height as int,
            s.ship_layout.placements@,
            saved_item_ok(data),
            saved_item_why(data),
            saved_lead(),
            m,
        )
    } else if references_message(s, data) is Some {
        m == references_message(s, data).unwrap()
    } else if !loadouts_ok(s, s.loadout_slots@, data) {
        slots_refused(s, s.loadout_slots@, data, m)
    } else {
        exists|c: ShipLayout| #[trigger] late_refusal(s, data, c, m)
    }
}

/// The session a save, once its legacy fields are filled in, loads as: the
/// save itself on the rebuilt grid, with the blueprints its wallet reaches
/// unlocked and the milestone re-evaluated. Every check passed.
pub open spec fn load_accepted(s: GameSession, data: GameData, loaded: GameSession) -> bool {
    &&& limits_message(s, data) is None
    &&& saved_layout_ok(s, data)
    &&& references_message(s, data) is None
    &&& loadouts_ok(s, s.loadout_slots@, data)
    &&& saved_grid(s, loaded.ship_layout)
    &&& runtime_valid(s, loaded.ship_layout.placements@, data)
    &&& capacities_ok(s, data)
    &&& loaded == (GameSession {
        ship_layout: loaded.ship_layout,
        unlocked_modules: loaded.unlocked_modules,
        milestone_reached: loaded.milestone_reached,
        ..s
    })
    &&& views(loaded.unlocked_modules@) == views(s.unlocked_modules@) + newly_unlocked_spec(
        data.modules@,
        s.economy.credits,
        views(s.unlocked_modules@),
    )
    &&& loaded.milestone_reached == (s.economy.credits >= data.config.progression_credit_threshold
        && loaded.unlocked_modules.len() > data.config.starting_modules.len())
}

/// What loading `saved` gives, for some filling-in of its legacy fields.
pub open spec fn load_outcome(saved: GameSession, data: GameData, r: Result<GameSession, String>) -> bool {
    exists|s: GameSession| #[trigger]
        legacy_restored(saved, s, data) && match r {
            Ok(loaded) => load_accepted(s, data, loaded),
            Err(m) => load_refused(s, data, m@),
        }
}

/// The grid a save loads onto rebuilds to itself: saving the loaded ship
/// and loading it again places the same items in the same places.
pub proof fn law_loaded_grid_is_stable(s: GameSession, data: GameData, loaded: GameSession)
    requires
        load_accepted(s, data, loaded),
    ensures
        rebuilt(
            loaded.ship_layout.width as int,
            loaded.ship_layout.height as int,
            pvs(loaded.ship_layout.placements@),
        ) == Some(pvs(loaded.ship_layout.placements@)),
{
    assert(s.ship_layout.placements@.take(s.ship_layout.placements.len() as int)
        =~= s.ship_layout.placements@);
    crate::rebuild::law_rebuilt_grid_is_stable(
        s.ship_layout.width as int,
        s.ship_layout.height as int,
        pvs(s.ship_layout.placements@),
    );
}

impl GameSession {
    /// Loads a save: fills in what older saves lacked, then checks, in
    /// order, the game's limits, the grid, the catalog references, the refit
    /// slots, the run and port rules, and the fuel and hull capacities. An
    /// accepted save runs on its rebuilt grid with its blueprints
    /// re-evaluated.
    pub fn from_save(save: SaveData, data: &GameData) -> (r: Result<Self, String>)
        requires
            data.wf(),
        ensures
            load_outcome(save.session, *data, r),
            r matches Ok(loaded) ==> loaded.wf() && loaded.loadouts_bounded(),
    {
        let mut session = save.session;
        restore_legacy_fields(&mut session, data);
        let ghost s = session;
        match validate_session_limits(&session, data) {
            Err(m) => {
                proof {
                    assert(legacy_restored(save.session, s, *data));
                }
                return Err(m);
            },
            Ok(()) => {},
        }
        let checked = match validate_saved_layout(&session, data) {
            Err(m) => {
                proof {
                    assert(legacy_restored(save.session, s, *data));
                }
                return Err(m);
            },
            Ok(c) => c,
        };
        match validate_saved_references(&session, data) {
            Err(m) => {
                proof {
                    assert(legacy_restored(save.session, s, *data));
                }
                return Err(m);
            },
            Ok(()) => {},
        }
        match validate_saved_loadouts(&session.loadout_slots, &session, data) {
            Err(m) => {
                proof {
                    assert(legacy_restored(save.session, s, *data));
                }
                return Err(m);
            },
            Ok(()) => {},
        }
        match crate::validation::validate_saved_runtime(&session, &checked, data) {
            Err(m) => {
                proof {
                    assert(late_refusal(s, *data, checked, m@));
                    assert(legacy_restored(save.session, s, *data));
                }
                return Err(m);
            },
            Ok(()) => {},
        }
        if session.economy.fuel > session.max_fuel(data) || session.hull
            > session.max_hull_with_modules(data) {
            proof {
                assert(late_refusal(s, *data, checked, capacity_message()));
                assert(legacy_restored(save.session, s, *data));
            }
            return Err("save exceeds the ship's current fuel or hull capacity".to_owned());
        }
        session.ship_layout = checked;
        session.refresh_module_unlocks(data);
        proof {
            assert(legacy_restored(save.session, s, *data));
        }
        Ok(session)
    }
}

} // verus!
