//! Safe-port refit slots: remembered arrangements of permanent modules that
//! can be stored from the ship and rebuilt onto it.

use crate::data::GameData;
use crate::layout::{PlacedItem, ShipLayout};
use crate::rebuild::{
    grid_sound, lemma_listed_step, lemma_listed_whole, lemma_sound_rebuilds, list_refused,
    listed_failure, listed_ok, place_record, pv, pv_fits, pv_overlaps, pv_placeable, pvs, rebuilt,
    refusal,
};
use crate::session::{GameSession, LoadoutPreset};
use crate::text::{decimal, push_digits};
use vstd::prelude::*;

verus! {

/// Number of refit slots a session keeps.
pub const SLOT_COUNT: usize = 3;

/// The grid a preset is rebuilt into has the ship's own size.
pub open spec fn grid_w(s: GameSession) -> int {
    s.ship_layout.width as int
}

pub open spec fn grid_h(s: GameSession) -> int {
    s.ship_layout.height as int
}

/// A preset item is a known permanent module whose blueprint is unlocked and
/// whose footprint is the catalog's.
pub open spec fn loadout_item_ok(s: GameSession, data: GameData) -> spec_fn(PlacedItem) -> bool {
    |p: PlacedItem|
        p.permanent && data.module_spec(p.id@) is Some && s.module_unlocked_spec(p.id@, data)
            && p.footprint == data.module_spec(p.id@).unwrap().footprint
}

/// Why a preset item fails its own check.
pub open spec fn loadout_item_why(s: GameSession, data: GameData) -> spec_fn(PlacedItem) -> Seq<
    char,
> {
    |p: PlacedItem|
        if !p.permanent {
            "'"@ + p.id@ + "' is not a permanent module"@
        } else if data.module_spec(p.id@) is None {
            "unknown module '"@ + p.id@ + "'"@
        } else if !s.module_unlocked_spec(p.id@, data) {
            "module '"@ + p.id@ + "' is still blueprint-locked"@
        } else {
            "module '"@ + p.id@ + "' has a mismatched footprint"@
        }
}

/// What precedes the grid's refusal of a preset item.
pub open spec fn loadout_lead() -> spec_fn(PlacedItem) -> Seq<char> {
    |p: PlacedItem| p.id@ + ": "@
}

/// Every item of the preset passes its check and places in order.
pub open spec fn preset_ok(s: GameSession, p: LoadoutPreset, data: GameData) -> bool {
    listed_ok(grid_w(s), grid_h(s), p.placements@, loadout_item_ok(s, data), p.placements.len() as int)
}

/// Why a preset is refused.
pub open spec fn preset_refused(s: GameSession, p: LoadoutPreset, data: GameData, m: Seq<char>) -> bool {
    list_refused(
        grid_w(s),
        grid_h(s),
        p.placements@,
        loadout_item_ok(s, data),
        loadout_item_why(s, data),
        loadout_lead(),
        m,
    )
}

/// `c` is the grid rebuilt from an accepted preset.
pub open spec fn preset_grid(s: GameSession, p: LoadoutPreset, data: GameData, c: ShipLayout) -> bool {
    &&& preset_ok(s, p, data)
    &&& pvs(c.placements@) == rebuilt(grid_w(s), grid_h(s), pvs(p.placements@)).unwrap()
    &&& c.wf()
    &&& c.width == s.ship_layout.width
    &&& c.height == s.ship_layout.height
    &&& c.placements.len() <= p.placements.len()
}

impl GameSession {
    /// The slots are three, and each stored preset is of a size a grid can
    /// hold.
    pub open spec fn loadouts_bounded(&self) -> bool {
        &&& self.loadout_slots.len() == SLOT_COUNT
        &&& forall|k: int|
            0 <= k < self.loadout_slots.len() && (#[trigger] self.loadout_slots@[k]) is Some
                ==> self.loadout_slots@[k].unwrap().placements.len() < 1000
    }
}

/// Rebuilds a preset onto an empty grid of the ship's size, checking each
/// module before it is placed; the first refused item gives the error.
fn build_layout(preset: &LoadoutPreset, session: &GameSession, data: &GameData) -> (r: Result<
    ShipLayout,
    String,
>)
    requires
        data.wf(),
        1 <= session.ship_layout.width <= 64,
        1 <= session.ship_layout.height <= 64,
        preset.placements.len() < 1000,
    ensures
        match r {
            Ok(c) => preset_grid(*session, *preset, *data, c),
            Err(m) => !preset_ok(*session, *preset, *data) && preset_refused(
                *session,
                *preset,
                *data,
                m@,
            ),
        },
{
    let ghost w = grid_w(*session);
    let ghost h = grid_h(*session);
    let ghost items = preset.placements@;
    let ghost ok = loadout_item_ok(*session, *data);
    let ghost why = loadout_item_why(*session, *data);
    let ghost lead = loadout_lead();
    let mut layout = ShipLayout::new(session.ship_layout.width, session.ship_layout.height);
    proof {
        assert(items.take(0) =~= Seq::<PlacedItem>::empty());
        assert(pvs(items.take(0)) =~= Seq::empty());
    }
    let mut i: usize = 0;
    while i < preset.placements.len()
        invariant
            i <= preset.placements.len(),
            items == preset.placements@,
            preset.placements.len() < 1000,
            w == session.ship_layout.width,
            h == session.ship_layout.height,
            ok == loadout_item_ok(*session, *data),
            why == loadout_item_why(*session, *data),
            lead == loadout_lead(),
            data.wf(),
            listed_ok(w, h, items, ok, i as int),
            pvs(layout.placements@) == rebuilt(w, h, pvs(items.take(i as int))).unwrap(),
            layout.wf(),
            layout.width == session.ship_layout.width,
            layout.height == session.ship_layout.height,
            layout.placements.len() <= i,
        decreases preset.placements.len() - i,
    {
        let item = &preset.placements[i];
        proof {
            lemma_listed_step(w, h, items, ok, i as int);
        }
        if !item.permanent {
            let mut m = "'".to_owned();
            m.append(item.id.as_str());
            m.append("' is not a permanent module");
            proof {
                assert(listed_failure(w, h, items, ok, why, lead, i as int, m@));
                lemma_refused_not_ok(w, h, items, ok, i as int, items.len() as int);
            }
            return Err(m);
        }
        let module = match data.module(item.id.as_str()) {
            Some(module) => module,
            None => {
                let mut m = "unknown module '".to_owned();
                m.append(item.id.as_str());
                m.append("'");
                proof {
                    assert(listed_failure(w, h, items, ok, why, lead, i as int, m@));
                    lemma_refused_not_ok(w, h, items, ok, i as int, items.len() as int);
                }
                return Err(m);
            },
        };
        if !session.module_is_unlocked(item.id.as_str(), data) {
            let mut m = "module '".to_owned();
            m.append(item.id.as_str());
            m.append("' is still blueprint-locked");
            proof {
                assert(listed_failure(w, h, items, ok, why, lead, i as int, m@));
                lemma_refused_not_ok(w, h, items, ok, i as int, items.len() as int);
            }
            return Err(m);
        }
        if item.footprint != module.footprint {
            let mut m = "module '".to_owned();
            m.append(item.id.as_str());
            m.append("' has a mismatched footprint");
            proof {
                assert(listed_failure(w, h, items, ok, why, lead, i as int, m@));
                lemma_refused_not_ok(w, h, items, ok, i as int, items.len() as int);
            }
            return Err(m);
        }
        assert(ok(items[i as int]));
        match place_record(&mut layout, item) {
            Err(e) => {
                let mut m = item.id.clone();
                m.append(": ");
                let text = e.message();
                m.append(text.as_str());
                proof {
                    assert(refusal(w, h, rebuilt(w, h, pvs(items.take(i as int))).unwrap(), pv(items[i as int]), e));
                    assert(m@ == lead(items[i as int]) + e.message_spec());
                    assert(listed_failure(w, h, items, ok, why, lead, i as int, m@));
                    lemma_refused_not_ok(w, h, items, ok, i as int, items.len() as int);
                }
                return Err(m);
            },
            Ok(()) => {},
        }
        i = i + 1;
    }
    proof {
        lemma_listed_whole(items);
    }
    Ok(layout)
}

/// Every stored preset up to slot `k` is accepted.
pub open spec fn slots_ok_upto(s: GameSession, slots: Seq<Option<LoadoutPreset>>, data: GameData, k: int) -> bool {
    forall|j: int|
        0 <= j < k && (#[trigger] slots[j]) is Some ==> preset_ok(s, slots[j].unwrap(), data)
}

/// Every stored preset is accepted.
pub open spec fn loadouts_ok(s: GameSession, slots: Seq<Option<LoadoutPreset>>, data: GameData) -> bool {
    slots_ok_upto(s, slots, data, slots.len() as int)
}

/// Slot `k` holds the first refused preset, and `m` names the slot and why.
pub open spec fn slot_refused(
    s: GameSession,
    slots: Seq<Option<LoadoutPreset>>,
    data: GameData,
    k: int,
    m: Seq<char>,
) -> bool {
    &&& 0 <= k < slots.len()
    &&& slots_ok_upto(s, slots, data, k)
    &&& slots[k] is Some
    &&& exists|inner: Seq<char>| #[trigger]
        preset_refused(s, slots[k].unwrap(), data, inner) && m == "save loadout slot "@ + decimal(
            k + 1,
        ) + " is invalid: "@ + inner
}

pub open spec fn slots_refused(s: GameSession, slots: Seq<Option<LoadoutPreset>>, data: GameData, m: Seq<char>) -> bool {
    exists|k: int| #[trigger] slot_refused(s, slots, data, k, m)
}

/// Checks every stored preset of a loaded save against the ship's grid and
/// the catalog; the first refused slot gives the error.
pub fn validate_saved_loadouts(
    slots: &Vec<Option<LoadoutPreset>>,
    session: &GameSession,
    data: &GameData,
) -> (r: Result<(), String>)
    requires
        data.wf(),
        1 <= session.ship_layout.width <= 64,
        1 <= session.ship_layout.height <= 64,
        slots.len() <= SLOT_COUNT,
        forall|k: int|
            0 <= k < slots.len() && (#[trigger] slots@[k]) is Some ==> slots@[k].unwrap().placements.len()
                < 1000,
    ensures
        r is Ok <==> loadouts_ok(*session, slots@, *data),
        r matches Err(m) ==> slots_refused(*session, slots@, *data, m@),
{
    let mut k: usize = 0;
    while k < slots.len()
        invariant
            k <= slots.len(),
            slots.len() <= SLOT_COUNT,
            data.wf(),
            1 <= session.ship_layout.width <= 64,
            1 <= session.ship_layout.height <= 64,
            forall|j: int|
                0 <= j < slots.len() && (#[trigger] slots@[j]) is Some ==> slots@[j].unwrap().placements.len()
                    < 1000,
            slots_ok_upto(*session, slots@, *data, k as int),
        decreases slots.len() - k,
    {
        match &slots[k] {
            Some(preset) => {
                assert(slots@[k as int] is Some);
                match build_layout(preset, session, data) {
                    Err(inner) => {
                        let mut m = "save loadout slot ".to_owned();
                        push_digits(&mut m, (k + 1) as u64);
                        m.append(" is invalid: ");
                        m.append(inner.as_str());
                        proof {
                            assert(decimal(k + 1) == crate::text::digits((k + 1) as nat));
                            assert(preset_refused(*session, *preset, *data, inner@));
                            assert(slot_refused(*session, slots@, *data, k as int, m@));
                        }
                        return Err(m);
                    },
                    Ok(_) => {},
                }
            },
            None => {},
        }
        k = k + 1;
    }
    Ok(())
}

/// The permanent items of a grid, in grid order.
pub open spec fn is_permanent() -> spec_fn(PlacedItem) -> bool {
    |p: PlacedItem| p.permanent
}

fn permanent_placements(layout: &ShipLayout) -> (r: Vec<PlacedItem>)
    ensures
        r@ == layout.placements@.filter(is_permanent()),
        r.len() <= layout.placements.len(),
{
    let ps = &layout.placements;
    let mut out: Vec<PlacedItem> = Vec::new();
    let mut i: usize = 0;
    while i < ps.len()
        invariant
            i <= ps.len(),
            out@ == ps@.take(i as int).filter(is_permanent()),
            out.len() <= i,
        decreases ps.len() - i,
    {
        proof {
            reveal_with_fuel(Seq::<_>::filter, 1);
            assert(ps@.take(i + 1).drop_last() =~= ps@.take(i as int));
            assert(ps@.take(i + 1).last() == ps@[i as int]);
        }
        if ps[i].permanent {
            out.push(ps[i].duplicate());
        }
        i = i + 1;
    }
    proof {
        assert(ps@.take(ps.len() as int) =~= ps@);
    }
    out
}

/// How often `x` occurs in `s`.
pub open spec fn occurrences<A>(s: Seq<A>, x: A) -> nat
    decreases s.len(),
{
    if s.len() == 0 {
        0
    } else {
        occurrences(s.drop_last(), x) + if s.last() == x {
            1nat
        } else {
            0nat
        }
    }
}

/// The same records, each as often, in any order.
pub open spec fn same_records<A>(a: Seq<A>, b: Seq<A>) -> bool {
    forall|x: A| #[trigger] occurrences(a, x) == occurrences(b, x)
}

proof fn lemma_occurs_at<A>(s: Seq<A>, x: A)
    requires
        occurrences(s, x) > 0,
    ensures
        exists|i: int| 0 <= i < s.len() && s[i] == x,
    decreases s.len(),
{
    if s.last() != x {
        lemma_occurs_at(s.drop_last(), x);
        let i = choose|i: int| 0 <= i < s.drop_last().len() && s.drop_last()[i] == x;
        assert(s[i] == x);
    } else {
        assert(s[s.len() - 1] == x);
    }
}

fn same_record(a: &PlacedItem, b: &PlacedItem) -> (r: bool)
    ensures
        r == (pv(*a) == pv(*b)),
{
    crate::text::same_text(a.id.as_str(), b.id.as_str()) && a.footprint == b.footprint && a.position
        == b.position && a.rotation == b.rotation && a.permanent == b.permanent
}

fn count_record(v: &Vec<PlacedItem>, x: &PlacedItem) -> (r: usize)
    ensures
        r == occurrences(pvs(v@), pv(*x)),
{
    let mut n: usize = 0;
    let mut i: usize = 0;
    while i < v.len()
        invariant
            i <= v.len(),
            n <= i,
            n == occurrences(pvs(v@).take(i as int), pv(*x)),
        decreases v.len() - i,
    {
        proof {
            assert(pvs(v@).take(i + 1).drop_last() =~= pvs(v@).take(i as int));
            assert(pvs(v@).take(i + 1).last() == pv(v@[i as int]));
        }
        if same_record(&v[i], x) {
            n = n + 1;
        }
        i = i + 1;
    }
    proof {
        assert(pvs(v@).take(v.len() as int) =~= pvs(v@));
    }
    n
}

/// Whether two item lists hold the same records, each as often.
fn same_items(a: &Vec<PlacedItem>, b: &Vec<PlacedItem>) -> (r: bool)
    ensures
        r == same_records(pvs(a@), pvs(b@)),
{
    let ghost sa = pvs(a@);
    let ghost sb = pvs(b@);
    let mut i: usize = 0;
    while i < a.len()
        invariant
            i <= a.len(),
            sa == pvs(a@),
            sb == pvs(b@),
            forall|k: int| 0 <= k < i ==> occurrences(sa, #[trigger] sa[k]) == occurrences(sb, sa[k]),
        decreases a.len() - i,
    {
        if count_record(a, &a[i]) != count_record(b, &a[i]) {
            assert(sa[i as int] == pv(a@[i as int]));
            return false;
        }
        assert(sa[i as int] == pv(a@[i as int]));
        i = i + 1;
    }
    let mut j: usize = 0;
    while j < b.len()
        invariant
            j <= b.len(),
            sa == pvs(a@),
            sb == pvs(b@),
            forall|k: int| 0 <= k < a.len() ==> occurrences(sa, #[trigger] sa[k]) == occurrences(sb, sa[k]),
            forall|k: int| 0 <= k < j ==> occurrences(sa, #[trigger] sb[k]) == occurrences(sb, sb[k]),
        decreases b.len() - j,
    {
        if count_record(a, &b[j]) != count_record(b, &b[j]) {
            assert(sb[j as int] == pv(b@[j as int]));
            return false;
        }
        assert(sb[j as int] == pv(b@[j as int]));
        j = j + 1;
    }
    proof {
        assert forall|x: (Seq<char>, crate::layout::Footprint, crate::layout::GridPosition, u8, bool)|
            #[trigger] occurrences(sa, x) == occurrences(sb, x) by {
            if occurrences(sa, x) > 0 {
                lemma_occurs_at(sa, x);
            } else if occurrences(sb, x) > 0 {
                lemma_occurs_at(sb, x);
            }
        }
    }
    true
}

/// The message refusing a change away from the safe port.
pub open spec fn safe_port_message() -> Seq<char> {
    "loadouts can be changed only at the safe port"@
}

pub open spec fn no_slot_message(slot: int) -> Seq<char> {
    "loadout slot "@ + decimal(slot + 1) + " does not exist"@
}

/// The ids of permanent modules installed in a list of grid items.
pub open spec fn installed_in(ps: Seq<PlacedItem>) -> spec_fn(Seq<char>) -> bool {
    |id: Seq<char>| exists|j: int| 0 <= j < ps.len() && ps[j].permanent && ps[j].id@ == id
}

/// Fuel and hull capacity the ship would have on grid `c`, with its current
/// damage record.
pub open spec fn fuel_cap_on(s: GameSession, data: GameData, c: ShipLayout) -> int {
    data.config.max_fuel + crate::engine::stats_upto(
        data,
        crate::text::views(s.damaged_modules@),
        c.placements@,
    ).fuel_capacity
}

pub open spec fn hull_cap_on(s: GameSession, data: GameData, c: ShipLayout) -> int {
    s.max_hull + crate::engine::stats_upto(
        data,
        crate::text::views(s.damaged_modules@),
        c.placements@,
    ).hull
}

/// Why applying slot `slot` is refused, in the order the checks run.
pub open spec fn apply_refused(s: GameSession, slot: int, data: GameData, m: Seq<char>) -> bool {
    if !s.at_port() {
        m == safe_port_message()
    } else if slot >= SLOT_COUNT {
        m == no_slot_message(slot)
    } else if s.loadout_slots@[slot] is None {
        m == "loadout slot "@ + decimal(slot + 1) + " is empty"@
    } else {
        let p = s.loadout_slots@[slot].unwrap();
        if !preset_ok(s, p, data) {
            preset_refused(s, p, data, m)
        } else {
            exists|c: ShipLayout| #[trigger]
                preset_grid(s, p, data, c) && if s.economy.fuel > fuel_cap_on(s, data, c) {
                    m == "loadout slot "@ + decimal(slot + 1) + " caps fuel at "@ + decimal(
                        fuel_cap_on(s, data, c),
                    ) + "; burn or refit before applying"@
                } else {
                    &&& s.hull > hull_cap_on(s, data, c)
                    &&& m == "loadout slot "@ + decimal(slot + 1) + " caps hull at "@ + decimal(
                        hull_cap_on(s, data, c),
                    ) + "; repair or refit before applying"@
                }
        }
    }
}

impl GameSession {
    fn ensure_safe_port(&self) -> (r: Result<(), String>)
        ensures
            r is Ok <==> self.at_port(),
            r matches Err(m) ==> m@ == safe_port_message(),
    {
        if self.expedition.is_some() || self.returned.len() > 0 {
            Err("loadouts can be changed only at the safe port".to_owned())
        } else {
            Ok(())
        }
    }

    /// The preset stored in a slot, if the slot exists and holds one.
    pub fn loadout_slot(&self, slot: usize) -> (r: Option<&LoadoutPreset>)
        ensures
            match r {
                Some(p) => slot < self.loadout_slots.len() && self.loadout_slots@[slot as int] == Some(
                    *p,
                ),
                None => slot >= self.loadout_slots.len() || self.loadout_slots@[slot as int] is None,
            },
    {
        if slot < self.loadout_slots.len() {
            match &self.loadout_slots[slot] {
                Some(p) => Some(p),
                None => None,
            }
        } else {
            None
        }
    }

    /// Whether a slot holds exactly the permanent modules now installed,
    /// each in the same place and turn, in any order.
    pub fn loadout_matches_current(&self, slot: usize) -> (r: bool)
        ensures
            r == (slot < self.loadout_slots.len() && self.loadout_slots@[slot as int] is Some
                && same_records(
                pvs(self.loadout_slots@[slot as int].unwrap().placements@),
                pvs(self.ship_layout.placements@.filter(is_permanent())),
            )),
    {
        match self.loadout_slot(slot) {
            None => false,
            Some(preset) => {
                let current = permanent_placements(&self.ship_layout);
                same_items(&preset.placements, &current)
            },
        }
    }

    /// Remembers the installed permanent modules in a slot, at the safe port.
    pub fn store_loadout(&mut self, slot: usize) -> (r: Result<String, String>)
        requires
            old(self).wf(),
            old(self).loadouts_bounded(),
            slot < usize::MAX,
        ensures
            final(self).wf(),
            final(self).loadouts_bounded(),
            match r {
                Err(m) => *final(self) == *old(self) && if !old(self).at_port() {
                    m@ == safe_port_message()
                } else {
                    slot >= SLOT_COUNT && m@ == no_slot_message(slot as int)
                },
                Ok(m) => {
                    let kept = old(self).ship_layout.placements@.filter(is_permanent());
                    &&& old(self).at_port()
                    &&& slot < SLOT_COUNT
                    &&& *final(self) == (GameSession {
                        loadout_slots: final(self).loadout_slots,
                        ..*old(self)
                    })
                    &&& final(self).loadout_slots.len() == old(self).loadout_slots.len()
                    &&& forall|k: int|
                        0 <= k < SLOT_COUNT && k != slot ==> #[trigger] final(self).loadout_slots@[k]
                            == old(self).loadout_slots@[k]
                    &&& final(self).loadout_slots@[slot as int] is Some
                    &&& final(self).loadout_slots@[slot as int].unwrap().placements@ == kept
                    &&& m@ == "Loadout slot "@ + decimal(slot + 1) + " stored. "@ + decimal(
                        kept.len() as int,
                    ) + " permanent module(s) remembered."@
                },
            },
    {
        match self.ensure_safe_port() {
            Err(m) => return Err(m),
            Ok(()) => {},
        }
        if slot >= SLOT_COUNT {
            let mut m = "loadout slot ".to_owned();
            push_digits(&mut m, (slot + 1) as u64);
            m.append(" does not exist");
            proof {
                assert(decimal(slot + 1) == crate::text::digits((slot + 1) as nat));
            }
            return Err(m);
        }
        let placements = permanent_placements(&self.ship_layout);
        let count = placements.len();
        let ghost before = *self;
        self.loadout_slots.set(slot, Some(LoadoutPreset { placements }));
        let mut m = "Loadout slot ".to_owned();
        push_digits(&mut m, (slot + 1) as u64);
        m.append(" stored. ");
        push_digits(&mut m, count as u64);
        m.append(" permanent module(s) remembered.");
        proof {
            assert(decimal(slot + 1) == crate::text::digits((slot + 1) as nat));
            assert(decimal(count as int) == crate::text::digits(count as nat));
            assert forall|k: int|
                0 <= k < self.loadout_slots.len() && (#[trigger] self.loadout_slots@[k]) is Some
                    implies self.loadout_slots@[k].unwrap().placements.len() < 1000 by {
                if k != slot {
                    assert(before.loadout_slots@[k] == self.loadout_slots@[k]);
                }
            }
        }
        Ok(m)
    }

    /// Rebuilds the ship's modules from a slot, at the safe port: refused
    /// when the preset no longer fits the catalog, the blueprints or the
    /// grid, or when the fuel aboard or the hull would exceed what the new
    /// arrangement holds. Damage records of modules no longer installed
    /// are dropped.
    pub fn apply_loadout(&mut self, slot: usize, data: &GameData) -> (r: Result<String, String>)
        requires
            old(self).wf(),
            old(self).loadouts_bounded(),
            data.wf(),
            slot < usize::MAX,
        ensures
            final(self).wf(),
            final(self).loadouts_bounded(),
            match r {
                Err(m) => *final(self) == *old(self) && apply_refused(
                    *old(self),
                    slot as int,
                    *data,
                    m@,
                ),
                Ok(m) => {
                    let s = *old(self);
                    let p = s.loadout_slots@[slot as int].unwrap();
                    let c = final(self).ship_layout;
                    &&& s.at_port()
                    &&& slot < SLOT_COUNT
                    &&& s.loadout_slots@[slot as int] is Some
                    &&& preset_grid(s, p, *data, c)
                    &&& s.economy.fuel <= fuel_cap_on(s, *data, c)
                    &&& s.hull <= hull_cap_on(s, *data, c)
                    &&& *final(self) == (GameSession {
                        ship_layout: c,
                        damaged_modules: final(self).damaged_modules,
                        ..s
                    })
                    &&& crate::text::views(final(self).damaged_modules@) == crate::text::views(
                        s.damaged_modules@,
                    ).filter(installed_in(c.placements@))
                    &&& m@ == "Loadout slot "@ + decimal(slot + 1) + " applied. "@ + decimal(
                        c.placements.len() as int,
                    ) + " permanent module(s) online."@
                },
            },
    {
        match self.ensure_safe_port() {
            Err(m) => return Err(m),
            Ok(()) => {},
        }
        proof {
            assert(decimal(slot + 1) == crate::text::digits((slot + 1) as nat));
        }
        if slot >= SLOT_COUNT {
            let mut m = "loadout slot ".to_owned();
            push_digits(&mut m, (slot + 1) as u64);
            m.append(" does not exist");
            return Err(m);
        }
        let candidate = match &self.loadout_slots[slot] {
            None => {
                let mut m = "loadout slot ".to_owned();
                push_digits(&mut m, (slot + 1) as u64);
                m.append(" is empty");
                return Err(m);
            },
            Some(preset) => {
                assert(self.loadout_slots@[slot as int] is Some);
                match build_layout(preset, self, data) {
                    Err(m) => return Err(m),
                    Ok(c) => c,
                }
            },
        };
        let ghost s = *self;
        let ghost p = s.loadout_slots@[slot as int].unwrap();
        let stats = crate::engine::stats_from_layout(&candidate, data, &self.damaged_modules);
        let max_fuel = data.config.max_fuel + stats.fuel_capacity;
        if self.economy.fuel > max_fuel {
            let mut m = "loadout slot ".to_owned();
            push_digits(&mut m, (slot + 1) as u64);
            m.append(" caps fuel at ");
            crate::text::push_int(&mut m, max_fuel as i64);
            m.append("; burn or refit before applying");
            proof {
                assert(preset_grid(s, p, *data, candidate));
            }
            return Err(m);
        }
        let max_hull = self.max_hull + stats.hull;
        if self.hull > max_hull {
            let mut m = "loadout slot ".to_owned();
            push_digits(&mut m, (slot + 1) as u64);
            m.append(" caps hull at ");
            crate::text::push_int(&mut m, max_hull as i64);
            m.append("; repair or refit before applying");
            proof {
                assert(preset_grid(s, p, *data, candidate));
            }
            return Err(m);
        }
        let count = candidate.placements.len();
        self.ship_layout = candidate;
        let kept = keep_installed(&self.damaged_modules, &self.ship_layout.placements);
        self.damaged_modules = kept;
        let mut m = "Loadout slot ".to_owned();
        push_digits(&mut m, (slot + 1) as u64);
        m.append(" applied. ");
        push_digits(&mut m, count as u64);
        m.append(" permanent module(s) online.");
        proof {
            assert(decimal(count as int) == crate::text::digits(count as nat));
        }
        Ok(m)
    }
}

/// The damage records whose module is still installed, in order.
fn keep_installed(damaged: &Vec<String>, ps: &Vec<PlacedItem>) -> (r: Vec<String>)
    ensures
        crate::text::views(r@) == crate::text::views(damaged@).filter(installed_in(ps@)),
        r.len() <= damaged.len(),
{
    let ghost ids = crate::text::views(damaged@);
    let mut out: Vec<String> = Vec::new();
    let mut i: usize = 0;
    while i < damaged.len()
        invariant
            i <= damaged.len(),
            ids == crate::text::views(damaged@),
            crate::text::views(out@) == ids.take(i as int).filter(installed_in(ps@)),
            out.len() <= i,
        decreases damaged.len() - i,
    {
        let ghost before = out@;
        proof {
            reveal_with_fuel(Seq::<_>::filter, 1);
            assert(ids.take(i + 1).drop_last() =~= ids.take(i as int));
            assert(ids.take(i + 1).last() == damaged@[i as int]@);
        }
        if crate::validation::has_permanent_id(ps, damaged[i].as_str()) {
            out.push(damaged[i].clone());
            proof {
                assert(crate::text::views(out@) =~= crate::text::views(before).push(damaged@[i as int]@));
            }
        }
        i = i + 1;
    }
    proof {
        assert(ids.take(damaged.len() as int) =~= ids);
    }
    out
}

/// Once item `k` is refused, no longer prefix is accepted.
pub proof fn lemma_refused_not_ok(
    w: int,
    h: int,
    items: Seq<PlacedItem>,
    ok: spec_fn(PlacedItem) -> bool,
    k: int,
    n: int,
)
    requires
        listed_ok(w, h, items, ok, k),
        k < n <= items.len(),
        !(ok(items[k]) && pv_placeable(w, h, rebuilt(w, h, pvs(items.take(k))).unwrap(), pv(items[k]))),
    ensures
        !listed_ok(w, h, items, ok, n),
{
    lemma_listed_step(w, h, items, ok, k);
    if listed_ok(w, h, items, ok, n) {
        crate::rebuild::lemma_listed_prefix(w, h, items, ok, k + 1, n);
    }
}

/// A stored slot brings its modules back: when a slot holds the permanent
/// modules of a ship, each identifier listed once, applying that slot later
/// on a ship of the same size fits exactly those modules, in the same
/// places and turns.
pub proof fn law_applied_slot_restores_stored_modules(
    stored: GameSession,
    preset: LoadoutPreset,
    s: GameSession,
    data: GameData,
    c: ShipLayout,
)
    requires
        stored.ship_layout.wf(),
        preset.placements@ == stored.ship_layout.placements@.filter(is_permanent()),
        forall|i: int, j: int|
            #![trigger preset.placements@[i], preset.placements@[j]]
            0 <= i < j < preset.placements.len() ==> preset.placements@[i].id@
                != preset.placements@[j].id@,
        s.ship_layout.width == stored.ship_layout.width,
        s.ship_layout.height == stored.ship_layout.height,
        preset_grid(s, preset, data, c),
    ensures
        pvs(c.placements@) == pvs(preset.placements@),
{
    let st = stored.ship_layout.placements@;
    let kept = preset.placements@;
    let w = stored.ship_layout.width as int;
    let h = stored.ship_layout.height as int;
    let r = pvs(kept);
    assert(r.len() == kept.len());
    assert forall|i: int| 0 <= i < kept.len() implies exists|k: int|
        0 <= k < st.len() && st[k] == #[trigger] kept[i] by {
        assert(kept.contains(kept[i]));
        st.lemma_filter_contains_rev(is_permanent(), kept[i]);
    }
    assert forall|i: int| 0 <= i < r.len() implies pv_fits(w, h, #[trigger] r[i]) by {
        let k = choose|k: int| 0 <= k < st.len() && st[k] == kept[i];
        assert(stored.ship_layout.placements@[k] == st[k]);
    }
    assert forall|i: int, j: int|
        0 <= i < r.len() && 0 <= j < r.len() && i != j implies (#[trigger] r[i]).0 != (
        #[trigger] r[j]).0 && !pv_overlaps(r[i], r[j]) by {
        if i < j {
            assert(kept[i].id@ != kept[j].id@);
        } else {
            assert(kept[j].id@ != kept[i].id@);
        }
        let a = choose|k: int| 0 <= k < st.len() && st[k] == kept[i];
        let b = choose|k: int| 0 <= k < st.len() && st[k] == kept[j];
        assert(stored.ship_layout.placements@[a] == st[a]);
        assert(stored.ship_layout.placements@[b] == st[b]);
        assert(!crate::layout::items_overlap(st[b], st[a]));
    }
    assert(grid_sound(w, h, r));
    lemma_sound_rebuilds(w, h, r);
}

} // verus!
