//! What a saved session loads as: the same session again, for a session in
//! play that breaks none of the save rules, a new career, or one that came
//! out of a load.

use crate::data::{first_match, has_key, key_index, keyed, lemma_first_match_unique, GameData, Keyed, ModuleData};
use crate::layout::{Footprint, GridPosition, PlacedItem, ShipLayout};
use crate::loadout::{loadout_item_ok, loadouts_ok, preset_ok};
use crate::persistence::{
    capacities_ok,
    default_section,
    is_cargo_key,
    law_loaded_grid_is_stable,
    legacy_restored,
    limits_message,
    load_accepted,
    load_outcome,
    load_refused,
    references_message,
    saved_grid,
    saved_item_ok,
    saved_layout_ok,
};
use crate::progression::{module_ids, newly_unlocked_spec, unlock_pred};
use crate::rebuild::{
    grid_sound, law_rebuilt_grid_is_stable, lemma_sound_rebuilds, lemma_step_sound, listed_ok, other_than, pv, pvs, rebuilt,
};
use crate::session::{new_career, CargoItem, ExpeditionState, GameSession, ReturnedItem};
use crate::engine::{online, stats_bounded, stats_upto};
use crate::text::views;
use crate::validation::{
    cargo_err,
    damaged_err,
    first_error,
    layout_index,
    list_error,
    returned_err,
    runtime_error,
    runtime_valid,
    temporary_err,
    unlocked_err,
};
use vstd::prelude::*;

verus! {

/// Two grids hold the same records, item by item.
proof fn lemma_pvs_items(a: Seq<PlacedItem>, b: Seq<PlacedItem>, i: int)
    requires
        pvs(a) == pvs(b),
        0 <= i < a.len(),
    ensures
        a.len() == b.len(),
        a[i].id@ == b[i].id@,
        a[i].footprint == b[i].footprint,
        a[i].position == b[i].position,
        a[i].rotation == b[i].rotation,
        a[i].permanent == b[i].permanent,
{
    assert(pvs(a).len() == a.len() && pvs(b).len() == b.len());
    assert(pvs(a)[i] == pv(a[i]));
    assert(pvs(b)[i] == pv(b[i]));
}

/// A grid is searched alike by its records: the first item with an
/// identifier sits at the same place in two grids with the same records.
proof fn lemma_layout_index_alike(a: Seq<PlacedItem>, b: Seq<PlacedItem>, id: Seq<char>)
    requires
        pvs(a) == pvs(b),
    ensures
        layout_index(a, id) == layout_index(b, id),
        -1 <= layout_index(a, id) < a.len(),
    decreases a.len(),
{
    assert(a.len() == pvs(a).len() && b.len() == pvs(b).len());
    if a.len() > 0 {
        assert(pvs(a.drop_last()) =~= pvs(a).drop_last());
        assert(pvs(b.drop_last()) =~= pvs(b).drop_last());
        lemma_layout_index_alike(a.drop_last(), b.drop_last(), id);
        lemma_pvs_items(a, b, a.len() - 1);
        assert(a.last().id@ == b.last().id@);
    }
}

/// Two checks that agree on every element find the same first failure.
proof fn lemma_first_error_alike<T, U>(
    a: Seq<T>,
    ea: spec_fn(Seq<T>, int) -> Option<Seq<char>>,
    b: Seq<U>,
    eb: spec_fn(Seq<U>, int) -> Option<Seq<char>>,
    n: int,
)
    requires
        forall|i: int| 0 <= i < n ==> #[trigger] ea(a, i) == eb(b, i),
    ensures
        first_error(a, ea, n) == first_error(b, eb, n),
    decreases n,
{
    if n > 0 {
        lemma_first_error_alike(a, ea, b, eb, n - 1);
    }
}

/// No element failing means no failure.
proof fn lemma_first_error_none<T>(a: Seq<T>, e: spec_fn(Seq<T>, int) -> Option<Seq<char>>, n: int)
    requires
        forall|i: int| 0 <= i < n ==> (#[trigger] e(a, i)) is None,
    ensures
        first_error(a, e, n) is None,
    decreases n,
{
    if n > 0 {
        lemma_first_error_none(a, e, n - 1);
    }
}

/// Without a failure, no element failed.
proof fn lemma_first_error_each<T>(a: Seq<T>, e: spec_fn(Seq<T>, int) -> Option<Seq<char>>, n: int, i: int)
    requires
        first_error(a, e, n) is None,
        0 <= i < n,
    ensures
        e(a, i) is None,
    decreases n,
{
    if i < n - 1 {
        lemma_first_error_each(a, e, n - 1, i);
    }
}

/// The manifest, port and damage checks read a grid through its records
/// alone.
proof fn lemma_grid_checks_alike(
    a: Seq<PlacedItem>,
    b: Seq<PlacedItem>,
    cargo: Seq<CargoItem>,
    returned: Seq<ReturnedItem>,
    damaged: Seq<String>,
    data: GameData,
)
    requires
        pvs(a) == pvs(b),
    ensures
        list_error(cargo, cargo_err(a)) == list_error(cargo, cargo_err(b)),
        list_error(returned, returned_err(a)) == list_error(returned, returned_err(b)),
        list_error(damaged, damaged_err(data, a)) == list_error(damaged, damaged_err(data, b)),
{
    assert(a.len() == pvs(a).len() && b.len() == pvs(b).len());
    assert forall|i: int| 0 <= i < cargo.len() implies #[trigger] cargo_err(a)(cargo, i) == cargo_err(b)(cargo, i) by {
        let key = crate::session::cargo_layout_key(cargo[i].object_id@);
        lemma_layout_index_alike(a, b, key);
        let k = layout_index(a, key);
        if k >= 0 {
            lemma_pvs_items(a, b, k);
        }
    }
    lemma_first_error_alike(cargo, cargo_err(a), cargo, cargo_err(b), cargo.len() as int);
    assert forall|i: int| 0 <= i < returned.len() implies #[trigger] returned_err(a)(returned, i) == returned_err(b)(
        returned,
        i,
    ) by {
        let key = crate::session::cargo_layout_key(returned[i].object_id@);
        lemma_layout_index_alike(a, b, key);
        let k = layout_index(a, key);
        if k >= 0 {
            lemma_pvs_items(a, b, k);
        }
    }
    lemma_first_error_alike(returned, returned_err(a), returned, returned_err(b), returned.len() as int);
    assert forall|i: int| 0 <= i < damaged.len() implies #[trigger] damaged_err(data, a)(damaged, i) == damaged_err(
        data,
        b,
    )(damaged, i) by {
        if exists|j: int| 0 <= j < a.len() && a[j].permanent && a[j].id@ == damaged[i]@ {
            let j = choose|j: int| 0 <= j < a.len() && a[j].permanent && a[j].id@ == damaged[i]@;
            lemma_pvs_items(a, b, j);
        }
        if exists|j: int| 0 <= j < b.len() && b[j].permanent && b[j].id@ == damaged[i]@ {
            let j = choose|j: int| 0 <= j < b.len() && b[j].permanent && b[j].id@ == damaged[i]@;
            lemma_pvs_items(a, b, j);
        }
    }
    lemma_first_error_alike(damaged, damaged_err(data, a), damaged, damaged_err(data, b), damaged.len() as int);
}

/// The catalog lists each module once.
pub open spec fn distinct_modules(mods: Seq<ModuleData>) -> bool {
    forall|x: int, y: int| #![trigger mods[x], mods[y]] 0 <= x < y < mods.len() ==> mods[x].id@ != mods[y].id@
}

/// Filtering a catalog keeps its identifiers distinct.
proof fn lemma_filter_ids_distinct(mods: Seq<ModuleData>, p: spec_fn(ModuleData) -> bool)
    requires
        distinct_modules(mods),
    ensures
        distinct_modules(mods.filter(p)),
    decreases mods.len(),
{
    reveal_with_fuel(Seq::<_>::filter, 1);
    if mods.len() > 0 {
        let d = mods.drop_last();
        assert(distinct_modules(d)) by {
            assert forall|x: int, y: int| 0 <= x < y < d.len() implies d[x].id@ != d[y].id@ by {
                assert(d[x] == mods[x] && d[y] == mods[y]);
            }
        }
        lemma_filter_ids_distinct(d, p);
        let f = d.filter(p);
        if p(mods.last()) {
            assert forall|x: int| 0 <= x < f.len() implies f[x].id@ != mods.last().id@ by {
                assert(f.contains(f[x]));
                d.lemma_filter_contains_rev(p, f[x]);
                let k = choose|k: int| 0 <= k < d.len() && d[k] == f[x];
                assert(mods[k] == d[k]);
                assert(mods[mods.len() - 1] == mods.last());
            }
            let g = f.push(mods.last());
            assert(mods.filter(p) == g);
            assert forall|x: int, y: int| 0 <= x < y < g.len() implies g[x].id@ != g[y].id@ by {
                if y < f.len() {
                    assert(g[x] == f[x] && g[y] == f[y]);
                } else {
                    assert(g[x] == f[x]);
                }
            }
        }
    }
}

/// Blueprints a refresh unlocks are known modules, listed once, none of
/// them held already: the refreshed list passes the unlock check.
proof fn lemma_unlocks_stay_valid(data: GameData, known: Seq<String>, grown: Seq<String>, credits: i64)
    requires
        distinct_modules(data.modules@),
        list_error(known, unlocked_err(data)) is None,
        views(grown) == views(known) + newly_unlocked_spec(data.modules@, credits, views(known)),
    ensures
        list_error(grown, unlocked_err(data)) is None,
{
    let mods = data.modules@;
    let p = unlock_pred(credits, views(known));
    let filt = mods.filter(p);
    let nw = newly_unlocked_spec(mods, credits, views(known));
    let n = known.len() as int;
    assert(views(grown).len() == grown.len() && views(known).len() == known.len());
    lemma_filter_ids_distinct(mods, p);
    assert forall|i: int| 0 <= i < grown.len() implies (#[trigger] unlocked_err(data)(grown, i)) is None by {
        assert(views(grown)[i] == grown[i]@);
        if i < n {
            lemma_first_error_each(known, unlocked_err(data), n, i);
            assert(views(known)[i] == known[i]@);
            assert(views(grown).take(i) =~= views(known).take(i));
        } else {
            let j = i - n;
            assert(nw[j] == filt[j].id@);
            assert(filt.contains(filt[j]));
            mods.lemma_filter_contains_rev(p, filt[j]);
            mods.lemma_filter_pred(p, j);
            let k = choose|k: int| 0 <= k < mods.len() && mods[k] == filt[j];
            assert(has_key(mods, filt[j].id@)) by {
                assert(mods[k].key() == filt[j].id@);
            }
            assert(views(grown).take(i) =~= views(known) + nw.take(j));
            if (views(known) + nw.take(j)).contains(grown[i]@) {
                let q = choose|q: int| 0 <= q < (views(known) + nw.take(j)).len() && (views(known)
                    + nw.take(j))[q] == grown[i]@;
                if q < n {
                    assert(views(known).contains(filt[j].id@));
                } else {
                    assert(nw[q - n] == filt[q - n].id@);
                }
            }
        }
    }
    lemma_first_error_none(grown, unlocked_err(data), grown.len() as int);
}

/// After a refresh no further blueprint is within reach of the same wallet.
proof fn lemma_unlocks_settle(mods: Seq<ModuleData>, credits: i64, known: Seq<Seq<char>>)
    ensures
        newly_unlocked_spec(mods, credits, known + newly_unlocked_spec(mods, credits, known))
            == Seq::<Seq<char>>::empty(),
{
    let p1 = unlock_pred(credits, known);
    let nw = newly_unlocked_spec(mods, credits, known);
    let all = known + nw;
    let p2 = unlock_pred(credits, all);
    let f1 = mods.filter(p1);
    let f2 = mods.filter(p2);
    if f2.len() > 0 {
        let x = f2[0];
        assert(f2.contains(x));
        mods.lemma_filter_pred(p2, 0);
        mods.lemma_filter_contains_rev(p2, x);
        let k = choose|k: int| 0 <= k < mods.len() && mods[k] == x;
        if !known.contains(x.id@) {
            mods.lemma_filter_contains(p1, k);
            let q = choose|q: int| 0 <= q < f1.len() && f1[q] == x;
            assert(nw[q] == x.id@);
            assert(all[known.len() + q] == x.id@);
        } else {
            let q = choose|q: int| 0 <= q < known.len() && known[q] == x.id@;
            assert(all[q] == x.id@);
        }
    }
    assert(module_ids(f2) =~= Seq::<Seq<char>>::empty());
}

/// Two runs that differ at most in which string names their section, the
/// section's text being the same.
pub open spec fn same_run(a: Option<ExpeditionState>, b: Option<ExpeditionState>) -> bool {
    match (a, b) {
        (Some(x), Some(y)) => y == (ExpeditionState { workspace_section: y.workspace_section, ..x })
            && y.workspace_section@ == x.workspace_section@,
        (None, None) => true,
        _ => false,
    }
}

/// `again` is `loaded` once more: the same grid records, the same
/// blueprints, and every other field as it was, a run's section named by
/// the same text.
pub open spec fn reloads_as(again: GameSession, loaded: GameSession) -> bool {
    &&& again == (GameSession {
        ship_layout: again.ship_layout,
        unlocked_modules: again.unlocked_modules,
        expedition: again.expedition,
        ..loaded
    })
    &&& again.ship_layout.width == loaded.ship_layout.width
    &&& again.ship_layout.height == loaded.ship_layout.height
    &&& pvs(again.ship_layout.placements@) == pvs(loaded.ship_layout.placements@)
    &&& views(again.unlocked_modules@) == views(loaded.unlocked_modules@)
    &&& same_run(loaded.expedition, again.expedition)
}

/// Filling in legacy fields a second time changes nothing: the career and
/// the run's section were filled in already.
proof fn lemma_legacy_settles(
    saved: GameSession,
    s: GameSession,
    loaded: GameSession,
    s2: GameSession,
    data: GameData,
)
    requires
        legacy_restored(saved, s, data),
        loaded == (GameSession {
            ship_layout: loaded.ship_layout,
            unlocked_modules: loaded.unlocked_modules,
            milestone_reached: loaded.milestone_reached,
            ..s
        }),
        legacy_restored(loaded, s2, data),
    ensures
        s2 == (GameSession { expedition: s2.expedition, ..loaded }),
        same_run(s.expedition, s2.expedition),
{
    match (saved.expedition, s.expedition, s2.expedition) {
        (Some(e0), Some(e), Some(f)) => {
            if e.workspace_section@.len() == 0 {
                assert(e0.workspace_section@.len() == 0);
            }
        },
        _ => {},
    }
}

/// Every record of a rebuilt grid is one of the records it was built from.
proof fn lemma_rebuilt_members(w: int, h: int, items: Seq<(Seq<char>, Footprint, GridPosition, u8, bool)>)
    requires
        rebuilt(w, h, items) is Some,
    ensures
        forall|i: int|
            0 <= i < rebuilt(w, h, items).unwrap().len() ==> items.contains(
                #[trigger] rebuilt(w, h, items).unwrap()[i],
            ),
    decreases items.len(),
{
    if items.len() > 0 {
        let d = items.drop_last();
        lemma_rebuilt_members(w, h, d);
        let t = rebuilt(w, h, d).unwrap();
        let v = items.last();
        let f = t.filter(other_than(v.0));
        let r = f.push(v);
        assert(rebuilt(w, h, items).unwrap() == r);
        assert forall|i: int| 0 <= i < r.len() implies items.contains(#[trigger] r[i]) by {
            if i < f.len() {
                assert(f.contains(f[i]));
                t.lemma_filter_contains_rev(other_than(v.0), f[i]);
                let k = choose|k: int| 0 <= k < t.len() && t[k] == f[i];
                assert(d.contains(t[k]));
                let m = choose|m: int| 0 <= m < d.len() && d[m] == t[k];
                assert(items[m] == d[m]);
            } else {
                assert(items[items.len() - 1] == v);
            }
        }
    }
}

/// The loaded grid passes the grid check of a save again.
proof fn lemma_loaded_layout_ok(s: GameSession, loaded: GameSession, data: GameData)
    requires
        saved_layout_ok(s, data),
        saved_grid(s, loaded.ship_layout),
        rebuilt(
            loaded.ship_layout.width as int,
            loaded.ship_layout.height as int,
            pvs(loaded.ship_layout.placements@),
        ) == Some(pvs(loaded.ship_layout.placements@)),
    ensures
        saved_layout_ok(loaded, data),
{
    let w = s.ship_layout.width as int;
    let h = s.ship_layout.height as int;
    let sp = s.ship_layout.placements@;
    let lp = loaded.ship_layout.placements@;
    assert(sp.take(sp.len() as int) =~= sp);
    assert(lp.take(lp.len() as int) =~= lp);
    lemma_rebuilt_members(w, h, pvs(sp));
    assert(pvs(lp).len() == lp.len() && pvs(sp).len() == sp.len());
    assert forall|j: int| 0 <= j < lp.len() implies #[trigger] saved_item_ok(data)(lp[j]) by {
        assert(pvs(lp)[j] == pv(lp[j]));
        assert(pvs(sp).contains(pvs(lp)[j]));
        let m = choose|m: int| 0 <= m < pvs(sp).len() && pvs(sp)[m] == pvs(lp)[j];
        assert(pvs(sp)[m] == pv(sp[m]));
        assert(saved_item_ok(data)(sp[m]));
    }
}

/// A stored preset that passed before passes with more blueprints
/// unlocked.
proof fn lemma_loadouts_still_ok(s: GameSession, s2: GameSession, data: GameData)
    requires
        loadouts_ok(s, s.loadout_slots@, data),
        s2.loadout_slots == s.loadout_slots,
        s2.ship_layout.width == s.ship_layout.width,
        s2.ship_layout.height == s.ship_layout.height,
        forall|id: Seq<char>| views(s.unlocked_modules@).contains(id) ==> views(s2.unlocked_modules@).contains(id),
    ensures
        loadouts_ok(s2, s2.loadout_slots@, data),
{
    let slots = s.loadout_slots@;
    assert forall|j: int| 0 <= j < slots.len() && (#[trigger] slots[j]) is Some implies preset_ok(
        s2,
        slots[j].unwrap(),
        data,
    ) by {
        assert(preset_ok(s, slots[j].unwrap(), data));
        let items = slots[j].unwrap().placements@;
        assert forall|k: int| 0 <= k < items.len() implies #[trigger] loadout_item_ok(s2, data)(items[k]) by {
            assert(loadout_item_ok(s, data)(items[k]));
        }
    }
}

/// The run and port checks of the save of a loaded session pass on any grid
/// its load rebuilds.
#[verifier::rlimit(40)]
proof fn lemma_runtime_still_valid(
    s: GameSession,
    loaded: GameSession,
    s2: GameSession,
    data: GameData,
    c: ShipLayout,
)
    requires
        distinct_modules(data.modules@),
        load_accepted(s, data, loaded),
        s2 == (GameSession { expedition: s2.expedition, ..loaded }),
        same_run(s.expedition, s2.expedition),
        saved_grid(s2, c),
        rebuilt(
            loaded.ship_layout.width as int,
            loaded.ship_layout.height as int,
            pvs(loaded.ship_layout.placements@),
        ) == Some(pvs(loaded.ship_layout.placements@)),
        loaded.load_count_spec(data, None, true) <= loaded.external_capacity_spec(data),
    ensures
        runtime_error(s2, c.placements@, data) is None,
{
    let lp = loaded.ship_layout.placements@;
    let cp = c.placements@;
    assert(pvs(cp) == pvs(lp));
    assert(runtime_error(s, lp, data) is None);
    lemma_unlocks_stay_valid(data, s.unlocked_modules@, loaded.unlocked_modules@, s.economy.credits);
    let cargo = match s2.expedition {
        Some(e) => e.cargo@,
        None => Seq::empty(),
    };
    lemma_grid_checks_alike(cp, lp, cargo, s2.returned@, s2.damaged_modules@, data);
    assert(cp.len() == pvs(cp).len() && lp.len() == pvs(lp).len());
    assert forall|i: int| 0 <= i < cp.len() implies #[trigger] temporary_err(s2)(cp, i) == temporary_err(s)(
        lp,
        i,
    ) by {
        lemma_pvs_items(cp, lp, i);
    }
    lemma_first_error_alike(cp, temporary_err(s2), lp, temporary_err(s), cp.len() as int);
    assert(s2.load_count_spec(data, None, true) == loaded.load_count_spec(data, None, true));
    assert(s2.external_capacity_spec(data) == loaded.external_capacity_spec(data));
}

/// Saving a loaded session and loading it again gives the same session
/// back. Whatever the second load returns is that session: the same grid
/// records, the same blueprints (none more come within reach), and every
/// other field as it was. The catalog lists each module once, and the
/// loaded session's fuel, hull and clamp loads fit what its own grid
/// provides.
pub proof fn law_reload_gives_back_the_session(
    saved: GameSession,
    data: GameData,
    loaded: GameSession,
    r: Result<GameSession, String>,
)
    requires
        data.wf(),
        distinct_modules(data.modules@),
        load_outcome(saved, data, Ok(loaded)),
        capacities_ok(loaded, data),
        loaded.load_count_spec(data, None, true) <= loaded.external_capacity_spec(data),
        load_outcome(loaded, data, r),
    ensures
        match r {
            Ok(again) => reloads_as(again, loaded),
            Err(_) => false,
        },
{
    let s = choose|s: GameSession| #[trigger]
        legacy_restored(saved, s, data) && load_accepted(s, data, loaded);
    let s2 = choose|s2: GameSession| #[trigger]
        legacy_restored(loaded, s2, data) && match r {
            Ok(a) => load_accepted(s2, data, a),
            Err(m) => load_refused(s2, data, m@),
        };
    lemma_legacy_settles(saved, s, loaded, s2, data);
    law_loaded_grid_is_stable(s, data, loaded);
    let lp = loaded.ship_layout.placements@;
    match r {
        Ok(again) => {
            assert(pvs(again.ship_layout.placements@) == pvs(lp));
            lemma_unlocks_settle(data.modules@, s.economy.credits, views(s.unlocked_modules@));
            assert(views(again.unlocked_modules@) =~= views(loaded.unlocked_modules@));
            assert(again.unlocked_modules.len() == views(again.unlocked_modules@).len());
            assert(loaded.unlocked_modules.len() == views(loaded.unlocked_modules@).len());
        },
        Err(m) => {
            assert(limits_message(s2, data) is None);
            lemma_loaded_layout_ok(s, loaded, data);
            assert(saved_layout_ok(s2, data));
            assert(references_message(s2, data) is None);
            assert forall|id: Seq<char>|
                views(s.unlocked_modules@).contains(id) implies views(
                s2.unlocked_modules@,
            ).contains(id) by {
                let k = choose|k: int| 0 <= k < views(s.unlocked_modules@).len() && views(
                    s.unlocked_modules@,
                )[k] == id;
                assert(views(s2.unlocked_modules@)[k] == id);
            }
            lemma_loadouts_still_ok(s, s2, data);
            assert forall|c: ShipLayout| !#[trigger] crate::persistence::late_refusal(s2, data, c, m@) by {
                if saved_grid(s2, c) {
                    lemma_runtime_still_valid(s, loaded, s2, data, c);
                }
            }
        },
    }
}

/// Nothing is left for a load to fill in: voyages once filed are kept in
/// the dossier, and a run names its section whenever its site has one.
pub open spec fn legacy_settled(s: GameSession, data: GameData) -> bool {
    &&& !(s.career.is_empty_spec() && s.voyage_log.len() > 0)
    &&& match s.expedition {
        Some(e) => e.workspace_section@.len() == 0 ==> default_section(data, e.site_id@).len() == 0,
        None => true,
    }
}

/// A session in play that breaks none of the rules a save is held to: its
/// limits, a sound grid of catalog items, known references, refit presets
/// that fit, the run and port rules, and the fuel and hull it can hold;
/// with nothing left for a load to fill in, and its blueprints and
/// milestone up to date for its wallet.
pub open spec fn saveable(s: GameSession, data: GameData) -> bool {
    let p = s.ship_layout.placements@;
    &&& legacy_settled(s, data)
    &&& limits_message(s, data) is None
    &&& grid_sound(s.ship_layout.width as int, s.ship_layout.height as int, pvs(p))
    &&& forall|i: int| 0 <= i < p.len() ==> #[trigger] saved_item_ok(data)(p[i])
    &&& references_message(s, data) is None
    &&& loadouts_ok(s, s.loadout_slots@, data)
    &&& runtime_valid(s, p, data)
    &&& capacities_ok(s, data)
    &&& newly_unlocked_spec(data.modules@, s.economy.credits, views(s.unlocked_modules@))
        == Seq::<Seq<char>>::empty()
    &&& s.milestone_reached == (s.economy.credits >= data.config.progression_credit_threshold
        && s.unlocked_modules.len() > data.config.starting_modules.len())
}

/// A sound grid of catalog items passes the grid check of a save and
/// rebuilds to itself.
proof fn lemma_sound_grid_saves(s: GameSession, data: GameData)
    requires
        saveable(s, data),
    ensures
        saved_layout_ok(s, data),
        rebuilt(
            s.ship_layout.width as int,
            s.ship_layout.height as int,
            pvs(s.ship_layout.placements@),
        ) == Some(pvs(s.ship_layout.placements@)),
{
    let p = s.ship_layout.placements@;
    assert(p.take(p.len() as int) =~= p);
    lemma_sound_rebuilds(s.ship_layout.width as int, s.ship_layout.height as int, pvs(p));
}

/// The run and port checks of a saveable session pass, once its legacy
/// fields are filled in, on any grid its load rebuilds.
#[verifier::rlimit(40)]
proof fn lemma_saved_runtime_valid(s: GameSession, s2: GameSession, data: GameData, c: ShipLayout)
    requires
        saveable(s, data),
        s2 == (GameSession { expedition: s2.expedition, ..s }),
        same_run(s.expedition, s2.expedition),
        saved_grid(s2, c),
        pvs(c.placements@) == pvs(s.ship_layout.placements@),
    ensures
        runtime_error(s2, c.placements@, data) is None,
{
    let sp = s.ship_layout.placements@;
    let cp = c.placements@;
    let cargo = match s2.expedition {
        Some(e) => e.cargo@,
        None => Seq::empty(),
    };
    lemma_grid_checks_alike(cp, sp, cargo, s2.returned@, s2.damaged_modules@, data);
    assert(cp.len() == pvs(cp).len() && sp.len() == pvs(sp).len());
    assert forall|i: int| 0 <= i < cp.len() implies #[trigger] temporary_err(s2)(cp, i) == temporary_err(s)(
        sp,
        i,
    ) by {
        lemma_pvs_items(cp, sp, i);
    }
    lemma_first_error_alike(cp, temporary_err(s2), sp, temporary_err(s), cp.len() as int);
    assert(s2.load_count_spec(data, None, true) == s.load_count_spec(data, None, true));
    assert(s2.external_capacity_spec(data) == s.external_capacity_spec(data));
}

/// Saving a session in play and loading it back gives the same session:
/// whatever the load returns is that session, with the same grid records,
/// the same blueprints, and every other field as it was (economy, plans,
/// market cycle, port salvage and its cycles, logs, cargo bay), a run's
/// section named by the same text. It holds of every session that breaks
/// none of the rules a save is held to; a load refuses the others, or
/// unlocks the blueprints their wallet reaches.
pub proof fn law_saved_session_loads_back(s: GameSession, data: GameData, r: Result<GameSession, String>)
    requires
        data.wf(),
        saveable(s, data),
        load_outcome(s, data, r),
    ensures
        match r {
            Ok(again) => reloads_as(again, s),
            Err(_) => false,
        },
{
    let s2 = choose|s2: GameSession| #[trigger]
        legacy_restored(s, s2, data) && match r {
            Ok(a) => load_accepted(s2, data, a),
            Err(m) => load_refused(s2, data, m@),
        };
    lemma_sound_grid_saves(s, data);
    assert(s2.career == s.career);
    assert(same_run(s.expedition, s2.expedition)) by {
        match (s.expedition, s2.expedition) {
            (Some(e), Some(f)) => {
                if e.workspace_section@.len() == 0 {
                    assert(f.workspace_section@ =~= e.workspace_section@);
                }
            },
            _ => {},
        }
    }
    assert(s2 == (GameSession { expedition: s2.expedition, ..s }));
    let sp = s.ship_layout.placements@;
    match r {
        Ok(again) => {
            assert(pvs(again.ship_layout.placements@) == pvs(sp));
            assert(views(again.unlocked_modules@) =~= views(s.unlocked_modules@));
            assert(again.unlocked_modules.len() == views(again.unlocked_modules@).len());
            assert(s.unlocked_modules.len() == views(s.unlocked_modules@).len());
        },
        Err(m) => {
            assert(limits_message(s2, data) is None);
            assert(saved_layout_ok(s2, data));
            assert(references_message(s2, data) is None);
            lemma_loadouts_still_ok(s, s2, data);
            assert forall|c: ShipLayout| !#[trigger] crate::persistence::late_refusal(s2, data, c, m@) by {
                if saved_grid(s2, c) {
                    lemma_saved_runtime_valid(s, s2, data, c);
                }
            }
        },
    }
}

/// A key some entry carries is found at its first carrier.
proof fn lemma_keyed_found<T: Keyed>(s: Seq<T>, k: Seq<char>)
    requires
        has_key(s, k),
    ensures
        0 <= key_index(s, k) < s.len(),
        first_match(s, k, key_index(s, k)),
        keyed(s, k) == Some(s[key_index(s, k)]),
    decreases s.len(),
{
    let d = s.drop_last();
    if has_key(d, k) {
        lemma_keyed_found(d, k);
        let i = key_index(d, k);
        assert forall|j: int| 0 <= j < i implies s[j].key() != k by {
            assert(d[j] == s[j]);
        }
        assert(s[i] == d[i]);
        lemma_first_match_unique(s, k, i);
    } else {
        let i = s.len() - 1;
        assert forall|j: int| 0 <= j < i implies s[j].key() != k by {
            assert(d[j] == s[j]);
        }
        assert(s[i].key() == k) by {
            let j = choose|j: int| 0 <= j < s.len() && s[j].key() == k;
            if j < i {
                assert(d[j] == s[j]);
            }
        }
        lemma_first_match_unique(s, k, i);
    }
}

/// What the online modules of a grid add stays within a thousand per item.
pub(crate) proof fn lemma_stats_bounded(data: GameData, damaged: Seq<Seq<char>>, ps: Seq<PlacedItem>)
    requires
        data.wf(),
        ps.len() <= 4096,
    ensures
        stats_bounded(stats_upto(data, damaged, ps), ps.len() as int),
    decreases ps.len(),
{
    if ps.len() > 0 {
        lemma_stats_bounded(data, damaged, ps.drop_last());
        let item = ps.last();
        if online(data, damaged, item) {
            lemma_keyed_found(data.modules@, item.id@);
            let k = key_index(data.modules@, item.id@);
            assert(data.modules@[k].wf());
        }
    }
}

/// The record comes from one of the first `n` starting modules.
pub open spec fn starting_member(data: GameData, n: int, v: (Seq<char>, Footprint, GridPosition, u8, bool)) -> bool {
    exists|k: int| 0 <= k < n && #[trigger] GameSession::start_record(data, k) == Some(v)
}

/// A new ship's grid is sound, and each of its records is a starting
/// module's.
proof fn lemma_starting_grid(data: GameData, n: int)
    requires
        0 <= n,
    ensures
        grid_sound(
            data.config.grid_width as int,
            data.config.grid_height as int,
            GameSession::starting_grid(data, n),
        ),
        forall|j: int|
            0 <= j < GameSession::starting_grid(data, n).len() ==> starting_member(
                data,
                n,
                #[trigger] GameSession::starting_grid(data, n)[j],
            ),
    decreases n,
{
    let w = data.config.grid_width as int;
    let h = data.config.grid_height as int;
    if n > 0 {
        lemma_starting_grid(data, n - 1);
        let g = GameSession::starting_grid(data, n - 1);
        let r = GameSession::starting_grid(data, n);
        assert forall|j: int| 0 <= j < g.len() implies starting_member(data, n, #[trigger] g[j]) by {
            assert(starting_member(data, n - 1, g[j]));
            let k = choose|k: int| 0 <= k < n - 1 && #[trigger] GameSession::start_record(data, k) == Some(g[j]);
            assert(GameSession::start_record(data, k) == Some(g[j]));
        }
        match GameSession::start_record(data, n - 1) {
            Some(v) => if crate::rebuild::pv_placeable(w, h, g, v) {
                lemma_step_sound(w, h, g, v);
                let f = g.filter(other_than(v.0));
                assert(r == f.push(v));
                assert forall|j: int| 0 <= j < r.len() implies starting_member(data, n, #[trigger] r[j]) by {
                    if j < f.len() {
                        assert(f.contains(f[j]));
                        g.lemma_filter_contains_rev(other_than(v.0), f[j]);
                        let m = choose|m: int| 0 <= m < g.len() && g[m] == f[j];
                        assert(starting_member(data, n, g[m]));
                        assert(r[j] == f[j]);
                    } else {
                        assert(r[j] == v);
                        assert(GameSession::start_record(data, n - 1) == Some(r[j]));
                    }
                }
            },
            None => {},
        }
    }
}

/// The catalog a new career can be saved from: it lists each module once,
/// every starting module is a module rather than salvage, and the base tank
/// holds the starting fuel.
pub open spec fn starting_catalog_ok(data: GameData) -> bool {
    &&& distinct_modules(data.modules@)
    &&& data.config.starting_fuel <= data.config.max_fuel
    &&& forall|i: int|
        0 <= i < data.config.starting_modules.len() ==> !is_cargo_key(
            #[trigger] data.config.starting_modules@[i].module_id@,
        )
}

/// A new career breaks none of the rules a save is held to.
#[verifier::rlimit(40)]
proof fn lemma_new_career_saveable(s: GameSession, data: GameData)
    requires
        data.wf(),
        starting_catalog_ok(data),
        s.wf(),
        new_career(s, data),
    ensures
        saveable(s, data),
{
    let n = data.config.starting_modules.len() as int;
    let p = s.ship_layout.placements@;
    let g = GameSession::starting_grid(data, n);
    lemma_starting_grid(data, n);
    assert(pvs(p).len() == p.len());
    assert forall|i: int| 0 <= i < p.len() implies #[trigger] saved_item_ok(data)(p[i]) && p[i].permanent by {
        assert(pvs(p)[i] == pv(p[i]));
        assert(starting_member(data, n, g[i]));
        let k = choose|k: int| 0 <= k < n && #[trigger] GameSession::start_record(data, k) == Some(g[i]);
        assert(GameSession::start_record(data, k) == Some(g[i]));
        assert(!is_cargo_key(data.config.starting_modules@[k].module_id@));
    }
    lemma_stats_bounded(data, views(s.damaged_modules@), p);
    assert(s.returned@ =~= Seq::<ReturnedItem>::empty());
    assert(s.voyage_log@ =~= Seq::<crate::voyage_record::VoyageRecord>::empty());
    assert(s.damaged_modules@ =~= Seq::<String>::empty());
    assert(crate::persistence::returned_ids(s.returned@) =~= Seq::<Seq<char>>::empty());
    assert(s.returned@.filter(crate::cargo_bay::returned_pred(data, None, true)) =~= Seq::<ReturnedItem>::empty()) by {
        reveal_with_fuel(Seq::<_>::filter, 1);
    }
    // progress for known sites, each fresh record valid
    assert forall|i: int| 0 <= i < s.site_progress.len() implies data.site_spec(
        (#[trigger] s.site_progress@[i]).site_id@,
    ) is Some && crate::validation::progress_err(data)(s.site_progress@, i) is None by {
        let sid = data.sites@[i].id@;
        assert(data.sites@[i].key() == sid);
        assert(has_key(data.sites@, sid));
        lemma_keyed_found(data.sites@, sid);
        let k = key_index(data.sites@, sid);
        assert(data.sites@[k].wf());
        assert(data.sites@[i].wf());
    }
    lemma_first_error_none(
        s.site_progress@,
        crate::validation::progress_err(data),
        s.site_progress.len() as int,
    );
    assert(views(Seq::<String>::empty()) =~= Seq::<Seq<char>>::empty());
    lemma_unlocks_stay_valid(data, Seq::<String>::empty(), s.unlocked_modules@, data.config.starting_credits);
    assert forall|i: int| 0 <= i < p.len() implies (#[trigger] temporary_err(s)(p, i)) is None by {
        assert(saved_item_ok(data)(p[i]));
        assert(p[i].permanent);
    }
    lemma_first_error_none(p, temporary_err(s), p.len() as int);
    lemma_unlocks_settle(data.modules@, data.config.starting_credits, Seq::<Seq<char>>::empty());
    assert(Seq::<Seq<char>>::empty() + views(s.unlocked_modules@) =~= views(s.unlocked_modules@));
}

/// A new career is saved and loads back as itself: whatever the load
/// returns is that career, with the same grid records, the same blueprints
/// and every other field as it was, on a catalog that lists each module
/// once, places only modules at the start, and fills the starting tank
/// from the base one.
pub proof fn law_new_career_loads_back(s: GameSession, data: GameData, r: Result<GameSession, String>)
    requires
        data.wf(),
        starting_catalog_ok(data),
        s.wf(),
        new_career(s, data),
        load_outcome(s, data, r),
    ensures
        match r {
            Ok(again) => reloads_as(again, s),
            Err(_) => false,
        },
{
    lemma_new_career_saveable(s, data);
    law_saved_session_loads_back(s, data, r);
}

/// A voyage record cannot have both fulfilled and failed its contract: a
/// save whose voyage log holds such a record is refused, whatever else it
/// holds.
pub proof fn law_contradictory_contract_record_is_refused(
    saved: GameSession,
    data: GameData,
    r: Result<GameSession, String>,
    i: int,
)
    requires
        load_outcome(saved, data, r),
        0 <= i < saved.voyage_log.len(),
        saved.voyage_log@[i].contract_completed,
        saved.voyage_log@[i].contract_failed,
    ensures
        r is Err,
{
    if r is Ok {
        let loaded = r->Ok_0;
        let s = choose|s: GameSession| #[trigger]
            legacy_restored(saved, s, data) && load_accepted(s, data, loaded);
        assert(s.voyage_log == saved.voyage_log);
        assert(runtime_error(s, loaded.ship_layout.placements@, data) is None);
        assert(list_error(s.voyage_log@, crate::validation::record_err(data)) is None);
        lemma_first_error_each(
            s.voyage_log@,
            crate::validation::record_err(data),
            s.voyage_log.len() as int,
            i,
        );
        assert(crate::validation::record_err(data)(s.voyage_log@, i) is None);
        assert(!crate::validation::measurements_valid(s.voyage_log@[i], data));
    }
}

/// A save is refused when a voyage record names a site the catalog lacks
/// or holds a measurement no voyage could produce: a danger score or a site
/// condition outside 0 to 100, a reconnaissance level past the maximum, a
/// negative haul, premium, payout or return burn, a premium or payout
/// without cover, or a contract both fulfilled and failed.
pub proof fn law_implausible_voyage_record_is_refused(
    saved: GameSession,
    data: GameData,
    r: Result<GameSession, String>,
    i: int,
)
    requires
        load_outcome(saved, data, r),
        0 <= i < saved.voyage_log.len(),
        ({
            let rec = saved.voyage_log@[i];
            ||| data.site_spec(rec.site_id@) is None
            ||| rec.danger_score < 0 || rec.danger_score > 100
            ||| rec.condition_after < 0 || rec.condition_after > 100
            ||| rec.reconnaissance_level > data.config.reconnaissance.max_level
            ||| rec.recovered_value < 0 || rec.recovered_alloy < 0 || rec.recovered_electronics < 0
            ||| rec.insurance_premium < 0 || rec.insurance_payout < 0 || rec.return_fuel < 0
            ||| !rec.insured && (rec.insurance_premium > 0 || rec.insurance_payout > 0)
            ||| rec.contract_completed && rec.contract_failed
        }),
    ensures
        r is Err,
{
    if r is Ok {
        let loaded = r->Ok_0;
        let s = choose|s: GameSession| #[trigger]
            legacy_restored(saved, s, data) && load_accepted(s, data, loaded);
        assert(s.voyage_log == saved.voyage_log);
        assert(runtime_error(s, loaded.ship_layout.placements@, data) is None);
        assert(list_error(s.voyage_log@, crate::validation::record_err(data)) is None);
        lemma_first_error_each(
            s.voyage_log@,
            crate::validation::record_err(data),
            s.voyage_log.len() as int,
            i,
        );
        assert(crate::validation::record_err(data)(s.voyage_log@, i) is None);
    }
}

} // verus!
