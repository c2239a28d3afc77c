//! Rebuilding a grid item by item, as a save or a loadout lists it: what
//! the grid holds after each placement, and when a placement is refused.

use crate::layout::{rects_overlap, Footprint, GridPosition, LayoutError, PlacedItem, ShipLayout};
use vstd::prelude::*;

verus! {

/// What the grid records of an item: identifier, footprint, position,
/// rotation and whether it is permanent.
pub open spec fn pv(p: PlacedItem) -> (Seq<char>, Footprint, GridPosition, u8, bool) {
    (p.id@, p.footprint, p.position, p.rotation, p.permanent)
}

pub open spec fn pvs(ps: Seq<PlacedItem>) -> Seq<(Seq<char>, Footprint, GridPosition, u8, bool)> {
    ps.map_values(|p: PlacedItem| pv(p))
}

pub open spec fn pv_overlaps(
    a: (Seq<char>, Footprint, GridPosition, u8, bool),
    b: (Seq<char>, Footprint, GridPosition, u8, bool),
) -> bool {
    rects_overlap(
        a.2.x as int,
        a.2.y as int,
        a.1.dims(a.3).0,
        a.1.dims(a.3).1,
        b.2.x as int,
        b.2.y as int,
        b.1.dims(b.3).0,
        b.1.dims(b.3).1,
    )
}

/// Keeps the records whose identifier is not `id`.
pub open spec fn other_than(id: Seq<char>) -> spec_fn((Seq<char>, Footprint, GridPosition, u8, bool)) -> bool {
    |x: (Seq<char>, Footprint, GridPosition, u8, bool)| x.0 != id
}

/// Whether the item may go into a `w` by `h` grid that already holds `s`:
/// inside the grid, and clear of every item with another identifier.
pub open spec fn pv_placeable(
    w: int,
    h: int,
    s: Seq<(Seq<char>, Footprint, GridPosition, u8, bool)>,
    v: (Seq<char>, Footprint, GridPosition, u8, bool),
) -> bool {
    &&& 0 <= v.2.x
    &&& 0 <= v.2.y
    &&& v.2.x + v.1.dims(v.3).0 <= w
    &&& v.2.y + v.1.dims(v.3).1 <= h
    &&& !exists|i: int| 0 <= i < s.len() && s[i].0 != v.0 && pv_overlaps(#[trigger] s[i], v)
}

/// The grid after placing `items` in order into an empty `w` by `h` grid,
/// each replacing an earlier item with its identifier; none when some
/// placement is refused.
pub open spec fn rebuilt(w: int, h: int, items: Seq<(Seq<char>, Footprint, GridPosition, u8, bool)>) -> Option<
    Seq<(Seq<char>, Footprint, GridPosition, u8, bool)>,
>
    decreases items.len(),
{
    if items.len() == 0 {
        Some(Seq::empty())
    } else {
        match rebuilt(w, h, items.drop_last()) {
            None => None,
            Some(s) => {
                let v = items.last();
                if pv_placeable(w, h, s, v) {
                    Some(s.filter(other_than(v.0)).push(v))
                } else {
                    None
                }
            },
        }
    }
}

proof fn lemma_filter_map(ps: Seq<PlacedItem>, id: Seq<char>)
    ensures
        pvs(ShipLayout::without(ps, id)) == pvs(ps).filter(other_than(id)),
    decreases ps.len(),
{
    let q = other_than(id);
    if ps.len() == 0 {
        assert(ShipLayout::without(ps, id) =~= Seq::<PlacedItem>::empty());
        assert(pvs(ps).filter(q) =~= Seq::empty());
        assert(pvs(ShipLayout::without(ps, id)) =~= Seq::empty());
    } else {
        let d = ps.drop_last();
        let l = ps.last();
        assert(ps =~= d.push(l));
        lemma_filter_map(d, id);
        d.lemma_filter_push(l, ShipLayout::keep(id));
        assert(pvs(ps) =~= pvs(d).push(pv(l)));
        pvs(d).lemma_filter_push(pv(l), q);
        if l.id@ != id {
            assert(pvs(d.filter(ShipLayout::keep(id)).push(l)) =~= pvs(d.filter(ShipLayout::keep(id))).push(
                pv(l),
            ));
        }
    }
}

/// A grid accepts an item exactly when its record does.
pub proof fn lemma_placeable_pv(layout: ShipLayout, v: (Seq<char>, Footprint, GridPosition, u8, bool))
    ensures
        layout.placeable(v.0, v.1, v.2, v.3) == pv_placeable(
            layout.width as int,
            layout.height as int,
            pvs(layout.placements@),
            v,
        ),
{
    let s = pvs(layout.placements@);
    if layout.blocked(v.0, v.1, v.2, v.3) {
        let i = choose|i: int|
            0 <= i < layout.placements.len() && layout.placements@[i].id@ != v.0
                && crate::layout::item_overlaps(#[trigger] layout.placements@[i], v.1, v.2, v.3);
        assert(s[i] == pv(layout.placements@[i]));
        assert(pv_overlaps(s[i], v));
    }
    if exists|i: int| 0 <= i < s.len() && s[i].0 != v.0 && pv_overlaps(#[trigger] s[i], v) {
        let i = choose|i: int| 0 <= i < s.len() && s[i].0 != v.0 && pv_overlaps(#[trigger] s[i], v);
        assert(s[i] == pv(layout.placements@[i]));
        assert(crate::layout::item_overlaps(layout.placements@[i], v.1, v.2, v.3));
    }
}

/// One accepted placement extends the rebuilt grid by the item's record.
pub proof fn lemma_place_step(
    before: ShipLayout,
    after: ShipLayout,
    v: (Seq<char>, Footprint, GridPosition, u8, bool),
)
    requires
        after.placements@.len() > 0,
        after.placements@.drop_last() == ShipLayout::without(before.placements@, v.0),
        pv(after.placements@.last()) == v,
    ensures
        pvs(after.placements@) == pvs(before.placements@).filter(other_than(v.0)).push(v),
{
    lemma_filter_map(before.placements@, v.0);
    assert(after.placements@ =~= after.placements@.drop_last().push(after.placements@.last()));
    assert(pvs(after.placements@) =~= pvs(after.placements@.drop_last()).push(
        pv(after.placements@.last()),
    ));
}


/// Whether the item's rectangle lies inside a `w` by `h` grid.
pub open spec fn pv_fits(w: int, h: int, v: (Seq<char>, Footprint, GridPosition, u8, bool)) -> bool {
    &&& 0 <= v.2.x
    &&& 0 <= v.2.y
    &&& v.2.x + v.1.dims(v.3).0 <= w
    &&& v.2.y + v.1.dims(v.3).1 <= h
}

/// How a grid holding `s` refuses the item: out of bounds when it does not
/// fit, otherwise by naming an item with another identifier that it overlaps.
pub open spec fn refusal(
    w: int,
    h: int,
    s: Seq<(Seq<char>, Footprint, GridPosition, u8, bool)>,
    v: (Seq<char>, Footprint, GridPosition, u8, bool),
    e: LayoutError,
) -> bool {
    match e {
        LayoutError::OutOfBounds => !pv_fits(w, h, v),
        LayoutError::Overlap(other) => pv_fits(w, h, v) && exists|i: int|
            0 <= i < s.len() && s[i].0 != v.0 && pv_overlaps(#[trigger] s[i], v) && s[i].0
                == other@,
    }
}

/// The first `k` items of a list pass their own check and place in order.
pub open spec fn listed_ok(
    w: int,
    h: int,
    items: Seq<PlacedItem>,
    ok: spec_fn(PlacedItem) -> bool,
    k: int,
) -> bool {
    &&& 0 <= k <= items.len()
    &&& forall|j: int| 0 <= j < k ==> #[trigger] ok(items[j])
    &&& rebuilt(w, h, pvs(items.take(k))) is Some
}

/// Item `k` is the first of the list to be refused, and `m` says why: its
/// own check's message `why` when that check fails, else `lead` followed by
/// the grid's refusal.
pub open spec fn listed_failure(
    w: int,
    h: int,
    items: Seq<PlacedItem>,
    ok: spec_fn(PlacedItem) -> bool,
    why: spec_fn(PlacedItem) -> Seq<char>,
    lead: spec_fn(PlacedItem) -> Seq<char>,
    k: int,
    m: Seq<char>,
) -> bool {
    &&& 0 <= k < items.len()
    &&& listed_ok(w, h, items, ok, k)
    &&& if !ok(items[k]) {
        m == why(items[k])
    } else {
        let s = rebuilt(w, h, pvs(items.take(k))).unwrap();
        &&& !pv_placeable(w, h, s, pv(items[k]))
        &&& exists|e: LayoutError| #[trigger]
            refusal(w, h, s, pv(items[k]), e) && m == lead(items[k]) + e.message_spec()
    }
}

/// Some item of the list is the first refused, with message `m`.
pub open spec fn list_refused(
    w: int,
    h: int,
    items: Seq<PlacedItem>,
    ok: spec_fn(PlacedItem) -> bool,
    why: spec_fn(PlacedItem) -> Seq<char>,
    lead: spec_fn(PlacedItem) -> Seq<char>,
    m: Seq<char>,
) -> bool {
    exists|k: int| #[trigger] listed_failure(w, h, items, ok, why, lead, k, m)
}

/// Growing an accepted prefix by one item: the item passes its check and
/// the grid rebuilt so far accepts it.
pub proof fn lemma_listed_step(
    w: int,
    h: int,
    items: Seq<PlacedItem>,
    ok: spec_fn(PlacedItem) -> bool,
    k: int,
)
    requires
        listed_ok(w, h, items, ok, k),
        k < items.len(),
    ensures
        pvs(items.take(k + 1)).drop_last() == pvs(items.take(k)),
        pvs(items.take(k + 1)).last() == pv(items[k]),
        listed_ok(w, h, items, ok, k + 1) <==> ok(items[k]) && pv_placeable(
            w,
            h,
            rebuilt(w, h, pvs(items.take(k))).unwrap(),
            pv(items[k]),
        ),
        rebuilt(w, h, pvs(items.take(k + 1))) == (if pv_placeable(
            w,
            h,
            rebuilt(w, h, pvs(items.take(k))).unwrap(),
            pv(items[k]),
        ) {
            Some(
                rebuilt(w, h, pvs(items.take(k))).unwrap().filter(other_than(pv(items[k]).0)).push(
                    pv(items[k]),
                ),
            )
        } else {
            None::<Seq<(Seq<char>, Footprint, GridPosition, u8, bool)>>
        }),
{
    assert(items.take(k + 1).drop_last() =~= items.take(k));
    assert(pvs(items.take(k + 1)).drop_last() =~= pvs(items.take(k)));
    assert(pvs(items.take(k + 1)).len() == k + 1);
    assert(pvs(items.take(k + 1)).last() == pv(items.take(k + 1)[k]));
    if ok(items[k]) && listed_ok(w, h, items, ok, k) {
        assert forall|j: int| 0 <= j < k + 1 implies #[trigger] ok(items[j]) by {
            if j < k {
                assert(ok(items[j]));
            }
        }
    }
    if listed_ok(w, h, items, ok, k + 1) {
        assert(ok(items[k]));
    }
}

/// A prefix of an accepted prefix is accepted.
pub proof fn lemma_listed_prefix(
    w: int,
    h: int,
    items: Seq<PlacedItem>,
    ok: spec_fn(PlacedItem) -> bool,
    k: int,
    n: int,
)
    requires
        listed_ok(w, h, items, ok, n),
        0 <= k <= n,
    ensures
        listed_ok(w, h, items, ok, k),
    decreases n - k,
{
    if k < n {
        assert(pvs(items.take(n)).drop_last() =~= pvs(items.take(n - 1)));
        assert(listed_ok(w, h, items, ok, n - 1));
        lemma_listed_prefix(w, h, items, ok, k, n - 1);
    }
}

/// A list accepted up to its end is accepted whole.
pub proof fn lemma_listed_whole(items: Seq<PlacedItem>)
    ensures
        items.take(items.len() as int) == items,
{
    assert(items.take(items.len() as int) =~= items);
}

/// A rebuilt grid: every record inside the grid, identifiers distinct, and
/// no two records sharing a cell.
pub open spec fn grid_sound(w: int, h: int, r: Seq<(Seq<char>, Footprint, GridPosition, u8, bool)>) -> bool {
    &&& forall|i: int| 0 <= i < r.len() ==> pv_fits(w, h, #[trigger] r[i])
    &&& forall|i: int, j: int|
        0 <= i < r.len() && 0 <= j < r.len() && i != j ==> (#[trigger] r[i]).0 != (#[trigger] r[j]).0
            && !pv_overlaps(r[i], r[j])
}

/// A filter that every element passes keeps the list as it is.
proof fn lemma_filter_keeps_all<A>(s: Seq<A>, f: spec_fn(A) -> bool)
    requires
        forall|i: int| 0 <= i < s.len() ==> f(#[trigger] s[i]),
    ensures
        s.filter(f) == s,
    decreases s.len(),
{
    reveal_with_fuel(Seq::<_>::filter, 1);
    if s.len() > 0 {
        let d = s.drop_last();
        assert forall|i: int| 0 <= i < d.len() implies f(#[trigger] d[i]) by {
            assert(d[i] == s[i]);
        }
        lemma_filter_keeps_all(d, f);
        assert(f(s[s.len() - 1]));
        assert(d.push(s.last()) =~= s);
    }
}

/// In a list with distinct identifiers, dropping the records named like
/// record `k` drops exactly record `k`.
proof fn lemma_filter_removes_one(s: Seq<(Seq<char>, Footprint, GridPosition, u8, bool)>, k: int)
    requires
        0 <= k < s.len(),
        forall|i: int, j: int| 0 <= i < s.len() && 0 <= j < s.len() && i != j ==> (#[trigger] s[i]).0
            != (#[trigger] s[j]).0,
    ensures
        s.filter(other_than(s[k].0)) == s.remove(k),
    decreases s.len(),
{
    reveal_with_fuel(Seq::<_>::filter, 1);
    let x = s[k].0;
    let q = other_than(x);
    let d = s.drop_last();
    if k == s.len() - 1 {
        assert forall|i: int| 0 <= i < d.len() implies q(#[trigger] d[i]) by {
            assert(d[i] == s[i]);
        }
        lemma_filter_keeps_all(d, q);
        assert(s.remove(k) =~= d);
    } else {
        assert forall|i: int, j: int| 0 <= i < d.len() && 0 <= j < d.len() && i != j implies (#[trigger] d[i]).0
            != (#[trigger] d[j]).0 by {
            assert(d[i] == s[i] && d[j] == s[j]);
        }
        lemma_filter_removes_one(d, k);
        assert(d[k] == s[k]);
        assert(s.last().0 != x);
        assert(s.remove(k) =~= d.remove(k).push(s.last()));
    }
}

/// Placing a record into a sound grid keeps it sound.
pub(crate) proof fn lemma_step_sound(
    w: int,
    h: int,
    s: Seq<(Seq<char>, Footprint, GridPosition, u8, bool)>,
    v: (Seq<char>, Footprint, GridPosition, u8, bool),
)
    requires
        grid_sound(w, h, s),
        pv_placeable(w, h, s, v),
    ensures
        grid_sound(w, h, s.filter(other_than(v.0)).push(v)),
{
    let q = other_than(v.0);
    let t = s.filter(q);
    if exists|k: int| 0 <= k < s.len() && s[k].0 == v.0 {
        let k = choose|k: int| 0 <= k < s.len() && s[k].0 == v.0;
        lemma_filter_removes_one(s, k);
        assert forall|i: int| 0 <= i < t.len() implies t[i] == s[if i < k { i } else { i + 1 }] by {}
    } else {
        assert forall|i: int| 0 <= i < s.len() implies q(#[trigger] s[i]) by {}
        lemma_filter_keeps_all(s, q);
    }
    let r = t.push(v);
    assert forall|i: int| 0 <= i < t.len() implies exists|a: int| 0 <= a < s.len() && t[i] == s[a]
        && #[trigger] t[i].0 != v.0 by {
        if exists|k: int| 0 <= k < s.len() && s[k].0 == v.0 {
            let k = choose|k: int| 0 <= k < s.len() && s[k].0 == v.0;
            let a = if i < k { i } else { i + 1 };
            assert(t[i] == s[a]);
            assert(a != k);
        } else {
            assert(t[i] == s[i]);
        }
    }
    assert forall|i: int| 0 <= i < r.len() implies pv_fits(w, h, #[trigger] r[i]) by {
        if i < t.len() {
            let a = choose|a: int| 0 <= a < s.len() && t[i] == s[a] && t[i].0 != v.0;
            assert(r[i] == s[a]);
        }
    }
    assert forall|i: int, j: int| 0 <= i < r.len() && 0 <= j < r.len() && i != j implies (#[trigger] r[i]).0
        != (#[trigger] r[j]).0 && !pv_overlaps(r[i], r[j]) by {
        if i < t.len() && j < t.len() {
            let a = choose|a: int| 0 <= a < s.len() && t[i] == s[a] && t[i].0 != v.0;
            let b = choose|b: int| 0 <= b < s.len() && t[j] == s[b] && t[j].0 != v.0;
            if exists|k: int| 0 <= k < s.len() && s[k].0 == v.0 {
                let k = choose|k: int| 0 <= k < s.len() && s[k].0 == v.0;
                let a2 = if i < k { i } else { i + 1 };
                let b2 = if j < k { j } else { j + 1 };
                assert(t[i] == s[a2] && t[j] == s[b2]);
                assert(a2 != b2);
            } else {
                assert(t[i] == s[i] && t[j] == s[j]);
            }
        } else if i < t.len() {
            let a = choose|a: int| 0 <= a < s.len() && t[i] == s[a] && t[i].0 != v.0;
            assert(r[j] == v);
            assert(!pv_overlaps(s[a], v));
        } else if j < t.len() {
            let b = choose|b: int| 0 <= b < s.len() && t[j] == s[b] && t[j].0 != v.0;
            assert(r[i] == v);
            assert(!pv_overlaps(s[b], v));
        }
    }
}

/// Every grid a list rebuilds to is sound.
pub proof fn lemma_rebuilt_sound(
    w: int,
    h: int,
    items: Seq<(Seq<char>, Footprint, GridPosition, u8, bool)>,
)
    requires
        rebuilt(w, h, items) is Some,
    ensures
        grid_sound(w, h, rebuilt(w, h, items).unwrap()),
    decreases items.len(),
{
    if items.len() > 0 {
        lemma_rebuilt_sound(w, h, items.drop_last());
        lemma_step_sound(w, h, rebuilt(w, h, items.drop_last()).unwrap(), items.last());
    }
}

/// A sound grid rebuilds to itself.
pub proof fn lemma_sound_rebuilds(w: int, h: int, r: Seq<(Seq<char>, Footprint, GridPosition, u8, bool)>)
    requires
        grid_sound(w, h, r),
    ensures
        rebuilt(w, h, r) == Some(r),
    decreases r.len(),
{
    if r.len() > 0 {
        let d = r.drop_last();
        let v = r.last();
        assert forall|i: int| 0 <= i < d.len() implies pv_fits(w, h, #[trigger] d[i]) by {
            assert(d[i] == r[i]);
        }
        assert forall|i: int, j: int| 0 <= i < d.len() && 0 <= j < d.len() && i != j implies (#[trigger] d[i]).0
            != (#[trigger] d[j]).0 && !pv_overlaps(d[i], d[j]) by {
            assert(d[i] == r[i] && d[j] == r[j]);
        }
        lemma_sound_rebuilds(w, h, d);
        assert(pv_fits(w, h, r[r.len() - 1]));
        assert forall|i: int| 0 <= i < d.len() implies other_than(v.0)(#[trigger] d[i]) && !pv_overlaps(d[i], v) by {
            assert(d[i] == r[i]);
            assert(r[r.len() - 1] == v);
        }
        lemma_filter_keeps_all(d, other_than(v.0));
        assert(d.push(v) =~= r);
    }
}

/// A grid rebuilt from a list rebuilds to itself: saving a loaded ship and
/// loading it again gives back the same grid.
pub proof fn law_rebuilt_grid_is_stable(
    w: int,
    h: int,
    items: Seq<(Seq<char>, Footprint, GridPosition, u8, bool)>,
)
    requires
        rebuilt(w, h, items) is Some,
    ensures
        rebuilt(w, h, rebuilt(w, h, items).unwrap()) == rebuilt(w, h, items),
{
    lemma_rebuilt_sound(w, h, items);
    lemma_sound_rebuilds(w, h, rebuilt(w, h, items).unwrap());
}

/// Places a listed item into a grid being rebuilt, keeping its own
/// permanence; the grid refuses it, and stays as it was, exactly when the
/// record does not fit or overlaps an item with another identifier.
pub fn place_record(layout: &mut ShipLayout, item: &PlacedItem) -> (r: Result<(), LayoutError>)
    requires
        old(layout).wf(),
        old(layout).placements.len() < 4096,
        item.footprint.wf(),
    ensures
        r is Ok <==> pv_placeable(
            old(layout).width as int,
            old(layout).height as int,
            pvs(old(layout).placements@),
            pv(*item),
        ),
        r is Err ==> *final(layout) == *old(layout),
        r matches Err(e) ==> refusal(
            old(layout).width as int,
            old(layout).height as int,
            pvs(old(layout).placements@),
            pv(*item),
            e,
        ),
        r is Ok ==> {
            &&& pvs(final(layout).placements@) == pvs(old(layout).placements@).filter(
                other_than(item.id@),
            ).push(pv(*item))
            &&& final(layout).wf()
            &&& final(layout).width == old(layout).width
            &&& final(layout).height == old(layout).height
            &&& final(layout).placements.len() <= old(layout).placements.len() + 1
        },
{
    let ghost v = pv(*item);
    let ghost before = *layout;
    proof {
        lemma_placeable_pv(before, v);
    }
    match layout.can_place(item.id.as_str(), item.footprint, item.position, item.rotation) {
        Err(e) => {
            proof {
                let s = pvs(before.placements@);
                if e is Overlap {
                    let other = e->Overlap_0;
                    let i = choose|i: int|
                        0 <= i < before.placements.len() && before.placements@[i].id@ != item.id@
                            && before.placements@[i].id == other && crate::layout::item_overlaps(
                            #[trigger] before.placements@[i],
                            item.footprint,
                            item.position,
                            item.rotation,
                        );
                    assert(s[i] == pv(before.placements@[i]));
                    assert(pv_overlaps(s[i], v));
                }
            }
            Err(e)
        },
        Ok(()) => {
            let placed = layout.place(
                item.id.as_str(),
                item.footprint,
                item.position,
                item.rotation,
                item.permanent,
            );
            proof {
                assert(placed is Ok);
                crate::layout::lemma_place_keeps_wf(
                    before,
                    *layout,
                    item.id@,
                    item.footprint,
                    item.position,
                    item.rotation,
                );
                crate::layout::lemma_without_len(before.placements@, item.id@);
                lemma_place_step(before, *layout, v);
            }
            Ok(())
        },
    }
}

} // verus!
