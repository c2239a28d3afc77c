//! The ship's packing grid: permanent modules and cargo occupy rectangles
//! that must stay inside the hull and never overlap.

use vstd::prelude::*;

verus! {

#[derive(Clone, Copy, Debug, PartialEq, Eq, Structural)]
pub struct GridPosition {
    pub x: i32,
    pub y: i32,
}

impl GridPosition {
    pub fn new(x: i32, y: i32) -> (r: Self)
        ensures
            r.x == x,
            r.y == y,
    {
        GridPosition { x, y }
    }
}

#[derive(Clone, Copy, Debug, PartialEq, Eq, Structural)]
pub struct Footprint {
    pub width: i32,
    pub height: i32,
}

impl Footprint {
    pub open spec fn wf(&self) -> bool {
        1 <= self.width <= 64 && 1 <= self.height <= 64
    }

    pub fn check(&self) -> (r: bool)
        ensures
            r == self.wf(),
    {
        1 <= self.width && self.width <= 64 && 1 <= self.height && self.height <= 64
    }

    /// Width and height once turned by `rotation` quarter turns.
    pub open spec fn dims(self, rotation: u8) -> (int, int) {
        if rotation % 2 == 1 {
            (self.height as int, self.width as int)
        } else {
            (self.width as int, self.height as int)
        }
    }
}

#[derive(Clone, Debug)]
pub struct PlacedItem {
    pub id: String,
    pub footprint: Footprint,
    pub position: GridPosition,
    pub rotation: u8,
    pub permanent: bool,
}

impl PlacedItem {
    pub fn duplicate(&self) -> (r: Self)
        ensures
            r == *self,
    {
        PlacedItem {
            id: self.id.clone(),
            footprint: self.footprint,
            position: self.position,
            rotation: self.rotation,
            permanent: self.permanent,
        }
    }
}

/// Why a rectangle cannot go where it was asked to.
#[derive(Clone, Debug, PartialEq, Eq)]
pub enum LayoutError {
    OutOfBounds,
    Overlap(String),
}

impl LayoutError {
    pub open spec fn message_spec(&self) -> Seq<char> {
        match self {
            LayoutError::OutOfBounds => "placement leaves the ship grid"@,
            LayoutError::Overlap(other) => "placement overlaps "@ + other@,
        }
    }

    pub fn message(&self) -> (r: String)
        ensures
            r@ == self.message_spec(),
    {
        match self {
            LayoutError::OutOfBounds => "placement leaves the ship grid".to_owned(),
            LayoutError::Overlap(other) => {
                let mut s = "placement overlaps ".to_owned();
                s.append(other.as_str());
                s
            },
        }
    }
}

#[derive(Clone, Debug)]
pub struct ShipLayout {
    pub width: i32,
    pub height: i32,
    pub placements: Vec<PlacedItem>,
}

/// Whether two rectangles share a cell.
pub open spec fn rects_overlap(
    ax: int,
    ay: int,
    aw: int,
    ah: int,
    bx: int,
    by: int,
    bw: int,
    bh: int,
) -> bool {
    ax < bx + bw && bx < ax + aw && ay < by + bh && by < ay + ah
}

pub open spec fn item_overlaps(a: PlacedItem, fp: Footprint, pos: GridPosition, rotation: u8) -> bool {
    rects_overlap(
        a.position.x as int,
        a.position.y as int,
        a.footprint.dims(a.rotation).0,
        a.footprint.dims(a.rotation).1,
        pos.x as int,
        pos.y as int,
        fp.dims(rotation).0,
        fp.dims(rotation).1,
    )
}

pub open spec fn items_overlap(a: PlacedItem, b: PlacedItem) -> bool {
    item_overlaps(a, b.footprint, b.position, b.rotation)
}

impl ShipLayout {
    /// Whether a rectangle lies inside the grid.
    pub open spec fn fits(&self, fp: Footprint, pos: GridPosition, rotation: u8) -> bool {
        &&& 0 <= pos.x
        &&& 0 <= pos.y
        &&& pos.x + fp.dims(rotation).0 <= self.width
        &&& pos.y + fp.dims(rotation).1 <= self.height
    }

    /// Whether some item other than `id` shares a cell with the rectangle.
    pub open spec fn blocked(&self, id: Seq<char>, fp: Footprint, pos: GridPosition, rotation: u8) -> bool {
        exists|i: int|
            0 <= i < self.placements.len() && self.placements@[i].id@ != id && item_overlaps(
                #[trigger] self.placements@[i],
                fp,
                pos,
                rotation,
            )
    }

    pub open spec fn placeable(&self, id: Seq<char>, fp: Footprint, pos: GridPosition, rotation: u8) -> bool {
        self.fits(fp, pos, rotation) && !self.blocked(id, fp, pos, rotation)
    }

    /// The grid is sized sensibly, every item lies inside it, and items
    /// with different identifiers never share a cell.
    pub open spec fn wf(&self) -> bool {
        &&& 1 <= self.width <= 64
        &&& 1 <= self.height <= 64
        &&& self.placements.len() <= 4096
        &&& forall|i: int|
            0 <= i < self.placements.len() ==> {
                let p = #[trigger] self.placements@[i];
                p.footprint.wf() && self.fits(p.footprint, p.position, p.rotation)
            }
        &&& forall|i: int, j: int|
            0 <= i < self.placements.len() && 0 <= j < self.placements.len()
                && self.placements@[i].id@ != self.placements@[j].id@ ==> !items_overlap(
                #[trigger] self.placements@[i],
                #[trigger] self.placements@[j],
            )
    }

    /// The items that remain once every item named `id` is taken out.
    pub open spec fn without(placements: Seq<PlacedItem>, id: Seq<char>) -> Seq<PlacedItem> {
        placements.filter(Self::keep(id))
    }

    /// The items that `without` keeps.
    pub open spec fn keep(id: Seq<char>) -> spec_fn(PlacedItem) -> bool {
        |p: PlacedItem| p.id@ != id
    }

    pub open spec fn area(placements: Seq<PlacedItem>) -> int
        decreases placements.len(),
    {
        if placements.len() == 0 {
            0
        } else {
            Self::area(placements.drop_last()) + placements.last().footprint.width
                * placements.last().footprint.height
        }
    }

    pub fn new(width: i32, height: i32) -> (r: Self)
        ensures
            r.width == width,
            r.height == height,
            r.placements@.len() == 0,
            1 <= width <= 64 && 1 <= height <= 64 ==> r.wf(),
    {
        ShipLayout { width, height, placements: Vec::new() }
    }

    /// Whether the rectangle could be placed for `id`: inside the grid and
    /// clear of every item with another identifier.
    pub fn can_place(&self, id: &str, fp: Footprint, pos: GridPosition, rotation: u8) -> (r: Result<
        (),
        LayoutError,
    >)
        requires
            fp.wf(),
            self.width <= 64,
            self.height <= 64,
            forall|i: int|
                0 <= i < self.placements.len() ==> (#[trigger] self.placements@[i]).footprint.wf(),
        ensures
            r is Ok <==> self.placeable(id@, fp, pos, rotation),
            r == Err::<(), LayoutError>(LayoutError::OutOfBounds) <==> !self.fits(fp, pos, rotation),
            r matches Err(LayoutError::Overlap(other)) ==> exists|i: int|
                0 <= i < self.placements.len() && self.placements@[i].id@ != id@
                    && self.placements@[i].id == other && item_overlaps(
                    #[trigger] self.placements@[i],
                    fp,
                    pos,
                    rotation,
                ),
    {
        let (w, h) = if rotation % 2 == 1 {
            (fp.height, fp.width)
        } else {
            (fp.width, fp.height)
        };
        assert((w as int, h as int) == fp.dims(rotation));
        if pos.x < 0 || pos.y < 0 || pos.x as i64 > self.width as i64 - w as i64 || pos.y as i64
            > self.height as i64 - h as i64 {
            return Err(LayoutError::OutOfBounds);
        }
        let key = id.to_owned();
        let mut i: usize = 0;
        while i < self.placements.len()
            invariant
                i <= self.placements.len(),
                key@ == id@,
                (w as int, h as int) == fp.dims(rotation),
                self.fits(fp, pos, rotation),
                forall|i: int|
                    0 <= i < self.placements.len() ==> (#[trigger] self.placements@[i]).footprint.wf(),
                forall|j: int|
                    0 <= j < i ==> !(self.placements@[j].id@ != id@ && item_overlaps(
                        #[trigger] self.placements@[j],
                        fp,
                        pos,
                        rotation,
                    )),
            decreases self.placements.len() - i,
        {
            let p = &self.placements[i];
            let (pw, ph) = if p.rotation % 2 == 1 {
                (p.footprint.height, p.footprint.width)
            } else {
                (p.footprint.width, p.footprint.height)
            };
            assert(self.placements@[i as int].footprint.wf());
            if p.id != key && (p.position.x as i64) < pos.x as i64 + w as i64 && (pos.x as i64)
                < p.position.x as i64 + pw as i64 && (p.position.y as i64) < pos.y as i64 + h as i64
                && (pos.y as i64) < p.position.y as i64 + ph as i64 {
                return Err(LayoutError::Overlap(p.id.clone()));
            }
            i = i + 1;
        }
        Ok(())
    }

    /// Takes out every item named `id`.
    pub fn remove(&mut self, id: &str)
        ensures
            final(self).width == old(self).width,
            final(self).height == old(self).height,
            final(self).placements@ == Self::without(old(self).placements@, id@),
    {
        let key = id.to_owned();
        let mut out: Vec<PlacedItem> = Vec::new();
        let mut i: usize = 0;
        while i < self.placements.len()
            invariant
                i <= self.placements.len(),
                self.placements@ == old(self).placements@,
                self.width == old(self).width,
                self.height == old(self).height,
                key@ == id@,
                out@ == Self::without(old(self).placements@.take(i as int), id@),
            decreases self.placements.len() - i,
        {
            proof {
                reveal_with_fuel(Seq::<_>::filter, 1);
                assert(old(self).placements@.take(i + 1).drop_last() =~= old(self).placements@.take(i as int));
                assert(old(self).placements@.take(i + 1).last() == self.placements@[i as int]);
            }
            if self.placements[i].id != key {
                out.push(self.placements[i].duplicate());
            }
            i = i + 1;
        }
        proof {
            assert(old(self).placements@.take(self.placements.len() as int) =~= old(self).placements@);
        }
        self.placements = out;
    }

    /// Places a rectangle for `id`, replacing any earlier item with that
    /// identifier; refused, and nothing changes, when it does not fit or
    /// overlaps another item.
    pub fn place(
        &mut self,
        id: &str,
        fp: Footprint,
        pos: GridPosition,
        rotation: u8,
        permanent: bool,
    ) -> (r: Result<(), LayoutError>)
        requires
            fp.wf(),
            old(self).width <= 64,
            old(self).height <= 64,
            old(self).placements.len() < 4096,
            forall|i: int|
                0 <= i < old(self).placements.len() ==> (#[trigger] old(self).placements@[i]).footprint.wf(),
        ensures
            r is Ok <==> old(self).placeable(id@, fp, pos, rotation),
            r is Err ==> *final(self) == *old(self),
            r is Ok ==> final(self).width == old(self).width && final(self).height == old(self).height && final(self).placements@.drop_last() == Self::without(
                old(self).placements@,
                id@,
            ) && final(self).placements@.last().id@ == id@ && final(self).placements@.last().footprint
                == fp && final(self).placements@.last().position == pos && final(self).placements@.last().rotation == rotation && final(self).placements@.last().permanent
                == permanent && final(self).placements@.len() > 0,
    {
        match self.can_place(id, fp, pos, rotation) {
            Err(e) => Err(e),
            Ok(()) => {
                self.remove(id);
                proof {
                    lemma_without_len(old(self).placements@, id@);
                }
                self.placements.push(
                    PlacedItem { id: id.to_owned(), footprint: fp, position: pos, rotation, permanent },
                );
                proof {
                    assert(self.placements@.drop_last() =~= Self::without(
                        old(self).placements@,
                        id@,
                    ));
                }
                Ok(())
            },
        }
    }

    /// The first open spot for the rectangle, scanning rows top to bottom,
    /// cells left to right, unturned before turned.
    pub fn first_fit(&self, id: &str, fp: Footprint, rotatable: bool) -> (r: Option<
        (GridPosition, u8),
    >)
        requires
            fp.wf(),
            1 <= self.width <= 64,
            1 <= self.height <= 64,
            forall|i: int|
                0 <= i < self.placements.len() ==> (#[trigger] self.placements@[i]).footprint.wf(),
        ensures
            match r {
                Some((pos, rot)) => {
                    &&& self.placeable(id@, fp, pos, rot)
                    &&& (rot == 0 || (rot == 1 && rotatable))
                    &&& forall|x: int, y: int, q: u8|
                        (q == 0 || (q == 1 && rotatable)) && 0 <= y < self.height && 0 <= x
                            < self.width && Self::scan_before(x, y, q, pos.x as int, pos.y as int, rot)
                            ==> !#[trigger] self.placeable(
                            id@,
                            fp,
                            GridPosition { x: x as i32, y: y as i32 },
                            q,
                        )
                },
                None => forall|x: int, y: int, q: u8|
                    (q == 0 || (q == 1 && rotatable)) && 0 <= y < self.height && 0 <= x
                        < self.width ==> !#[trigger] self.placeable(
                        id@,
                        fp,
                        GridPosition { x: x as i32, y: y as i32 },
                        q,
                    ),
            },
    {
        let mut y: i32 = 0;
        while y < self.height
            invariant
                0 <= y <= self.height,
                fp.wf(),
                1 <= self.width <= 64,
                1 <= self.height <= 64,
                forall|i: int|
                    0 <= i < self.placements.len() ==> (#[trigger] self.placements@[i]).footprint.wf(),
                forall|x: int, yy: int, q: u8|
                    (q == 0 || (q == 1 && rotatable)) && 0 <= yy < y && 0 <= x < self.width
                        ==> !#[trigger] self.placeable(
                        id@,
                        fp,
                        GridPosition { x: x as i32, y: yy as i32 },
                        q,
                    ),
            decreases self.height - y,
        {
            let mut x: i32 = 0;
            while x < self.width
                invariant
                    0 <= x <= self.width,
                    0 <= y < self.height,
                    fp.wf(),
                    1 <= self.width <= 64,
                    1 <= self.height <= 64,
                    forall|i: int|
                        0 <= i < self.placements.len() ==> (
                        #[trigger] self.placements@[i]).footprint.wf(),
                    forall|xx: int, yy: int, q: u8|
                        (q == 0 || (q == 1 && rotatable)) && 0 <= yy < self.height && 0 <= xx
                            < self.width && (yy < y || (yy == y && xx < x)) ==> !#[trigger] self.placeable(
                            id@,
                            fp,
                            GridPosition { x: xx as i32, y: yy as i32 },
                            q,
                        ),
                decreases self.width - x,
            {
                let pos = GridPosition { x, y };
                if self.can_place(id, fp, pos, 0).is_ok() {
                    return Some((pos, 0));
                }
                if rotatable && self.can_place(id, fp, pos, 1).is_ok() {
                    return Some((pos, 1));
                }
                x = x + 1;
            }
            y = y + 1;
        }
        None
    }

    /// Cells covered by all items.
    pub fn occupied_cells(&self) -> (r: i64)
        requires
            self.placements.len() <= 4096,
            forall|i: int|
                0 <= i < self.placements.len() ==> (#[trigger] self.placements@[i]).footprint.wf(),
        ensures
            r == Self::area(self.placements@),
    {
        let mut total: i64 = 0;
        let mut i: usize = 0;
        while i < self.placements.len()
            invariant
                i <= self.placements.len(),
                self.placements.len() <= 4096,
                forall|i: int|
                    0 <= i < self.placements.len() ==> (#[trigger] self.placements@[i]).footprint.wf(),
                total == Self::area(self.placements@.take(i as int)),
                0 <= total <= i * 4096,
            decreases self.placements.len() - i,
        {
            let p = &self.placements[i];
            assert(self.placements@[i as int].footprint.wf());
            proof {
                assert(self.placements@.take(i + 1).drop_last() =~= self.placements@.take(i as int));
                assert(p.footprint.width * p.footprint.height <= 4096) by (nonlinear_arith)
                    requires
                        1 <= p.footprint.width <= 64,
                        1 <= p.footprint.height <= 64,
                ;
                assert(p.footprint.width * p.footprint.height >= 1) by (nonlinear_arith)
                    requires
                        1 <= p.footprint.width <= 64,
                        1 <= p.footprint.height <= 64,
                ;
            }
            total = total + (p.footprint.width as i64) * (p.footprint.height as i64);
            i = i + 1;
        }
        proof {
            assert(self.placements@.take(self.placements.len() as int) =~= self.placements@);
        }
        total
    }

    /// Whether an item with this identifier is placed.
    pub fn contains(&self, id: &str) -> (r: bool)
        ensures
            r == exists|i: int|
                0 <= i < self.placements.len() && (#[trigger] self.placements@[i]).id@ == id@,
    {
        let key = id.to_owned();
        let mut i: usize = 0;
        while i < self.placements.len()
            invariant
                i <= self.placements.len(),
                key@ == id@,
                forall|j: int| 0 <= j < i ==> (#[trigger] self.placements@[j]).id@ != id@,
            decreases self.placements.len() - i,
        {
            if self.placements[i].id == key {
                return true;
            }
            i = i + 1;
        }
        false
    }

    /// Whether a permanent item with this identifier is placed.
    pub fn has_permanent(&self, id: &str) -> (r: bool)
        ensures
            r == exists|i: int|
                0 <= i < self.placements.len() && (#[trigger] self.placements@[i]).id@ == id@
                    && self.placements@[i].permanent,
    {
        let key = id.to_owned();
        let mut i: usize = 0;
        while i < self.placements.len()
            invariant
                i <= self.placements.len(),
                key@ == id@,
                forall|j: int|
                    0 <= j < i ==> !((#[trigger] self.placements@[j]).id@ == id@
                        && self.placements@[j].permanent),
            decreases self.placements.len() - i,
        {
            if self.placements[i].permanent && self.placements[i].id == key {
                return true;
            }
            i = i + 1;
        }
        false
    }
}

impl ShipLayout {
    /// Scan order of `first_fit`: whether (x, y, q) comes before (px, py, pq).
    pub open spec fn scan_before(x: int, y: int, q: u8, px: int, py: int, pq: u8) -> bool {
        y < py || (y == py && x < px) || (y == py && x == px && q < pq)
    }
}

pub proof fn lemma_without_len(s: Seq<PlacedItem>, id: Seq<char>)
    ensures
        ShipLayout::without(s, id).len() <= s.len(),
{
    s.filter_lemma(ShipLayout::keep(id));
}

/// Every item kept by `without` was in the original list and is not `id`.
pub proof fn lemma_without_member(s: Seq<PlacedItem>, id: Seq<char>, k: int)
    requires
        0 <= k < ShipLayout::without(s, id).len(),
    ensures
        exists|i: int| 0 <= i < s.len() && s[i] == #[trigger] ShipLayout::without(s, id)[k],
        ShipLayout::without(s, id)[k].id@ != id,
{
    let f = ShipLayout::without(s, id);
    s.filter_lemma(ShipLayout::keep(id));
    assert(f.contains(f[k]));
    s.lemma_filter_contains_rev(ShipLayout::keep(id), f[k]);
}

/// Placing a rectangle that `can_place` accepted keeps the grid
/// well-formed: everything stays inside, and nothing with another
/// identifier shares a cell.
pub proof fn lemma_place_keeps_wf(
    before: ShipLayout,
    after: ShipLayout,
    id: Seq<char>,
    fp: Footprint,
    pos: GridPosition,
    rotation: u8,
)
    requires
        before.wf(),
        before.placements.len() < 4096,
        fp.wf(),
        before.placeable(id, fp, pos, rotation),
        after.width == before.width,
        after.height == before.height,
        after.placements@.len() > 0,
        after.placements@.drop_last() == ShipLayout::without(before.placements@, id),
        after.placements@.last().id@ == id,
        after.placements@.last().footprint == fp,
        after.placements@.last().position == pos,
        after.placements@.last().rotation == rotation,
    ensures
        after.wf(),
{
    let n = after.placements@.len() - 1;
    let kept = ShipLayout::without(before.placements@, id);
    lemma_without_len(before.placements@, id);
    assert forall|i: int| 0 <= i < after.placements.len() implies {
        let p = #[trigger] after.placements@[i];
        p.footprint.wf() && after.fits(p.footprint, p.position, p.rotation)
    } by {
        if i < n {
            assert(after.placements@[i] == kept[i]);
            lemma_without_member(before.placements@, id, i);
            let k = choose|k: int|
                0 <= k < before.placements@.len() && before.placements@[k] == kept[i];
            assert(before.placements@[k].footprint.wf());
        }
    }
    assert forall|i: int, j: int|
        0 <= i < after.placements.len() && 0 <= j < after.placements.len()
            && after.placements@[i].id@ != after.placements@[j].id@ implies !items_overlap(
        #[trigger] after.placements@[i],
        #[trigger] after.placements@[j],
    ) by {
        let a = after.placements@[i];
        let b = after.placements@[j];
        if i < n && j < n {
            assert(a == kept[i]);
            assert(b == kept[j]);
            lemma_without_member(before.placements@, id, i);
            lemma_without_member(before.placements@, id, j);
            let ki = choose|k: int|
                0 <= k < before.placements@.len() && before.placements@[k] == kept[i];
            let kj = choose|k: int|
                0 <= k < before.placements@.len() && before.placements@[k] == kept[j];
            assert(!items_overlap(before.placements@[ki], before.placements@[kj]));
        } else if i < n {
            lemma_without_member(before.placements@, id, i);
            let ki = choose|k: int|
                0 <= k < before.placements@.len() && before.placements@[k] == kept[i];
            assert(!item_overlaps(before.placements@[ki], fp, pos, rotation));
        } else if j < n {
            lemma_without_member(before.placements@, id, j);
            let kj = choose|k: int|
                0 <= k < before.placements@.len() && before.placements@[k] == kept[j];
            assert(!item_overlaps(before.placements@[kj], fp, pos, rotation));
        }
    }
}

} // verus!
