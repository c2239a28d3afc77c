//! Packing the manifest of a run: placing salvage in the ship grid, turning
//! it, and leaving it behind.

use crate::data::{GameData, SalvageObjectData};
use crate::layout::{Footprint, GridPosition, LayoutError, PlacedItem, ShipLayout};
use crate::session::{cargo_layout_id, cargo_layout_key, CargoItem, CargoStatus, ExpeditionState, GameSession};
use crate::text::{decimal, err_msg, ok_msg, push_int};
use crate::workspace::TransferMode;
use crate::workspace_records::opt_str_view;
use vstd::prelude::*;

verus! {

/// Index of the first manifest entry for the object, or -1.
pub open spec fn cargo_index(cargo: Seq<CargoItem>, id: Seq<char>) -> int
    decreases cargo.len(),
{
    if cargo.len() == 0 {
        -1
    } else {
        let k = cargo_index(cargo.drop_last(), id);
        if k >= 0 {
            k
        } else if cargo.last().object_id@ == id {
            cargo.len() - 1
        } else {
            -1
        }
    }
}

proof fn lemma_cargo_index_prefix(cargo: Seq<CargoItem>, id: Seq<char>, n: int)
    requires
        0 <= n <= cargo.len(),
        cargo_index(cargo.take(n), id) >= 0,
    ensures
        cargo_index(cargo, id) == cargo_index(cargo.take(n), id),
    decreases cargo.len() - n,
{
    if n < cargo.len() {
        assert(cargo.take(n + 1).drop_last() =~= cargo.take(n));
        lemma_cargo_index_prefix(cargo, id, n + 1);
    } else {
        assert(cargo.take(n) =~= cargo);
    }
}

proof fn lemma_cargo_index_bounds(cargo: Seq<CargoItem>, id: Seq<char>)
    ensures
        -1 <= cargo_index(cargo, id) < cargo.len(),
        cargo_index(cargo, id) >= 0 ==> cargo[cargo_index(cargo, id)].object_id@ == id,
        cargo_index(cargo, id) == -1 ==> forall|k: int|
            0 <= k < cargo.len() ==> (#[trigger] cargo[k]).object_id@ != id,
    decreases cargo.len(),
{
    if cargo.len() > 0 {
        lemma_cargo_index_bounds(cargo.drop_last(), id);
        assert forall|k: int| 0 <= k < cargo.len() - 1 implies cargo.drop_last()[k] == cargo[k] by {}
    }
}

/// Index of the first manifest entry for the object.
pub fn find_cargo(cargo: &Vec<CargoItem>, id: &str) -> (r: Option<usize>)
    ensures
        match r {
            Some(k) => k < cargo.len() && cargo_index(cargo@, id@) == k,
            None => cargo_index(cargo@, id@) == -1,
        },
{
    let mut i: usize = 0;
    while i < cargo.len()
        invariant
            i <= cargo.len(),
            cargo_index(cargo@.take(i as int), id@) == -1,
        decreases cargo.len() - i,
    {
        proof {
            assert(cargo@.take(i + 1).drop_last() =~= cargo@.take(i as int));
            assert(cargo@.take(i + 1).last() == cargo@[i as int]);
        }
        if crate::text::same_text(cargo[i].object_id.as_str(), id) {
            proof {
                lemma_cargo_index_prefix(cargo@, id@, i + 1);
            }
            return Some(i);
        }
        i = i + 1;
    }
    proof {
        assert(cargo@.take(cargo.len() as int) =~= cargo@);
    }
    None
}

/// Whether the manifest lists the object as still waiting to be packed.
pub open spec fn pending_in(cargo: Seq<CargoItem>, id: Seq<char>) -> bool {
    exists|k: int|
        0 <= k < cargo.len() && (#[trigger] cargo[k]).object_id@ == id && cargo[k].status
            == CargoStatus::Pending
}

fn has_pending(cargo: &Vec<CargoItem>, id: &str) -> (r: bool)
    ensures
        r == pending_in(cargo@, id@),
{
    let mut i: usize = 0;
    while i < cargo.len()
        invariant
            i <= cargo.len(),
            forall|k: int|
                0 <= k < i ==> !((#[trigger] cargo@[k]).object_id@ == id@ && cargo@[k].status
                    == CargoStatus::Pending),
        decreases cargo.len() - i,
    {
        if crate::text::same_text(cargo[i].object_id.as_str(), id) && cargo[i].status
            == CargoStatus::Pending {
            return true;
        }
        i = i + 1;
    }
    false
}

/// The manifest is not in the middle of a pull.
pub open spec fn no_pull(s: GameSession) -> bool {
    s.expedition is None || s.expedition.unwrap().workspace_transfer is None
}

impl GameSession {
    /// Why the object cannot take a berth or clamp now, if it cannot.
    pub open spec fn berth_error(&self, id: Seq<char>, data: GameData) -> Option<Seq<char>> {
        let object = data.object_spec(id).unwrap();
        if TransferMode::from_target_spec(object).uses_external_rig_spec() {
            let used = self.load_count_spec(data, Some(id), true);
            let cap = self.external_capacity_spec(data);
            if used >= cap {
                Some(
                    "No external clamp is free ("@ + decimal(used) + "/"@ + decimal(cap)
                        + "). Leave this load behind or upgrade the ship."@,
                )
            } else {
                None
            }
        } else {
            let used = self.load_count_spec(data, Some(id), false);
            let cap = self.internal_capacity_spec();
            if used >= cap {
                Some(
                    "No internal cargo berth is free ("@ + decimal(used) + "/"@ + decimal(cap)
                        + "). Leave this load behind or expand the cargo bay."@,
                )
            } else {
                None
            }
        }
    }

    /// What placing the object at `pos` turned `rot` does to a run, `r`
    /// being the reply: refusals leave everything as it was; success packs
    /// the object's manifest entry there.
    pub open spec fn cargo_placed(
        old: GameSession,
        new: GameSession,
        r: Result<String, String>,
        id: Seq<char>,
        pos: GridPosition,
        rot: u8,
        data: GameData,
    ) -> bool {
        if !no_pull(old) {
            new == old && err_msg(r, data.salvage_ui.transfer_busy@)
        } else if data.object_spec(id) is None {
            new == old && err_msg(r, "unknown salvage object '"@ + id + "'"@)
        } else if old.berth_error(id, data) is Some {
            new == old && err_msg(r, old.berth_error(id, data).unwrap())
        } else {
            let object = data.object_spec(id).unwrap();
            let e = old.expedition.unwrap();
            let k = cargo_index(e.cargo@, id);
            let placed_before = old.expedition is Some && k >= 0 && e.cargo@[k].position is Some;
            if !placed_before && !(old.expedition is Some && pending_in(e.cargo@, id)) {
                new == old && err_msg(r, "that salvage is no longer available"@)
            } else if !old.ship_layout.placeable(cargo_layout_key(id), object.footprint, pos, rot) {
                &&& new == old
                &&& !old.ship_layout.fits(object.footprint, pos, rot) ==> err_msg(
                    r,
                    "placement leaves the ship grid"@,
                )
                &&& old.ship_layout.fits(object.footprint, pos, rot) ==> exists|i: int|
                    0 <= i < old.ship_layout.placements.len() && old.ship_layout.placements@[i].id@
                        != cargo_layout_key(id) && crate::layout::item_overlaps(
                        #[trigger] old.ship_layout.placements@[i],
                        object.footprint,
                        pos,
                        rot,
                    ) && err_msg(r, "placement overlaps "@ + old.ship_layout.placements@[i].id@)
            } else {
                let ne = new.expedition.unwrap();
                &&& new.ship_layout.width == old.ship_layout.width
                &&& new.ship_layout.height == old.ship_layout.height
                &&& new.ship_layout.placements@ == ShipLayout::without(
                    old.ship_layout.placements@,
                    cargo_layout_key(id),
                ).push(
                    PlacedItem {
                        id: new.ship_layout.placements@.last().id,
                        footprint: object.footprint,
                        position: pos,
                        rotation: rot,
                        permanent: false,
                    },
                )
                &&& new.ship_layout.placements@.last().id@ == cargo_layout_key(id)
                &&& new.expedition is Some
                &&& ne == (ExpeditionState { cargo: ne.cargo, ..e })
                &&& ne.cargo@ == e.cargo@.update(
                    k,
                    CargoItem {
                        status: CargoStatus::Packed,
                        position: Some(pos),
                        rotation: rot % 2,
                        ..e.cargo@[k]
                    },
                )
                &&& new == (GameSession {
                    ship_layout: new.ship_layout,
                    expedition: new.expedition,
                    ..old
                })
                &&& ok_msg(r, "Packed "@ + object.display_name@)
            }
        }
    }

    /// Packs a manifest object at a chosen spot: refused during a pull, for
    /// an unknown object, without a free berth or clamp, for an object no
    /// longer on hand, or when the spot is taken.
    pub fn place_cargo(&mut self, object_id: &str, position: GridPosition, rotation: u8, data: &GameData) -> (r:
        Result<String, String>)
        requires
            old(self).wf(),
            old(self).ship_layout.placements.len() < 999,
            data.wf(),
        ensures
            final(self).wf(),
            Self::cargo_placed(*old(self), *final(self), r, object_id@, position, rotation, *data),
    {
        let busy = match &self.expedition {
            Some(e) => e.workspace_transfer.is_some(),
            None => false,
        };
        if busy {
            return Err(data.salvage_ui.transfer_busy.clone());
        }
        let object = match data.object(object_id) {
            Some(o) => o,
            None => {
                let mut e = "unknown salvage object '".to_owned();
                e.append(object_id);
                e.append("'");
                return Err(e);
            },
        };
        if TransferMode::from_target(object).uses_external_rig() {
            let used = self.external_cargo_count(data, Some(object_id));
            let cap = self.external_capacity(data);
            if used >= cap {
                let mut e = "No external clamp is free (".to_owned();
                push_int(&mut e, used as i64);
                e.append("/");
                push_int(&mut e, cap as i64);
                e.append("). Leave this load behind or upgrade the ship.");
                return Err(e);
            }
        } else {
            let used = self.internal_cargo_count(data, Some(object_id));
            let cap = self.internal_cargo_capacity();
            if used >= cap {
                let mut e = "No internal cargo berth is free (".to_owned();
                push_int(&mut e, used as i64);
                e.append("/");
                push_int(&mut e, cap as i64);
                e.append("). Leave this load behind or expand the cargo bay.");
                return Err(e);
            }
        }
        let k = match &self.expedition {
            Some(e) => {
                let found = find_cargo(&e.cargo, object_id);
                let placed = match found {
                    Some(k) => e.cargo[k].position.is_some(),
                    None => false,
                };
                if !placed && !has_pending(&e.cargo, object_id) {
                    return Err("that salvage is no longer available".to_owned());
                }
                proof {
                    lemma_cargo_index_bounds(e.cargo@, object_id@);
                    if found is None {
                        let w = choose|w: int|
                            0 <= w < e.cargo.len() && (#[trigger] e.cargo@[w]).object_id@
                                == object_id@ && e.cargo@[w].status == CargoStatus::Pending;
                        assert(e.cargo@[w].object_id@ != object_id@);
                    }
                }
                found.unwrap()
            },
            None => {
                return Err("that salvage is no longer available".to_owned());
            },
        };
        let layout_id = cargo_layout_id(object_id);
        match self.ship_layout.can_place(layout_id.as_str(), object.footprint, position, rotation) {
            Err(err) => {
                let m = err.message();
                proof {
                    match err {
                        LayoutError::OutOfBounds => {},
                        LayoutError::Overlap(other) => {
                            let i = choose|i: int|
                                0 <= i < self.ship_layout.placements.len()
                                    && self.ship_layout.placements@[i].id@ != layout_id@
                                    && self.ship_layout.placements@[i].id == other && crate::layout::item_overlaps(
                                    #[trigger] self.ship_layout.placements@[i],
                                    object.footprint,
                                    position,
                                    rotation,
                                );
                            assert(m@ == "placement overlaps "@ + self.ship_layout.placements@[i].id@);
                        },
                    }
                }
                return Err(m);
            },
            Ok(()) => {},
        }
        let ghost before = self.ship_layout;
        let placed = self.ship_layout.place(
            layout_id.as_str(),
            object.footprint,
            position,
            rotation,
            false,
        );
        proof {
            crate::layout::lemma_place_keeps_wf(
                before,
                self.ship_layout,
                layout_id@,
                object.footprint,
                position,
                rotation,
            );
            crate::layout::lemma_without_len(before.placements@, layout_id@);
            assert(self.ship_layout.placements@ =~= ShipLayout::without(
                before.placements@,
                layout_id@,
            ).push(
                PlacedItem {
                    id: self.ship_layout.placements@.last().id,
                    footprint: object.footprint,
                    position,
                    rotation,
                    permanent: false,
                },
            ));
        }
        match &mut self.expedition {
            Some(e) => {
                e.cargo[k].status = CargoStatus::Packed;
                e.cargo[k].position = Some(position);
                e.cargo[k].rotation = rotation % 2;
            },
            None => {},
        }
        let mut msg = "Packed ".to_owned();
        msg.append(object.display_name.as_str());
        proof {
            let e = old(self).expedition.unwrap();
            let ne = self.expedition.unwrap();
            assert(k as int == cargo_index(e.cargo@, object_id@));
            assert(ne == (ExpeditionState { cargo: ne.cargo, ..e }));
            assert(ne.cargo@ =~= e.cargo@.update(
                    k as int,
                    CargoItem {
                        status: CargoStatus::Packed,
                        position: Some(position),
                        rotation: rotation % 2,
                        ..e.cargo@[k as int]
                    },
                ));
            assert(*self == (GameSession {
                    ship_layout: self.ship_layout,
                    expedition: self.expedition,
                    ..*old(self)
                }));
        }
        Ok(msg)
    }

    /// Packs a manifest object at the first open spot of the grid, scanning
    /// rows top to bottom and cells left to right, unturned before turned.
    pub fn auto_place(&mut self, object_id: &str, data: &GameData) -> (r: Result<String, String>)
        requires
            old(self).wf(),
            old(self).ship_layout.placements.len() < 999,
            data.wf(),
        ensures
            final(self).wf(),
            data.object_spec(object_id@) is None ==> *final(self) == *old(self) && err_msg(
                r,
                "unknown salvage object '"@ + object_id@ + "'"@,
            ),
            data.object_spec(object_id@) is Some ==> {
                let object = data.object_spec(object_id@).unwrap();
                let key = cargo_layout_key(object_id@);
                let layout = old(self).ship_layout;
                ||| (forall|x: int, y: int, q: u8|
                    (q == 0 || (q == 1 && object.rotatable)) && 0 <= y < layout.height && 0 <= x
                        < layout.width ==> !#[trigger] layout.placeable(
                        key,
                        object.footprint,
                        GridPosition { x: x as i32, y: y as i32 },
                        q,
                    )) && *final(self) == *old(self) && err_msg(
                    r,
                    object.display_name@ + " has no open fit in the ship grid"@,
                )
                ||| exists|pos: GridPosition, rot: u8|
                    {
                        &&& layout.placeable(key, object.footprint, pos, rot)
                        &&& (rot == 0 || (rot == 1 && object.rotatable))
                        &&& forall|x: int, y: int, q: u8|
                            (q == 0 || (q == 1 && object.rotatable)) && 0 <= y < layout.height
                                && 0 <= x < layout.width && ShipLayout::scan_before(
                                x,
                                y,
                                q,
                                pos.x as int,
                                pos.y as int,
                                rot,
                            ) ==> !#[trigger] layout.placeable(
                                key,
                                object.footprint,
                                GridPosition { x: x as i32, y: y as i32 },
                                q,
                            )
                        &&& Self::cargo_placed(
                            *old(self),
                            *final(self),
                            r,
                            object_id@,
                            pos,
                            rot,
                            *data,
                        )
                    }
            },
    {
        let object = match data.object(object_id) {
            Some(o) => o,
            None => {
                let mut e = "unknown salvage object '".to_owned();
                e.append(object_id);
                e.append("'");
                return Err(e);
            },
        };
        let layout_id = cargo_layout_id(object_id);
        proof {
            assert forall|i: int| 0 <= i < self.ship_layout.placements.len() implies (
            #[trigger] self.ship_layout.placements@[i]).footprint.wf() by {}
        }
        match self.ship_layout.first_fit(layout_id.as_str(), object.footprint, object.rotatable) {
            None => {
                let mut e = String::new();
                e.append(object.display_name.as_str());
                e.append(" has no open fit in the ship grid");
                Err(e)
            },
            Some((position, rotation)) => self.place_cargo(object_id, position, rotation, data),
        }
    }

    /// Marks a manifest object with a new status and takes it out of the
    /// grid; refused during a pull.
    pub fn set_cargo_status(&mut self, object_id: &str, status: CargoStatus) -> (r: Result<
        String,
        String,
    >)
        requires
            old(self).wf(),
        ensures
            final(self).wf(),
            r is Err ==> *final(self) == *old(self),
            !no_pull(*old(self)) ==> err_msg(r, "Finish or cancel the active pull first."@),
            old(self).expedition is None ==> err_msg(r, "there is no active expedition"@),
            no_pull(*old(self)) && old(self).expedition is Some ==> {
                let e = old(self).expedition.unwrap();
                let k = cargo_index(e.cargo@, object_id@);
                if k < 0 {
                    err_msg(r, "that salvage is not in the current expedition"@)
                } else {
                    let ne = final(self).expedition.unwrap();
                    &&& final(self).expedition is Some
                    &&& ne == (ExpeditionState { cargo: ne.cargo, ..e })
                    &&& ne.cargo@ == e.cargo@.update(
                        k,
                        CargoItem { status, position: None, ..e.cargo@[k] },
                    )
                    &&& final(self).ship_layout == (ShipLayout {
                        placements: final(self).ship_layout.placements,
                        ..old(self).ship_layout
                    })
                    &&& final(self).ship_layout.placements@ == ShipLayout::without(
                        old(self).ship_layout.placements@,
                        cargo_layout_key(object_id@),
                    )
                    &&& *final(self) == (GameSession {
                        ship_layout: final(self).ship_layout,
                        expedition: final(self).expedition,
                        ..*old(self)
                    })
                    &&& ok_msg(r, object_id@ + ": "@ + status.name_spec())
                }
            },
    {
        let k = match &self.expedition {
            Some(e) => {
                if e.workspace_transfer.is_some() {
                    return Err("Finish or cancel the active pull first.".to_owned());
                }
                match find_cargo(&e.cargo, object_id) {
                    Some(k) => k,
                    None => {
                        return Err("that salvage is not in the current expedition".to_owned());
                    },
                }
            },
            None => {
                return Err("there is no active expedition".to_owned());
            },
        };
        let layout_id = cargo_layout_id(object_id);
        let ghost before = self.ship_layout;
        self.ship_layout.remove(layout_id.as_str());
        proof {
            crate::port::lemma_remove_keeps_wf(before, self.ship_layout, layout_id@);
        }
        match &mut self.expedition {
            Some(e) => {
                e.cargo[k].status = status;
                e.cargo[k].position = None;
            },
            None => {},
        }
        let mut msg = object_id.to_owned();
        msg.append(": ");
        msg.append(status.name());
        Ok(msg)
    }

    pub open spec fn pending_spec(&self) -> int {
        match self.expedition {
            Some(e) => e.cargo@.filter(|c: CargoItem| c.status == CargoStatus::Pending).len() as int,
            None => 0,
        }
    }

    /// Manifest objects still waiting to be packed or left.
    pub fn pending_count(&self) -> (r: usize)
        ensures
            r == self.pending_spec(),
    {
        match &self.expedition {
            Some(e) => {
                let ghost pred = |c: CargoItem| c.status == CargoStatus::Pending;
                let mut n: usize = 0;
                let mut i: usize = 0;
                while i < e.cargo.len()
                    invariant
                        i <= e.cargo.len(),
                        pred == (|c: CargoItem| c.status == CargoStatus::Pending),
                        n == e.cargo@.take(i as int).filter(pred).len(),
                        n <= i,
                    decreases e.cargo.len() - i,
                {
                    proof {
                        reveal_with_fuel(Seq::<_>::filter, 1);
                        assert(e.cargo@.take(i + 1).drop_last() =~= e.cargo@.take(i as int));
                    }
                    if e.cargo[i].status == CargoStatus::Pending {
                        n = n + 1;
                    }
                    i = i + 1;
                }
                proof {
                    assert(e.cargo@.take(e.cargo.len() as int) =~= e.cargo@);
                }
                n
            },
            None => 0,
        }
    }

    /// A packed object is packed again at its spot turned to `rot`; the
    /// reply is the turn's on success and the packing's refusal otherwise.
    pub open spec fn turned_in_place(
        old: GameSession,
        new: GameSession,
        r: Result<String, String>,
        id: Seq<char>,
        pos: GridPosition,
        rot: u8,
        data: GameData,
    ) -> bool {
        exists|placed: Result<String, String>|
            {
                &&& #[trigger] Self::cargo_placed(old, new, placed, id, pos, rot, data)
                &&& (placed is Ok ==> ok_msg(
                    r,
                    "Rotated "@ + data.object_spec(id).unwrap().display_name@,
                ))
                &&& (placed is Err ==> r == placed)
            }
    }

    /// Turns a manifest object a quarter turn; a packed one is packed again
    /// turned in place.
    pub fn rotate_cargo(&mut self, object_id: &str, data: &GameData) -> (r: Result<String, String>)
        requires
            old(self).wf(),
            old(self).ship_layout.placements.len() < 999,
            data.wf(),
        ensures
            final(self).wf(),
            r is Err ==> *final(self) == *old(self),
            (old(self).expedition is None || cargo_index(
                old(self).expedition.unwrap().cargo@,
                object_id@,
            ) < 0) ==> err_msg(r, "that salvage is not in the current expedition"@),
            old(self).expedition is Some && cargo_index(
                old(self).expedition.unwrap().cargo@,
                object_id@,
            ) >= 0 ==> {
                let e = old(self).expedition.unwrap();
                let k = cargo_index(e.cargo@, object_id@);
                let item = e.cargo@[k];
                let next = if item.rotation == 255 {
                    0u8
                } else {
                    ((item.rotation + 1) % 2) as u8
                };
                match data.object_spec(object_id@) {
                    None => err_msg(r, "unknown salvage object '"@ + object_id@ + "'"@),
                    Some(object) => if !object.rotatable {
                        err_msg(r, object.display_name@ + " cannot rotate"@)
                    } else if item.position is None {
                        &&& *final(self) == (GameSession {
                            expedition: Some(
                                ExpeditionState {
                                    cargo: final(self).expedition.unwrap().cargo,
                                    ..e
                                },
                            ),
                            ..*old(self)
                        })
                        &&& final(self).expedition.unwrap().cargo@ == e.cargo@.update(
                            k,
                            CargoItem { rotation: next, ..item },
                        )
                        &&& ok_msg(r, "Rotated "@ + object.display_name@)
                    } else {
                        Self::turned_in_place(
                            *old(self),
                            *final(self),
                            r,
                            object_id@,
                            item.position.unwrap(),
                            next,
                            *data,
                        )
                    },
                }
            },
    {
        let (k, rotation, position) = match &self.expedition {
            Some(e) => match find_cargo(&e.cargo, object_id) {
                Some(k) => (k, e.cargo[k].rotation, e.cargo[k].position),
                None => {
                    return Err("that salvage is not in the current expedition".to_owned());
                },
            },
            None => {
                return Err("that salvage is not in the current expedition".to_owned());
            },
        };
        let object = match data.object(object_id) {
            Some(o) => o,
            None => {
                let mut e = "unknown salvage object '".to_owned();
                e.append(object_id);
                e.append("'");
                return Err(e);
            },
        };
        let next: u8 = if rotation == 255 {
            0
        } else {
            (rotation + 1) % 2
        };
        if !object.rotatable {
            let mut e = String::new();
            e.append(object.display_name.as_str());
            e.append(" cannot rotate");
            return Err(e);
        }
        let mut msg = "Rotated ".to_owned();
        msg.append(object.display_name.as_str());
        let ghost item = old(self).expedition.unwrap().cargo@[k as int];
        assert(item.position == position);
        assert(item.rotation == rotation);
        assert(data.object_spec(object_id@) == Some(*object));
        match position {
            None => {
                match &mut self.expedition {
                    Some(e) => {
                        e.cargo[k].rotation = next;
                    },
                    None => {},
                }
                proof {
                    let e = old(self).expedition.unwrap();
                    let item = e.cargo@[k as int];
                    assert(self.expedition.unwrap().cargo@ =~= e.cargo@.update(
                        k as int,
                        CargoItem { rotation: next, ..item },
                    ));
                    assert(k as int == cargo_index(e.cargo@, object_id@));
                    assert(*self == (GameSession {
                            expedition: Some(
                                ExpeditionState {
                                    cargo: self.expedition.unwrap().cargo,
                                    ..e
                                },
                            ),
                            ..*old(self)
                        }));
                }
                Ok(msg)
            },
            Some(pos) => {
                let placed = self.place_cargo(object_id, pos, next, data);
                proof {
                    assert(Self::cargo_placed(
                        *old(self),
                        *self,
                        placed,
                        object_id@,
                        pos,
                        next,
                        *data,
                    ));
                }
                let r = match placed {
                    Ok(_) => Ok(msg),
                    Err(e) => Err(e),
                };
                assert(placed is Ok ==> ok_msg(r, "Rotated "@ + object.display_name@));
                assert(placed is Err ==> r == placed);
                assert(placed is Err ==> *self == *old(self));
                assert(Self::turned_in_place(*old(self), *self, r, object_id@, pos, next, *data));
                r
            },
        }
    }

    /// Leaves every object still waiting on the manifest behind and clears
    /// its cells from the grid.
    pub fn leave_all_pending(&mut self) -> (r: Result<(), String>)
        requires
            old(self).wf(),
        ensures
            final(self).wf(),
            old(self).expedition is None ==> *final(self) == *old(self) && r is Err && r->Err_0@
                == "there is no active expedition"@,
            old(self).expedition is Some && !no_pull(*old(self)) && pending_any(
                old(self).expedition.unwrap().cargo@,
            ) ==> *final(self) == *old(self) && r is Err && r->Err_0@
                == "Finish or cancel the active pull first."@,
            old(self).expedition is Some && (no_pull(*old(self)) || !pending_any(
                old(self).expedition.unwrap().cargo@,
            )) ==> {
                let e = old(self).expedition.unwrap();
                &&& r is Ok
                &&& final(self).expedition == Some(
                    ExpeditionState { cargo: final(self).expedition.unwrap().cargo, ..e },
                )
                &&& final(self).expedition.unwrap().cargo@ == e.cargo@.map_values(
                    |c: CargoItem| left_if_pending(c),
                )
                &&& final(self).ship_layout == (ShipLayout {
                    placements: final(self).ship_layout.placements,
                    ..old(self).ship_layout
                })
                &&& final(self).ship_layout.placements@ == old(self).ship_layout.placements@.filter(
                    clear_of_pending(e.cargo@, e.cargo.len() as int),
                )
                &&& *final(self) == (GameSession {
                    ship_layout: final(self).ship_layout,
                    expedition: final(self).expedition,
                    ..*old(self)
                })
            },
    {
        let (busy, n) = match &self.expedition {
            Some(e) => (e.workspace_transfer.is_some(), e.cargo.len()),
            None => {
                return Err("there is no active expedition".to_owned());
            },
        };
        if busy && self.pending_count() > 0 {
            proof {
                let e = old(self).expedition.unwrap();
                let pred = |c: CargoItem| c.status == CargoStatus::Pending;
                lemma_pending_count(e.cargo@);
            }
            return Err("Finish or cancel the active pull first.".to_owned());
        }
        proof {
            if busy {
                lemma_pending_count(old(self).expedition.unwrap().cargo@);
            }
        }
        let ghost e0 = old(self).expedition.unwrap();
        proof {
            lemma_filter_true(old(self).ship_layout.placements@, clear_of_pending(e0.cargo@, 0));
        }
        let mut i: usize = 0;
        while i < n
            invariant
                i <= n,
                n == e0.cargo.len(),
                self.wf(),
                self.expedition is Some,
                self.expedition.unwrap() == (ExpeditionState {
                    cargo: self.expedition.unwrap().cargo,
                    ..e0
                }),
                self.expedition.unwrap().cargo@.len() == n,
                forall|j: int|
                    0 <= j < n ==> #[trigger] self.expedition.unwrap().cargo@[j] == if j < i {
                        left_if_pending(e0.cargo@[j])
                    } else {
                        e0.cargo@[j]
                    },
                self.ship_layout == (ShipLayout {
                    placements: self.ship_layout.placements,
                    ..old(self).ship_layout
                }),
                self.ship_layout.placements@ == old(self).ship_layout.placements@.filter(
                    clear_of_pending(e0.cargo@, i as int),
                ),
                *self == (GameSession {
                    ship_layout: self.ship_layout,
                    expedition: self.expedition,
                    ..*old(self)
                }),
            decreases n - i,
        {
            let pending = match &self.expedition {
                Some(e) => e.cargo[i].status == CargoStatus::Pending,
                None => false,
            };
            let ghost before = self.ship_layout;
            if pending {
                let key = match &self.expedition {
                    Some(e) => cargo_layout_id(e.cargo[i].object_id.as_str()),
                    None => String::new(),
                };
                self.ship_layout.remove(key.as_str());
                proof {
                    crate::port::lemma_remove_keeps_wf(before, self.ship_layout, key@);
                    lemma_filter_twice(
                        old(self).ship_layout.placements@,
                        clear_of_pending(e0.cargo@, i as int),
                        ShipLayout::keep(key@),
                    );
                    assert(clear_of_pending(e0.cargo@, i + 1) =~= (|p: PlacedItem|
                        clear_of_pending(e0.cargo@, i as int)(p) && ShipLayout::keep(key@)(p)));
                }
                match &mut self.expedition {
                    Some(e) => {
                        e.cargo[i].status = CargoStatus::LeftBehind;
                        e.cargo[i].position = None;
                    },
                    None => {},
                }
            } else {
                proof {
                    assert(clear_of_pending(e0.cargo@, i + 1) =~= clear_of_pending(
                        e0.cargo@,
                        i as int,
                    ));
                }
            }
            i = i + 1;
        }
        proof {
            let e = self.expedition.unwrap();
            assert(e.cargo@ =~= e0.cargo@.map_values(|c: CargoItem| left_if_pending(c)));
        }
        Ok(())
    }
}

/// Some manifest object still waits to be packed or left.
pub open spec fn pending_any(cargo: Seq<CargoItem>) -> bool {
    exists|k: int| 0 <= k < cargo.len() && (#[trigger] cargo[k]).status == CargoStatus::Pending
}

proof fn lemma_pending_count(cargo: Seq<CargoItem>)
    ensures
        pending_any(cargo) <==> cargo.filter(|c: CargoItem| c.status == CargoStatus::Pending).len()
            > 0,
{
    let pred = |c: CargoItem| c.status == CargoStatus::Pending;
    cargo.filter_lemma(pred);
    if pending_any(cargo) {
        let k = choose|k: int| 0 <= k < cargo.len() && (#[trigger] cargo[k]).status
            == CargoStatus::Pending;
        cargo.lemma_filter_contains(pred, k);
    }
    if cargo.filter(pred).len() > 0 {
        assert(cargo.filter(pred).contains(cargo.filter(pred)[0]));
        cargo.lemma_filter_contains_rev(pred, cargo.filter(pred)[0]);
    }
}

/// A pending object is left behind off the grid; others are unchanged.
pub open spec fn left_if_pending(c: CargoItem) -> CargoItem {
    if c.status == CargoStatus::Pending {
        CargoItem { status: CargoStatus::LeftBehind, position: None, ..c }
    } else {
        c
    }
}

/// Grid items that belong to none of the first `n` pending manifest objects.
pub open spec fn clear_of_pending(cargo: Seq<CargoItem>, n: int) -> spec_fn(PlacedItem) -> bool {
    |p: PlacedItem|
        forall|k: int|
            0 <= k < n && (#[trigger] cargo[k]).status == CargoStatus::Pending ==> cargo_layout_key(
                cargo[k].object_id@,
            ) != p.id@
}

proof fn lemma_filter_twice<A>(s: Seq<A>, p: spec_fn(A) -> bool, q: spec_fn(A) -> bool)
    ensures
        s.filter(p).filter(q) == s.filter(|x: A| p(x) && q(x)),
    decreases s.len(),
{
    let pq = |x: A| p(x) && q(x);
    if s.len() == 0 {
        assert(s.filter(p) =~= Seq::<A>::empty());
        assert(s.filter(pq) =~= Seq::<A>::empty());
        assert(s.filter(p).filter(q) =~= Seq::<A>::empty());
    } else {
        let d = s.drop_last();
        let l = s.last();
        assert(s =~= d.push(l));
        lemma_filter_twice(d, p, q);
        d.lemma_filter_push(l, p);
        d.lemma_filter_push(l, pq);
        if p(l) {
            d.filter(p).lemma_filter_push(l, q);
        }
    }
}

proof fn lemma_filter_true<A>(s: Seq<A>, p: spec_fn(A) -> bool)
    requires
        forall|x: A| #[trigger] p(x),
    ensures
        s.filter(p) == s,
    decreases s.len(),
{
    if s.len() == 0 {
        assert(s.filter(p) =~= s);
    } else {
        let d = s.drop_last();
        assert(s =~= d.push(s.last()));
        lemma_filter_true(d, p);
        d.lemma_filter_push(s.last(), p);
    }
}

} // verus!
