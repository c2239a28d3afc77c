//! Taking targets out of a wreck: committing a hold destination, pulling a
//! target into the hold or onto the rig, and losing one to the wreckage.

use crate::data::{GameData, SalvageObjectData};
use crate::layout::{GridPosition, PlacedItem, ShipLayout};
use crate::session::{cargo_layout_id, cargo_layout_key, CargoItem, CargoStatus, ExpeditionState, GameSession, SiteProgress};
use crate::text::{copy_ids, err_msg, insert_id, ok_msg, remove_id, views};
use crate::workspace::{workspace_name, workspace_name_spec, TransferMode, WorkspaceTransfer};
use crate::workspace_ops::{log_extended, progress_entry_changed};
use crate::workspace_records::{WorkspaceLogEntry, WorkspaceLogEvent};
use vstd::prelude::*;

verus! {

/// The manifest without any entry for the object.
pub open spec fn cargo_without(cargo: Seq<CargoItem>, id: Seq<char>) -> Seq<CargoItem> {
    cargo.filter(|c: CargoItem| c.object_id@ != id)
}

/// Drops every manifest entry for the object, keeping the others in order.
fn drop_cargo(cargo: &mut Vec<CargoItem>, id: &str)
    ensures
        final(cargo)@ == cargo_without(old(cargo)@, id@),
        final(cargo).len() <= old(cargo).len(),
{
    let ghost pred = |c: CargoItem| c.object_id@ != id@;
    let mut out: Vec<CargoItem> = Vec::new();
    let mut i: usize = 0;
    while i < cargo.len()
        invariant
            i <= cargo.len(),
            cargo@ == old(cargo)@,
            pred == (|c: CargoItem| c.object_id@ != id@),
            out@ == old(cargo)@.take(i as int).filter(pred),
            out.len() <= i,
        decreases cargo.len() - i,
    {
        proof {
            reveal_with_fuel(Seq::<_>::filter, 1);
            assert(old(cargo)@.take(i + 1).drop_last() =~= old(cargo)@.take(i as int));
            assert(old(cargo)@.take(i + 1).last() == cargo@[i as int]);
        }
        if !crate::text::same_text(cargo[i].object_id.as_str(), id) {
            out.push(cargo[i].duplicate());
        }
        i = i + 1;
    }
    proof {
        assert(old(cargo)@.take(cargo.len() as int) =~= old(cargo)@);
    }
    *cargo = out;
}

/// Whether a committed pull exists for the target.
pub open spec fn pull_for(e: ExpeditionState, id: Seq<char>) -> bool {
    e.workspace_transfer is Some && e.workspace_transfer.unwrap().target_id@ == id
}

impl GameSession {
    /// The committed hold destination of the run, if any.
    pub fn workspace_transfer(&self) -> (r: Option<&WorkspaceTransfer>)
        ensures
            r == match self.expedition {
                Some(e) => match e.workspace_transfer {
                    Some(t) => Some(&t),
                    None => None::<&WorkspaceTransfer>,
                },
                None => None::<&WorkspaceTransfer>,
            },
    {
        match &self.expedition {
            Some(e) => match &e.workspace_transfer {
                Some(t) => Some(t),
                None => None,
            },
            None => None,
        }
    }

    /// Why a target cannot go to that spot, besides the spot being taken.
    pub open spec fn placement_error(&self, id: Seq<char>, rot: u8, data: GameData) -> Option<Seq<char>> {
        match data.object_spec(id) {
            None => Some("unknown salvage target '"@ + id + "'"@),
            Some(t) => if !t.rotatable && rot % 2 != 0 {
                Some(t.display_name@ + " cannot rotate"@)
            } else if TransferMode::from_target_spec(t).uses_external_rig_spec() {
                if self.load_count_spec(data, None, true) >= self.external_capacity_spec(data) {
                    Some(data.salvage_ui.clamps_full@)
                } else {
                    None
                }
            } else if self.load_count_spec(data, None, false) >= self.internal_capacity_spec() {
                Some(data.salvage_ui.hold_full@)
            } else {
                None
            },
        }
    }

    /// Whether the target may go to that spot: it turns as asked, a berth or
    /// clamp is free for it, and the spot is open.
    pub open spec fn placement_ok(&self, id: Seq<char>, pos: GridPosition, rot: u8, data: GameData) -> bool {
        self.placement_error(id, rot, data) is None && self.ship_layout.placeable(
            cargo_layout_key(id),
            data.object_spec(id).unwrap().footprint,
            pos,
            rot,
        )
    }

    /// Why a target cannot be put at a spot of the grid, `m` naming it: its
    /// own placement refusal, else a spot outside the grid, else an item
    /// with another identifier that the spot overlaps.
    pub open spec fn placement_refusal(&self, id: Seq<char>, pos: GridPosition, rot: u8, data: GameData, m: Seq<char>) -> bool {
        let fp = data.object_spec(id).unwrap().footprint;
        if self.placement_error(id, rot, data) is Some {
            m == self.placement_error(id, rot, data).unwrap()
        } else if !self.ship_layout.fits(fp, pos, rot) {
            m == "placement leaves the ship grid"@
        } else {
            exists|i: int|
                0 <= i < self.ship_layout.placements.len() && self.ship_layout.placements@[i].id@
                    != cargo_layout_key(id) && crate::layout::item_overlaps(
                    #[trigger] self.ship_layout.placements@[i],
                    fp,
                    pos,
                    rot,
                ) && m == "placement overlaps "@ + self.ship_layout.placements@[i].id@
        }
    }

    /// Checks that a target could be put at a spot of the grid.
    pub fn validate_workspace_placement(
        &self,
        target_id: &str,
        position: GridPosition,
        rotation: u8,
        data: &GameData,
    ) -> (r: Result<(), String>)
        requires
            self.wf(),
            data.wf(),
        ensures
            r is Ok <==> self.placement_ok(target_id@, position, rotation, *data),
            self.placement_error(target_id@, rotation, *data) is Some ==> r is Err && r->Err_0@
                == self.placement_error(target_id@, rotation, *data).unwrap(),
            self.placement_error(target_id@, rotation, *data) is None && !self.ship_layout.fits(
                data.object_spec(target_id@).unwrap().footprint,
                position,
                rotation,
            ) ==> r is Err && r->Err_0@ == "placement leaves the ship grid"@,
            r matches Err(m) ==> self.placement_refusal(target_id@, position, rotation, *data, m@),
    {
        let target = self.workspace_target(target_id, data)?;
        if !target.rotatable && rotation % 2 != 0 {
            let mut e = String::new();
            e.append(target.display_name.as_str());
            e.append(" cannot rotate");
            return Err(e);
        }
        if TransferMode::from_target(target).uses_external_rig() {
            if self.external_cargo_count(data, None) >= self.external_capacity(data) {
                return Err(data.salvage_ui.clamps_full.clone());
            }
        } else if self.internal_cargo_count(data, None) >= self.internal_cargo_capacity() {
            return Err(data.salvage_ui.hold_full.clone());
        }
        let key = cargo_layout_id(target_id);
        match self.ship_layout.can_place(key.as_str(), target.footprint, position, rotation) {
            Ok(()) => Ok(()),
            Err(e) => {
                let m = e.message();
                proof {
                    match e {
                        crate::layout::LayoutError::OutOfBounds => {},
                        crate::layout::LayoutError::Overlap(other) => {
                            let i = choose|i: int|
                                0 <= i < self.ship_layout.placements.len()
                                    && self.ship_layout.placements@[i].id@ != key@
                                    && self.ship_layout.placements@[i].id == other
                                    && crate::layout::item_overlaps(
                                    #[trigger] self.ship_layout.placements@[i],
                                    target.footprint,
                                    position,
                                    rotation,
                                );
                            assert(m@ == "placement overlaps "@ + self.ship_layout.placements@[i].id@);
                        },
                    }
                }
                Err(m)
            },
        }
    }

    /// Commits a hold destination for a target and reserves the power to
    /// pull it.
    pub fn begin_workspace_transfer(
        &mut self,
        target_id: &str,
        position: GridPosition,
        rotation: u8,
        data: &GameData,
    ) -> (r: Result<String, String>)
        requires
            old(self).wf(),
            old(self).log_room(1),
            data.wf(),
        ensures
            final(self).wf(),
            r is Err ==> *final(self) == *old(self),
            old(self).expedition is Some && old(self).expedition.unwrap().workspace_transfer is Some
                ==> err_msg(r, data.salvage_ui.transfer_busy@),
            r is Ok ==> {
                let e = old(self).expedition.unwrap();
                let t = data.object_spec(target_id@).unwrap();
                let spent = if t.energy_cost > 0 {
                    t.energy_cost as int
                } else {
                    0
                };
                let ne = final(self).expedition.unwrap();
                &&& old(self).expedition is Some
                &&& e.workspace_transfer is None
                &&& old(self).placement_ok(target_id@, position, rotation, *data)
                &&& old(self).block_reason_spec(t, *data) is None
                &&& final(self).expedition is Some
                &&& ne == (ExpeditionState {
                    workspace_energy: (e.workspace_energy - spent) as i32,
                    workspace_transfer: ne.workspace_transfer,
                    ..e
                })
                &&& ne.workspace_transfer is Some
                &&& ne.workspace_transfer.unwrap().target_id@ == target_id@
                &&& ne.workspace_transfer.unwrap().position == position
                &&& ne.workspace_transfer.unwrap().rotation == rotation % 2
                &&& crate::session::logged(
                    *old(self),
                    final(self).site_progress@,
                    e.site_id@,
                    WorkspaceLogEvent::ExtractionStarted,
                    Some(e.workspace_section@),
                    Some(target_id@),
                )
                &&& *final(self) == (GameSession {
                    expedition: final(self).expedition,
                    site_progress: final(self).site_progress,
                    ..*old(self)
                })
            },
            old(self).expedition is Some && old(self).expedition.unwrap().workspace_transfer is None
                && old(self).placement_ok(target_id@, position, rotation, *data)
                && old(self).block_reason_spec(data.object_spec(target_id@).unwrap(), *data) is None
                ==> r is Ok,
    {
        let busy = match &self.expedition {
            Some(e) => e.workspace_transfer.is_some(),
            None => false,
        };
        if busy {
            return Err(data.salvage_ui.transfer_busy.clone());
        }
        self.validate_workspace_placement(target_id, position, rotation, data)?;
        let msg = self.reserve_workspace_energy(target_id, data)?;
        match &mut self.expedition {
            Some(e) => {
                e.workspace_transfer = Some(
                    WorkspaceTransfer {
                        target_id: target_id.to_owned(),
                        position,
                        rotation: rotation % 2,
                    },
                );
            },
            None => {},
        }
        Ok(msg)
    }

    /// Calls off the committed pull, if any, and logs it.
    pub fn cancel_workspace_transfer(&mut self)
        requires
            old(self).log_room(1),
        ensures
            old(self).expedition is None || old(self).expedition.unwrap().workspace_transfer is None
                ==> *final(self) == *old(self),
            old(self).expedition is Some && old(self).expedition.unwrap().workspace_transfer is Some
                ==> {
                let e = old(self).expedition.unwrap();
                &&& final(self).expedition == Some(
                    ExpeditionState { workspace_transfer: None, ..e },
                )
                &&& crate::session::logged(
                    *old(self),
                    final(self).site_progress@,
                    e.site_id@,
                    WorkspaceLogEvent::ExtractionCancelled,
                    Some(e.workspace_section@),
                    Some(e.workspace_transfer.unwrap().target_id@),
                )
                &&& *final(self) == (GameSession {
                    expedition: final(self).expedition,
                    site_progress: final(self).site_progress,
                    ..*old(self)
                })
            },
    {
        let target = match &mut self.expedition {
            Some(e) => match e.workspace_transfer.take() {
                Some(t) => t.target_id,
                None => {
                    return;
                },
            },
            None => {
                return;
            },
        };
        let ghost mid = *self;
        self.record_workspace_event(WorkspaceLogEvent::ExtractionCancelled, Some(target.as_str()));
        proof {
            assert(mid.progress_spec(mid.expedition.unwrap().site_id@) == old(self).progress_spec(
                mid.expedition.unwrap().site_id@,
            ));
            assert(mid.progress_index(mid.expedition.unwrap().site_id@) == old(self).progress_index(mid.expedition.unwrap().site_id@));
        }
    }

    /// What taking a target out of the wreck does to its progress: the
    /// target counts as removed and one event is logged for the section.
    pub open spec fn target_taken(
        old: GameSession,
        new: GameSession,
        id: Seq<char>,
        event: WorkspaceLogEvent,
    ) -> bool {
        let e = old.expedition.unwrap();
        match old.progress_spec(e.site_id@) {
            None => new.site_progress@ == old.site_progress@,
            Some(p) => {
                let i = old.progress_index(e.site_id@);
                let np = new.site_progress@[i];
                &&& 0 <= i < old.site_progress.len()
                &&& progress_entry_changed(old.site_progress@, new.site_progress@, i)
                &&& views(np.removed_targets@) == if views(p.removed_targets@).contains(id) {
                    views(p.removed_targets@)
                } else {
                    views(p.removed_targets@).push(id)
                }
                &&& log_extended(
                    p.operation_log@,
                    np.operation_log@,
                    seq![event],
                    e.workspace_section@,
                    Some(id),
                )
                &&& np == (SiteProgress {
                    removed_targets: np.removed_targets,
                    operation_log: np.operation_log,
                    ..p
                })
            },
        }
    }

    /// Files a target as gone from the run's wreck and logs the event.
    fn take_target(&mut self, target_id: &str, event: WorkspaceLogEvent)
        requires
            old(self).wf(),
            old(self).log_room(1),
            old(self).expedition is Some,
        ensures
            final(self).wf(),
            Self::target_taken(*old(self), *final(self), target_id@, event),
            *final(self) == (GameSession { site_progress: final(self).site_progress, ..*old(self) }),
    {
        let (site_id, section_id) = match &self.expedition {
            Some(e) => (e.site_id.clone(), e.workspace_section.clone()),
            None => {
                return;
            },
        };
        match self.progress_slot(site_id.as_str()) {
            Some(i) => {
                let mut removed = copy_ids(&self.site_progress[i].removed_targets);
                insert_id(&mut removed, target_id);
                self.site_progress[i].removed_targets = removed;
                let n = self.site_progress[i].operation_log.len();
                assert(n + 1 <= u32::MAX) by {
                    assert(old(self).site_progress@[i as int].operation_log.len() + 1 < crate::session::LOG_LIMIT);
                }
                self.site_progress[i].operation_log.push(
                    WorkspaceLogEntry::new(
                        (n + 1) as u32,
                        event,
                        Some(section_id.as_str()),
                        Some(target_id),
                    ),
                );
                proof {
                    let old_log = old(self).site_progress@[i as int].operation_log@;
                    let new_log = self.site_progress@[i as int].operation_log@;
                    assert(new_log.take(old_log.len() as int) =~= old_log);
                    assert(new_log[old_log.len() as int] == new_log[n as int]);
                    assert forall|j: int|
                        0 <= j < self.site_progress.len() implies (
                    #[trigger] self.site_progress@[j]).operation_log.len() < crate::session::LOG_LIMIT
                        && 0 <= self.site_progress@[j].condition <= 100 by {
                        assert(old(self).site_progress@[j].operation_log.len() + 1
                            < crate::session::LOG_LIMIT);
                    }
                }
            },
            None => {},
        }
    }

    /// The run after a target leaves its wreck by pull or loss: it is no
    /// longer shown or stabilized, and a pull committed for it is spent.
    pub open spec fn target_cleared(old: ExpeditionState, new: ExpeditionState, id: Seq<char>) -> bool {
        &&& views(new.revealed_targets@) == views(old.revealed_targets@).filter(
            |s: Seq<char>| s != id,
        )
        &&& views(new.stabilized_targets@) == views(old.stabilized_targets@).filter(
            |s: Seq<char>| s != id,
        )
        &&& new.workspace_transfer == if pull_for(old, id) {
            None
        } else {
            old.workspace_transfer
        }
    }

    /// What recovering a target does: with a pull committed for it, it is
    /// packed at the committed spot; without one, it joins the manifest to be
    /// packed later. Either way it leaves the wreck.
    pub open spec fn recovered(
        old: GameSession,
        new: GameSession,
        r: Result<String, String>,
        id: Seq<char>,
        data: GameData,
    ) -> bool {
        let e = old.expedition.unwrap();
        let t = data.object_spec(id).unwrap();
        let ne = new.expedition.unwrap();
        if pull_for(e, id) {
            let pull = e.workspace_transfer.unwrap();
            &&& new.ship_layout.width == old.ship_layout.width
            &&& new.ship_layout.height == old.ship_layout.height
            &&& new.ship_layout.placements@.drop_last() == ShipLayout::without(
                old.ship_layout.placements@,
                cargo_layout_key(id),
            )
            &&& new.ship_layout.placements@.len() > 0
            &&& new.ship_layout.placements@.last().id@ == cargo_layout_key(id)
            &&& new.ship_layout.placements@.last().footprint == t.footprint
            &&& new.ship_layout.placements@.last().position == pull.position
            &&& new.ship_layout.placements@.last().rotation == pull.rotation
            &&& !new.ship_layout.placements@.last().permanent
            &&& ne.cargo@.drop_last() == crate::workspace_transfer::cargo_without(e.cargo@, id)
            &&& ne.cargo@.len() > 0
            &&& ne.cargo@.last().object_id@ == id
            &&& ne.cargo@.last().status == CargoStatus::Packed
            &&& ne.cargo@.last().position == Some(pull.position)
            &&& ne.cargo@.last().rotation == pull.rotation
            &&& ok_msg(r, workspace_name_spec(t) + ": "@ + data.salvage_ui.transfer_complete@)
        } else {
            &&& new.ship_layout == old.ship_layout
            &&& ne.cargo@.drop_last() == crate::workspace_transfer::cargo_without(e.cargo@, id)
            &&& ne.cargo@.len() > 0
            &&& ne.cargo@.last().object_id@ == id
            &&& ne.cargo@.last().status == CargoStatus::Pending
            &&& ne.cargo@.last().position is None
            &&& ne.cargo@.last().rotation == 0
            &&& ok_msg(
                r,
                workspace_name_spec(t) + " recovered to the "@ + TransferMode::from_target_spec(
                    t,
                ).queue_label_spec() + "."@,
            )
        }
    }

    /// Pulls a revealed target out of the wreck.
    pub fn recover_workspace_target(&mut self, target_id: &str, data: &GameData) -> (r: Result<
        String,
        String,
    >)
        requires
            old(self).wf(),
            old(self).log_room(1),
            old(self).ship_layout.placements.len() < 999,
            old(self).expedition is Some ==> old(self).expedition.unwrap().cargo.len() < 1_000_000,
            data.wf(),
        ensures
            final(self).wf(),
            r is Err ==> *final(self) == *old(self),
            !old(self).target_revealed_spec(target_id@) || old(self).target_removed_spec(target_id@)
                ==> err_msg(r, "that salvage is no longer available"@),
            old(self).target_revealed_spec(target_id@) && !old(self).target_removed_spec(
                target_id@,
            ) ==> {
                let e = old(self).expedition.unwrap();
                if data.object_spec(target_id@) is None {
                    err_msg(r, "unknown salvage target '"@ + target_id@ + "'"@)
                } else if pull_for(e, target_id@) && !old(self).placement_ok(
                    target_id@,
                    e.workspace_transfer.unwrap().position,
                    e.workspace_transfer.unwrap().rotation,
                    *data,
                ) {
                    r is Err && old(self).placement_refusal(
                        target_id@,
                        e.workspace_transfer.unwrap().position,
                        e.workspace_transfer.unwrap().rotation,
                        *data,
                        r->Err_0@,
                    )
                } else {
                    let ne = final(self).expedition.unwrap();
                    &&& final(self).expedition is Some
                    &&& Self::target_cleared(e, ne, target_id@)
                    &&& ne == (ExpeditionState {
                        revealed_targets: ne.revealed_targets,
                        stabilized_targets: ne.stabilized_targets,
                        workspace_transfer: ne.workspace_transfer,
                        cargo: ne.cargo,
                        ..e
                    })
                    &&& Self::recovered(*old(self), *final(self), r, target_id@, *data)
                    &&& Self::target_taken(
                        *old(self),
                        *final(self),
                        target_id@,
                        WorkspaceLogEvent::TargetRecovered,
                    )
                    &&& *final(self) == (GameSession {
                        ship_layout: final(self).ship_layout,
                        expedition: final(self).expedition,
                        site_progress: final(self).site_progress,
                        ..*old(self)
                    })
                }
            },
    {
        if !self.target_is_revealed(target_id) || self.target_is_removed(target_id) {
            return Err("that salvage is no longer available".to_owned());
        }
        let target = self.workspace_target(target_id, data)?;
        let pull = match &self.expedition {
            Some(e) => match &e.workspace_transfer {
                Some(t) => if crate::text::same_text(t.target_id.as_str(), target_id) {
                    Some((t.position, t.rotation))
                } else {
                    None
                },
                None => None,
            },
            None => None,
        };
        let key = cargo_layout_id(target_id);
        let item = match pull {
            Some((position, rotation)) => {
                self.validate_workspace_placement(target_id, position, rotation, data)?;
                let ghost before = self.ship_layout;
                let placed = self.ship_layout.place(
                    key.as_str(),
                    target.footprint,
                    position,
                    rotation,
                    false,
                );
                proof {
                    crate::layout::lemma_place_keeps_wf(
                        before,
                        self.ship_layout,
                        key@,
                        target.footprint,
                        position,
                        rotation,
                    );
                    crate::layout::lemma_without_len(before.placements@, key@);
                }
                CargoItem {
                    object_id: target_id.to_owned(),
                    status: CargoStatus::Packed,
                    position: Some(position),
                    rotation,
                }
            },
            None => CargoItem {
                object_id: target_id.to_owned(),
                status: CargoStatus::Pending,
                position: None,
                rotation: 0,
            },
        };
        let queued = pull.is_none();
        match &mut self.expedition {
            Some(e) => {
                remove_id(&mut e.revealed_targets, target_id);
                remove_id(&mut e.stabilized_targets, target_id);
                if !queued {
                    e.workspace_transfer = None;
                }
                drop_cargo(&mut e.cargo, target_id);
                let ghost before = e.cargo@;
                e.cargo.push(item);
                proof {
                    assert(e.cargo@.drop_last() =~= before);
                }
            },
            None => {},
        }
        let ghost mid = *self;
        self.take_target(target_id, WorkspaceLogEvent::TargetRecovered);
        proof {
            assert(mid.progress_spec(mid.expedition.unwrap().site_id@) == old(self).progress_spec(
                mid.expedition.unwrap().site_id@,
            ));
            assert(mid.progress_index(mid.expedition.unwrap().site_id@) == old(self).progress_index(mid.expedition.unwrap().site_id@));
        }
        let name = workspace_name(target);
        let mut msg = name.clone();
        if queued {
            msg.append(" recovered to the ");
            msg.append(TransferMode::from_target(target).queue_label());
            msg.append(".");
        } else {
            msg.append(": ");
            msg.append(data.salvage_ui.transfer_complete.as_str());
        }
        Ok(msg)
    }

    /// The run after a target is lost, before its contract is settled.
    pub open spec fn lost_step(old: GameSession, mid: GameSession, id: Seq<char>) -> bool {
        let e = old.expedition.unwrap();
        let me = mid.expedition.unwrap();
        &&& mid.expedition is Some
        &&& Self::target_cleared(e, me, id)
        &&& me == (ExpeditionState {
            revealed_targets: me.revealed_targets,
            stabilized_targets: me.stabilized_targets,
            workspace_transfer: me.workspace_transfer,
            ..e
        })
        &&& Self::target_taken(old, mid, id, WorkspaceLogEvent::TargetLost)
        &&& mid == (GameSession {
            expedition: mid.expedition,
            site_progress: mid.site_progress,
            ..old
        })
    }

    /// A lost target leaves the wreck for good, and the wreck's contract is
    /// settled against an empty hold.
    pub open spec fn lost(
        old: GameSession,
        new: GameSession,
        r: Result<String, String>,
        id: Seq<char>,
        data: GameData,
    ) -> bool {
        let e = old.expedition.unwrap();
        exists|mid: GameSession, c: Option<String>|
            {
                &&& #[trigger] Self::lost_step(old, mid, id)
                &&& #[trigger] Self::contract_closed(
                    mid,
                    new,
                    e.site_id@,
                    Seq::empty(),
                    data,
                    e.contract_accepted,
                    c,
                )
                &&& ok_msg(
                    r,
                    workspace_name_spec(data.object_spec(id).unwrap())
                        + " lost in the wreckage; the mount is now empty."@ + match c {
                        Some(m) => m@,
                        None => Seq::<char>::empty(),
                    },
                )
            }
    }

    /// Loses a revealed target to the wreckage.
    pub fn lose_workspace_target(&mut self, target_id: &str, data: &GameData) -> (r: Result<
        String,
        String,
    >)
        requires
            old(self).wf(),
            old(self).log_room(1),
            data.wf(),
        ensures
            final(self).wf(),
            r is Err ==> *final(self) == *old(self),
            !old(self).target_revealed_spec(target_id@) ==> err_msg(
                r,
                "Scan this section before selecting the target."@,
            ),
            old(self).target_revealed_spec(target_id@) && data.object_spec(target_id@) is None
                ==> err_msg(r, "unknown salvage target '"@ + target_id@ + "'"@),
            old(self).target_revealed_spec(target_id@) && data.object_spec(target_id@) is Some
                ==> Self::lost(*old(self), *final(self), r, target_id@, *data),
    {
        if !self.target_is_revealed(target_id) {
            return Err("Scan this section before selecting the target.".to_owned());
        }
        let (site_id, accepted) = match &self.expedition {
            Some(e) => (e.site_id.clone(), e.contract_accepted),
            None => {
                return Err("there is no active expedition".to_owned());
            },
        };
        let target = self.workspace_target(target_id, data)?;
        match &mut self.expedition {
            Some(e) => {
                let pulled = match &e.workspace_transfer {
                    Some(t) => crate::text::same_text(t.target_id.as_str(), target_id),
                    None => false,
                };
                if pulled {
                    e.workspace_transfer = None;
                }
                remove_id(&mut e.revealed_targets, target_id);
                remove_id(&mut e.stabilized_targets, target_id);
            },
            None => {},
        }
        let ghost cleared = *self;
        self.take_target(target_id, WorkspaceLogEvent::TargetLost);
        proof {
            assert(cleared.progress_spec(cleared.expedition.unwrap().site_id@) == old(self).progress_spec(cleared.expedition.unwrap().site_id@));
            assert(cleared.progress_index(cleared.expedition.unwrap().site_id@) == old(self).progress_index(cleared.expedition.unwrap().site_id@));
        }
        let ghost mid = *self;
        let mut msg = workspace_name(target).clone();
        msg.append(" lost in the wreckage; the mount is now empty.");
        let empty: Vec<CargoItem> = Vec::new();
        let c = self.complete_site_contract_for_run(site_id.as_str(), &empty, data, accepted);
        match &c {
            Some(m) => msg.append(m.as_str()),
            None => {},
        }
        proof {
            assert(empty@ =~= Seq::<CargoItem>::empty());
            assert(Self::lost_step(*old(self), mid, target_id@));
            assert(Self::contract_closed(
                mid,
                *self,
                old(self).expedition.unwrap().site_id@,
                Seq::empty(),
                *data,
                old(self).expedition.unwrap().contract_accepted,
                c,
            ));
        }
        Ok(msg)
    }
}

} // verus!
