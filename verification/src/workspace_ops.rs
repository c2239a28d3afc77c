//! Work inside a wreck: scanning a section, moving between sections,
//! target state, and the field power those actions spend.

use crate::data::{keyed, GameData, SalvageObjectData, SiteData, WreckSectionData};
use crate::drone_directive::DroneDirective;
use crate::scan_profile::WorkspaceScanProfile;
use crate::session::{ExpeditionState, GameSession, SiteProgress};
use crate::survey::{note_views, survey_after};
use crate::text::{copy_ids, decimal, err_msg, has_id, insert_id, ok_msg, push_int, views};
use crate::workspace_records::{entry_is, WorkspaceLogEntry, WorkspaceLogEvent};
use vstd::prelude::*;

verus! {

/// The targets of `targets` that are not in `removed`.
pub open spec fn not_removed(removed: Seq<Seq<char>>) -> spec_fn(Seq<char>) -> bool {
    |t: Seq<char>| !removed.contains(t)
}

/// The message that refuses work for want of power.
pub open spec fn power_block_msg(cost: int, remaining: int, capacity: int) -> Seq<char> {
    "Power reserve insufficient: need "@ + decimal(cost) + ", have "@ + decimal(remaining) + " / "@
        + decimal(capacity) + "."@
}

/// The targets of `targets` that are not in `removed`, in order.
pub fn unremoved(targets: &Vec<String>, removed: &Vec<String>) -> (r: Vec<String>)
    ensures
        views(r@) == views(targets@).filter(not_removed(views(removed@))),
        r.len() <= targets.len(),
{
    let mut out: Vec<String> = Vec::new();
    let mut i: usize = 0;
    while i < targets.len()
        invariant
            i <= targets.len(),
            views(out@) == views(targets@).take(i as int).filter(not_removed(views(removed@))),
            out.len() <= i,
        decreases targets.len() - i,
    {
        let ghost before = out@;
        proof {
            reveal_with_fuel(Seq::<_>::filter, 1);
            assert(views(targets@).take(i + 1).drop_last() =~= views(targets@).take(i as int));
            assert(views(targets@).take(i + 1).last() == targets@[i as int]@);
        }
        if !has_id(removed, targets[i].as_str()) {
            out.push(targets[i].clone());
            proof {
                assert(views(out@) =~= views(before).push(targets@[i as int]@));
            }
        }
        i = i + 1;
    }
    proof {
        assert(views(targets@).take(targets.len() as int) =~= views(targets@));
    }
    out
}

/// Whether a log grew by exactly `entries`, in order, after `old`.
pub open spec fn log_extended(
    old: Seq<WorkspaceLogEntry>,
    new: Seq<WorkspaceLogEntry>,
    events: Seq<WorkspaceLogEvent>,
    section: Seq<char>,
    target: Option<Seq<char>>,
) -> bool {
    &&& new.len() == old.len() + events.len()
    &&& new.take(old.len() as int) == old
    &&& forall|k: int|
        0 <= k < events.len() ==> entry_is(
            #[trigger] new[old.len() + k],
            old.len() + k + 1,
            events[k],
            Some(section),
            target,
        )
}

/// What a scan of `section` leaves in a wreck's progress.
pub open spec fn scanned_progress(
    old: SiteProgress,
    new: SiteProgress,
    section: WreckSectionData,
    data: GameData,
    events: Seq<WorkspaceLogEvent>,
) -> bool {
    &&& note_views(new.surveyed_targets@) == survey_after(
        note_views(old.surveyed_targets@),
        views(section.candidate_targets@),
        section.id@,
        data,
    )
    &&& views(new.discovered_sections@) == if views(old.discovered_sections@).contains(
        section.id@,
    ) {
        views(old.discovered_sections@)
    } else {
        views(old.discovered_sections@).push(section.id@)
    }
    &&& log_extended(old.operation_log@, new.operation_log@, events, section.id@, None)
    &&& new == (SiteProgress {
        surveyed_targets: new.surveyed_targets,
        discovered_sections: new.discovered_sections,
        operation_log: new.operation_log,
        ..old
    })
}

/// `new` is `old` with entry `i` replaced by one that `ok` accepts, when
/// `i` is an entry; unchanged otherwise.
pub open spec fn progress_entry_changed(
    old: Seq<SiteProgress>,
    new: Seq<SiteProgress>,
    i: int,
) -> bool {
    &&& new.len() == old.len()
    &&& forall|j: int| 0 <= j < old.len() && j != i ==> new[j] == old[j]
    &&& (0 <= i < old.len() ==> new[i].site_id == old[i].site_id && new[i].condition
        == old[i].condition)
}

impl GameSession {
    pub open spec fn target_removed_spec(&self, target: Seq<char>) -> bool {
        match self.expedition {
            Some(e) => match self.progress_spec(e.site_id@) {
                Some(p) => views(p.removed_targets@).contains(target),
                None => false,
            },
            None => false,
        }
    }

    /// Whether the run's wreck has already given up the target.
    pub fn target_is_removed(&self, target_id: &str) -> (r: bool)
        ensures
            r == self.target_removed_spec(target_id@),
    {
        match &self.expedition {
            Some(e) => match self.progress(e.site_id.as_str()) {
                Some(p) => has_id(&p.removed_targets, target_id),
                None => false,
            },
            None => false,
        }
    }

    pub open spec fn target_revealed_spec(&self, target: Seq<char>) -> bool {
        match self.expedition {
            Some(e) => e.workspace_scanned && views(e.revealed_targets@).contains(target),
            None => false,
        }
    }

    /// Whether the current scan shows the target.
    pub fn target_is_revealed(&self, target_id: &str) -> (r: bool)
        ensures
            r == self.target_revealed_spec(target_id@),
    {
        match &self.expedition {
            Some(e) => e.workspace_scanned && has_id(&e.revealed_targets, target_id),
            None => false,
        }
    }

    pub open spec fn target_stabilized_spec(&self, target: Seq<char>) -> bool {
        match self.expedition {
            Some(e) => views(e.stabilized_targets@).contains(target),
            None => false,
        }
    }

    /// Whether a stabilizer lock holds the target.
    pub fn target_is_stabilized(&self, target_id: &str) -> (r: bool)
        ensures
            r == self.target_stabilized_spec(target_id@),
    {
        match &self.expedition {
            Some(e) => has_id(&e.stabilized_targets, target_id),
            None => false,
        }
    }

    /// The authored target with the given identifier.
    pub fn workspace_target<'a>(&self, target_id: &str, data: &'a GameData) -> (r: Result<
        &'a SalvageObjectData,
        String,
    >)
        ensures
            match r {
                Ok(t) => data.object_spec(target_id@) == Some(*t) && t.id@ == target_id@,
                Err(e) => data.object_spec(target_id@) is None && e@ == "unknown salvage target '"@
                    + target_id@ + "'"@,
            },
            r matches Ok(t) ==> (data.wf() ==> t.wf()),
    {
        match data.object(target_id) {
            Some(t) => Ok(t),
            None => {
                let mut e = "unknown salvage target '".to_owned();
                e.append(target_id);
                e.append("'");
                Err(e)
            },
        }
    }

    pub open spec fn power_block_spec(&self, cost: int) -> Option<Seq<char>> {
        match self.expedition {
            Some(e) => if cost > e.workspace_energy {
                Some(
                    power_block_msg(
                        cost,
                        e.workspace_energy as int,
                        e.workspace_energy_capacity as int,
                    ),
                )
            } else {
                None
            },
            None => None,
        }
    }

    /// Why the run cannot spend `cost` power, if it cannot.
    pub fn workspace_energy_block_reason(&self, cost: i32) -> (r: Option<String>)
        ensures
            match r {
                Some(s) => self.power_block_spec(cost as int) == Some(s@),
                None => self.power_block_spec(cost as int) is None,
            },
    {
        match &self.expedition {
            Some(e) => if cost > e.workspace_energy {
                let mut s = "Power reserve insufficient: need ".to_owned();
                push_int(&mut s, cost as i64);
                s.append(", have ");
                push_int(&mut s, e.workspace_energy as i64);
                s.append(" / ");
                push_int(&mut s, e.workspace_energy_capacity as i64);
                s.append(".");
                Some(s)
            } else {
                None
            },
            None => None,
        }
    }

    /// The session after spending `cost` power from the run's reserve;
    /// nothing is spent for a negative cost.
    pub open spec fn spent(&self, cost: int) -> GameSession {
        let e = self.expedition.unwrap();
        GameSession {
            expedition: Some(
                ExpeditionState {
                    workspace_energy: (e.workspace_energy - if cost > 0 {
                        cost
                    } else {
                        0
                    }) as i32,
                    ..e
                },
            ),
            ..*self
        }
    }

    /// Spends power from the run's reserve, or says why it cannot.
    pub fn spend_workspace_energy(&mut self, cost: i32) -> (r: Result<(), String>)
        requires
            old(self).wf(),
        ensures
            r is Err ==> *final(self) == *old(self),
            old(self).expedition is None ==> r is Err && r->Err_0@ == "there is no active expedition"@,
            old(self).expedition is Some && old(self).power_block_spec(cost as int) is Some ==> r
                is Err && r->Err_0@ == old(self).power_block_spec(cost as int).unwrap(),
            old(self).expedition is Some && old(self).power_block_spec(cost as int) is None ==> r
                is Ok && *final(self) == old(self).spent(cost as int) && final(self).wf(),
    {
        match self.workspace_energy_block_reason(cost) {
            Some(reason) => {
                return Err(reason);
            },
            None => {},
        }
        match &mut self.expedition {
            Some(e) => {
                let spend = if cost > 0 {
                    cost
                } else {
                    0
                };
                e.workspace_energy = e.workspace_energy - spend;
                Ok(())
            },
            None => Err("there is no active expedition".to_owned()),
        }
    }

    /// The targets a scan of the run's section reads: those its wreck has
    /// not given up yet.
    pub open spec fn scan_visible_spec(&self, data: GameData) -> Seq<Seq<char>> {
        let site = self.workspace_site_spec(data).unwrap();
        let section = self.workspace_section_spec(data).unwrap();
        let removed = match self.progress_spec(site.id@) {
            Some(p) => views(p.removed_targets@),
            None => Seq::empty(),
        };
        views(section.candidate_targets@).filter(not_removed(removed))
    }

    pub open spec fn drone_notice_spec(support: int, directive: DroneDirective) -> Seq<char> {
        if support > 0 {
            match directive {
                DroneDirective::Standby => " Drone bay on standby; no field assist is active."@,
                DroneDirective::Survey => " Survey net deployed; hazard mitigation is prioritized over speed."@,
                DroneDirective::PullSupport => " Survey drones deployed; pull support is active."@,
            }
        } else {
            Seq::empty()
        }
    }

    /// What a completed scan does to the session, `old` being the session
    /// before the scan and `new` the one after.
    pub open spec fn scan_done(old: GameSession, new: GameSession, data: GameData) -> bool {
        let e = old.expedition.unwrap();
        let site = old.workspace_site_spec(data).unwrap();
        let section = old.workspace_section_spec(data).unwrap();
        let support = old.stats_spec(data).drone_support as int;
        let deploy = support > 0 && e.drone_directive.deploys_drones_spec();
        let ne = new.expedition.unwrap();
        let events = if deploy && !e.drones_deployed {
            seq![WorkspaceLogEvent::SectionScanned, WorkspaceLogEvent::DronesDeployed]
        } else {
            seq![WorkspaceLogEvent::SectionScanned]
        };
        &&& new.expedition is Some
        &&& views(ne.revealed_targets@) == old.scan_visible_spec(data)
        &&& ne == (ExpeditionState {
            workspace_energy: (e.workspace_energy - if data.config.workspace_scan_energy_cost > 0 {
                data.config.workspace_scan_energy_cost as int
            } else {
                0
            }) as i32,
            workspace_scanned: true,
            revealed_targets: ne.revealed_targets,
            scan_profile: WorkspaceScanProfile::from_capability_spec(
                old.capability_spec("scanner_array"@, data),
            ),
            drones_deployed: deploy,
            ..e
        })
        &&& match old.progress_spec(site.id@) {
            None => new.site_progress@ == old.site_progress@,
            Some(p) => {
                let i = old.progress_index(site.id@);
                &&& 0 <= i < old.site_progress.len()
                &&& progress_entry_changed(old.site_progress@, new.site_progress@, i)
                &&& scanned_progress(old.site_progress@[i], new.site_progress@[i], section, data, events)
            },
        }
        &&& new == (GameSession {
            expedition: new.expedition,
            site_progress: new.site_progress,
            ..old
        })
    }

    /// The report of a completed scan.
    pub open spec fn scan_message(old: GameSession, new: GameSession, data: GameData) -> Seq<char> {
        let ne = new.expedition.unwrap();
        let (recovered, total) = new.recovery_summary_spec(ne.site_id@, data);
        ne.scan_profile.result_label_spec() + " complete: "@ + decimal(
            old.scan_visible_spec(data).len() as int,
        ) + " target(s) remain readable. Power "@ + decimal(ne.workspace_energy as int) + "/"@
            + decimal(ne.workspace_energy_capacity as int) + ". Site recovery is "@ + decimal(
            recovered,
        ) + "/"@ + decimal(total) + "; "@ + decimal(
            if recovered >= total {
                0
            } else {
                total - recovered
            },
        ) + " remain."@ + Self::drone_notice_spec(
            old.stats_spec(data).drone_support as int,
            old.expedition.unwrap().drone_directive,
        )
    }

    /// Scans the run's section: spends the scan's power, reads the targets
    /// the wreck still holds, files survey notes, marks the section
    /// explored and logs the scan. A section already scanned is not scanned
    /// again.
    pub fn scan_workspace(&mut self, data: &GameData) -> (r: Result<String, String>)
        requires
            old(self).wf(),
            old(self).log_room(2),
            data.wf(),
        ensures
            final(self).wf(),
            old(self).expedition is None ==> *final(self) == *old(self) && err_msg(
                r,
                "there is no active expedition"@,
            ),
            old(self).expedition is Some ==> {
                let e = old(self).expedition.unwrap();
                let cost = data.config.workspace_scan_energy_cost as int;
                if e.workspace_scanned {
                    &&& *final(self) == *old(self)
                    &&& ok_msg(
                        r,
                        "Section already scanned. Power "@ + decimal(e.workspace_energy as int)
                            + "/"@ + decimal(e.workspace_energy_capacity as int)
                            + " remains available."@,
                    )
                } else if old(self).power_block_spec(cost) is Some {
                    *final(self) == *old(self) && err_msg(
                        r,
                        old(self).power_block_spec(cost).unwrap(),
                    )
                } else if old(self).workspace_section_spec(*data) is None {
                    *final(self) == old(self).spent(cost) && err_msg(
                        r,
                        old(self).section_missing_message(*data),
                    )
                } else {
                    &&& Self::scan_done(*old(self), *final(self), *data)
                    &&& ok_msg(r, Self::scan_message(*old(self), *final(self), *data))
                }
            },
    {
        match &self.expedition {
            Some(e) => if e.workspace_scanned {
                let mut s = "Section already scanned. Power ".to_owned();
                push_int(&mut s, e.workspace_energy as i64);
                s.append("/");
                push_int(&mut s, e.workspace_energy_capacity as i64);
                s.append(" remains available.");
                return Ok(s);
            },
            None => {},
        }
        self.spend_workspace_energy(data.config.workspace_scan_energy_cost)?;
        let ghost paid = *self;
        let module_support = self.module_stats(data).drone_support;
        let directive = self.workspace_drone_directive();
        let profile = WorkspaceScanProfile::from_capability(self.has_capability("scanner_array", data));
        let were_deployed = self.workspace_drones_deployed();
        let (site_id, section_id, targets) = {
            let site = self.workspace_site(data)?;
            let section = self.workspace_section(data)?;
            (site.id.clone(), section.id.clone(), copy_ids(&section.candidate_targets))
        };
        let ghost section_v = old(self).workspace_section_spec(*data).unwrap();
        proof {
            assert(paid.workspace_section_spec(*data) == old(self).workspace_section_spec(*data));
            assert(paid.workspace_site_spec(*data) == old(self).workspace_site_spec(*data));
            assert(paid.stats_spec(*data) == old(self).stats_spec(*data));
        }
        let slot = self.progress_slot(site_id.as_str());
        let removed = match slot {
            Some(i) => copy_ids(&self.site_progress[i].removed_targets),
            None => Vec::new(),
        };
        proof {
            assert(views(removed@) == match old(self).progress_spec(site_id@) {
                Some(p) => views(p.removed_targets@),
                None => Seq::<Seq<char>>::empty(),
            });
        }
        self.record_survey_notes(site_id.as_str(), section_id.as_str(), &targets, data);
        let visible = unremoved(&targets, &removed);
        let deploy = module_support > 0 && directive.deploys_drones();
        let shown = copy_ids(&visible);
        match &mut self.expedition {
            Some(e) => {
                e.workspace_scanned = true;
                e.revealed_targets = shown;
                e.scan_profile = profile;
                e.drones_deployed = deploy;
            },
            None => {
                return Err("there is no active expedition".to_owned());
            },
        }
        let ghost noted = *self;
        match slot {
            Some(i) => {
                let mut discovered = copy_ids(&self.site_progress[i].discovered_sections);
                insert_id(&mut discovered, section_id.as_str());
                self.site_progress[i].discovered_sections = discovered;
                let n = self.site_progress[i].operation_log.len();
                assert(n + 2 <= u32::MAX) by {
                    assert(old(self).site_progress@[i as int].operation_log.len() + 2 < crate::session::LOG_LIMIT);
                }
                self.site_progress[i].operation_log.push(
                    WorkspaceLogEntry::new(
                        (n + 1) as u32,
                        WorkspaceLogEvent::SectionScanned,
                        Some(section_id.as_str()),
                        None,
                    ),
                );
                if deploy && !were_deployed {
                    self.site_progress[i].operation_log.push(
                        WorkspaceLogEntry::new(
                            (n + 2) as u32,
                            WorkspaceLogEvent::DronesDeployed,
                            Some(section_id.as_str()),
                            None,
                        ),
                    );
                }
                proof {
                    let old_log = old(self).site_progress@[i as int].operation_log@;
                    let new_log = self.site_progress@[i as int].operation_log@;
                    assert(new_log.take(old_log.len() as int) =~= old_log);
                    if deploy && !were_deployed {
                        assert(new_log[old_log.len() as int] == new_log[n as int]);
                        assert(new_log[old_log.len() + 1int] == new_log[n + 1]);
                    } else {
                        assert(new_log[old_log.len() as int] == new_log[n as int]);
                    }
                    assert(self.site_progress@[i as int] == (SiteProgress {
                        surveyed_targets: self.site_progress@[i as int].surveyed_targets,
                        discovered_sections: self.site_progress@[i as int].discovered_sections,
                        operation_log: self.site_progress@[i as int].operation_log,
                        ..old(self).site_progress@[i as int]
                    }));
                    assert forall|j: int|
                        0 <= j < self.site_progress.len() implies (
                    #[trigger] self.site_progress@[j]).operation_log.len() < crate::session::LOG_LIMIT
                        && 0 <= self.site_progress@[j].condition <= 100 by {
                        assert(old(self).site_progress@[j].operation_log.len() + 2
                            < crate::session::LOG_LIMIT);
                    }
                    assert(crate::data::first_match(self.site_progress@, site_id@, i as int));
                    crate::data::lemma_first_match_unique(self.site_progress@, site_id@, i as int);
                }
            },
            None => {},
        }
        proof {
            assert(views(self.expedition.unwrap().revealed_targets@) == old(self).scan_visible_spec(*data));
        }
        let (recovered, total) = self.site_recovery_summary(site_id.as_str(), data);
        let remaining = if recovered >= total {
            0
        } else {
            total - recovered
        };
        let (energy, capacity) = match &self.expedition {
            Some(e) => (e.workspace_energy, e.workspace_energy_capacity),
            None => (0, 0),
        };
        let mut msg = String::new();
        msg.append(profile.result_label());
        msg.append(" complete: ");
        crate::text::push_digits(&mut msg, visible.len() as u64);
        msg.append(" target(s) remain readable. Power ");
        push_int(&mut msg, energy as i64);
        msg.append("/");
        push_int(&mut msg, capacity as i64);
        msg.append(". Site recovery is ");
        crate::text::push_digits(&mut msg, recovered as u64);
        msg.append("/");
        crate::text::push_digits(&mut msg, total as u64);
        msg.append("; ");
        crate::text::push_digits(&mut msg, remaining as u64);
        msg.append(" remain.");
        if module_support > 0 {
            match directive {
                DroneDirective::Standby => msg.append(
                    " Drone bay on standby; no field assist is active.",
                ),
                DroneDirective::Survey => msg.append(
                    " Survey net deployed; hazard mitigation is prioritized over speed.",
                ),
                DroneDirective::PullSupport => msg.append(
                    " Survey drones deployed; pull support is active.",
                ),
            }
        }
        Ok(msg)
    }
}


/// Index of the first permanent placement that is not marked damaged, or -1.
pub open spec fn first_undamaged(
    placements: Seq<crate::layout::PlacedItem>,
    damaged: Seq<Seq<char>>,
) -> int
    decreases placements.len(),
{
    if placements.len() == 0 {
        -1
    } else {
        let k = first_undamaged(placements.drop_last(), damaged);
        if k >= 0 {
            k
        } else if placements.last().permanent && !damaged.contains(placements.last().id@) {
            placements.len() - 1
        } else {
            -1
        }
    }
}

/// A mass in tenths of a ton, rounded to whole tons with ties to even.
pub open spec fn whole_tons(tenths: int) -> int {
    let q = tenths / 10;
    let r = tenths % 10;
    if r > 5 || (r == 5 && q % 2 == 1) {
        q + 1
    } else {
        q
    }
}

/// A mass rounds to the nearest whole ton, and a mass halfway between two
/// whole tons rounds to the even one.
pub proof fn law_whole_tons_round_to_nearest_even(tenths: int)
    ensures
        -5 <= tenths - 10 * whole_tons(tenths) <= 5,
        (tenths - 10 * whole_tons(tenths) == 5 || tenths - 10 * whole_tons(tenths) == -5) ==> whole_tons(
            tenths,
        ) % 2 == 0,
{
}

impl GameSession {
    pub open spec fn switch_error(&self, section_id: Seq<char>, data: GameData) -> Option<Seq<char>> {
        let site = self.workspace_site_spec(data).unwrap();
        let cur = self.workspace_section_spec(data).unwrap();
        match keyed(site.sections@, section_id) {
            None => Some("unknown wreck section '"@ + section_id + "'"@),
            Some(section) => if section.id@ != cur.id@ && !views(cur.connected_sections@).contains(
                section_id,
            ) {
                Some("that section is not connected to the current frame"@)
            } else if section.required_capability is Some && !self.capability_spec(
                section.required_capability.unwrap()@,
                data,
            ) {
                Some(
                    "Requires "@ + crate::capability::capability_label_spec(
                        section.required_capability.unwrap()@,
                    ) + " capability to enter this section."@,
                )
            } else {
                None
            },
        }
    }

    /// Moves the camera to a connected section the ship can enter. A section
    /// explored before comes back with its scan; a new one must be scanned.
    #[verifier::rlimit(40)]
    pub fn switch_workspace_section(&mut self, section_id: &str, data: &GameData) -> (r: Result<
        String,
        String,
    >)
        requires
            old(self).wf(),
            old(self).log_room(1),
            data.wf(),
        ensures
            final(self).wf(),
            r is Err ==> *final(self) == *old(self),
            old(self).expedition is None ==> err_msg(r, "there is no active expedition"@),
            old(self).workspace_section_spec(*data) is None ==> err_msg(
                r,
                old(self).section_missing_message(*data),
            ),
            old(self).workspace_section_spec(*data) is Some && old(self).switch_error(
                section_id@,
                *data,
            ) is Some ==> err_msg(r, old(self).switch_error(section_id@, *data).unwrap()),
            r is Ok ==> old(self).workspace_section_spec(*data) is Some && old(self).switch_error(
                section_id@,
                *data,
            ) is None,
            old(self).workspace_section_spec(*data) is Some && old(self).switch_error(
                section_id@,
                *data,
            ) is None ==> {
                let e = old(self).expedition.unwrap();
                let site = old(self).workspace_site_spec(*data).unwrap();
                let cur = old(self).workspace_section_spec(*data).unwrap();
                let section = keyed(site.sections@, section_id@).unwrap();
                let known = old(self).progress_spec(site.id@) is Some && views(
                    old(self).progress_spec(site.id@).unwrap().discovered_sections@,
                ).contains(section_id@);
                let ne = final(self).expedition.unwrap();
                &&& final(self).expedition is Some
                &&& ne == (ExpeditionState {
                    workspace_section: ne.workspace_section,
                    workspace_scanned: known,
                    revealed_targets: ne.revealed_targets,
                    ..e
                })
                &&& ne.workspace_section@ == section_id@
                &&& views(ne.revealed_targets@) == if known {
                    views(section.candidate_targets@).filter(
                        not_removed(views(old(self).progress_spec(site.id@).unwrap().removed_targets@)),
                    )
                } else {
                    Seq::empty()
                }
                &&& if section_id@ != cur.id@ {
                    crate::session::logged(
                        *old(self),
                        final(self).site_progress@,
                        site.id@,
                        WorkspaceLogEvent::EnteredSection,
                        Some(section_id@),
                        None,
                    )
                } else {
                    final(self).site_progress@ == old(self).site_progress@
                }
                &&& *final(self) == (GameSession {
                    expedition: final(self).expedition,
                    site_progress: final(self).site_progress,
                    ..*old(self)
                })
                &&& ok_msg(
                    r,
                    "Camera moved to "@ + section.display_name@ + (if section.arrival_text@.len()
                        == 0 {
                        Seq::<char>::empty()
                    } else {
                        " "@ + section.arrival_text@
                    }) + (if known {
                        " Known scan restored; targets are readable."@
                    } else {
                        " Scan the section before working."@
                    }),
                )
            },
    {
        let site = self.workspace_site(data)?;
        let cur = self.workspace_section(data)?;
        let section = match site.section(section_id) {
            Some(s) => s,
            None => {
                let mut e = "unknown wreck section '".to_owned();
                e.append(section_id);
                e.append("'");
                return Err(e);
            },
        };
        let entered = !crate::text::same_text(section.id.as_str(), cur.id.as_str());
        if entered && !has_id(&cur.connected_sections, section_id) {
            return Err("that section is not connected to the current frame".to_owned());
        }
        match &section.required_capability {
            Some(c) => if !self.has_capability(c.as_str(), data) {
                let mut e = "Requires ".to_owned();
                let label = crate::capability::capability_label(c.as_str());
                e.append(label.as_str());
                e.append(" capability to enter this section.");
                return Err(e);
            },
            None => {},
        }
        let (known, visible) = match self.progress(site.id.as_str()) {
            Some(p) => {
                let known = has_id(&p.discovered_sections, section_id);
                if known {
                    (true, unremoved(&section.candidate_targets, &p.removed_targets))
                } else {
                    (false, Vec::new())
                }
            },
            None => (false, Vec::new()),
        };
        proof {
            if !known {
                assert(views(visible@) =~= Seq::<Seq<char>>::empty());
            }
        }
        let site_id = site.id.clone();
        match &mut self.expedition {
            Some(e) => {
                e.workspace_section = section.id.clone();
                e.workspace_scanned = known;
                e.revealed_targets = visible;
            },
            None => {
                return Err("there is no active expedition".to_owned());
            },
        }
        if entered {
            let ghost mid = *self;
            self.append_workspace_log(
                site_id.as_str(),
                WorkspaceLogEvent::EnteredSection,
                Some(section_id),
                None,
            );
            proof {
                assert(mid.progress_spec(site_id@) == old(self).progress_spec(site_id@));
                assert(mid.progress_index(site_id@) == old(self).progress_index(site_id@));
            }
        }
        let mut msg = "Camera moved to ".to_owned();
        msg.append(section.display_name.as_str());
        if !section.arrival_text.as_str().is_empty() {
            msg.append(" ");
            msg.append(section.arrival_text.as_str());
        }
        if known {
            msg.append(" Known scan restored; targets are readable.");
        } else {
            msg.append(" Scan the section before working.");
        }
        proof {
            let e = old(self).expedition.unwrap();
            let site_v = old(self).workspace_site_spec(*data).unwrap();
            let cur_v = old(self).workspace_section_spec(*data).unwrap();
            let section_v = keyed(site_v.sections@, section_id@).unwrap();
            assert(section_v == *section);
            assert(cur_v == *cur);
            assert(site_v == *site);
            let ne = self.expedition.unwrap();
            assert(ne.workspace_section@ == section_id@);
            assert(ne == (ExpeditionState {
                    workspace_section: ne.workspace_section,
                    workspace_scanned: known,
                    revealed_targets: ne.revealed_targets,
                    ..e
                }));
            assert(*self == (GameSession {
                    expedition: self.expedition,
                    site_progress: self.site_progress,
                    ..*old(self)
                }));
            let known_v = old(self).progress_spec(site_v.id@) is Some && views(
                    old(self).progress_spec(site_v.id@).unwrap().discovered_sections@,
                ).contains(section_id@);
            assert(known_v == known);
            assert(views(ne.revealed_targets@) == if known {
                    views(section_v.candidate_targets@).filter(
                        not_removed(views(old(self).progress_spec(site_v.id@).unwrap().removed_targets@)),
                    )
                } else {
                    Seq::empty()
                });
            assert(msg@ == "Camera moved to "@ + section_v.display_name@ + (if section_v.arrival_text@.len()
                        == 0 {
                        Seq::<char>::empty()
                    } else {
                        " "@ + section_v.arrival_text@
                    }) + (if known {
                        " Known scan restored; targets are readable."@
                    } else {
                        " Scan the section before working."@
                    }));
        }
        Ok(msg)
    }

    /// Locks a stabilizer on a revealed hazard for two power.
    pub fn stabilize_workspace_target(&mut self, target_id: &str, data: &GameData) -> (r: Result<
        String,
        String,
    >)
        requires
            old(self).wf(),
            old(self).log_room(1),
            data.wf(),
        ensures
            final(self).wf(),
            r is Err ==> *final(self) == *old(self),
            data.object_spec(target_id@) is None ==> err_msg(
                r,
                "unknown salvage target '"@ + target_id@ + "'"@,
            ),
            data.object_spec(target_id@) is Some ==> {
                let t = data.object_spec(target_id@).unwrap();
                let e = old(self).expedition.unwrap();
                if !old(self).target_revealed_spec(target_id@) {
                    err_msg(r, "Scan this section before stabilizing the target."@)
                } else if old(self).target_removed_spec(target_id@) {
                    err_msg(r, "The mount is empty; this target is already recovered."@)
                } else if t.hazard is None {
                    err_msg(r, "This target has no authored hazard to stabilize."@)
                } else if old(self).target_stabilized_spec(target_id@) {
                    *final(self) == *old(self) && ok_msg(
                        r,
                        "Target is already stabilized; the lock is holding."@,
                    )
                } else if !old(self).capability_spec("stabilizer"@, *data) {
                    err_msg(r, "Requires Stabilizer capability."@)
                } else if old(self).power_block_spec(2) is Some {
                    err_msg(r, old(self).power_block_spec(2).unwrap())
                } else {
                    let ne = final(self).expedition.unwrap();
                    &&& final(self).expedition is Some
                    &&& ne == (ExpeditionState {
                        workspace_energy: (e.workspace_energy - 2) as i32,
                        stabilized_targets: ne.stabilized_targets,
                        ..e
                    })
                    &&& views(ne.stabilized_targets@) == views(e.stabilized_targets@).push(
                        target_id@,
                    )
                    &&& crate::session::logged(
                        *old(self),
                        final(self).site_progress@,
                        e.site_id@,
                        WorkspaceLogEvent::TargetStabilized,
                        Some(e.workspace_section@),
                        Some(target_id@),
                    )
                    &&& *final(self) == (GameSession {
                        expedition: final(self).expedition,
                        site_progress: final(self).site_progress,
                        ..*old(self)
                    })
                    &&& ok_msg(
                        r,
                        "Stabilizer locked on "@ + crate::workspace::workspace_name_spec(t)
                            + ". Exposure -20. Power "@ + decimal(e.workspace_energy - 2) + "/"@
                            + decimal(e.workspace_energy_capacity as int) + ". Tap "@
                            + crate::workspace::TransferMode::from_target_spec(t).command_label_spec()
                            + "."@,
                    )
                }
            },
    {
        let target = self.workspace_target(target_id, data)?;
        if !self.target_is_revealed(target_id) {
            return Err("Scan this section before stabilizing the target.".to_owned());
        }
        if self.target_is_removed(target_id) {
            return Err("The mount is empty; this target is already recovered.".to_owned());
        }
        if target.hazard.is_none() {
            return Err("This target has no authored hazard to stabilize.".to_owned());
        }
        if self.target_is_stabilized(target_id) {
            return Ok("Target is already stabilized; the lock is holding.".to_owned());
        }
        if !self.has_capability("stabilizer", data) {
            return Err("Requires Stabilizer capability.".to_owned());
        }
        let name = crate::workspace::workspace_name(target).clone();
        let command = crate::workspace::TransferMode::from_target(target).command_label();
        self.spend_workspace_energy(crate::workspace::WORKSPACE_STABILIZATION_ENERGY_COST)?;
        match &mut self.expedition {
            Some(e) => {
                let ghost before = views(e.stabilized_targets@);
                e.stabilized_targets.push(target_id.to_owned());
                proof {
                    assert(views(e.stabilized_targets@) =~= before.push(target_id@));
                }
            },
            None => {
                return Err("there is no active expedition".to_owned());
            },
        }
        let ghost mid = *self;
        self.record_workspace_event(WorkspaceLogEvent::TargetStabilized, Some(target_id));
        proof {
            assert(mid.progress_spec(mid.expedition.unwrap().site_id@) == old(self).progress_spec(
                mid.expedition.unwrap().site_id@,
            ));
            assert(mid.progress_index(mid.expedition.unwrap().site_id@) == old(self).progress_index(mid.expedition.unwrap().site_id@));
        }
        let (energy, capacity) = match &self.expedition {
            Some(e) => (e.workspace_energy, e.workspace_energy_capacity),
            None => (0, 0),
        };
        let mut msg = "Stabilizer locked on ".to_owned();
        msg.append(name.as_str());
        msg.append(". Exposure -20. Power ");
        push_int(&mut msg, energy as i64);
        msg.append("/");
        push_int(&mut msg, capacity as i64);
        msg.append(". Tap ");
        msg.append(command);
        msg.append(".");
        Ok(msg)
    }

    /// A field mishap: the hull loses a point (never below one) and the
    /// first working permanent module is marked damaged, with fuel cut to
    /// the tank the ship has left.
    pub fn apply_workspace_damage(&mut self, data: &GameData) -> (r: String)
        requires
            old(self).wf(),
            old(self).damaged_modules.len() < 1_000_000,
            data.wf(),
        ensures
            final(self).wf(),
            final(self).hull == if old(self).hull - 1 < 1 {
                1
            } else {
                old(self).hull - 1
            },
            ({
                let k = first_undamaged(
                    old(self).ship_layout.placements@,
                    views(old(self).damaged_modules@),
                );
                if k >= 0 {
                    let id = old(self).ship_layout.placements@[k].id@;
                    &&& views(final(self).damaged_modules@) == views(
                        old(self).damaged_modules@,
                    ).push(id)
                    &&& final(self).economy == (crate::session::Economy {
                        fuel: if old(self).economy.fuel <= final(self).max_fuel_spec(*data) {
                            old(self).economy.fuel
                        } else {
                            final(self).max_fuel_spec(*data) as i32
                        },
                        ..old(self).economy
                    })
                    &&& r@ == " Hull -1. "@ + (if data.module_spec(id) is Some {
                        data.module_spec(id).unwrap().display_name@
                    } else {
                        id
                    }) + " is marked damaged."@
                } else {
                    &&& final(self).damaged_modules == old(self).damaged_modules
                    &&& final(self).economy == old(self).economy
                    &&& r@ == " Hull -1. Existing damage held; no new system was marked."@
                }
            }),
            final(self).economy.fuel >= 0 || final(self).economy.fuel == old(self).economy.fuel,
            final(self).economy.fuel <= old(self).economy.fuel,
            *final(self) == (GameSession {
                hull: final(self).hull,
                damaged_modules: final(self).damaged_modules,
                economy: final(self).economy,
                ..*old(self)
            }),
    {
        self.hull = if self.hull - 1 < 1 {
            1
        } else {
            self.hull - 1
        };
        let found = first_undamaged_index(&self.ship_layout.placements, &self.damaged_modules);
        match found {
            Some(k) => {
                let module_id = self.ship_layout.placements[k].id.clone();
                let ghost before = views(self.damaged_modules@);
                self.damaged_modules.push(module_id.clone());
                proof {
                    assert(views(self.damaged_modules@) =~= before.push(module_id@));
                }
                let cap = self.max_fuel(data);
                if self.economy.fuel > cap {
                    self.economy.fuel = cap;
                }
                let mut msg = " Hull -1. ".to_owned();
                match data.module(module_id.as_str()) {
                    Some(m) => msg.append(m.display_name.as_str()),
                    None => msg.append(module_id.as_str()),
                }
                msg.append(" is marked damaged.");
                msg
            },
            None => " Hull -1. Existing damage held; no new system was marked.".to_owned(),
        }
    }

    pub open spec fn block_reason_spec(&self, target: SalvageObjectData, data: GameData) -> Option<
        Seq<char>,
    > {
        if !self.target_revealed_spec(target.id@) {
            Some("Scan this section before selecting the target."@)
        } else if self.target_removed_spec(target.id@) {
            Some("The mount is empty; this target is already recovered."@)
        } else if target.required_capability is Some && !self.capability_spec(
            target.required_capability.unwrap()@,
            data,
        ) {
            Some(
                "Requires "@ + crate::capability::capability_label_spec(
                    target.required_capability.unwrap()@,
                ) + " capability."@,
            )
        } else if target.mass_tenths > self.stats_spec(data).power * 40 {
            Some(
                "Tractor capacity insufficient: "@ + decimal(self.stats_spec(data).power * 4)
                    + " / "@ + decimal(whole_tons(target.mass_tenths as int)) + "t."@,
            )
        } else {
            self.power_block_spec(target.energy_cost as int)
        }
    }

    /// Why the target cannot be pulled now, if it cannot: no scan, already
    /// gone, a missing capability, too heavy for the tractor, or too little
    /// power.
    pub fn extraction_block_reason(&self, target_id: &str, data: &GameData) -> (r: Result<
        Option<String>,
        String,
    >)
        requires
            self.wf(),
            data.wf(),
        ensures
            data.object_spec(target_id@) is None ==> r is Err && r->Err_0@
                == "unknown salvage target '"@ + target_id@ + "'"@,
            data.object_spec(target_id@) is Some ==> r is Ok && match r->Ok_0 {
                Some(s) => self.block_reason_spec(data.object_spec(target_id@).unwrap(), *data)
                    == Some(s@),
                None => self.block_reason_spec(data.object_spec(target_id@).unwrap(), *data) is None,
            },
    {
        let target = self.workspace_target(target_id, data)?;
        if !self.target_is_revealed(target_id) {
            return Ok(Some("Scan this section before selecting the target.".to_owned()));
        }
        if self.target_is_removed(target_id) {
            return Ok(Some("The mount is empty; this target is already recovered.".to_owned()));
        }
        match &target.required_capability {
            Some(c) => if !self.has_capability(c.as_str(), data) {
                let mut e = "Requires ".to_owned();
                let label = crate::capability::capability_label(c.as_str());
                e.append(label.as_str());
                e.append(" capability.");
                return Ok(Some(e));
            },
            None => {},
        }
        let power = self.module_stats(data).power;
        if target.mass_tenths as i64 > (power as i64) * 40 {
            let q = target.mass_tenths / 10;
            let rem = target.mass_tenths % 10;
            let tons = if rem > 5 || (rem == 5 && q % 2 == 1) {
                q + 1
            } else {
                q
            };
            let mut e = "Tractor capacity insufficient: ".to_owned();
            push_int(&mut e, (power as i64) * 4);
            e.append(" / ");
            push_int(&mut e, tons as i64);
            e.append("t.");
            return Ok(Some(e));
        }
        Ok(self.workspace_energy_block_reason(target.energy_cost))
    }

    /// Reserves the power to pull a target, once nothing blocks the pull.
    pub fn reserve_workspace_energy(&mut self, target_id: &str, data: &GameData) -> (r: Result<
        String,
        String,
    >)
        requires
            old(self).wf(),
            old(self).log_room(1),
            data.wf(),
        ensures
            final(self).wf(),
            r is Err ==> *final(self) == *old(self),
            data.object_spec(target_id@) is None ==> err_msg(
                r,
                "unknown salvage target '"@ + target_id@ + "'"@,
            ),
            data.object_spec(target_id@) is Some ==> {
                let t = data.object_spec(target_id@).unwrap();
                let e = old(self).expedition.unwrap();
                match old(self).block_reason_spec(t, *data) {
                    Some(reason) => err_msg(r, reason),
                    None => {
                        let spent = if t.energy_cost > 0 {
                            t.energy_cost as int
                        } else {
                            0
                        };
                        &&& final(self).expedition == Some(
                            ExpeditionState {
                                workspace_energy: (e.workspace_energy - spent) as i32,
                                ..e
                            },
                        )
                        &&& crate::session::logged(
                            *old(self),
                            final(self).site_progress@,
                            e.site_id@,
                            WorkspaceLogEvent::ExtractionStarted,
                            Some(e.workspace_section@),
                            Some(target_id@),
                        )
                        &&& *final(self) == (GameSession {
                            expedition: final(self).expedition,
                            site_progress: final(self).site_progress,
                            ..*old(self)
                        })
                        &&& ok_msg(
                            r,
                            "Power reserve -"@ + decimal(t.energy_cost as int) + "; "@ + decimal(
                                e.workspace_energy - spent,
                            ) + " remaining."@,
                        )
                    },
                }
            },
    {
        let target = self.workspace_target(target_id, data)?;
        match self.extraction_block_reason(target_id, data)? {
            Some(reason) => {
                return Err(reason);
            },
            None => {},
        }
        self.spend_workspace_energy(target.energy_cost)?;
        let ghost mid = *self;
        self.record_workspace_event(WorkspaceLogEvent::ExtractionStarted, Some(target_id));
        proof {
            assert(mid.progress_spec(mid.expedition.unwrap().site_id@) == old(self).progress_spec(
                mid.expedition.unwrap().site_id@,
            ));
            assert(mid.progress_index(mid.expedition.unwrap().site_id@) == old(self).progress_index(mid.expedition.unwrap().site_id@));
        }
        let remaining = match &self.expedition {
            Some(e) => e.workspace_energy,
            None => 0,
        };
        let mut msg = "Power reserve -".to_owned();
        push_int(&mut msg, target.energy_cost as i64);
        msg.append("; ");
        push_int(&mut msg, remaining as i64);
        msg.append(" remaining.");
        Ok(msg)
    }
}

/// Index of the first permanent placement not marked damaged.
fn first_undamaged_index(placements: &Vec<crate::layout::PlacedItem>, damaged: &Vec<String>) -> (r:
    Option<usize>)
    ensures
        match r {
            Some(k) => k < placements.len() && first_undamaged(placements@, views(damaged@)) == k,
            None => first_undamaged(placements@, views(damaged@)) == -1,
        },
{
    let mut i: usize = 0;
    while i < placements.len()
        invariant
            i <= placements.len(),
            first_undamaged(placements@.take(i as int), views(damaged@)) == -1,
        decreases placements.len() - i,
    {
        proof {
            assert(placements@.take(i + 1).drop_last() =~= placements@.take(i as int));
            assert(placements@.take(i + 1).last() == placements@[i as int]);
        }
        if placements[i].permanent && !has_id(damaged, placements[i].id.as_str()) {
            proof {
                lemma_first_undamaged_prefix(placements@, views(damaged@), i + 1);
            }
            return Some(i);
        }
        i = i + 1;
    }
    proof {
        assert(placements@.take(placements.len() as int) =~= placements@);
    }
    None
}

/// A first undamaged placement inside a prefix is the first of the whole.
proof fn lemma_first_undamaged_prefix(
    placements: Seq<crate::layout::PlacedItem>,
    damaged: Seq<Seq<char>>,
    n: int,
)
    requires
        0 <= n <= placements.len(),
        first_undamaged(placements.take(n), damaged) >= 0,
    ensures
        first_undamaged(placements, damaged) == first_undamaged(placements.take(n), damaged),
    decreases placements.len() - n,
{
    if n < placements.len() {
        assert(placements.take(n + 1).drop_last() =~= placements.take(n));
        lemma_first_undamaged_prefix(placements, damaged, n + 1);
    } else {
        assert(placements.take(n) =~= placements);
    }
}

/// The tractor pulls four tons per unit of online module power. A target
/// that is revealed, still on its mount and within the ship's capabilities
/// is refused for its weight exactly when its mass is above that capacity
/// (its mass in tenths of a ton above forty per unit of power): the refusal
/// names the capacity and the mass in whole tons. A target within capacity
/// is held back only by the power reserve.
pub proof fn law_tractor_refuses_exactly_the_overweight(
    s: GameSession,
    target: SalvageObjectData,
    data: GameData,
)
    requires
        s.target_revealed_spec(target.id@),
        !s.target_removed_spec(target.id@),
        target.required_capability is None || s.capability_spec(target.required_capability.unwrap()@, data),
    ensures
        ({
            let capacity_tons = 4 * s.stats_spec(data).power;
            &&& target.mass_tenths > 10 * capacity_tons ==> s.block_reason_spec(target, data) == Some(
                "Tractor capacity insufficient: "@ + decimal(capacity_tons) + " / "@ + decimal(
                    whole_tons(target.mass_tenths as int),
                ) + "t."@,
            )
            &&& target.mass_tenths <= 10 * capacity_tons ==> s.block_reason_spec(target, data)
                == s.power_block_spec(target.energy_cost as int)
        }),
{
}

} // verus!
