//! Target intelligence that workspace scans file with a wreck's progress.

use crate::data::{keyed, GameData};
use crate::session::{GameSession, SiteProgress};
use crate::text::views;
use crate::workspace_records::{opt_view, TargetSurveyNote};
use vstd::prelude::*;

verus! {

/// What a survey note says: target, section, scan count, hazard, transfer
/// mode, integrity, extraction difficulty and mass in tenths of a ton.
pub open spec fn note_view(n: TargetSurveyNote) -> (
    Seq<char>,
    Seq<char>,
    u32,
    Option<Seq<char>>,
    Seq<char>,
    i32,
    i32,
    i32,
) {
    (
        n.target_id@,
        n.section_id@,
        n.scan_count,
        opt_view(n.hazard),
        n.transfer_mode@,
        n.integrity,
        n.extraction_difficulty,
        n.mass_tenths,
    )
}

pub open spec fn note_views(notes: Seq<TargetSurveyNote>) -> Seq<
    (Seq<char>, Seq<char>, u32, Option<Seq<char>>, Seq<char>, i32, i32, i32),
> {
    notes.map_values(|n: TargetSurveyNote| note_view(n))
}

/// Index of the first note on `target` in `section`, or -1.
pub open spec fn first_note(
    notes: Seq<(Seq<char>, Seq<char>, u32, Option<Seq<char>>, Seq<char>, i32, i32, i32)>,
    target: Seq<char>,
    section: Seq<char>,
) -> int
    decreases notes.len(),
{
    if notes.len() == 0 {
        -1
    } else {
        let k = first_note(notes.drop_last(), target, section);
        if k >= 0 {
            k
        } else if notes.last().0 == target && notes.last().1 == section {
            notes.len() - 1
        } else {
            -1
        }
    }
}

/// The notes after one scanned target: its note counts one more scan, or a
/// first note is filed from the authored target; unknown targets are skipped.
pub open spec fn survey_step(
    notes: Seq<(Seq<char>, Seq<char>, u32, Option<Seq<char>>, Seq<char>, i32, i32, i32)>,
    target: Seq<char>,
    section: Seq<char>,
    data: GameData,
) -> Seq<(Seq<char>, Seq<char>, u32, Option<Seq<char>>, Seq<char>, i32, i32, i32)> {
    match data.object_spec(target) {
        None => notes,
        Some(obj) => {
            let k = first_note(notes, target, section);
            if k >= 0 {
                let n = notes[k];
                notes.update(
                    k,
                    (n.0, n.1, if n.2 == u32::MAX {
                        u32::MAX
                    } else {
                        (n.2 + 1) as u32
                    }, n.3, n.4, n.5, n.6, n.7),
                )
            } else {
                notes.push(
                    (
                        target,
                        section,
                        1u32,
                        opt_view(obj.hazard),
                        obj.transfer_mode@,
                        obj.integrity,
                        obj.extraction_difficulty,
                        obj.mass_tenths,
                    ),
                )
            }
        },
    }
}

/// The notes after a scan of `section` that read `targets` in order.
pub open spec fn survey_after(
    notes: Seq<(Seq<char>, Seq<char>, u32, Option<Seq<char>>, Seq<char>, i32, i32, i32)>,
    targets: Seq<Seq<char>>,
    section: Seq<char>,
    data: GameData,
) -> Seq<(Seq<char>, Seq<char>, u32, Option<Seq<char>>, Seq<char>, i32, i32, i32)>
    decreases targets.len(),
{
    if targets.len() == 0 {
        notes
    } else {
        survey_step(survey_after(notes, targets.drop_last(), section, data), targets.last(), section, data)
    }
}

/// `new` is `old` with the survey notes of entry `i` replaced by `notes`.
pub open spec fn only_notes_changed(
    old: Seq<SiteProgress>,
    new: Seq<SiteProgress>,
    i: int,
) -> bool {
    &&& new.len() == old.len()
    &&& forall|j: int| 0 <= j < old.len() && j != i ==> new[j] == old[j]
    &&& new[i] == (SiteProgress { surveyed_targets: new[i].surveyed_targets, ..old[i] })
}

/// Index of the first note on `target` in `section`.
fn find_note(notes: &Vec<TargetSurveyNote>, target: &str, section: &str) -> (r: Option<usize>)
    ensures
        match r {
            Some(k) => k < notes.len() && first_note(note_views(notes@), target@, section@) == k,
            None => first_note(note_views(notes@), target@, section@) == -1,
        },
{
    let t = target.to_owned();
    let s = section.to_owned();
    let mut i: usize = 0;
    while i < notes.len()
        invariant
            i <= notes.len(),
            t@ == target@,
            s@ == section@,
            first_note(note_views(notes@).take(i as int), target@, section@) == -1,
        decreases notes.len() - i,
    {
        proof {
            assert(note_views(notes@).take(i + 1).drop_last() =~= note_views(notes@).take(i as int));
        }
        if notes[i].target_id == t && notes[i].section_id == s {
            proof {
                lemma_first_note_prefix(note_views(notes@), i as int + 1, target@, section@);
            }
            return Some(i);
        }
        i = i + 1;
    }
    proof {
        assert(note_views(notes@).take(notes.len() as int) =~= note_views(notes@));
    }
    None
}

/// A first match inside a prefix is the first match of the whole.
proof fn lemma_first_note_prefix(
    notes: Seq<(Seq<char>, Seq<char>, u32, Option<Seq<char>>, Seq<char>, i32, i32, i32)>,
    n: int,
    target: Seq<char>,
    section: Seq<char>,
)
    requires
        0 <= n <= notes.len(),
        first_note(notes.take(n), target, section) >= 0,
    ensures
        first_note(notes, target, section) == first_note(notes.take(n), target, section),
    decreases notes.len() - n,
{
    if n < notes.len() {
        assert(notes.take(n + 1).drop_last() =~= notes.take(n));
        lemma_first_note_prefix(notes, n + 1, target, section);
    } else {
        assert(notes.take(n) =~= notes);
    }
}

impl GameSession {
    /// The note filed on `target` in the section the run is working, as
    /// that section is named: none without a run, an authored site and
    /// section of that name, or progress on the wreck.
    pub open spec fn survey_note_spec(&self, target: Seq<char>, data: GameData) -> Option<TargetSurveyNote> {
        match self.expedition {
            None => None,
            Some(e) => match data.site_spec(e.site_id@) {
                None => None,
                Some(site) => match keyed(site.sections@, e.workspace_section@) {
                    None => None,
                    Some(section) => match self.progress_spec(e.site_id@) {
                        None => None,
                        Some(p) => {
                            let k = first_note(note_views(p.surveyed_targets@), target, section.id@);
                            if k >= 0 {
                                Some(p.surveyed_targets@[k])
                            } else {
                                None
                            }
                        },
                    },
                },
            },
        }
    }

    /// The survey note on a target in the section the run is working.
    pub fn workspace_survey_note<'a>(&'a self, target_id: &str, data: &GameData) -> (r: Option<
        &'a TargetSurveyNote,
    >)
        ensures
            match r {
                Some(n) => self.survey_note_spec(target_id@, *data) == Some(*n),
                None => self.survey_note_spec(target_id@, *data) is None,
            },
    {
        let e = match &self.expedition {
            Some(e) => e,
            None => {
                return None;
            },
        };
        let site = match data.site(e.site_id.as_str()) {
            Some(site) => site,
            None => {
                return None;
            },
        };
        let section = match site.section(e.workspace_section.as_str()) {
            Some(section) => section,
            None => {
                return None;
            },
        };
        let p = match self.progress(e.site_id.as_str()) {
            Some(p) => p,
            None => {
                return None;
            },
        };
        match find_note(&p.surveyed_targets, target_id, section.id.as_str()) {
            Some(k) => Some(&p.surveyed_targets[k]),
            None => None,
        }
    }
}

impl GameSession {
    /// Survey notes filed for a wreck.
    pub fn site_survey_count(&self, site_id: &str) -> (r: usize)
        ensures
            r == match self.progress_spec(site_id@) {
                Some(p) => p.surveyed_targets.len(),
                None => 0,
            },
    {
        match self.progress(site_id) {
            Some(p) => p.surveyed_targets.len(),
            None => 0,
        }
    }

    /// Survey notes filed for one section of a wreck.
    pub fn section_survey_count(&self, site_id: &str, section_id: &str) -> (r: usize)
        ensures
            r == match self.progress_spec(site_id@) {
                Some(p) => p.surveyed_targets@.filter(
                    |n: TargetSurveyNote| n.section_id@ == section_id@,
                ).len(),
                None => 0,
            },
    {
        match self.progress(site_id) {
            Some(p) => {
                let key = section_id.to_owned();
                let ghost pred = |n: TargetSurveyNote| n.section_id@ == section_id@;
                let mut n: usize = 0;
                let mut i: usize = 0;
                while i < p.surveyed_targets.len()
                    invariant
                        i <= p.surveyed_targets.len(),
                        key@ == section_id@,
                        pred == (|n: TargetSurveyNote| n.section_id@ == section_id@),
                        n == p.surveyed_targets@.take(i as int).filter(pred).len(),
                        n <= i,
                    decreases p.surveyed_targets.len() - i,
                {
                    proof {
                        reveal_with_fuel(Seq::<_>::filter, 1);
                        assert(p.surveyed_targets@.take(i + 1).drop_last()
                            =~= p.surveyed_targets@.take(i as int));
                    }
                    if p.surveyed_targets[i].section_id == key {
                        n = n + 1;
                    }
                    i = i + 1;
                }
                proof {
                    assert(p.surveyed_targets@.take(p.surveyed_targets.len() as int)
                        =~= p.surveyed_targets@);
                }
                n
            },
            None => 0,
        }
    }

    /// Files what a scan of `section_id` read about each target.
    pub fn record_survey_notes(
        &mut self,
        site_id: &str,
        section_id: &str,
        target_ids: &Vec<String>,
        data: &GameData,
    )
        requires
            data.wf(),
        ensures
            old(self).progress_spec(site_id@) is None ==> *final(self) == *old(self),
            old(self).progress_spec(site_id@) is Some ==> {
                let i = old(self).progress_index(site_id@);
                &&& only_notes_changed(old(self).site_progress@, final(self).site_progress@, i)
                &&& note_views(final(self).site_progress@[i].surveyed_targets@) == survey_after(
                    note_views(old(self).site_progress@[i].surveyed_targets@),
                    views(target_ids@),
                    section_id@,
                    *data,
                )
            },
            *final(self) == (GameSession { site_progress: final(self).site_progress, ..*old(self) }),
    {
        let i = match self.progress_slot(site_id) {
            Some(i) => i,
            None => {
                return;
            },
        };
        let mut j: usize = 0;
        while j < target_ids.len()
            invariant
                j <= target_ids.len(),
                i < self.site_progress.len(),
                i == old(self).progress_index(site_id@),
                data.wf(),
                only_notes_changed(old(self).site_progress@, self.site_progress@, i as int),
                note_views(self.site_progress@[i as int].surveyed_targets@) == survey_after(
                    note_views(old(self).site_progress@[i as int].surveyed_targets@),
                    views(target_ids@).take(j as int),
                    section_id@,
                    *data,
                ),
                *self == (GameSession { site_progress: self.site_progress, ..*old(self) }),
            decreases target_ids.len() - j,
        {
            let ghost before = note_views(self.site_progress@[i as int].surveyed_targets@);
            proof {
                assert(views(target_ids@).take(j + 1).drop_last() =~= views(target_ids@).take(
                    j as int,
                ));
                assert(views(target_ids@).take(j + 1).last() == target_ids@[j as int]@);
            }
            match data.object(target_ids[j].as_str()) {
                None => {},
                Some(target) => {
                    match find_note(
                        &self.site_progress[i].surveyed_targets,
                        target_ids[j].as_str(),
                        section_id,
                    ) {
                        Some(k) => {
                            let count = self.site_progress[i].surveyed_targets[k].scan_count;
                            let bumped = if count == u32::MAX {
                                u32::MAX
                            } else {
                                count + 1
                            };
                            self.site_progress[i].surveyed_targets[k].scan_count = bumped;
                            proof {
                                assert(note_views(self.site_progress@[i as int].surveyed_targets@)
                                    =~= before.update(
                                    k as int,
                                    (
                                        before[k as int].0,
                                        before[k as int].1,
                                        bumped,
                                        before[k as int].3,
                                        before[k as int].4,
                                        before[k as int].5,
                                        before[k as int].6,
                                        before[k as int].7,
                                    ),
                                ));
                            }
                        },
                        None => {
                            let note = TargetSurveyNote::from_target(
                                target_ids[j].as_str(),
                                section_id,
                                target,
                            );
                            self.site_progress[i].surveyed_targets.push(note);
                            proof {
                                assert(note_views(self.site_progress@[i as int].surveyed_targets@)
                                    =~= before.push(note_view(note)));
                            }
                        },
                    }
                },
            }
            j = j + 1;
        }
        proof {
            assert(views(target_ids@).take(target_ids.len() as int) =~= views(target_ids@));
        }
    }
}

} // verus!
