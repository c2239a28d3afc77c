//! How much of a wreck has been recovered and explored, and what the scans
//! of its sections have noted about their targets.

use crate::data::{GameData, SiteData, WreckSectionData};
use crate::session::GameSession;
use crate::text::{has_id, insert_id, views};
use vstd::prelude::*;

verus! {

/// Heading of the wreck selection screen.
pub const TITLE: &'static str = "SELECT A WRECK";


/// Every target identifier that the given sections name.
pub open spec fn section_targets(sections: Seq<WreckSectionData>) -> Set<Seq<char>>
    decreases sections.len(),
{
    if sections.len() == 0 {
        Set::empty()
    } else {
        section_targets(sections.drop_last()).union(
            views(sections.last().candidate_targets@).to_set(),
        )
    }
}

/// The recovered targets of a site: its removed targets that one of its
/// sections names, counted as often as they were filed.
pub open spec fn recovered_of(removed: Seq<Seq<char>>, targets: Set<Seq<char>>) -> int {
    removed.filter(|t: Seq<char>| targets.contains(t)).len() as int
}

/// Recovery figures of a wreck for the site-selection screen.
#[derive(Clone, Copy, Debug, PartialEq, Eq, Structural)]
pub struct SiteRecoveryStatus {
    pub explored_sections: usize,
    pub total_sections: usize,
    pub exploration_percent: u32,
    pub recovered_targets: usize,
    pub total_targets: usize,
    pub remaining_targets: usize,
}

proof fn lemma_push_unique(s: Seq<Seq<char>>, t: Seq<char>)
    requires
        s.no_duplicates(),
        !s.contains(t),
    ensures
        s.push(t).no_duplicates(),
{
    assert forall|i: int, j: int| 0 <= i < s.push(t).len() && 0 <= j < s.push(t).len() && i != j
        implies s.push(t)[i] != s.push(t)[j] by {
        if i == s.len() {
            assert(s[j] == s.push(t)[j]);
        } else if j == s.len() {
            assert(s[i] == s.push(t)[i]);
        }
    }
}

/// The distinct target identifiers of a wreck, in the order its sections
/// first name them.
pub fn site_target_ids(site: &SiteData) -> (r: Vec<String>)
    requires
        site.wf(),
    ensures
        views(r@).no_duplicates(),
        views(r@).to_set() == section_targets(site.sections@),
        r.len() <= 1_000_000,
{
    let mut ids: Vec<String> = Vec::new();
    let mut i: usize = 0;
    while i < site.sections.len()
        invariant
            i <= site.sections.len(),
            site.wf(),
            views(ids@).no_duplicates(),
            views(ids@).to_set() == section_targets(site.sections@.take(i as int)),
            ids.len() <= i * 1000,
        decreases site.sections.len() - i,
    {
        let targets = &site.sections[i].candidate_targets;
        assert(site.sections@[i as int].wf());
        let mut j: usize = 0;
        while j < targets.len()
            invariant
                j <= targets.len(),
                targets.len() <= 1000,
                views(ids@).no_duplicates(),
                views(ids@).to_set() == section_targets(site.sections@.take(i as int)).union(
                    views(targets@.take(j as int)).to_set(),
                ),
                ids.len() <= i * 1000 + j,
            decreases targets.len() - j,
        {
            let ghost before = views(ids@);
            insert_id(&mut ids, targets[j].as_str());
            proof {
                let t = targets@[j as int]@;
                assert(views(targets@.take(j + 1)) =~= views(targets@.take(j as int)).push(t));
                views(targets@.take(j as int)).lemma_push_to_set_commute(t);
                if !before.contains(t) {
                    lemma_push_unique(before, t);
                    before.lemma_push_to_set_commute(t);
                } else {
                    assert(before.to_set().insert(t) =~= before.to_set());
                }
                assert(views(ids@).to_set() =~= section_targets(site.sections@.take(i as int)).union(
                    views(targets@.take(j + 1)).to_set(),
                ));
            }
            j = j + 1;
        }
        proof {
            assert(targets@.take(targets.len() as int) =~= targets@);
            assert(site.sections@.take(i + 1).drop_last() =~= site.sections@.take(i as int));
            assert(nonlinear_step(i as int, ids.len() as int));
        }
        i = i + 1;
    }
    proof {
        assert(site.sections@.take(site.sections.len() as int) =~= site.sections@);
    }
    ids
}

spec fn nonlinear_step(i: int, n: int) -> bool {
    n <= i * 1000 + 1000 ==> n <= (i + 1) * 1000
}

/// How many of `removed` name one of `ids`.
fn count_named(removed: &Vec<String>, ids: &Vec<String>) -> (r: usize)
    ensures
        r == recovered_of(views(removed@), views(ids@).to_set()),
        r <= removed.len(),
{
    let ghost pred = |t: Seq<char>| views(ids@).to_set().contains(t);
    let mut n: usize = 0;
    let mut i: usize = 0;
    while i < removed.len()
        invariant
            i <= removed.len(),
            pred == (|t: Seq<char>| views(ids@).to_set().contains(t)),
            n == views(removed@).take(i as int).filter(pred).len(),
            n <= i,
        decreases removed.len() - i,
    {
        proof {
            reveal_with_fuel(Seq::<_>::filter, 1);
            assert(views(removed@).take(i + 1).drop_last() =~= views(removed@).take(i as int));
            assert(views(removed@).take(i + 1).last() == removed@[i as int]@);
        }
        if has_id(ids, removed[i].as_str()) {
            n = n + 1;
        }
        i = i + 1;
    }
    proof {
        assert(views(removed@).take(removed.len() as int) =~= views(removed@));
    }
    n
}

impl GameSession {
    pub open spec fn recovery_summary_spec(&self, site_id: Seq<char>, data: GameData) -> (int, int) {
        match data.site_spec(site_id) {
            None => (0, 0),
            Some(site) => {
                let targets = section_targets(site.sections@);
                (
                    match self.progress_spec(site_id) {
                        None => 0,
                        Some(p) => recovered_of(views(p.removed_targets@), targets),
                    },
                    targets.len() as int,
                )
            },
        }
    }

    /// Recovered targets of a wreck and the distinct targets its sections
    /// hold; both zero for an unknown wreck.
    pub fn site_recovery_summary(&self, site_id: &str, data: &GameData) -> (r: (usize, usize))
        requires
            data.wf(),
        ensures
            r.0 == self.recovery_summary_spec(site_id@, *data).0,
            r.1 == self.recovery_summary_spec(site_id@, *data).1,
            r.1 <= 1_000_000,
    {
        let site = match data.site(site_id) {
            Some(s) => s,
            None => {
                return (0, 0);
            },
        };
        let ids = site_target_ids(site);
        proof {
            views(ids@).unique_seq_to_set();
        }
        let recovered = match self.progress(site_id) {
            Some(p) => count_named(&p.removed_targets, &ids),
            None => 0,
        };
        (recovered, ids.len())
    }

    pub open spec fn explored_spec(&self, site: SiteData) -> int {
        match self.progress_spec(site.id@) {
            None => 0,
            Some(p) => site.sections@.filter(
                |s: WreckSectionData| views(p.discovered_sections@).contains(s.id@),
            ).len() as int,
        }
    }

    pub open spec fn recovery_status_spec(&self, site_id: Seq<char>, data: GameData) -> SiteRecoveryStatus {
        let (recovered, total) = self.recovery_summary_spec(site_id, data);
        let (explored, sections) = match data.site_spec(site_id) {
            None => (0, 0),
            Some(site) => (self.explored_spec(site), site.sections.len() as int),
        };
        SiteRecoveryStatus {
            explored_sections: explored as usize,
            total_sections: sections as usize,
            exploration_percent: if sections == 0 {
                0
            } else {
                (explored * 100 / sections) as u32
            },
            recovered_targets: recovered as usize,
            total_targets: total as usize,
            remaining_targets: if recovered >= total {
                0
            } else {
                (total - recovered) as usize
            },
        }
    }

    /// Recovery and exploration figures of a wreck.
    pub fn site_recovery_status(&self, site_id: &str, data: &GameData) -> (r: SiteRecoveryStatus)
        requires
            data.wf(),
        ensures
            r == self.recovery_status_spec(site_id@, *data),
    {
        let (recovered, total) = self.site_recovery_summary(site_id, data);
        let site = match data.site(site_id) {
            Some(s) => s,
            None => {
                return SiteRecoveryStatus {
                    explored_sections: 0,
                    total_sections: 0,
                    exploration_percent: 0,
                    recovered_targets: recovered,
                    total_targets: total,
                    remaining_targets: if recovered >= total {
                        0
                    } else {
                        total - recovered
                    },
                };
            },
        };
        let mut explored: usize = 0;
        match self.progress(site_id) {
            Some(p) => {
                let ghost pred = |s: WreckSectionData| views(p.discovered_sections@).contains(s.id@);
                let mut i: usize = 0;
                while i < site.sections.len()
                    invariant
                        i <= site.sections.len(),
                        pred == (|s: WreckSectionData| views(p.discovered_sections@).contains(s.id@)),
                        explored == site.sections@.take(i as int).filter(pred).len(),
                        explored <= i,
                    decreases site.sections.len() - i,
                {
                    proof {
                        reveal_with_fuel(Seq::<_>::filter, 1);
                        assert(site.sections@.take(i + 1).drop_last() =~= site.sections@.take(i as int));
                    }
                    if has_id(&p.discovered_sections, site.sections[i].id.as_str()) {
                        explored = explored + 1;
                    }
                    i = i + 1;
                }
                proof {
                    assert(site.sections@.take(site.sections.len() as int) =~= site.sections@);
                }
            },
            None => {},
        }
        let sections = site.sections.len();
        let percent: u32 = if sections == 0 {
            0
        } else {
            assert(explored * 100 <= 100_000) by (nonlinear_arith)
                requires
                    explored <= sections,
                    sections <= 1000,
            ;
            assert(explored * 100 / (sections as int) <= 100_000) by (nonlinear_arith)
                requires
                    explored * 100 <= 100_000,
                    sections >= 1,
            ;
            ((explored * 100) / sections) as u32
        };
        SiteRecoveryStatus {
            explored_sections: explored,
            total_sections: sections,
            exploration_percent: percent,
            recovered_targets: recovered,
            total_targets: total,
            remaining_targets: if recovered >= total {
                0
            } else {
                total - recovered
            },
        }
    }

    pub open spec fn depleted_spec(&self, site_id: Seq<char>, data: GameData) -> bool {
        data.site_spec(site_id) is Some && self.recovery_status_spec(site_id, data).remaining_targets
            == 0
    }

    /// A known wreck with nothing left to recover.
    pub fn wreck_depleted(&self, site_id: &str, data: &GameData) -> (r: bool)
        requires
            data.wf(),
        ensures
            r == self.depleted_spec(site_id@, *data),
    {
        data.site(site_id).is_some() && self.site_recovery_status(site_id, data).remaining_targets
            == 0
    }
}

} // verus!
