//! One-time port bounties for wreck sections whose every target was pulled.

use crate::data::{keyed, GameData, SiteData, WreckSectionData};
use crate::session::{Economy, GameSession, SiteProgress, WALLET};
use crate::text::{decimal, has_id, joined, push_int, views};
use crate::workspace_records::{entry_is, opt_view, WorkspaceLogEntry, WorkspaceLogEvent};
use vstd::prelude::*;

verus! {

/// Clearance figures of one section.
#[derive(Clone, Debug)]
pub struct SectionClearanceStatus {
    pub section_id: String,
    pub recovered_targets: usize,
    pub total_targets: usize,
    pub reward: i64,
    pub cleared: bool,
    pub ready: bool,
}

/// Sections whose clearance was filed at once, and the bounty paid.
#[derive(Clone, Debug)]
pub struct SectionClearanceReport {
    pub section_ids: Vec<String>,
    pub payout: i64,
}

/// Whether the log files the target as recovered from the section.
pub open spec fn recovered_from(log: Seq<WorkspaceLogEntry>, section: Seq<char>, target: Seq<char>) -> bool {
    exists|k: int|
        0 <= k < log.len() && (#[trigger] log[k]).event == WorkspaceLogEvent::TargetRecovered
            && log[k].section_id@ == section && opt_view(log[k].target_id) == Some(target)
}

pub open spec fn recovered_pred(log: Seq<WorkspaceLogEntry>, section: Seq<char>) -> spec_fn(Seq<char>) -> bool {
    |t: Seq<char>| recovered_from(log, section, t)
}

/// Whether every target of a section is filed as recovered from it.
pub open spec fn section_ready(p: SiteProgress, section: WreckSectionData) -> bool {
    &&& !views(p.cleared_sections@).contains(section.id@)
    &&& section.candidate_targets.len() > 0
    &&& forall|k: int|
        0 <= k < section.candidate_targets.len() ==> recovered_from(
            p.operation_log@,
            section.id@,
            #[trigger] section.candidate_targets@[k]@,
        )
}

/// The sections of a wreck ready for a bounty, in authored order.
pub open spec fn ready_sections(p: SiteProgress, sections: Seq<WreckSectionData>) -> Seq<WreckSectionData> {
    sections.filter(|s: WreckSectionData| section_ready(p, s))
}

/// Rewards of the given sections, summed.
pub open spec fn reward_sum(sections: Seq<WreckSectionData>) -> int
    decreases sections.len(),
{
    if sections.len() == 0 {
        0
    } else {
        reward_sum(sections.drop_last()) + sections.last().clearance_reward
    }
}

/// The section bounties a return pays: the rewards of every section of the
/// wreck that is ready for its bounty.
pub open spec fn clearance_pay_spec(s: GameSession, site_id: Seq<char>, data: GameData) -> int {
    if data.site_spec(site_id) is Some && s.progress_spec(site_id) is Some {
        reward_sum(
            ready_sections(
                s.progress_spec(site_id).unwrap(),
                data.site_spec(site_id).unwrap().sections@,
            ),
        )
    } else {
        0
    }
}

proof fn lemma_reward_sum_bound(sections: Seq<WreckSectionData>)
    requires
        forall|i: int| 0 <= i < sections.len() ==> (#[trigger] sections[i]).wf(),
    ensures
        0 <= reward_sum(sections) <= crate::data::AUTHORED_LIMIT * sections.len(),
    decreases sections.len(),
{
    if sections.len() > 0 {
        assert(sections.last().wf());
        lemma_reward_sum_bound(sections.drop_last());
    }
}

/// Display name of the first authored section with the identifier.
pub open spec fn section_name(sites: Seq<SiteData>, id: Seq<char>) -> Option<Seq<char>>
    decreases sites.len(),
{
    if sites.len() == 0 {
        None
    } else {
        match section_name(sites.drop_last(), id) {
            Some(n) => Some(n),
            None => match keyed(sites.last().sections@, id) {
                Some(s) => Some(s.display_name@),
                None => None,
            },
        }
    }
}

/// Names of the known sections among `ids`, in order.
pub open spec fn section_names(sites: Seq<SiteData>, ids: Seq<Seq<char>>) -> Seq<Seq<char>>
    decreases ids.len(),
{
    if ids.len() == 0 {
        Seq::empty()
    } else {
        let rest = section_names(sites, ids.drop_last());
        match section_name(sites, ids.last()) {
            Some(n) => rest.push(n),
            None => rest,
        }
    }
}

fn recovered_exec(log: &Vec<WorkspaceLogEntry>, section: &str, target: &str) -> (r: bool)
    ensures
        r == recovered_from(log@, section@, target@),
{
    let mut i: usize = 0;
    while i < log.len()
        invariant
            i <= log.len(),
            forall|k: int|
                0 <= k < i ==> !((#[trigger] log@[k]).event == WorkspaceLogEvent::TargetRecovered
                    && log@[k].section_id@ == section@ && opt_view(log@[k].target_id) == Some(
                    target@,
                )),
        decreases log.len() - i,
    {
        let e = &log[i];
        let matches_target = match &e.target_id {
            Some(t) => crate::text::same_text(t.as_str(), target),
            None => false,
        };
        if e.event == WorkspaceLogEvent::TargetRecovered && crate::text::same_text(
            e.section_id.as_str(),
            section,
        ) && matches_target {
            return true;
        }
        i = i + 1;
    }
    false
}

fn count_recovered_from(p: &SiteProgress, section: &WreckSectionData) -> (r: usize)
    ensures
        r == views(section.candidate_targets@).filter(
            recovered_pred(p.operation_log@, section.id@),
        ).len(),
        r <= section.candidate_targets.len(),
        r == section.candidate_targets.len() <==> forall|k: int|
            0 <= k < section.candidate_targets.len() ==> recovered_from(
                p.operation_log@,
                section.id@,
                #[trigger] section.candidate_targets@[k]@,
            ),
{
    let ghost pred = recovered_pred(p.operation_log@, section.id@);
    let mut n: usize = 0;
    let mut i: usize = 0;
    while i < section.candidate_targets.len()
        invariant
            i <= section.candidate_targets.len(),
            pred == recovered_pred(p.operation_log@, section.id@),
            n == views(section.candidate_targets@).take(i as int).filter(pred).len(),
            n <= i,
            n == i <==> forall|k: int|
                0 <= k < i ==> recovered_from(
                    p.operation_log@,
                    section.id@,
                    #[trigger] section.candidate_targets@[k]@,
                ),
        decreases section.candidate_targets.len() - i,
    {
        proof {
            reveal_with_fuel(Seq::<_>::filter, 1);
            assert(views(section.candidate_targets@).take(i + 1).drop_last() =~= views(
                section.candidate_targets@,
            ).take(i as int));
            assert(views(section.candidate_targets@).take(i + 1).last()
                == section.candidate_targets@[i as int]@);
        }
        if recovered_exec(
            &p.operation_log,
            section.id.as_str(),
            section.candidate_targets[i].as_str(),
        ) {
            n = n + 1;
        } else {
            proof {
                views(section.candidate_targets@).take(i as int).filter(pred).lemma_filter_len(pred);
            }
        }
        i = i + 1;
    }
    proof {
        assert(views(section.candidate_targets@).take(section.candidate_targets.len() as int)
            =~= views(section.candidate_targets@));
    }
    n
}

impl SectionClearanceReport {
    /// The port notice of a clearance: none when nothing was cleared.
    pub fn message(&self, data: &GameData) -> (r: String)
        ensures
            r@ == if self.section_ids.len() == 0 {
                Seq::<char>::empty()
            } else {
                " Section clearance filed: "@ + joined(
                    section_names(data.sites@, views(self.section_ids@)),
                    ", "@,
                ) + ". Bounty +"@ + decimal(self.payout as int) + " credits."@
            },
    {
        if self.section_ids.len() == 0 {
            return String::new();
        }
        let mut names: Vec<String> = Vec::new();
        let mut i: usize = 0;
        while i < self.section_ids.len()
            invariant
                i <= self.section_ids.len(),
                views(names@) == section_names(data.sites@, views(self.section_ids@).take(i as int)),
            decreases self.section_ids.len() - i,
        {
            proof {
                assert(views(self.section_ids@).take(i + 1).drop_last() =~= views(
                    self.section_ids@,
                ).take(i as int));
                assert(views(self.section_ids@).take(i + 1).last() == self.section_ids@[i as int]@);
            }
            match find_section_name(data, self.section_ids[i].as_str()) {
                Some(n) => {
                    let ghost before = names@;
                    names.push(n);
                    proof {
                        assert(views(names@) =~= views(before).push(
                            section_name(data.sites@, self.section_ids@[i as int]@).unwrap(),
                        ));
                    }
                },
                None => {},
            }
            i = i + 1;
        }
        proof {
            assert(views(self.section_ids@).take(self.section_ids.len() as int) =~= views(
                self.section_ids@,
            ));
        }
        let joined_names = crate::text::join(&names, ", ");
        let mut msg = " Section clearance filed: ".to_owned();
        msg.append(joined_names.as_str());
        msg.append(". Bounty +");
        push_int(&mut msg, self.payout);
        msg.append(" credits.");
        msg
    }
}

fn find_section_name(data: &GameData, id: &str) -> (r: Option<String>)
    ensures
        match r {
            Some(n) => section_name(data.sites@, id@) == Some(n@),
            None => section_name(data.sites@, id@) is None,
        },
{
    let mut i: usize = 0;
    while i < data.sites.len()
        invariant
            i <= data.sites.len(),
            section_name(data.sites@.take(i as int), id@) is None,
        decreases data.sites.len() - i,
    {
        proof {
            assert(data.sites@.take(i + 1).drop_last() =~= data.sites@.take(i as int));
            assert(data.sites@.take(i + 1).last() == data.sites@[i as int]);
        }
        match data.sites[i].section(id) {
            Some(s) => {
                proof {
                    lemma_section_name_prefix(data.sites@, id@, i + 1);
                }
                return Some(s.display_name.clone());
            },
            None => {},
        }
        i = i + 1;
    }
    proof {
        assert(data.sites@.take(data.sites.len() as int) =~= data.sites@);
    }
    None
}

proof fn lemma_section_name_prefix(sites: Seq<SiteData>, id: Seq<char>, n: int)
    requires
        0 <= n <= sites.len(),
        section_name(sites.take(n), id) is Some,
    ensures
        section_name(sites, id) == section_name(sites.take(n), id),
    decreases sites.len() - n,
{
    if n < sites.len() {
        assert(sites.take(n + 1).drop_last() =~= sites.take(n));
        lemma_section_name_prefix(sites, id, n + 1);
    } else {
        assert(sites.take(n) =~= sites);
    }
}

proof fn lemma_reward_step(secs: Seq<WreckSectionData>, i: int, pred: spec_fn(WreckSectionData) -> bool)
    requires
        0 <= i < secs.len(),
    ensures
        reward_sum(secs.take(i + 1).filter(pred)) == reward_sum(secs.take(i).filter(pred)) + if pred(
            secs[i],
        ) {
            secs[i].clearance_reward as int
        } else {
            0
        },
        secs.take(i + 1).filter(pred).len() == secs.take(i).filter(pred).len() + if pred(secs[i]) {
            1int
        } else {
            0
        },
{
    assert(secs.take(i + 1) =~= secs.take(i).push(secs[i]));
    secs.take(i).lemma_filter_push(secs[i], pred);
    if pred(secs[i]) {
        assert(secs.take(i).filter(pred).push(secs[i]).drop_last() =~= secs.take(i).filter(pred));
    }
}

impl GameSession {
    pub open spec fn clearance_status_spec(&self, site_id: Seq<char>, section: WreckSectionData) -> (
        int,
        bool,
    ) {
        match self.progress_spec(site_id) {
            None => (0, false),
            Some(p) => (
                views(section.candidate_targets@).filter(
                    recovered_pred(p.operation_log@, section.id@),
                ).len() as int,
                views(p.cleared_sections@).contains(section.id@),
            ),
        }
    }

    /// Clearance figures of a section; none for an unknown wreck or section.
    pub fn section_clearance_status(&self, site_id: &str, section_id: &str, data: &GameData) -> (r:
        Option<SectionClearanceStatus>)
        ensures
            r is Some <==> data.site_spec(site_id@) is Some && keyed(
                data.site_spec(site_id@).unwrap().sections@,
                section_id@,
            ) is Some,
            r matches Some(s) ==> {
                let section = keyed(data.site_spec(site_id@).unwrap().sections@, section_id@).unwrap();
                let (recovered, cleared) = self.clearance_status_spec(site_id@, section);
                &&& s.section_id@ == section_id@
                &&& s.recovered_targets == recovered
                &&& s.total_targets == section.candidate_targets.len()
                &&& s.reward == section.clearance_reward
                &&& s.cleared == cleared
                &&& s.ready == (!cleared && section.candidate_targets.len() > 0 && recovered
                    == section.candidate_targets.len())
            },
    {
        let site = data.site(site_id)?;
        let section = site.section(section_id)?;
        let (recovered, cleared) = match self.progress(site_id) {
            Some(p) => (
                count_recovered_from(p, section),
                has_id(&p.cleared_sections, section_id),
            ),
            None => (0, false),
        };
        let total = section.candidate_targets.len();
        Some(
            SectionClearanceStatus {
                section_id: section_id.to_owned(),
                recovered_targets: recovered,
                total_targets: total,
                reward: section.clearance_reward,
                cleared,
                ready: !cleared && total > 0 && recovered == total,
            },
        )
    }

    pub open spec fn cleared_count_spec(&self, site: SiteData) -> int {
        match self.progress_spec(site.id@) {
            None => 0,
            Some(p) => site.sections@.filter(
                |s: WreckSectionData| views(p.cleared_sections@).contains(s.id@),
            ).len() as int,
        }
    }

    /// Cleared sections of a wreck and how many sections it has.
    pub fn site_clearance_summary(&self, site_id: &str, data: &GameData) -> (r: (usize, usize))
        ensures
            r == match data.site_spec(site_id@) {
                None => (0usize, 0usize),
                Some(site) => (self.cleared_count_spec(site) as usize, site.sections.len()),
            },
    {
        let site = match data.site(site_id) {
            Some(s) => s,
            None => {
                return (0, 0);
            },
        };
        let mut n: usize = 0;
        match self.progress(site_id) {
            Some(p) => {
                let ghost pred = |s: WreckSectionData| views(p.cleared_sections@).contains(s.id@);
                let mut i: usize = 0;
                while i < site.sections.len()
                    invariant
                        i <= site.sections.len(),
                        pred == (|s: WreckSectionData| views(p.cleared_sections@).contains(s.id@)),
                        n == site.sections@.take(i as int).filter(pred).len(),
                        n <= i,
                    decreases site.sections.len() - i,
                {
                    proof {
                        reveal_with_fuel(Seq::<_>::filter, 1);
                        assert(site.sections@.take(i + 1).drop_last() =~= site.sections@.take(i as int));
                    }
                    if has_id(&p.cleared_sections, site.sections[i].id.as_str()) {
                        n = n + 1;
                    }
                    i = i + 1;
                }
                proof {
                    assert(site.sections@.take(site.sections.len() as int) =~= site.sections@);
                }
            },
            None => {},
        }
        (n, site.sections.len())
    }

    /// Bounties a wreck has paid and has left to pay.
    pub fn site_clearance_rewards(&self, site_id: &str, data: &GameData) -> (r: (i64, i64))
        requires
            data.wf(),
        ensures
            r == match data.site_spec(site_id@) {
                None => (0i64, 0i64),
                Some(site) => {
                    let cleared = match self.progress_spec(site_id@) {
                        Some(p) => views(p.cleared_sections@),
                        None => Seq::empty(),
                    };
                    (
                        reward_sum(site.sections@.filter(|s: WreckSectionData| cleared.contains(s.id@))) as i64,
                        reward_sum(site.sections@.filter(|s: WreckSectionData| !cleared.contains(s.id@))) as i64,
                    )
                },
            },
    {
        let site = match data.site(site_id) {
            Some(s) => s,
            None => {
                return (0, 0);
            },
        };
        let empty: Vec<String> = Vec::new();
        let cleared_ids = match self.progress(site_id) {
            Some(p) => &p.cleared_sections,
            None => &empty,
        };
        let ghost cleared = views(cleared_ids@);
        proof {
            assert(cleared == match self.progress_spec(site_id@) {
                Some(p) => views(p.cleared_sections@),
                None => Seq::<Seq<char>>::empty(),
            });
        }
        let ghost paid_pred = |s: WreckSectionData| cleared.contains(s.id@);
        let ghost open_pred = |s: WreckSectionData| !cleared.contains(s.id@);
        let mut paid: i64 = 0;
        let mut remaining: i64 = 0;
        let mut i: usize = 0;
        while i < site.sections.len()
            invariant
                i <= site.sections.len(),
                site.wf(),
                cleared == views(cleared_ids@),
                paid_pred == (|s: WreckSectionData| cleared.contains(s.id@)),
                open_pred == (|s: WreckSectionData| !cleared.contains(s.id@)),
                paid == reward_sum(site.sections@.take(i as int).filter(paid_pred)),
                remaining == reward_sum(site.sections@.take(i as int).filter(open_pred)),
                0 <= paid <= crate::data::AUTHORED_LIMIT * i,
                0 <= remaining <= crate::data::AUTHORED_LIMIT * i,
            decreases site.sections.len() - i,
        {
            proof {
                reveal_with_fuel(Seq::<_>::filter, 1);
                assert(site.sections@.take(i + 1).drop_last() =~= site.sections@.take(i as int));
                assert(site.sections@.take(i + 1).last() == site.sections@[i as int]);
                assert(site.sections@[i as int].wf());
            }
            let section = &site.sections[i];
            proof {
                lemma_reward_step(site.sections@, i as int, paid_pred);
                lemma_reward_step(site.sections@, i as int, open_pred);
            }
            if has_id(cleared_ids, section.id.as_str()) {
                paid = paid + section.clearance_reward;
            } else {
                remaining = remaining + section.clearance_reward;
            }
            i = i + 1;
        }
        proof {
            assert(site.sections@.take(site.sections.len() as int) =~= site.sections@);
        }
        (paid, remaining)
    }

    /// Sections of a wreck ready for a bounty and the bounty they would pay.
    pub fn site_clearance_ready_summary(&self, site_id: &str, data: &GameData) -> (r: (usize, i64))
        requires
            data.wf(),
        ensures
            r == match data.site_spec(site_id@) {
                None => (0usize, 0i64),
                Some(site) => match self.progress_spec(site_id@) {
                    None => (0usize, 0i64),
                    Some(p) => (
                        ready_sections(p, site.sections@).len() as usize,
                        reward_sum(ready_sections(p, site.sections@)) as i64,
                    ),
                },
            },
    {
        let site = match data.site(site_id) {
            Some(s) => s,
            None => {
                return (0, 0);
            },
        };
        let p = match self.progress(site_id) {
            Some(p) => p,
            None => {
                return (0, 0);
            },
        };
        let ghost pred = |s: WreckSectionData| section_ready(*p, s);
        let mut count: usize = 0;
        let mut payout: i64 = 0;
        let mut i: usize = 0;
        while i < site.sections.len()
            invariant
                i <= site.sections.len(),
                site.wf(),
                pred == (|s: WreckSectionData| section_ready(*p, s)),
                count == site.sections@.take(i as int).filter(pred).len(),
                payout == reward_sum(site.sections@.take(i as int).filter(pred)),
                count <= i,
                0 <= payout <= crate::data::AUTHORED_LIMIT * i,
            decreases site.sections.len() - i,
        {
            proof {
                reveal_with_fuel(Seq::<_>::filter, 1);
                assert(site.sections@.take(i + 1).drop_last() =~= site.sections@.take(i as int));
                assert(site.sections@.take(i + 1).last() == site.sections@[i as int]);
                assert(site.sections@[i as int].wf());
            }
            let section = &site.sections[i];
            proof {
                lemma_reward_step(site.sections@, i as int, pred);
            }
            let recovered = count_recovered_from(p, section);
            let ready = !has_id(&p.cleared_sections, section.id.as_str())
                && section.candidate_targets.len() > 0 && recovered
                == section.candidate_targets.len();
            if ready {
                count = count + 1;
                payout = payout + section.clearance_reward;
            }
            i = i + 1;
        }
        proof {
            assert(site.sections@.take(site.sections.len() as int) =~= site.sections@);
        }
        (count, payout)
    }

    /// Files the clearance of every section of a wreck that is ready: the
    /// sections count as cleared, each clearance is logged, and their
    /// bounties are paid. A section pays once.
    pub fn resolve_section_clearance(&mut self, site_id: &str, data: &GameData) -> (r:
        SectionClearanceReport)
        requires
            old(self).wf(),
            old(self).log_room(1000),
            old(self).economy.credits <= WALLET - 1_000_000_000_000,
            data.wf(),
        ensures
            final(self).wf(),
            *final(self) == (GameSession {
                economy: final(self).economy,
                site_progress: final(self).site_progress,
                ..*old(self)
            }),
            final(self).economy.credits == old(self).economy.credits + clearance_pay_spec(
                *old(self),
                site_id@,
                *data,
            ),
            r.payout == clearance_pay_spec(*old(self), site_id@, *data),
            data.site_spec(site_id@) is None || old(self).progress_spec(site_id@) is None
                || ready_sections(
                old(self).progress_spec(site_id@).unwrap(),
                data.site_spec(site_id@).unwrap().sections@,
            ).len() == 0 ==> *final(self) == *old(self) && r.section_ids@.len() == 0 && r.payout
                == 0,
            data.site_spec(site_id@) is Some && old(self).progress_spec(site_id@) is Some ==> {
                let site = data.site_spec(site_id@).unwrap();
                let i = old(self).progress_index(site_id@);
                let p = old(self).site_progress@[i];
                let ready = ready_sections(p, site.sections@);
                let ids = ready.map_values(|s: WreckSectionData| s.id@);
                let n = p.operation_log.len();
                let np = final(self).site_progress@[i];
                ready.len() > 0 ==> {
                    &&& views(r.section_ids@) == ids
                    &&& r.payout == reward_sum(ready)
                    &&& 0 <= i < old(self).site_progress.len()
                    &&& crate::workspace_ops::progress_entry_changed(
                        old(self).site_progress@,
                        final(self).site_progress@,
                        i,
                    )
                    &&& views(np.cleared_sections@) == views(p.cleared_sections@) + ids
                    &&& np.operation_log@.len() == n + ready.len()
                    &&& np.operation_log@.take(n as int) == p.operation_log@
                    &&& forall|k: int|
                        0 <= k < ready.len() ==> entry_is(
                            #[trigger] np.operation_log@[n + k],
                            n + k + 1,
                            WorkspaceLogEvent::SectionCleared,
                            Some(ids[k]),
                            None,
                        )
                    &&& np == (SiteProgress {
                        cleared_sections: np.cleared_sections,
                        operation_log: np.operation_log,
                        ..p
                    })
                    &&& final(self).economy == (Economy {
                        credits: (old(self).economy.credits + reward_sum(ready)) as i64,
                        ..old(self).economy
                    })
                    &&& *final(self) == (GameSession {
                        economy: final(self).economy,
                        site_progress: final(self).site_progress,
                        ..*old(self)
                    })
                }
            },
    {
        let site = match data.site(site_id) {
            Some(s) => s,
            None => {
                return SectionClearanceReport { section_ids: Vec::new(), payout: 0 };
            },
        };
        let i = match self.progress_slot(site_id) {
            Some(i) => i,
            None => {
                return SectionClearanceReport { section_ids: Vec::new(), payout: 0 };
            },
        };
        let ghost p = self.site_progress@[i as int];
        let ghost pred = |s: WreckSectionData| section_ready(p, s);
        let mut ids: Vec<String> = Vec::new();
        let mut payout: i64 = 0;
        let mut j: usize = 0;
        while j < site.sections.len()
            invariant
                j <= site.sections.len(),
                site.wf(),
                i < self.site_progress.len(),
                p == self.site_progress@[i as int],
                pred == (|s: WreckSectionData| section_ready(p, s)),
                views(ids@) == site.sections@.take(j as int).filter(pred).map_values(
                    |s: WreckSectionData| s.id@,
                ),
                ids.len() <= j,
                payout == reward_sum(site.sections@.take(j as int).filter(pred)),
                0 <= payout <= crate::data::AUTHORED_LIMIT * j,
            decreases site.sections.len() - j,
        {
            proof {
                reveal_with_fuel(Seq::<_>::filter, 1);
                assert(site.sections@.take(j + 1).drop_last() =~= site.sections@.take(j as int));
                assert(site.sections@.take(j + 1).last() == site.sections@[j as int]);
                assert(site.sections@[j as int].wf());
            }
            let section = &site.sections[j];
            proof {
                lemma_reward_step(site.sections@, j as int, pred);
            }
            let recovered = count_recovered_from(&self.site_progress[i], section);
            let ready = !has_id(&self.site_progress[i].cleared_sections, section.id.as_str())
                && section.candidate_targets.len() > 0 && recovered
                == section.candidate_targets.len();
            if ready {
                let ghost before = ids@;
                ids.push(section.id.clone());
                payout = payout + section.clearance_reward;
                proof {
                    assert(views(ids@) =~= views(before).push(section.id@));
                    assert(site.sections@.take(j + 1).filter(pred) =~= site.sections@.take(
                        j as int,
                    ).filter(pred).push(*section));
                    assert(site.sections@.take(j + 1).filter(pred).map_values(
                        |s: WreckSectionData| s.id@,
                    ) =~= site.sections@.take(j as int).filter(pred).map_values(
                        |s: WreckSectionData| s.id@,
                    ).push(section.id@));
                }
            }
            j = j + 1;
        }
        proof {
            assert(site.sections@.take(site.sections.len() as int) =~= site.sections@);
            ready_sections(p, site.sections@).filter_lemma(pred);
        }
        if ids.len() == 0 {
            return SectionClearanceReport { section_ids: ids, payout: 0 };
        }
        let mut cleared = crate::text::copy_ids(&self.site_progress[i].cleared_sections);
        let mut k: usize = 0;
        while k < ids.len()
            invariant
                k <= ids.len(),
                views(cleared@) == views(p.cleared_sections@) + views(ids@).take(k as int),
            decreases ids.len() - k,
        {
            let ghost before = cleared@;
            cleared.push(ids[k].clone());
            proof {
                assert(views(cleared@) =~= views(before).push(ids@[k as int]@));
                assert(views(ids@).take(k + 1) =~= views(ids@).take(k as int).push(ids@[k as int]@));
            }
            k = k + 1;
        }
        proof {
            assert(views(ids@).take(ids.len() as int) =~= views(ids@));
        }
        self.site_progress[i].cleared_sections = cleared;
        let n = self.site_progress[i].operation_log.len();
        assert(n + ids.len() < crate::session::LOG_LIMIT) by {
            assert(old(self).site_progress@[i as int].operation_log.len() + 1000 < crate::session::LOG_LIMIT);
        }
        let mut m: usize = 0;
        while m < ids.len()
            invariant
                m <= ids.len(),
                ids.len() <= 1000,
                n + ids.len() < crate::session::LOG_LIMIT,
                i < self.site_progress.len(),
                self.site_progress.len() == old(self).site_progress.len(),
                forall|x: int|
                    0 <= x < self.site_progress.len() && x != i ==> self.site_progress@[x]
                        == old(self).site_progress@[x],
                self.site_progress@[i as int] == (SiteProgress {
                    cleared_sections: self.site_progress@[i as int].cleared_sections,
                    operation_log: self.site_progress@[i as int].operation_log,
                    ..p
                }),
                views(self.site_progress@[i as int].cleared_sections@) == views(p.cleared_sections@)
                    + views(ids@),
                self.site_progress@[i as int].operation_log@.len() == n + m,
                self.site_progress@[i as int].operation_log@.take(n as int) == p.operation_log@,
                forall|x: int|
                    0 <= x < m ==> entry_is(
                        #[trigger] self.site_progress@[i as int].operation_log@[n + x],
                        n + x + 1,
                        WorkspaceLogEvent::SectionCleared,
                        Some(ids@[x]@),
                        None,
                    ),
                *self == (GameSession { site_progress: self.site_progress, ..*old(self) }),
            decreases ids.len() - m,
        {
            let ghost before = self.site_progress@[i as int].operation_log@;
            self.site_progress[i].operation_log.push(
                WorkspaceLogEntry::new(
                    (n + m + 1) as u32,
                    WorkspaceLogEvent::SectionCleared,
                    Some(ids[m].as_str()),
                    None,
                ),
            );
            proof {
                let now = self.site_progress@[i as int].operation_log@;
                assert(now.take(n as int) =~= before.take(n as int));
                assert(forall|x: int| 0 <= x < m ==> #[trigger] now[n + x] == before[n + x]);
            }
            m = m + 1;
        }
        self.economy.credits = self.economy.credits + payout;
        proof {
            assert forall|x: int|
                0 <= x < self.site_progress.len() implies (
            #[trigger] self.site_progress@[x]).operation_log.len() < crate::session::LOG_LIMIT
                && 0 <= self.site_progress@[x].condition <= 100 by {
                assert(old(self).site_progress@[x].operation_log.len() + 1000
                    < crate::session::LOG_LIMIT);
            }
        }
        SectionClearanceReport { section_ids: ids, payout }
    }
}

} // verus!
