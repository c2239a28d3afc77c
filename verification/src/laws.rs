//! Properties that hold across calls: the cycles of the operating orders,
//! bounties and contracts that settle only once, and grids that rebuild to
//! themselves.

use crate::crew::CrewRole;
use crate::data::{first_match, key_index, keyed, GameData, WreckSectionData};
use crate::drone_directive::DroneDirective;
use crate::layout::{Footprint, GridPosition, PlacedItem};
use crate::rebuild::{other_than, pv, pv_overlaps, pv_placeable, rebuilt};
use crate::return_policy::ReturnPolicy;
use crate::section_clearance::{ready_sections, recovered_from, section_ready};
use crate::session::{CargoItem, GameSession, SiteProgress};
use crate::text::views;
use crate::workspace_records::{WorkspaceLogEntry, WorkspaceLogEvent};
use vstd::prelude::*;

verus! {

/// Crew assignments cycle through all five roles, each once, before coming
/// back to the first.
pub proof fn law_crew_roles_cycle(r: CrewRole)
    ensures
        r.next_spec().next_spec().next_spec().next_spec().next_spec() == r,
        r.next_spec() != r,
        r.next_spec().next_spec() != r,
        r.next_spec().next_spec().next_spec() != r,
        r.next_spec().next_spec().next_spec().next_spec() != r,
{
}

/// Drone directives cycle through recall, survey and pull support.
pub proof fn law_drone_directives_cycle(d: DroneDirective)
    ensures
        d.next_spec().next_spec().next_spec() == d,
        d.next_spec() != d,
        d.next_spec().next_spec() != d,
{
}

/// Return priorities cycle through their three settings.
pub proof fn law_return_policies_cycle(p: ReturnPolicy)
    ensures
        p.next_spec().next_spec().next_spec() == p,
        p.next_spec() != p,
        p.next_spec().next_spec() != p,
{
}

/// Replacing an entry by one with the same key leaves every lookup by key
/// pointing at the same position.
proof fn lemma_keyed_after_update(s: Seq<SiteProgress>, i: int, x: SiteProgress, k: Seq<char>)
    requires
        0 <= i < s.len(),
        x.site_id@ == s[i].site_id@,
        keyed(s, k) is Some,
    ensures
        key_index(s.update(i, x), k) == key_index(s, k),
        keyed(s.update(i, x), k) == Some(s.update(i, x)[key_index(s, k)]),
{
    crate::ledger::lemma_keyed_member(s, k);
    let j = key_index(s, k);
    assert(first_match(s, k, j));
    let t = s.update(i, x);
    assert(first_match(t, k, j));
    crate::data::lemma_first_match_unique(t, k, j);
}

/// A contract settles at most once: closing the same run a second time
/// changes nothing and reports nothing.
pub proof fn law_contract_settles_once(
    a: GameSession,
    b: GameSession,
    c: GameSession,
    site_id: Seq<char>,
    cargo: Seq<CargoItem>,
    data: GameData,
    accepted: bool,
    first: Option<String>,
    second: Option<String>,
)
    requires
        GameSession::contract_closed(a, b, site_id, cargo, data, accepted, first),
        GameSession::contract_closed(b, c, site_id, cargo, data, accepted, second),
    ensures
        c == b,
        second is None,
{
    if a.contract_open(site_id, data, accepted) {
        let site = data.site_spec(site_id).unwrap();
        let target = site.contract_target.unwrap()@;
        crate::ledger::lemma_keyed_member(a.site_progress@, site_id);
        let i = a.progress_index(site_id);
        let p = a.site_progress@[i];
        assert(first_match(a.site_progress@, site_id, i));
        if crate::contracts::packed_in(cargo, target) {
            lemma_keyed_after_update(
                a.site_progress@,
                i,
                SiteProgress { contract_completed: true, ..p },
                site_id,
            );
            assert(!b.contract_open(site_id, data, accepted));
        } else if views(p.removed_targets@).contains(target) {
            lemma_keyed_after_update(
                a.site_progress@,
                i,
                SiteProgress { contract_failed: true, ..p },
                site_id,
            );
            assert(!b.contract_open(site_id, data, accepted));
        }
    }
}

/// A section bounty is paid once: once the ready sections are filed as
/// cleared and only clearance entries are added to the log, no section of
/// the wreck is ready again.
pub proof fn law_section_bounty_paid_once(
    p: SiteProgress,
    np: SiteProgress,
    sections: Seq<WreckSectionData>,
)
    requires
        views(np.cleared_sections@) == views(p.cleared_sections@) + ready_sections(
            p,
            sections,
        ).map_values(|s: WreckSectionData| s.id@),
        np.operation_log.len() >= p.operation_log.len(),
        np.operation_log@.take(p.operation_log.len() as int) == p.operation_log@,
        forall|k: int|
            p.operation_log.len() <= k < np.operation_log.len() ==> (#[trigger] np.operation_log@[k]).event
                == WorkspaceLogEvent::SectionCleared,
    ensures
        ready_sections(np, sections).len() == 0,
{
    let ready = ready_sections(p, sections);
    let ids = ready.map_values(|s: WreckSectionData| s.id@);
    let q = |s: WreckSectionData| section_ready(np, s);
    sections.filter_lemma(q);
    if ready_sections(np, sections).len() > 0 {
        let s = ready_sections(np, sections)[0];
        assert(sections.filter(q).contains(s));
        sections.lemma_filter_contains_rev(q, s);
        assert(section_ready(np, s));
        let n = p.operation_log.len() as int;
        assert forall|k: int|
            0 <= k < s.candidate_targets.len() implies recovered_from(
            p.operation_log@,
            s.id@,
            #[trigger] s.candidate_targets@[k]@,
        ) by {
            assert(recovered_from(np.operation_log@, s.id@, s.candidate_targets@[k]@));
            let j = choose|j: int|
                0 <= j < np.operation_log@.len() && (#[trigger] np.operation_log@[j]).event
                    == WorkspaceLogEvent::TargetRecovered && np.operation_log@[j].section_id@ == s.id@
                    && crate::workspace_records::opt_view(np.operation_log@[j].target_id) == Some(
                    s.candidate_targets@[k]@,
                );
            if j >= n {
                assert(np.operation_log@[j].event == WorkspaceLogEvent::SectionCleared);
            }
            assert(np.operation_log@.take(n)[j] == np.operation_log@[j]);
            assert(p.operation_log@[j] == np.operation_log@[j]);
        }
        let pred = |x: WreckSectionData| section_ready(p, x);
        if !views(p.cleared_sections@).contains(s.id@) {
            assert(section_ready(p, s));
            sections.filter_lemma(pred);
            sections.lemma_filter_contains_rev(q, s);
            let i = choose|i: int| 0 <= i < sections.len() && sections[i] == s;
            assert(sections.filter(pred).contains(s)) by {
                crate::laws::lemma_filter_keeps(sections, pred, i);
            }
            let k = choose|k: int| 0 <= k < ready.len() && ready[k] == s;
            assert(ids[k] == s.id@);
            assert((views(p.cleared_sections@) + ids)[p.cleared_sections.len() + k] == s.id@);
            assert(views(np.cleared_sections@).contains(s.id@));
        } else {
            let k = choose|k: int|
                0 <= k < views(p.cleared_sections@).len() && views(p.cleared_sections@)[k] == s.id@;
            assert((views(p.cleared_sections@) + ids)[k] == s.id@);
            assert(views(np.cleared_sections@).contains(s.id@));
        }
    }
}

/// Blueprint unlocks are permanent: re-evaluating them with any wallet only
/// adds blueprints, so an unlocked module stays unlocked.
pub proof fn law_unlocks_are_permanent(
    before: GameSession,
    after: GameSession,
    data: GameData,
    newly: Seq<Seq<char>>,
    id: Seq<char>,
)
    requires
        views(after.unlocked_modules@) == views(before.unlocked_modules@) + newly,
        before.module_unlocked_spec(id, data),
    ensures
        after.module_unlocked_spec(id, data),
{
    if views(before.unlocked_modules@).contains(id) {
        let k = choose|k: int|
            0 <= k < views(before.unlocked_modules@).len() && views(before.unlocked_modules@)[k] == id;
        assert((views(before.unlocked_modules@) + newly)[k] == id);
    }
}

/// A filter keeps every element its predicate accepts.
pub proof fn lemma_filter_keeps<A>(s: Seq<A>, f: spec_fn(A) -> bool, i: int)
    requires
        0 <= i < s.len(),
        f(s[i]),
    ensures
        s.filter(f).contains(s[i]),
    decreases s.len(),
{
    reveal_with_fuel(Seq::<_>::filter, 1);
    if i == s.len() - 1 {
        assert(s.filter(f) == s.drop_last().filter(f).push(s.last()));
        assert(s.filter(f).last() == s[i]);
    } else {
        lemma_filter_keeps(s.drop_last(), f, i);
        assert(s.drop_last()[i] == s[i]);
        let g = s.drop_last().filter(f);
        let k = choose|k: int| 0 <= k < g.len() && g[k] == s[i];
        if f(s.last()) {
            assert(s.filter(f) == g.push(s.last()));
            assert(s.filter(f)[k] == s[i]);
        } else {
            assert(s.filter(f) == g);
        }
    }
}

} // verus!
