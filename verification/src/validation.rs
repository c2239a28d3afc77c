//! Integrity of a loaded save: wreck progress, logs, voyages, modules and
//! the cargo that the grid holds must all agree with the catalog and with
//! each other. Each check reports the first thing it refuses.

use crate::data::{has_key, GameData, SiteData};
use crate::layout::{PlacedItem, ShipLayout};
use crate::persistence::{cargo_ids, is_cargo_key, returned_ids};
use crate::recovery::section_targets;
use crate::session::{cargo_layout_key, CargoItem, CargoStatus, ExpeditionState, GameSession, ReturnedItem, SiteProgress};
use crate::text::{has_id, views};
use crate::voyage_record::VoyageRecord;
use crate::workspace_records::{TargetSurveyNote, WorkspaceLogEntry};
use vstd::prelude::*;
use vstd::string::StrSliceExecFns;

verus! {

/// The first failure among the first `n` elements of `s`, where `err(s, i)`
/// says why element `i` fails, if it does.
pub open spec fn first_error<T>(
    s: Seq<T>,
    err: spec_fn(Seq<T>, int) -> Option<Seq<char>>,
    n: int,
) -> Option<Seq<char>>
    decreases n,
{
    if n <= 0 {
        None
    } else {
        match first_error(s, err, n - 1) {
            Some(m) => Some(m),
            None => err(s, n - 1),
        }
    }
}

/// Once an element has failed, later elements leave the first failure as
/// it is.
pub proof fn lemma_first_error_stays<T>(
    s: Seq<T>,
    err: spec_fn(Seq<T>, int) -> Option<Seq<char>>,
    n: int,
    m: int,
)
    requires
        0 <= n <= m,
        first_error(s, err, n) is Some,
    ensures
        first_error(s, err, m) == first_error(s, err, n),
    decreases m - n,
{
    if n < m {
        lemma_first_error_stays(s, err, n, m - 1);
    }
}

/// The first failure of the whole list.
pub open spec fn list_error<T>(s: Seq<T>, err: spec_fn(Seq<T>, int) -> Option<Seq<char>>) -> Option<
    Seq<char>,
> {
    first_error(s, err, s.len() as int)
}

/// Whether `v[..n]` holds the identifier.
fn seen_before(v: &Vec<String>, n: usize, id: &str) -> (r: bool)
    requires
        n <= v.len(),
    ensures
        r == views(v@).take(n as int).contains(id@),
{
    let mut i: usize = 0;
    while i < n
        invariant
            i <= n,
            n <= v.len(),
            forall|k: int| 0 <= k < i ==> v@[k]@ != id@,
        decreases n - i,
    {
        if crate::text::same_text(v[i].as_str(), id) {
            proof {
                assert(views(v@).take(n as int)[i as int] == id@);
            }
            return true;
        }
        i = i + 1;
    }
    proof {
        if views(v@).take(n as int).contains(id@) {
            let k = choose|k: int| 0 <= k < n && views(v@).take(n as int)[k] == id@;
            assert(v@[k]@ == id@);
        }
    }
    false
}

/// Whether the catalog knows the salvage object.
pub open spec fn known_object(data: GameData, id: Seq<char>) -> bool {
    data.object_spec(id) is Some
}

/// Whether the site has a section with the identifier.
pub open spec fn site_section(site: SiteData, id: Seq<char>) -> bool {
    has_key(site.sections@, id)
}

/// Whether a section of the site names the target.
pub open spec fn site_target(site: SiteData, id: Seq<char>) -> bool {
    section_targets(site.sections@).contains(id)
}

fn site_has_section(site: &SiteData, id: &str) -> (r: bool)
    ensures
        r == site_section(*site, id@),
{
    crate::data::find_keyed(&site.sections, id).is_some()
}

fn site_has_target(site: &SiteData, id: &str) -> (r: bool)
    requires
        site.wf(),
    ensures
        r == site_target(*site, id@),
{
    let ids = crate::recovery::site_target_ids(site);
    has_id(&ids, id)
}

/// Whether an identifier at position `i` of `s` already occurred before it.
pub open spec fn repeated(s: Seq<String>, i: int) -> bool {
    views(s).take(i).contains(s[i]@)
}

/// A discovered section is one of the site's, listed once.
pub open spec fn discovered_err(site: SiteData) -> spec_fn(Seq<String>, int) -> Option<Seq<char>> {
    |s: Seq<String>, i: int|
        if !site_section(site, s[i]@) || repeated(s, i) {
            Some("save references unknown or duplicate discovered section '"@ + s[i]@ + "'"@)
        } else {
            None
        }
}

/// A removed target is a known object of one of the site's sections, listed
/// once.
pub open spec fn removed_err(site: SiteData, data: GameData) -> spec_fn(Seq<String>, int) -> Option<
    Seq<char>,
> {
    |s: Seq<String>, i: int|
        if !known_object(data, s[i]@) || !site_target(site, s[i]@) || repeated(s, i) {
            Some("save references unknown removed target '"@ + s[i]@ + "'"@)
        } else {
            None
        }
}

pub open spec fn log_sequences(s: Seq<WorkspaceLogEntry>) -> Seq<u32> {
    s.map_values(|e: WorkspaceLogEntry| e.sequence)
}

/// A log entry has a fresh nonzero sequence number, names a section of the
/// site if any, carries a target exactly when its event concerns one, and
/// names only a known target of the site.
pub open spec fn log_err(site: SiteData, data: GameData, site_id: Seq<char>) -> spec_fn(
    Seq<WorkspaceLogEntry>,
    int,
) -> Option<Seq<char>> {
    |s: Seq<WorkspaceLogEntry>, i: int|
        {
            let e = s[i];
            if e.sequence == 0 || log_sequences(s.take(i)).contains(e.sequence) {
                Some("save contains an invalid operation log sequence at site '"@ + site_id + "'"@)
            } else if e.section_id@.len() != 0 && !site_section(site, e.section_id@) {
                Some("save operation log references unknown section '"@ + e.section_id@ + "'"@)
            } else if e.event.is_target_event_spec() != (e.target_id is Some) {
                Some("save operation log has mismatched target context at site '"@ + site_id + "'"@)
            } else if e.target_id is Some && (!known_object(data, e.target_id.unwrap()@)
                || !site_target(site, e.target_id.unwrap()@)) {
                Some("save operation log references unknown target '"@ + e.target_id.unwrap()@ + "'"@)
            } else {
                None
            }
        }
}

/// A surveyed note's section holds its target.
pub open spec fn note_placed(site: SiteData, note: TargetSurveyNote) -> bool {
    exists|k: int|
        0 <= k < site.sections.len() && (#[trigger] site.sections@[k]).id@ == note.section_id@
            && views(site.sections@[k].candidate_targets@).contains(note.target_id@)
}

fn note_in_site(site: &SiteData, note: &TargetSurveyNote) -> (r: bool)
    ensures
        r == note_placed(*site, *note),
{
    let mut k: usize = 0;
    while k < site.sections.len()
        invariant
            k <= site.sections.len(),
            forall|j: int|
                0 <= j < k ==> !((#[trigger] site.sections@[j]).id@ == note.section_id@ && views(
                    site.sections@[j].candidate_targets@,
                ).contains(note.target_id@)),
        decreases site.sections.len() - k,
    {
        if site.sections[k].id == note.section_id && has_id(
            &site.sections[k].candidate_targets,
            note.target_id.as_str(),
        ) {
            return true;
        }
        k = k + 1;
    }
    false
}

/// The transfer modes a note may record.
pub open spec fn known_mode(mode: Seq<char>) -> bool {
    mode == "internal_cargo"@ || mode == "external_clamp"@ || mode == "tow"@
}

pub open spec fn note_valid(n: TargetSurveyNote, site: SiteData, data: GameData) -> bool {
    &&& known_object(data, n.target_id@)
    &&& note_placed(site, n)
    &&& n.scan_count != 0
    &&& 0 <= n.integrity <= 100
    &&& 0 <= n.extraction_difficulty <= 100
    &&& n.mass_tenths >= 0
    &&& known_mode(n.transfer_mode@)
}

pub open spec fn note_keys(s: Seq<TargetSurveyNote>) -> Seq<(Seq<char>, Seq<char>)> {
    s.map_values(|n: TargetSurveyNote| (n.section_id@, n.target_id@))
}

/// A survey note is sound and is the only note on its target in its section.
pub open spec fn note_err(site: SiteData, data: GameData, site_id: Seq<char>) -> spec_fn(
    Seq<TargetSurveyNote>,
    int,
) -> Option<Seq<char>> {
    |s: Seq<TargetSurveyNote>, i: int|
        if !note_valid(s[i], site, data) || note_keys(s.take(i)).contains(
            (s[i].section_id@, s[i].target_id@),
        ) {
            Some("save contains an invalid surveyed target note for site '"@ + site_id + "'"@)
        } else {
            None
        }
}

/// Why a saved wreck progress is refused against its site, if it is.
pub open spec fn progress_error(p: SiteProgress, site: SiteData, data: GameData) -> Option<Seq<char>> {
    if !(0 <= p.condition <= 100) {
        Some("save contains an invalid site condition"@)
    } else if p.reconnaissance_level > data.config.reconnaissance.max_level {
        Some("save contains an invalid reconnaissance level"@)
    } else if p.contract_completed && p.contract_failed {
        Some("save contains a contract marked complete and failed"@)
    } else if list_error(p.discovered_sections@, discovered_err(site)) is Some {
        list_error(p.discovered_sections@, discovered_err(site))
    } else if list_error(p.removed_targets@, removed_err(site, data)) is Some {
        list_error(p.removed_targets@, removed_err(site, data))
    } else if list_error(p.operation_log@, log_err(site, data, p.site_id@)) is Some {
        list_error(p.operation_log@, log_err(site, data, p.site_id@))
    } else {
        list_error(p.surveyed_targets@, note_err(site, data, p.site_id@))
    }
}

/// Checks a list of identifiers one by one; `known` says whether the
/// catalog side of the check holds for each.
fn check_ids(
    v: &Vec<String>,
    site: &SiteData,
    data: &GameData,
    sections: bool,
) -> (r: Option<usize>)
    requires
        site.wf(),
    ensures
        sections ==> match r {
            Some(i) => i < v.len() && discovered_err(*site)(v@, i as int) is Some && first_error(
                v@,
                discovered_err(*site),
                i as int,
            ) is None,
            None => list_error(v@, discovered_err(*site)) is None,
        },
        !sections ==> match r {
            Some(i) => i < v.len() && removed_err(*site, *data)(v@, i as int) is Some && first_error(
                v@,
                removed_err(*site, *data),
                i as int,
            ) is None,
            None => list_error(v@, removed_err(*site, *data)) is None,
        },
{
    let ghost derr = discovered_err(*site);
    let ghost rerr = removed_err(*site, *data);
    let mut i: usize = 0;
    while i < v.len()
        invariant
            i <= v.len(),
            site.wf(),
            derr == discovered_err(*site),
            rerr == removed_err(*site, *data),
            sections ==> first_error(v@, derr, i as int) is None,
            !sections ==> first_error(v@, rerr, i as int) is None,
        decreases v.len() - i,
    {
        let id = v[i].as_str();
        let seen = seen_before(v, i, id);
        let bad = if sections {
            !site_has_section(site, id) || seen
        } else {
            data.object(id).is_none() || !site_has_target(site, id) || seen
        };
        if bad {
            return Some(i);
        }
        i = i + 1;
    }
    None
}

/// The message for the identifier at `i`, when `check_ids` stopped there.
fn id_message(v: &Vec<String>, i: usize, sections: bool) -> (m: String)
    requires
        i < v.len(),
    ensures
        sections ==> m@ == "save references unknown or duplicate discovered section '"@ + v@[i as int]@
            + "'"@,
        !sections ==> m@ == "save references unknown removed target '"@ + v@[i as int]@ + "'"@,
{
    let mut m = if sections {
        "save references unknown or duplicate discovered section '".to_owned()
    } else {
        "save references unknown removed target '".to_owned()
    };
    m.append(v[i].as_str());
    m.append("'");
    m
}

/// Checks the operation log of a wreck, entry by entry.
fn check_log(p: &SiteProgress, site: &SiteData, data: &GameData) -> (r: Result<(), String>)
    requires
        site.wf(),
    ensures
        match r {
            Ok(()) => list_error(p.operation_log@, log_err(*site, *data, p.site_id@)) is None,
            Err(m) => list_error(p.operation_log@, log_err(*site, *data, p.site_id@)) == Some(m@),
        },
{
    let ghost err = log_err(*site, *data, p.site_id@);
    let ghost s = p.operation_log@;
    let mut i: usize = 0;
    while i < p.operation_log.len()
        invariant
            i <= p.operation_log.len(),
            site.wf(),
            s == p.operation_log@,
            err == log_err(*site, *data, p.site_id@),
            first_error(s, err, i as int) is None,
        decreases p.operation_log.len() - i,
    {
        let entry = &p.operation_log[i];
        let mut dup = false;
        let mut j: usize = 0;
        while j < i
            invariant
                j <= i,
                i < p.operation_log.len(),
                s == p.operation_log@,
                dup == log_sequences(s.take(j as int)).contains(entry.sequence),
            decreases i - j,
        {
            proof {
                assert(log_sequences(s.take(j + 1)) =~= log_sequences(s.take(j as int)).push(
                    s[j as int].sequence,
                ));
                lemma_contains_push(
                    log_sequences(s.take(j as int)),
                    s[j as int].sequence,
                    entry.sequence,
                );
            }
            if p.operation_log[j].sequence == entry.sequence {
                dup = true;
            }
            j = j + 1;
        }
        let mut message: Option<String> = None;
        if entry.sequence == 0 || dup {
            let mut e = "save contains an invalid operation log sequence at site '".to_owned();
            e.append(p.site_id.as_str());
            e.append("'");
            message = Some(e);
        } else if !entry.section_id.as_str().is_empty() && !site_has_section(
            site,
            entry.section_id.as_str(),
        ) {
            let mut e = "save operation log references unknown section '".to_owned();
            e.append(entry.section_id.as_str());
            e.append("'");
            message = Some(e);
        } else if entry.event.is_target_event() != entry.target_id.is_some() {
            let mut e = "save operation log has mismatched target context at site '".to_owned();
            e.append(p.site_id.as_str());
            e.append("'");
            message = Some(e);
        } else {
            match &entry.target_id {
                Some(t) => if data.object(t.as_str()).is_none() || !site_has_target(site, t.as_str()) {
                    let mut e = "save operation log references unknown target '".to_owned();
                    e.append(t.as_str());
                    e.append("'");
                    message = Some(e);
                },
                None => {},
            }
        }
        match message {
            Some(m) => {
                proof {
                    assert(err(s, i as int) == Some(m@));
                    lemma_first_error_stays(s, err, i + 1, s.len() as int);
                }
                return Err(m);
            },
            None => {
                assert(err(s, i as int) is None);
            },
        }
        i = i + 1;
    }
    Ok(())
}

/// Checks the survey notes of a wreck, note by note.
fn check_notes(p: &SiteProgress, site: &SiteData, data: &GameData) -> (r: Result<(), String>)
    ensures
        match r {
            Ok(()) => list_error(p.surveyed_targets@, note_err(*site, *data, p.site_id@)) is None,
            Err(m) => list_error(p.surveyed_targets@, note_err(*site, *data, p.site_id@)) == Some(
                m@,
            ),
        },
{
    let ghost err = note_err(*site, *data, p.site_id@);
    let ghost s = p.surveyed_targets@;
    let mut i: usize = 0;
    while i < p.surveyed_targets.len()
        invariant
            i <= p.surveyed_targets.len(),
            s == p.surveyed_targets@,
            err == note_err(*site, *data, p.site_id@),
            first_error(s, err, i as int) is None,
        decreases p.surveyed_targets.len() - i,
    {
        let note = &p.surveyed_targets[i];
        let mut dup = false;
        let mut j: usize = 0;
        while j < i
            invariant
                j <= i,
                i < p.surveyed_targets.len(),
                s == p.surveyed_targets@,
                dup == note_keys(s.take(j as int)).contains((note.section_id@, note.target_id@)),
            decreases i - j,
        {
            proof {
                assert(note_keys(s.take(j + 1)) =~= note_keys(s.take(j as int)).push(
                    (s[j as int].section_id@, s[j as int].target_id@),
                ));
                lemma_contains_push(
                    note_keys(s.take(j as int)),
                    (s[j as int].section_id@, s[j as int].target_id@),
                    (note.section_id@, note.target_id@),
                );
            }
            if p.surveyed_targets[j].section_id == note.section_id && p.surveyed_targets[j].target_id
                == note.target_id {
                dup = true;
            }
            j = j + 1;
        }
        let mode_ok = crate::text::same_text(note.transfer_mode.as_str(), "internal_cargo")
            || crate::text::same_text(note.transfer_mode.as_str(), "external_clamp")
            || crate::text::same_text(note.transfer_mode.as_str(), "tow");
        if data.object(note.target_id.as_str()).is_none() || !note_in_site(site, note)
            || note.scan_count == 0 || !(0 <= note.integrity && note.integrity <= 100) || !(0
            <= note.extraction_difficulty && note.extraction_difficulty <= 100) || note.mass_tenths
            < 0 || !mode_ok || dup {
            let mut e = "save contains an invalid surveyed target note for site '".to_owned();
            e.append(p.site_id.as_str());
            e.append("'");
            proof {
                assert(err(s, i as int) == Some(e@));
                lemma_first_error_stays(s, err, i + 1, s.len() as int);
            }
            return Err(e);
        }
        assert(err(s, i as int) is None);
        i = i + 1;
    }
    Ok(())
}

/// Checks one saved wreck progress against its site.
fn check_progress(p: &SiteProgress, site: &SiteData, data: &GameData) -> (r: Result<(), String>)
    requires
        site.wf(),
    ensures
        match r {
            Ok(()) => progress_error(*p, *site, *data) is None,
            Err(m) => progress_error(*p, *site, *data) == Some(m@),
        },
{
    if !(0 <= p.condition && p.condition <= 100) {
        return Err("save contains an invalid site condition".to_owned());
    }
    if p.reconnaissance_level > data.config.reconnaissance.max_level {
        return Err("save contains an invalid reconnaissance level".to_owned());
    }
    if p.contract_completed && p.contract_failed {
        return Err("save contains a contract marked complete and failed".to_owned());
    }
    match check_ids(&p.discovered_sections, site, data, true) {
        Some(i) => {
            let m = id_message(&p.discovered_sections, i, true);
            proof {
                let err = discovered_err(*site);
                let s = p.discovered_sections@;
                assert(err(s, i as int) == Some(m@));
                lemma_first_error_stays(s, err, i + 1, s.len() as int);
            }
            return Err(m);
        },
        None => {},
    }
    match check_ids(&p.removed_targets, site, data, false) {
        Some(i) => {
            let m = id_message(&p.removed_targets, i, false);
            proof {
                let err = removed_err(*site, *data);
                let s = p.removed_targets@;
                assert(err(s, i as int) == Some(m@));
                lemma_first_error_stays(s, err, i + 1, s.len() as int);
            }
            return Err(m);
        },
        None => {},
    }
    match check_log(p, site, data) {
        Err(m) => return Err(m),
        Ok(()) => {},
    }
    check_notes(p, site, data)
}

/// Why a saved voyage record is refused: its site is unknown, one of its
/// measurements is out of range, or it claims more targets than the site has.
pub open spec fn record_error(r: VoyageRecord, data: GameData) -> Option<Seq<char>> {
    if data.site_spec(r.site_id@) is None {
        Some("save voyage log references unknown site '"@ + r.site_id@ + "'"@)
    } else if !measurements_valid(r, data) {
        Some("save contains an invalid voyage log measurement"@)
    } else if r.recovered_count > section_targets(
        data.site_spec(r.site_id@).unwrap().sections@,
    ).len() {
        Some("save voyage log overstates recovery at site '"@ + r.site_id@ + "'"@)
    } else {
        None
    }
}

pub open spec fn record_err(data: GameData) -> spec_fn(Seq<VoyageRecord>, int) -> Option<Seq<char>> {
    |s: Seq<VoyageRecord>, i: int| record_error(s[i], data)
}

/// The measurements of a record lie in their ranges.
pub open spec fn measurements_valid(r: VoyageRecord, data: GameData) -> bool {
    &&& 0 <= r.danger_score <= 100
    &&& 0 <= r.condition_after <= 100
    &&& r.reconnaissance_level <= data.config.reconnaissance.max_level
    &&& r.recovered_value >= 0
    &&& r.recovered_alloy >= 0
    &&& r.recovered_electronics >= 0
    &&& r.insurance_premium >= 0
    &&& r.insurance_payout >= 0
    &&& r.return_fuel >= 0
    &&& (!r.insured ==> r.insurance_premium <= 0 && r.insurance_payout <= 0)
    &&& !(r.contract_completed && r.contract_failed)
}

fn check_record(r: &VoyageRecord, data: &GameData) -> (res: Result<(), String>)
    requires
        data.wf(),
    ensures
        match res {
            Ok(()) => record_error(*r, *data) is None,
            Err(m) => record_error(*r, *data) == Some(m@),
        },
{
    let site = match data.site(r.site_id.as_str()) {
        Some(s) => s,
        None => {
            let mut m = "save voyage log references unknown site '".to_owned();
            m.append(r.site_id.as_str());
            m.append("'");
            return Err(m);
        },
    };
    if !(0 <= r.danger_score && r.danger_score <= 100) || !(0 <= r.condition_after
        && r.condition_after <= 100) || r.reconnaissance_level > data.config.reconnaissance.max_level
        || r.recovered_value < 0 || r.recovered_alloy < 0 || r.recovered_electronics < 0
        || r.insurance_premium < 0 || r.insurance_payout < 0 || r.return_fuel < 0 || (!r.insured && (
    r.insurance_premium > 0 || r.insurance_payout > 0)) || (r.contract_completed
        && r.contract_failed) {
        return Err("save contains an invalid voyage log measurement".to_owned());
    }
    let ids = crate::recovery::site_target_ids(site);
    proof {
        views(ids@).unique_seq_to_set();
    }
    if (r.recovered_count as usize) > ids.len() {
        let mut m = "save voyage log overstates recovery at site '".to_owned();
        m.append(r.site_id.as_str());
        m.append("'");
        return Err(m);
    }
    Ok(())
}

/// An unlocked blueprint is a known module, listed once.
pub open spec fn unlocked_err(data: GameData) -> spec_fn(Seq<String>, int) -> Option<Seq<char>> {
    |s: Seq<String>, i: int|
        if data.module_spec(s[i]@) is None || repeated(s, i) {
            Some("save contains an invalid unlocked module '"@ + s[i]@ + "'"@)
        } else {
            None
        }
}

/// A damage record names a known module installed in the grid, once.
pub open spec fn damaged_err(data: GameData, ps: Seq<PlacedItem>) -> spec_fn(Seq<String>, int) -> Option<
    Seq<char>,
> {
    |s: Seq<String>, i: int|
        if data.module_spec(s[i]@) is None || !(exists|j: int|
            0 <= j < ps.len() && ps[j].permanent && ps[j].id@ == s[i]@) || repeated(s, i) {
            Some("save contains an invalid damaged module '"@ + s[i]@ + "'"@)
        } else {
            None
        }
}

/// Index of the first grid item with the identifier, or -1.
pub open spec fn layout_index(ps: Seq<PlacedItem>, id: Seq<char>) -> int
    decreases ps.len(),
{
    if ps.len() == 0 {
        -1
    } else {
        let k = layout_index(ps.drop_last(), id);
        if k >= 0 {
            k
        } else if ps.last().id@ == id {
            ps.len() - 1
        } else {
            -1
        }
    }
}

proof fn lemma_layout_index_prefix(ps: Seq<PlacedItem>, id: Seq<char>, n: int)
    requires
        0 <= n <= ps.len(),
        layout_index(ps.take(n), id) >= 0,
    ensures
        layout_index(ps, id) == layout_index(ps.take(n), id),
    decreases ps.len() - n,
{
    if n < ps.len() {
        assert(ps.take(n + 1).drop_last() =~= ps.take(n));
        lemma_layout_index_prefix(ps, id, n + 1);
    } else {
        assert(ps.take(n) =~= ps);
    }
}

fn find_item(ps: &Vec<PlacedItem>, id: &String) -> (r: Option<usize>)
    ensures
        match r {
            Some(k) => k < ps.len() && layout_index(ps@, id@) == k,
            None => layout_index(ps@, id@) == -1,
        },
{
    let mut i: usize = 0;
    while i < ps.len()
        invariant
            i <= ps.len(),
            layout_index(ps@.take(i as int), id@) == -1,
        decreases ps.len() - i,
    {
        proof {
            assert(ps@.take(i + 1).drop_last() =~= ps@.take(i as int));
            assert(ps@.take(i + 1).last() == ps@[i as int]);
        }
        if ps[i].id == *id {
            proof {
                lemma_layout_index_prefix(ps@, id@, i + 1);
            }
            return Some(i);
        }
        i = i + 1;
    }
    proof {
        assert(ps@.take(ps.len() as int) =~= ps@);
    }
    None
}

/// A manifest entry is listed once and agrees with the grid: a packed load
/// sits where it says, an unpacked one takes no cell, and a run holds no
/// lost load.
pub open spec fn cargo_err(ps: Seq<PlacedItem>) -> spec_fn(Seq<CargoItem>, int) -> Option<Seq<char>> {
    |s: Seq<CargoItem>, i: int|
        {
            let c = s[i];
            let k = layout_index(ps, cargo_layout_key(c.object_id@));
            if cargo_ids(s.take(i)).contains(c.object_id@) {
                Some("save contains duplicate cargo '"@ + c.object_id@ + "'"@)
            } else {
                match c.status {
                    CargoStatus::Packed => if c.position is None {
                        Some("packed cargo '"@ + c.object_id@ + "' has no position"@)
                    } else if k < 0 {
                        Some("packed cargo '"@ + c.object_id@ + "' is missing from the layout"@)
                    } else if ps[k].permanent || ps[k].position != c.position.unwrap() || ps[k].rotation
                        != c.rotation % 2 {
                        Some("packed cargo '"@ + c.object_id@ + "' does not match the layout"@)
                    } else {
                        None
                    },
                    CargoStatus::Lost => Some("active expedition contains lost cargo"@),
                    _ => if c.position is Some || k >= 0 {
                        Some("unpacked cargo '"@ + c.object_id@ + "' occupies the layout"@)
                    } else {
                        None
                    },
                }
            }
        }
}

/// A stabilized target is a known object of one of the site's sections,
/// listed once.
pub open spec fn stabilized_err(site: SiteData, data: GameData) -> spec_fn(Seq<String>, int) -> Option<
    Seq<char>,
> {
    |s: Seq<String>, i: int|
        if !known_object(data, s[i]@) || !site_target(site, s[i]@) || repeated(s, i) {
            Some("save references unknown or duplicate stabilized target '"@ + s[i]@ + "'"@)
        } else {
            None
        }
}

/// Why the run's own records are refused against its site and the grid, if
/// they are.
pub open spec fn expedition_error(e: ExpeditionState, ps: Seq<PlacedItem>, data: GameData) -> Option<
    Seq<char>,
> {
    let site = data.site_spec(e.site_id@).unwrap();
    if data.site_spec(e.site_id@) is None || !site_section(site, e.workspace_section@) {
        Some("save contains an invalid workspace section"@)
    } else if exists|k: int|
        0 <= k < e.revealed_targets.len() && !known_object(data, #[trigger] e.revealed_targets@[k]@) {
        Some("save contains an unknown revealed target"@)
    } else if e.workspace_energy_capacity <= 0 || e.workspace_energy < 0 || e.workspace_energy
        > e.workspace_energy_capacity {
        Some("save contains an invalid workspace power reserve"@)
    } else if list_error(e.stabilized_targets@, stabilized_err(site, data)) is Some {
        list_error(e.stabilized_targets@, stabilized_err(site, data))
    } else {
        list_error(e.cargo@, cargo_err(ps))
    }
}

fn check_stabilized(v: &Vec<String>, site: &SiteData, data: &GameData) -> (r: Result<(), String>)
    requires
        site.wf(),
    ensures
        match r {
            Ok(()) => list_error(v@, stabilized_err(*site, *data)) is None,
            Err(m) => list_error(v@, stabilized_err(*site, *data)) == Some(m@),
        },
{
    let ghost err = stabilized_err(*site, *data);
    let mut i: usize = 0;
    while i < v.len()
        invariant
            i <= v.len(),
            site.wf(),
            err == stabilized_err(*site, *data),
            first_error(v@, err, i as int) is None,
        decreases v.len() - i,
    {
        let id = v[i].as_str();
        if data.object(id).is_none() || !site_has_target(site, id) || seen_before(v, i, id) {
            let mut m = "save references unknown or duplicate stabilized target '".to_owned();
            m.append(id);
            m.append("'");
            proof {
                assert(err(v@, i as int) == Some(m@));
                lemma_first_error_stays(v@, err, i + 1, v.len() as int);
            }
            return Err(m);
        }
        assert(err(v@, i as int) is None);
        i = i + 1;
    }
    Ok(())
}

/// Checks the run's manifest, entry by entry.
fn check_cargo(cargo: &Vec<CargoItem>, ps: &Vec<PlacedItem>) -> (r: Result<(), String>)
    ensures
        match r {
            Ok(()) => list_error(cargo@, cargo_err(ps@)) is None,
            Err(m) => list_error(cargo@, cargo_err(ps@)) == Some(m@),
        },
{
    let ghost err = cargo_err(ps@);
    let ghost s = cargo@;
    let mut i: usize = 0;
    while i < cargo.len()
        invariant
            i <= cargo.len(),
            s == cargo@,
            err == cargo_err(ps@),
            first_error(s, err, i as int) is None,
        decreases cargo.len() - i,
    {
        let c = &cargo[i];
        let mut dup = false;
        let mut j: usize = 0;
        while j < i
            invariant
                j <= i,
                i < cargo.len(),
                s == cargo@,
                dup == cargo_ids(s.take(j as int)).contains(c.object_id@),
            decreases i - j,
        {
            proof {
                assert(cargo_ids(s.take(j + 1)) =~= cargo_ids(s.take(j as int)).push(
                    s[j as int].object_id@,
                ));
                lemma_contains_push(cargo_ids(s.take(j as int)), s[j as int].object_id@, c.object_id@);
            }
            if cargo[j].object_id == c.object_id {
                dup = true;
            }
            j = j + 1;
        }
        let key = crate::session::cargo_layout_id(c.object_id.as_str());
        let found = find_item(ps, &key);
        let mut message: Option<String> = None;
        if dup {
            let mut m = "save contains duplicate cargo '".to_owned();
            m.append(c.object_id.as_str());
            m.append("'");
            message = Some(m);
        } else {
            match c.status {
                CargoStatus::Packed => match (c.position, found) {
                    (None, _) => {
                        let mut m = "packed cargo '".to_owned();
                        m.append(c.object_id.as_str());
                        m.append("' has no position");
                        message = Some(m);
                    },
                    (Some(_), None) => {
                        let mut m = "packed cargo '".to_owned();
                        m.append(c.object_id.as_str());
                        m.append("' is missing from the layout");
                        message = Some(m);
                    },
                    (Some(pos), Some(k)) => if ps[k].permanent || ps[k].position != pos
                        || ps[k].rotation != c.rotation % 2 {
                        let mut m = "packed cargo '".to_owned();
                        m.append(c.object_id.as_str());
                        m.append("' does not match the layout");
                        message = Some(m);
                    },
                },
                CargoStatus::Lost => {
                    message = Some("active expedition contains lost cargo".to_owned());
                },
                _ => if c.position.is_some() || found.is_some() {
                    let mut m = "unpacked cargo '".to_owned();
                    m.append(c.object_id.as_str());
                    m.append("' occupies the layout");
                    message = Some(m);
                },
            }
        }
        match message {
            Some(m) => {
                proof {
                    assert(err(s, i as int) == Some(m@));
                    lemma_first_error_stays(s, err, i + 1, s.len() as int);
                }
                return Err(m);
            },
            None => {
                assert(err(s, i as int) is None);
            },
        }
        i = i + 1;
    }
    Ok(())
}

fn check_expedition(e: &ExpeditionState, ps: &Vec<PlacedItem>, data: &GameData) -> (r: Result<
    (),
    String,
>)
    requires
        data.wf(),
    ensures
        match r {
            Ok(()) => expedition_error(*e, ps@, *data) is None,
            Err(m) => expedition_error(*e, ps@, *data) == Some(m@),
        },
{
    let site = match data.site(e.site_id.as_str()) {
        Some(s) => s,
        None => {
            return Err("save contains an invalid workspace section".to_owned());
        },
    };
    if !site_has_section(site, e.workspace_section.as_str()) {
        return Err("save contains an invalid workspace section".to_owned());
    }
    let mut i: usize = 0;
    while i < e.revealed_targets.len()
        invariant
            i <= e.revealed_targets.len(),
            data.site_spec(e.site_id@) == Some(*site),
            site_section(*site, e.workspace_section@),
            forall|k: int| 0 <= k < i ==> known_object(*data, #[trigger] e.revealed_targets@[k]@),
        decreases e.revealed_targets.len() - i,
    {
        if data.object(e.revealed_targets[i].as_str()).is_none() {
            assert(!known_object(*data, e.revealed_targets@[i as int]@));
            assert(exists|k: int|
                0 <= k < e.revealed_targets.len() && !known_object(
                    *data,
                    #[trigger] e.revealed_targets@[k]@,
                ));
            return Err("save contains an unknown revealed target".to_owned());
        }
        i = i + 1;
    }
    if e.workspace_energy_capacity <= 0 || e.workspace_energy < 0 || e.workspace_energy
        > e.workspace_energy_capacity {
        return Err("save contains an invalid workspace power reserve".to_owned());
    }
    match check_stabilized(&e.stabilized_targets, site, data) {
        Err(m) => return Err(m),
        Ok(()) => {},
    }
    check_cargo(&e.cargo, ps)
}

/// A load waiting at port is listed once and sits in the grid where it says.
pub open spec fn returned_err(ps: Seq<PlacedItem>) -> spec_fn(Seq<ReturnedItem>, int) -> Option<
    Seq<char>,
> {
    |s: Seq<ReturnedItem>, i: int|
        {
            let c = s[i];
            let k = layout_index(ps, cargo_layout_key(c.object_id@));
            if returned_ids(s.take(i)).contains(c.object_id@) {
                Some("save contains duplicate returned cargo '"@ + c.object_id@ + "'"@)
            } else if k < 0 {
                Some("returned cargo '"@ + c.object_id@ + "' is missing from the layout"@)
            } else if ps[k].permanent || ps[k].position != c.position || ps[k].rotation != c.rotation
                % 2 {
                Some("returned cargo '"@ + c.object_id@ + "' does not match the layout"@)
            } else {
                None
            }
        }
}

fn check_returned(returned: &Vec<ReturnedItem>, ps: &Vec<PlacedItem>) -> (r: Result<(), String>)
    ensures
        match r {
            Ok(()) => list_error(returned@, returned_err(ps@)) is None,
            Err(m) => list_error(returned@, returned_err(ps@)) == Some(m@),
        },
{
    let ghost err = returned_err(ps@);
    let ghost s = returned@;
    let mut i: usize = 0;
    while i < returned.len()
        invariant
            i <= returned.len(),
            s == returned@,
            err == returned_err(ps@),
            first_error(s, err, i as int) is None,
        decreases returned.len() - i,
    {
        let c = &returned[i];
        let mut dup = false;
        let mut j: usize = 0;
        while j < i
            invariant
                j <= i,
                i < returned.len(),
                s == returned@,
                dup == returned_ids(s.take(j as int)).contains(c.object_id@),
            decreases i - j,
        {
            proof {
                assert(returned_ids(s.take(j + 1)) =~= returned_ids(s.take(j as int)).push(
                    s[j as int].object_id@,
                ));
                lemma_contains_push(returned_ids(s.take(j as int)), s[j as int].object_id@, c.object_id@);
            }
            if returned[j].object_id == c.object_id {
                dup = true;
            }
            j = j + 1;
        }
        let key = crate::session::cargo_layout_id(c.object_id.as_str());
        let mut message: Option<String> = None;
        if dup {
            let mut m = "save contains duplicate returned cargo '".to_owned();
            m.append(c.object_id.as_str());
            m.append("'");
            message = Some(m);
        } else {
            match find_item(ps, &key) {
                None => {
                    let mut m = "returned cargo '".to_owned();
                    m.append(c.object_id.as_str());
                    m.append("' is missing from the layout");
                    message = Some(m);
                },
                Some(k) => if ps[k].permanent || ps[k].position != c.position || ps[k].rotation
                    != c.rotation % 2 {
                    let mut m = "returned cargo '".to_owned();
                    m.append(c.object_id.as_str());
                    m.append("' does not match the layout");
                    message = Some(m);
                },
            }
        }
        match message {
            Some(m) => {
                proof {
                    assert(err(s, i as int) == Some(m@));
                    lemma_first_error_stays(s, err, i + 1, s.len() as int);
                }
                return Err(m);
            },
            None => {
                assert(err(s, i as int) is None);
            },
        }
        i = i + 1;
    }
    Ok(())
}

/// Whether the save still holds the load a temporary grid item stands for:
/// packed in the run, or waiting at port.
pub open spec fn load_held(s: GameSession, object: Seq<char>) -> bool {
    ||| (s.expedition is Some && exists|k: int|
        0 <= k < s.expedition.unwrap().cargo.len() && (#[trigger] s.expedition.unwrap().cargo@[k]).object_id@
            == object && s.expedition.unwrap().cargo@[k].status == CargoStatus::Packed)
    ||| exists|k: int| 0 <= k < s.returned.len() && (#[trigger] s.returned@[k]).object_id@ == object
}

/// A temporary grid item is a load that the save still holds.
pub open spec fn temporary_err(s: GameSession) -> spec_fn(Seq<PlacedItem>, int) -> Option<Seq<char>> {
    |ps: Seq<PlacedItem>, i: int|
        if ps[i].permanent {
            None
        } else if !is_cargo_key(ps[i].id@) {
            Some("temporary layout item '"@ + ps[i].id@ + "' is not cargo"@)
        } else if !load_held(s, ps[i].id@.skip(6)) {
            Some("layout contains cargo not present in the save state: '"@ + ps[i].id@.skip(6) + "'"@)
        } else {
            None
        }
}

fn holds_load(session: &GameSession, object: &str) -> (r: bool)
    ensures
        r == load_held(*session, object@),
{
    let in_run = match &session.expedition {
        Some(e) => {
            let mut found = false;
            let mut k: usize = 0;
            while k < e.cargo.len()
                invariant
                    k <= e.cargo.len(),
                    found == exists|j: int|
                        0 <= j < k && (#[trigger] e.cargo@[j]).object_id@ == object@
                            && e.cargo@[j].status == CargoStatus::Packed,
                decreases e.cargo.len() - k,
            {
                if crate::text::same_text(e.cargo[k].object_id.as_str(), object) && e.cargo[k].status
                    == CargoStatus::Packed {
                    found = true;
                }
                k = k + 1;
            }
            found
        },
        None => false,
    };
    let mut in_port = false;
    let mut k: usize = 0;
    while k < session.returned.len()
        invariant
            k <= session.returned.len(),
            in_port == exists|j: int|
                0 <= j < k && (#[trigger] session.returned@[j]).object_id@ == object@,
        decreases session.returned.len() - k,
    {
        if crate::text::same_text(session.returned[k].object_id.as_str(), object) {
            in_port = true;
        }
        k = k + 1;
    }
    in_run || in_port
}

/// Why a loaded session is refused beyond its grid, if it is: the first
/// failing check, in the order the checks run. `ps` is the grid rebuilt
/// from the save.
pub open spec fn runtime_error(s: GameSession, ps: Seq<PlacedItem>, data: GameData) -> Option<Seq<char>> {
    if s.selected_site is Some && data.site_spec(s.selected_site.unwrap()@) is None {
        Some("save references missing selected site '"@ + s.selected_site.unwrap()@ + "'"@)
    } else if exists|i: int|
        0 <= i < s.site_progress.len() && data.site_spec((#[trigger] s.site_progress@[i]).site_id@)
            is None {
        Some("save contains progress for an unknown site"@)
    } else if s.expedition is Some && (s.expedition.unwrap().power_cycles_used > 1
        || s.expedition.unwrap().workspace_energy < 0 || s.expedition.unwrap().workspace_energy
        > s.expedition.unwrap().workspace_energy_capacity
        || s.expedition.unwrap().workspace_energy_capacity <= 0) {
        Some("save contains an invalid workspace power reserve"@)
    } else if list_error(s.site_progress@, progress_err(data)) is Some {
        list_error(s.site_progress@, progress_err(data))
    } else if list_error(s.voyage_log@, record_err(data)) is Some {
        list_error(s.voyage_log@, record_err(data))
    } else if list_error(s.unlocked_modules@, unlocked_err(data)) is Some {
        list_error(s.unlocked_modules@, unlocked_err(data))
    } else if list_error(s.damaged_modules@, damaged_err(data, ps)) is Some {
        list_error(s.damaged_modules@, damaged_err(data, ps))
    } else if s.load_count_spec(data, None, true) > s.external_capacity_spec(data) {
        Some("save exceeds the ship's external clamp capacity"@)
    } else if s.expedition is Some && s.returned.len() > 0 {
        Some("save cannot contain both an active expedition and returned cargo"@)
    } else if s.expedition is Some && expedition_error(s.expedition.unwrap(), ps, data) is Some {
        expedition_error(s.expedition.unwrap(), ps, data)
    } else if list_error(s.returned@, returned_err(ps)) is Some {
        list_error(s.returned@, returned_err(ps))
    } else {
        list_error(ps, temporary_err(s))
    }
}

/// The checks before stage `stage` of `runtime_error` all pass.
pub open spec fn runtime_passes(s: GameSession, ps: Seq<PlacedItem>, data: GameData, stage: int) -> bool {
    &&& stage > 1 ==> !(s.selected_site is Some && data.site_spec(s.selected_site.unwrap()@) is None)
    &&& stage > 2 ==> forall|i: int|
        0 <= i < s.site_progress.len() ==> data.site_spec((#[trigger] s.site_progress@[i]).site_id@)
            is Some
    &&& stage > 3 ==> !(s.expedition is Some && (s.expedition.unwrap().power_cycles_used > 1
        || s.expedition.unwrap().workspace_energy < 0 || s.expedition.unwrap().workspace_energy
        > s.expedition.unwrap().workspace_energy_capacity
        || s.expedition.unwrap().workspace_energy_capacity <= 0))
    &&& stage > 4 ==> list_error(s.site_progress@, progress_err(data)) is None
    &&& stage > 5 ==> list_error(s.voyage_log@, record_err(data)) is None
    &&& stage > 6 ==> list_error(s.unlocked_modules@, unlocked_err(data)) is None
    &&& stage > 7 ==> list_error(s.damaged_modules@, damaged_err(data, ps)) is None
    &&& stage > 8 ==> s.load_count_spec(data, None, true) <= s.external_capacity_spec(data)
    &&& stage > 9 ==> !(s.expedition is Some && s.returned.len() > 0)
    &&& stage > 10 ==> !(s.expedition is Some && expedition_error(s.expedition.unwrap(), ps, data)
        is Some)
    &&& stage > 11 ==> list_error(s.returned@, returned_err(ps)) is None
}

pub open spec fn progress_err(data: GameData) -> spec_fn(Seq<SiteProgress>, int) -> Option<Seq<char>> {
    |s: Seq<SiteProgress>, i: int| progress_error(s[i], data.site_spec(s[i].site_id@).unwrap(), data)
}

/// Everything a loaded session must satisfy beyond its grid.
pub open spec fn runtime_valid(s: GameSession, ps: Seq<PlacedItem>, data: GameData) -> bool {
    runtime_error(s, ps, data) is None
}

pub(crate) fn has_permanent_id(ps: &Vec<PlacedItem>, id: &str) -> (r: bool)
    ensures
        r == exists|j: int| 0 <= j < ps.len() && ps@[j].permanent && ps@[j].id@ == id@,
{
    let mut j: usize = 0;
    while j < ps.len()
        invariant
            j <= ps.len(),
            forall|x: int| 0 <= x < j ==> !(ps@[x].permanent && ps@[x].id@ == id@),
        decreases ps.len() - j,
    {
        if ps[j].permanent && crate::text::same_text(ps[j].id.as_str(), id) {
            return true;
        }
        j = j + 1;
    }
    false
}

pub(crate) proof fn lemma_contains_push<A>(s: Seq<A>, a: A, x: A)
    ensures
        s.push(a).contains(x) <==> (s.contains(x) || a == x),
{
    if s.push(a).contains(x) {
        let k = choose|k: int| 0 <= k < s.push(a).len() && s.push(a)[k] == x;
        if k < s.len() {
            assert(s[k] == x);
        }
    }
    if s.contains(x) {
        let k = choose|k: int| 0 <= k < s.len() && s[k] == x;
        assert(s.push(a)[k] == x);
    }
    if a == x {
        assert(s.push(a)[s.len() as int] == x);
    }
}

/// Checks a list of module identifiers one by one: unlocked blueprints when
/// `ps` is none, damage records against the grid otherwise.
fn check_modules(v: &Vec<String>, data: &GameData, ps: Option<&Vec<PlacedItem>>) -> (r: Result<
    (),
    String,
>)
    ensures
        ps is None ==> match r {
            Ok(()) => list_error(v@, unlocked_err(*data)) is None,
            Err(m) => list_error(v@, unlocked_err(*data)) == Some(m@),
        },
        ps is Some ==> match r {
            Ok(()) => list_error(v@, damaged_err(*data, ps.unwrap()@)) is None,
            Err(m) => list_error(v@, damaged_err(*data, ps.unwrap()@)) == Some(m@),
        },
{
    let ghost uerr = unlocked_err(*data);
    let ghost derr = damaged_err(*data, ps.unwrap()@);
    let mut i: usize = 0;
    while i < v.len()
        invariant
            i <= v.len(),
            uerr == unlocked_err(*data),
            derr == damaged_err(*data, ps.unwrap()@),
            ps is None ==> first_error(v@, uerr, i as int) is None,
            ps is Some ==> first_error(v@, derr, i as int) is None,
        decreases v.len() - i,
    {
        let id = v[i].as_str();
        let installed = match ps {
            Some(items) => has_permanent_id(items, id),
            None => true,
        };
        if data.module(id).is_none() || !installed || seen_before(v, i, id) {
            let mut m = match ps {
                Some(_) => "save contains an invalid damaged module '".to_owned(),
                None => "save contains an invalid unlocked module '".to_owned(),
            };
            m.append(id);
            m.append("'");
            proof {
                if ps is None {
                    assert(uerr(v@, i as int) == Some(m@));
                    lemma_first_error_stays(v@, uerr, i + 1, v.len() as int);
                } else {
                    assert(derr(v@, i as int) == Some(m@));
                    lemma_first_error_stays(v@, derr, i + 1, v.len() as int);
                }
            }
            return Err(m);
        }
        proof {
            if ps is None {
                assert(uerr(v@, i as int) is None);
            } else {
                assert(derr(v@, i as int) is None);
            }
        }
        i = i + 1;
    }
    Ok(())
}

/// Checks everything a loaded session must satisfy beyond its grid; the
/// grid is the one rebuilt from the save. The first failing check gives the
/// error.
pub fn validate_saved_runtime(session: &GameSession, checked: &ShipLayout, data: &GameData) -> (r:
    Result<(), String>)
    requires
        session.bounded(),
        data.wf(),
    ensures
        match r {
            Ok(()) => runtime_error(*session, checked.placements@, *data) is None,
            Err(m) => runtime_error(*session, checked.placements@, *data) == Some(m@),
        },
{
    let ghost ps = checked.placements@;
    match &session.selected_site {
        Some(id) => if data.site(id.as_str()).is_none() {
            let mut e = "save references missing selected site '".to_owned();
            e.append(id.as_str());
            e.append("'");
            return Err(e);
        },
        None => {},
    }
    let mut i: usize = 0;
    while i < session.site_progress.len()
        invariant
            i <= session.site_progress.len(),
            runtime_passes(*session, ps, *data, 2),
            forall|k: int|
                0 <= k < i ==> data.site_spec((#[trigger] session.site_progress@[k]).site_id@) is Some,
        decreases session.site_progress.len() - i,
    {
        if data.site(session.site_progress[i].site_id.as_str()).is_none() {
            assert(data.site_spec(session.site_progress@[i as int].site_id@) is None);
            return Err("save contains progress for an unknown site".to_owned());
        }
        i = i + 1;
    }
    match &session.expedition {
        Some(e) => if e.power_cycles_used > 1 || e.workspace_energy < 0 || e.workspace_energy
            > e.workspace_energy_capacity || e.workspace_energy_capacity <= 0 {
            return Err("save contains an invalid workspace power reserve".to_owned());
        },
        None => {},
    }
    let ghost perr = progress_err(*data);
    let mut i: usize = 0;
    while i < session.site_progress.len()
        invariant
            i <= session.site_progress.len(),
            data.wf(),
            runtime_passes(*session, ps, *data, 4),
            perr == progress_err(*data),
            forall|k: int|
                0 <= k < session.site_progress.len() ==> data.site_spec(
                    (#[trigger] session.site_progress@[k]).site_id@,
                ) is Some,
            first_error(session.site_progress@, perr, i as int) is None,
        decreases session.site_progress.len() - i,
    {
        let p = &session.site_progress[i];
        let site = match data.site(p.site_id.as_str()) {
            Some(s) => s,
            None => {
                assert(data.site_spec(session.site_progress@[i as int].site_id@) is Some);
                return Err("save contains progress for an unknown site".to_owned());
            },
        };
        match check_progress(p, site, data) {
            Ok(()) => {
                assert(perr(session.site_progress@, i as int) is None);
            },
            Err(e) => {
                proof {
                    assert(perr(session.site_progress@, i as int) == Some(e@));
                    lemma_first_error_stays(
                        session.site_progress@,
                        perr,
                        i + 1,
                        session.site_progress.len() as int,
                    );
                }
                return Err(e);
            },
        }
        i = i + 1;
    }
    let ghost rerr = record_err(*data);
    let mut i: usize = 0;
    while i < session.voyage_log.len()
        invariant
            i <= session.voyage_log.len(),
            data.wf(),
            runtime_passes(*session, ps, *data, 5),
            rerr == record_err(*data),
            first_error(session.voyage_log@, rerr, i as int) is None,
        decreases session.voyage_log.len() - i,
    {
        match check_record(&session.voyage_log[i], data) {
            Err(m) => {
                proof {
                    assert(rerr(session.voyage_log@, i as int) == Some(m@));
                    lemma_first_error_stays(
                        session.voyage_log@,
                        rerr,
                        i + 1,
                        session.voyage_log.len() as int,
                    );
                }
                return Err(m);
            },
            Ok(()) => {
                assert(rerr(session.voyage_log@, i as int) is None);
            },
        }
        i = i + 1;
    }
    match check_modules(&session.unlocked_modules, data, None) {
        Err(m) => return Err(m),
        Ok(()) => {},
    }
    match check_modules(&session.damaged_modules, data, Some(&checked.placements)) {
        Err(m) => return Err(m),
        Ok(()) => {},
    }
    if session.external_cargo_count(data, None) > session.external_capacity(data) {
        return Err("save exceeds the ship's external clamp capacity".to_owned());
    }
    if session.expedition.is_some() && session.returned.len() > 0 {
        return Err("save cannot contain both an active expedition and returned cargo".to_owned());
    }
    match &session.expedition {
        Some(e) => match check_expedition(e, &checked.placements, data) {
            Err(m) => return Err(m),
            Ok(()) => {},
        },
        None => {},
    }
    match check_returned(&session.returned, &checked.placements) {
        Err(m) => return Err(m),
        Ok(()) => {},
    }
    let ghost terr = temporary_err(*session);
    let mut k: usize = 0;
    while k < checked.placements.len()
        invariant
            k <= checked.placements.len(),
            ps == checked.placements@,
            runtime_passes(*session, ps, *data, 12),
            terr == temporary_err(*session),
            first_error(ps, terr, k as int) is None,
        decreases checked.placements.len() - k,
    {
        let item = &checked.placements[k];
        if !item.permanent {
            let id = item.id.as_str();
            let n = id.unicode_len();
            let mut cargo = false;
            if n >= 6 {
                let head = id.substring_char(0, 6);
                cargo = crate::text::same_text(head, "cargo:");
                proof {
                    assert(head@ == id@.take(6));
                }
            }
            if !cargo {
                let mut e = "temporary layout item '".to_owned();
                e.append(id);
                e.append("' is not cargo");
                proof {
                    assert(terr(ps, k as int) == Some(e@));
                    lemma_first_error_stays(ps, terr, k + 1, ps.len() as int);
                }
                return Err(e);
            }
            let object = id.substring_char(6, n);
            proof {
                assert(object@ == id@.skip(6));
            }
            if !holds_load(session, object) {
                let mut e = "layout contains cargo not present in the save state: '".to_owned();
                e.append(object);
                e.append("'");
                proof {
                    assert(terr(ps, k as int) == Some(e@));
                    lemma_first_error_stays(ps, terr, k + 1, ps.len() as int);
                }
                return Err(e);
            }
        }
        assert(terr(ps, k as int) is None);
        k = k + 1;
    }
    Ok(())
}

} // verus!
