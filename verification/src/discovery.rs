//! Port discovery: whether a new wreck lead may be sought.

use crate::data::{DiscoveryPool, GameData, LeadKind, ModuleData, SiteData, WreckSectionData};
use crate::session::{GameSession, WreckRecord};
use crate::text::{decimal, joined, views};
use vstd::prelude::*;

verus! {

/// `text` with every occurrence of `pat`, taken left to right without
/// overlap, replaced by `with`.
pub open spec fn replaced(text: Seq<char>, pat: Seq<char>, with: Seq<char>) -> Seq<char>
    decreases text.len(),
{
    if pat.len() == 0 || text.len() == 0 {
        text
    } else if pat.len() <= text.len() && text.take(pat.len() as int) == pat {
        with + replaced(text.skip(pat.len() as int), pat, with)
    } else {
        seq![text[0]] + replaced(text.skip(1), pat, with)
    }
}

/// Replaces every occurrence of a non-empty placeholder.
pub fn replace_text(text: &str, pat: &str, with: &str) -> (r: String)
    requires
        pat@.len() > 0,
    ensures
        r@ == replaced(text@, pat@, with@),
{
    let n = text.unicode_len();
    let p = pat.unicode_len();
    let mut out = String::new();
    let mut i: usize = 0;
    proof {
        assert(text@.skip(0) =~= text@);
        assert(out@ + replaced(text@, pat@, with@) =~= replaced(text@, pat@, with@));
    }
    while i < n
        invariant
            i <= n,
            n == text@.len(),
            p == pat@.len(),
            p > 0,
            replaced(text@, pat@, with@) == out@ + replaced(text@.skip(i as int), pat@, with@),
        decreases n - i,
    {
        let ghost rest = text@.skip(i as int);
        if p <= n - i && crate::text::same_text(text.substring_char(i, i + p), pat) {
            proof {
                assert(rest.take(p as int) =~= text@.subrange(i as int, i + p));
                assert(rest.skip(p as int) =~= text@.skip(i + p));
            }
            let ghost before = out@;
            out.append(with);
            proof {
                assert(before + replaced(rest, pat@, with@) =~= out@ + replaced(text@.skip(i + p), pat@, with@));
            }
            i = i + p;
        } else {
            let c = text.substring_char(i, i + 1);
            proof {
                if p <= n - i {
                    assert(rest.take(p as int) =~= text@.subrange(i as int, i + p));
                }
                assert(c@ =~= seq![rest[0]]);
                assert(rest.skip(1) =~= text@.skip(i + 1));
            }
            let ghost before = out@;
            out.append(c);
            proof {
                assert(before + replaced(rest, pat@, with@) =~= out@ + replaced(text@.skip(i + 1), pat@, with@));
            }
            i = i + 1;
        }
    }
    proof {
        assert(text@.skip(n as int).len() == 0);
        assert(out@ + replaced(text@.skip(n as int), pat@, with@) =~= out@);
    }
    out
}

/// How many of the catalog's first `n` wrecks still hold something to
/// recover.
pub open spec fn active_count(s: GameSession, data: GameData, n: int) -> int
    decreases n,
{
    if n <= 0 {
        0
    } else {
        active_count(s, data, n - 1) + if s.depleted_spec(data.sites@[n - 1].id@, data) {
            0int
        } else {
            1int
        }
    }
}

/// Whether some pool of the lead's kind is open to the session's standing.
pub open spec fn pool_open(pools: Seq<DiscoveryPool>, specialist: bool, reputation: i32) -> bool {
    exists|i: int|
        0 <= i < pools.len() && (#[trigger] pools[i]).specialist == specialist
            && pools[i].minimum_reputation <= reputation
}

impl GameSession {
    /// Why a lead of this kind cannot be sought now, if it cannot.
    pub open spec fn discovery_block_spec(&self, kind: LeadKind, data: GameData) -> Option<Seq<char>> {
        let copy = data.discovery.copy;
        if self.expedition is Some || self.returned.len() > 0 {
            Some(copy.busy@)
        } else if active_count(*self, data, data.sites.len() as int) >= data.discovery.active_limit {
            Some(copy.full@)
        } else if !pool_open(data.discovery.pools@, kind == LeadKind::Specialist, self.reputation) {
            Some(copy.locked@)
        } else if kind == LeadKind::Specialist && self.economy.credits < data.discovery.specialist_cost {
            Some(replaced(copy.unaffordable@, "{cost}"@, decimal(data.discovery.specialist_cost as int)))
        } else {
            None
        }
    }

    /// Why a lead of this kind cannot be sought now: a voyage or its loads
    /// still in hand, a chart already full of workable wrecks, no pool of
    /// that kind open to the session's standing, or, for a specialist lead,
    /// a wallet short of its cost.
    pub fn discovery_block_reason(&self, kind: LeadKind, data: &GameData) -> (r: Option<String>)
        requires
            data.wf(),
        ensures
            match r {
                Some(m) => self.discovery_block_spec(kind, *data) == Some(m@),
                None => self.discovery_block_spec(kind, *data) is None,
            },
    {
        let copy = &data.discovery.copy;
        if self.expedition.is_some() || self.returned.len() > 0 {
            return Some(copy.busy.clone());
        }
        let mut active: usize = 0;
        let mut i: usize = 0;
        while i < data.sites.len()
            invariant
                i <= data.sites.len(),
                data.wf(),
                active <= i,
                active == active_count(*self, *data, i as int),
            decreases data.sites.len() - i,
        {
            if !self.wreck_depleted(data.sites[i].id.as_str(), data) {
                active = active + 1;
            }
            i = i + 1;
        }
        if active >= data.discovery.active_limit {
            return Some(copy.full.clone());
        }
        let specialist = kind == LeadKind::Specialist;
        let mut open = false;
        let mut j: usize = 0;
        while j < data.discovery.pools.len()
            invariant
                j <= data.discovery.pools.len(),
                open == exists|x: int|
                    0 <= x < j && (#[trigger] data.discovery.pools@[x]).specialist == specialist
                        && data.discovery.pools@[x].minimum_reputation <= self.reputation,
            decreases data.discovery.pools.len() - j,
        {
            let pool = &data.discovery.pools[j];
            if pool.specialist == specialist && pool.minimum_reputation <= self.reputation {
                open = true;
            }
            j = j + 1;
        }
        if !open {
            return Some(copy.locked.clone());
        }
        if specialist && self.economy.credits < data.discovery.specialist_cost {
            let mut cost = String::new();
            crate::text::push_int(&mut cost, data.discovery.specialist_cost);
            let pat = "{cost}";
            proof {
                reveal_strlit("{cost}");
            }
            return Some(replace_text(copy.unaffordable.as_str(), pat, cost.as_str()));
        }
        None
    }
}

/// Identifiers in character order, a prefix first.
pub open spec fn lex_le(a: Seq<char>, b: Seq<char>) -> bool
    decreases a.len(),
{
    if a.len() == 0 {
        true
    } else if b.len() == 0 {
        false
    } else if (a[0] as int) < (b[0] as int) {
        true
    } else if (a[0] as int) > (b[0] as int) {
        false
    } else {
        lex_le(a.skip(1), b.skip(1))
    }
}

pub proof fn lemma_lex_total(a: Seq<char>, b: Seq<char>)
    ensures
        lex_le(a, b) || lex_le(b, a),
    decreases a.len(),
{
    if a.len() > 0 && b.len() > 0 && (a[0] as int) == (b[0] as int) {
        lemma_lex_total(a.skip(1), b.skip(1));
    }
}

pub proof fn lemma_lex_trans(a: Seq<char>, b: Seq<char>, c: Seq<char>)
    requires
        lex_le(a, b),
        lex_le(b, c),
    ensures
        lex_le(a, c),
    decreases a.len(),
{
    if a.len() > 0 && b.len() > 0 && c.len() > 0 && (a[0] as int) == (b[0] as int) && (b[0] as int)
        == (c[0] as int) {
        lemma_lex_trans(a.skip(1), b.skip(1), c.skip(1));
    }
}

fn text_le(a: &str, b: &str) -> (r: bool)
    ensures
        r == lex_le(a@, b@),
{
    let n = a.unicode_len();
    let m = b.unicode_len();
    let mut i: usize = 0;
    proof {
        assert(a@.skip(0) =~= a@);
        assert(b@.skip(0) =~= b@);
    }
    while i < n && i < m
        invariant
            i <= n,
            i <= m,
            n == a@.len(),
            m == b@.len(),
            lex_le(a@, b@) == lex_le(a@.skip(i as int), b@.skip(i as int)),
        decreases n - i,
    {
        let x = a.get_char(i);
        let y = b.get_char(i);
        proof {
            assert(a@.skip(i as int)[0] == x);
            assert(b@.skip(i as int)[0] == y);
            assert(a@.skip(i as int).skip(1) =~= a@.skip(i + 1));
            assert(b@.skip(i as int).skip(1) =~= b@.skip(i + 1));
        }
        if (x as u32) < (y as u32) {
            return true;
        }
        if (x as u32) > (y as u32) {
            return false;
        }
        i = i + 1;
    }
    i == n
}

/// The serial a site was charted under; zero for an authored wreck.
pub open spec fn serial_of(wrecks: Seq<WreckRecord>, id: Seq<char>) -> int
    decreases wrecks.len(),
{
    if wrecks.len() == 0 {
        0
    } else if wrecks[0].site_id@ == id {
        wrecks[0].serial as int
    } else {
        serial_of(wrecks.skip(1), id)
    }
}

fn serial_for(wrecks: &Vec<WreckRecord>, id: &str) -> (r: u64)
    ensures
        r == serial_of(wrecks@, id@),
{
    let mut i: usize = 0;
    proof {
        assert(wrecks@.skip(0) =~= wrecks@);
    }
    while i < wrecks.len()
        invariant
            i <= wrecks.len(),
            serial_of(wrecks@, id@) == serial_of(wrecks@.skip(i as int), id@),
        decreases wrecks.len() - i,
    {
        proof {
            assert(wrecks@.skip(i as int)[0] == wrecks@[i as int]);
            assert(wrecks@.skip(i as int).skip(1) =~= wrecks@.skip(i + 1));
        }
        if crate::text::same_text(wrecks[i].site_id.as_str(), id) {
            return wrecks[i].serial;
        }
        i = i + 1;
    }
    proof {
        assert(wrecks@.skip(i as int).len() == 0);
    }
    0
}

/// Site `i` is listed no later than site `j`: charted later, or charted
/// together and named no later.
pub open spec fn listed_before(s: GameSession, data: GameData, i: int, j: int) -> bool {
    let a = serial_of(s.wrecks@, data.sites@[i].id@);
    let b = serial_of(s.wrecks@, data.sites@[j].id@);
    a > b || (a == b && lex_le(data.sites@[i].id@, data.sites@[j].id@))
}

impl GameSession {
    /// Whether catalog site `i` is listed on the chart page asked for: the
    /// archived page shows the wrecks with nothing left to recover.
    pub open spec fn on_page(&self, data: GameData, archived: bool, i: int) -> bool {
        0 <= i < data.sites.len() && self.depleted_spec(data.sites@[i].id@, data) == archived
    }

    fn site_listed_before(&self, data: &GameData, i: usize, j: usize) -> (r: bool)
        requires
            i < data.sites.len(),
            j < data.sites.len(),
        ensures
            r == listed_before(*self, *data, i as int, j as int),
    {
        let a = serial_for(&self.wrecks, data.sites[i].id.as_str());
        let b = serial_for(&self.wrecks, data.sites[j].id.as_str());
        a > b || (a == b && text_le(data.sites[i].id.as_str(), data.sites[j].id.as_str()))
    }

    /// The catalog wrecks on one chart page, as positions in the catalog:
    /// the active page, or the archived page of wrecks with nothing left
    /// to recover; the latest charted first, then by name.
    pub fn listed_wrecks(&self, data: &GameData, archived: bool) -> (r: Vec<usize>)
        requires
            data.wf(),
        ensures
            forall|i: usize| #[trigger] r@.contains(i) <==> self.on_page(*data, archived, i as int),
            forall|x: int, y: int| 0 <= x < y < r.len() ==> r@[x] != r@[y],
            forall|x: int, y: int|
                0 <= x < y < r.len() ==> listed_before(*self, *data, r@[x] as int, r@[y] as int),
    {
        let mut out: Vec<usize> = Vec::new();
        let mut k: usize = 0;
        while k < data.sites.len()
            invariant
                k <= data.sites.len(),
                data.wf(),
                forall|x: int| 0 <= x < out.len() ==> (#[trigger] out@[x]) < k,
                forall|i: usize|
                    i < data.sites.len() ==> (#[trigger] out@.contains(i) <==> (i < k
                        && self.on_page(*data, archived, i as int))),
                forall|x: int, y: int| 0 <= x < y < out.len() ==> out@[x] != out@[y],
                forall|x: int, y: int|
                    0 <= x < y < out.len() ==> listed_before(*self, *data, out@[x] as int, out@[y] as int),
            decreases data.sites.len() - k,
        {
            if self.wreck_depleted(data.sites[k].id.as_str(), data) == archived {
                let mut p: usize = 0;
                while p < out.len() && self.site_listed_before(data, out[p], k)
                    invariant
                        p <= out.len(),
                        k < data.sites.len(),
                        forall|x: int| 0 <= x < out.len() ==> (#[trigger] out@[x]) < k,
                        forall|x: int| 0 <= x < p ==> listed_before(*self, *data, #[trigger] out@[x] as int, k as int),
                    decreases out.len() - p,
                {
                    p = p + 1;
                }
                proof {
                    if p < out.len() {
                        let a = data.sites@[out@[p as int] as int].id@;
                        let b = data.sites@[k as int].id@;
                        lemma_lex_total(a, b);
                        assert(listed_before(*self, *data, k as int, out@[p as int] as int));
                        assert forall|y: int| p <= y < out.len() implies listed_before(
                            *self,
                            *data,
                            k as int,
                            #[trigger] out@[y] as int,
                        ) by {
                            if y > p {
                                let c = data.sites@[out@[y] as int].id@;
                                assert(listed_before(*self, *data, out@[p as int] as int, out@[y] as int));
                                if serial_of(self.wrecks@, b) == serial_of(self.wrecks@, a)
                                    && serial_of(self.wrecks@, a) == serial_of(self.wrecks@, c) {
                                    lemma_lex_trans(b, a, c);
                                }
                            }
                        }
                    }
                }
                let ghost before = out@;
                out.insert(p, k);
                proof {
                    before.insert_ensures(p as int, k);
                    assert forall|i: usize|
                        i < data.sites.len() implies (#[trigger] out@.contains(i) <==> (i
                        < k + 1 && self.on_page(*data, archived, i as int))) by {
                        if out@.contains(i) {
                            let x = choose|x: int| 0 <= x < out.len() && out@[x] == i;
                            if x < p {
                                assert(before[x] == out@[x]);
                                assert(before.contains(i));
                            } else if x > p {
                                assert(before[x - 1] == out@[x]);
                                assert(before.contains(i));
                            } else {
                                assert(i == k);
                            }
                        }
                        if i < k && self.on_page(*data, archived, i as int) {
                            assert(before.contains(i));
                            let x = choose|x: int| 0 <= x < before.len() && before[x] == i;
                            if x < p {
                                assert(out@[x] == before[x]);
                            } else {
                                assert(out@[x + 1] == before[x]);
                            }
                        }
                        if i == k {
                            assert(out@[p as int] == k);
                            assert(out@.contains(i));
                            assert(self.on_page(*data, archived, i as int));
                        }
                    }
                    assert forall|x: int, y: int| 0 <= x < y < out.len() implies out@[x] != out@[y]
                        && listed_before(*self, *data, out@[x] as int, out@[y] as int) by {
                        let bx = if x < p {
                            x
                        } else {
                            x - 1
                        };
                        let by = if y < p {
                            y
                        } else {
                            y - 1
                        };
                        if x != p as int && y != p as int {
                            assert(out@[x] == before[bx]);
                            assert(out@[y] == before[by]);
                        } else if x == p as int {
                            assert(out@[y] == before[by]);
                        } else {
                            assert(out@[x] == before[bx]);
                        }
                    }
                    assert forall|x: int| 0 <= x < out.len() implies (#[trigger] out@[x]) < k + 1 by {
                        if x < p {
                            assert(out@[x] == before[x]);
                        } else if x > p {
                            assert(out@[x] == before[x - 1]);
                        }
                    }
                }
            } else {
                proof {
                    assert forall|i: usize|
                        i < data.sites.len() implies (#[trigger] out@.contains(i) <==> (i
                        < k + 1 && self.on_page(*data, archived, i as int))) by {
                        if out@.contains(i) {
                            let x = choose|x: int| 0 <= x < out.len() && out@[x] == i;
                        }
                    }
                }
            }
            k = k + 1;
        }
        proof {
            assert forall|i: usize| #[trigger] out@.contains(i) <==> self.on_page(*data, archived, i as int) by {
                if out@.contains(i) {
                    let x = choose|x: int| 0 <= x < out.len() && out@[x] == i;
                    assert(out@[x] < data.sites.len());
                }
            }
        }
        out
    }
}

pub proof fn lemma_lex_antisym(a: Seq<char>, b: Seq<char>)
    requires
        lex_le(a, b),
        lex_le(b, a),
    ensures
        a == b,
    decreases a.len(),
{
    if a.len() > 0 && b.len() > 0 {
        assert((a[0] as int) == (b[0] as int));
        assert(a[0] == b[0]);
        lemma_lex_antisym(a.skip(1), b.skip(1));
        assert(a =~= seq![a[0]] + a.skip(1));
        assert(b =~= seq![b[0]] + b.skip(1));
    } else if a.len() == 0 && b.len() == 0 {
        assert(a =~= b);
    }
}

/// The capabilities the sections of a wreck ask for, in authored order.
pub open spec fn section_caps(sections: Seq<WreckSectionData>) -> Seq<Seq<char>>
    decreases sections.len(),
{
    if sections.len() == 0 {
        Seq::empty()
    } else {
        let rest = section_caps(sections.drop_last());
        match sections.last().required_capability {
            Some(c) => rest.push(c@),
            None => rest,
        }
    }
}

/// The capabilities the known salvage of a wreck asks for, in order.
pub open spec fn salvage_caps(ids: Seq<String>, data: GameData) -> Seq<Seq<char>>
    decreases ids.len(),
{
    if ids.len() == 0 {
        Seq::empty()
    } else {
        let rest = salvage_caps(ids.drop_last(), data);
        match data.object_spec(ids.last()@) {
            Some(o) => match o.required_capability {
                Some(c) => rest.push(c@),
                None => rest,
            },
            None => rest,
        }
    }
}

/// Strictly in character order, hence listed once each.
pub open spec fn sorted_unique(s: Seq<Seq<char>>) -> bool {
    forall|i: int, j: int| #![trigger s[i], s[j]] 0 <= i < j < s.len() ==> lex_le(s[i], s[j]) && s[i] != s[j]
}

/// A capability named for display: underscores read as spaces.
pub open spec fn spaced(c: Seq<char>) -> Seq<char> {
    c.map_values(|x: char| if x == '_' { ' ' } else { x })
}

/// The name the equipment readout gives a capability: the first catalog
/// module that provides it, else the capability itself, spaced.
pub open spec fn capability_name(mods: Seq<ModuleData>, c: Seq<char>) -> Seq<char>
    decreases mods.len(),
{
    if mods.len() == 0 {
        spaced(c)
    } else if mods[0].capability is Some && mods[0].capability.unwrap()@ == c {
        mods[0].display_name@
    } else {
        capability_name(mods.skip(1), c)
    }
}

/// The equipment readout for a sorted list of capabilities.
pub open spec fn equipment_text(caps: Seq<Seq<char>>, data: GameData) -> Seq<char> {
    if caps.len() == 0 {
        data.discovery.copy.starter_ready@
    } else {
        joined(caps.map_values(|c: Seq<char>| capability_name(data.modules@, c)), ", "@)
    }
}

fn spaced_text(c: &str) -> (r: String)
    ensures
        r@ == spaced(c@),
{
    let n = c.unicode_len();
    let mut out = String::new();
    let mut i: usize = 0;
    while i < n
        invariant
            i <= n,
            n == c@.len(),
            out@ == spaced(c@.take(i as int)),
        decreases n - i,
    {
        let ch = c.get_char(i);
        let ghost before = out@;
        if ch == '_' {
            out.append(" ");
            proof {
                reveal_strlit(" ");
            }
        } else {
            out.append(c.substring_char(i, i + 1));
        }
        proof {
            assert(spaced(c@.take(i + 1)) =~= spaced(c@.take(i as int)).push(
                if ch == '_' { ' ' } else { ch },
            ));
            assert(out@ =~= before.push(if ch == '_' { ' ' } else { ch }));
        }
        i = i + 1;
    }
    proof {
        assert(c@.take(n as int) =~= c@);
    }
    out
}

fn capability_name_of(mods: &Vec<ModuleData>, c: &str) -> (r: String)
    ensures
        r@ == capability_name(mods@, c@),
{
    let mut i: usize = 0;
    proof {
        assert(mods@.skip(0) =~= mods@);
    }
    while i < mods.len()
        invariant
            i <= mods.len(),
            capability_name(mods@, c@) == capability_name(mods@.skip(i as int), c@),
        decreases mods.len() - i,
    {
        proof {
            assert(mods@.skip(i as int)[0] == mods@[i as int]);
            assert(mods@.skip(i as int).skip(1) =~= mods@.skip(i + 1));
        }
        match &mods[i].capability {
            Some(k) => if crate::text::same_text(k.as_str(), c) {
                return mods[i].display_name.clone();
            },
            None => {},
        }
        i = i + 1;
    }
    proof {
        assert(mods@.skip(i as int).len() == 0);
    }
    spaced_text(c)
}

/// Puts a capability into a sorted list of distinct capabilities.
fn add_capability(caps: &mut Vec<String>, x: &String)
    requires
        sorted_unique(views(old(caps)@)),
    ensures
        sorted_unique(views(final(caps)@)),
        forall|y: Seq<char>| #[trigger] views(final(caps)@).contains(y) <==> (views(old(caps)@).contains(y)
            || y == x@),
{
    let ghost v = views(caps@);
    let mut p: usize = 0;
    while p < caps.len() && text_le(caps[p].as_str(), x.as_str()) && !crate::text::same_text(
        caps[p].as_str(),
        x.as_str(),
    )
        invariant
            p <= caps.len(),
            caps@ == old(caps)@,
            v == views(caps@),
            forall|q: int| 0 <= q < p ==> lex_le(#[trigger] v[q], x@) && v[q] != x@,
        decreases caps.len() - p,
    {
        p = p + 1;
    }
    if p < caps.len() && crate::text::same_text(caps[p].as_str(), x.as_str()) {
        proof {
            assert(v[p as int] == x@);
        }
        return;
    }
    proof {
        if p < caps.len() {
            lemma_lex_total(v[p as int], x@);
            assert forall|q: int| p <= q < v.len() implies lex_le(x@, #[trigger] v[q]) && v[q] != x@ by {
                if q > p {
                    assert(lex_le(v[p as int], v[q]) && v[p as int] != v[q]);
                    lemma_lex_trans(x@, v[p as int], v[q]);
                    if v[q] == x@ {
                        lemma_lex_antisym(v[p as int], x@);
                    }
                }
            }
        }
    }
    caps.insert(p, x.clone());
    proof {
        let w = views(caps@);
        assert(w =~= v.insert(p as int, x@));
        v.insert_ensures(p as int, x@);
        assert forall|i: int, j: int| 0 <= i < j < w.len() implies lex_le(w[i], w[j]) && w[i] != w[j] by {
            let bi = if i < p { i } else { i - 1 };
            let bj = if j < p { j } else { j - 1 };
            if i != p as int && j != p as int {
                assert(w[i] == v[bi] && w[j] == v[bj]);
            } else if i == p as int {
                assert(w[j] == v[bj]);
            } else {
                assert(w[i] == v[bi]);
            }
        }
        assert forall|y: Seq<char>| #[trigger] w.contains(y) <==> (v.contains(y) || y == x@) by {
            if w.contains(y) {
                let i = choose|i: int| 0 <= i < w.len() && w[i] == y;
                if i < p {
                    assert(v[i] == y);
                } else if i > p {
                    assert(v[i - 1] == y);
                }
            }
            if v.contains(y) {
                let i = choose|i: int| 0 <= i < v.len() && v[i] == y;
                if i < p {
                    assert(w[i] == y);
                } else {
                    assert(w[i + 1] == y);
                }
            }
            if y == x@ {
                assert(w[p as int] == y);
            }
        }
    }
}

impl GameSession {
    /// What a wreck asks of the ship: the capabilities its sections and its
    /// known salvage need, each named once in character order by the first
    /// catalog module that provides it; the starter readout when it needs
    /// none.
    pub fn wreck_equipment(&self, site: &SiteData, data: &GameData) -> (r: String)
        ensures
            exists|caps: Seq<Seq<char>>|
                {
                    &&& sorted_unique(caps)
                    &&& forall|y: Seq<char>|
                        #[trigger] caps.contains(y) <==> (section_caps(site.sections@)
                            + salvage_caps(site.candidate_salvage@, *data)).contains(y)
                    &&& r@ == equipment_text(caps, *data)
                },
    {
        let mut all: Vec<String> = Vec::new();
        let mut i: usize = 0;
        while i < site.sections.len()
            invariant
                i <= site.sections.len(),
                views(all@) == section_caps(site.sections@.take(i as int)),
            decreases site.sections.len() - i,
        {
            proof {
                assert(site.sections@.take(i + 1).drop_last() =~= site.sections@.take(i as int));
                assert(site.sections@.take(i + 1).last() == site.sections@[i as int]);
            }
            match &site.sections[i].required_capability {
                Some(c) => {
                    let ghost before = views(all@);
                    all.push(c.clone());
                    proof {
                        assert(views(all@) =~= before.push(c@));
                    }
                },
                None => {},
            }
            i = i + 1;
        }
        proof {
            assert(site.sections@.take(site.sections.len() as int) =~= site.sections@);
        }
        let ghost from_sections = views(all@);
        let mut j: usize = 0;
        while j < site.candidate_salvage.len()
            invariant
                j <= site.candidate_salvage.len(),
                views(all@) == from_sections + salvage_caps(site.candidate_salvage@.take(j as int), *data),
            decreases site.candidate_salvage.len() - j,
        {
            proof {
                assert(site.candidate_salvage@.take(j + 1).drop_last() =~= site.candidate_salvage@.take(
                    j as int,
                ));
                assert(site.candidate_salvage@.take(j + 1).last() == site.candidate_salvage@[j as int]);
            }
            match data.object(site.candidate_salvage[j].as_str()) {
                Some(o) => match &o.required_capability {
                    Some(c) => {
                        let ghost before = views(all@);
                        all.push(c.clone());
                        proof {
                            assert(views(all@) =~= before.push(c@));
                            assert(from_sections + salvage_caps(site.candidate_salvage@.take(j + 1), *data)
                                =~= before.push(c@));
                        }
                    },
                    None => {},
                },
                None => {},
            }
            j = j + 1;
        }
        proof {
            assert(site.candidate_salvage@.take(site.candidate_salvage.len() as int)
                =~= site.candidate_salvage@);
        }
        let ghost everything = views(all@);
        let mut caps: Vec<String> = Vec::new();
        let mut k: usize = 0;
        while k < all.len()
            invariant
                k <= all.len(),
                everything == views(all@),
                sorted_unique(views(caps@)),
                forall|y: Seq<char>|
                    #[trigger] views(caps@).contains(y) <==> everything.take(k as int).contains(y),
            decreases all.len() - k,
        {
            add_capability(&mut caps, &all[k]);
            proof {
                assert(everything.take(k + 1) =~= everything.take(k as int).push(all@[k as int]@));
                assert forall|y: Seq<char>| #[trigger] views(caps@).contains(y) <==> everything.take(
                    k + 1,
                ).contains(y) by {
                    crate::validation::lemma_contains_push(
                        everything.take(k as int),
                        all@[k as int]@,
                        y,
                    );
                }
            }
            k = k + 1;
        }
        proof {
            assert(everything.take(all.len() as int) =~= everything);
        }
        if caps.len() == 0 {
            proof {
                assert(views(caps@) =~= Seq::<Seq<char>>::empty());
            }
            return data.discovery.copy.starter_ready.clone();
        }
        let mut names: Vec<String> = Vec::new();
        let mut n: usize = 0;
        while n < caps.len()
            invariant
                n <= caps.len(),
                views(names@) == views(caps@).take(n as int).map_values(
                    |c: Seq<char>| capability_name(data.modules@, c),
                ),
            decreases caps.len() - n,
        {
            let name = capability_name_of(&data.modules, caps[n].as_str());
            let ghost before = views(names@);
            names.push(name);
            proof {
                assert(views(caps@)[n as int] == caps@[n as int]@);
                assert(views(caps@).take(n + 1) =~= views(caps@).take(n as int).push(caps@[n as int]@));
                assert(views(names@) =~= before.push(names@[n as int]@));
                assert(views(names@) =~= views(caps@).take(n + 1).map_values(
                    |c: Seq<char>| capability_name(data.modules@, c),
                ));
            }
            n = n + 1;
        }
        proof {
            assert(views(caps@).take(caps.len() as int) =~= views(caps@));
        }
        crate::text::join(&names, ", ")
    }
}

} // verus!
