//! Returned-salvage disposition: selling a load brought home, breaking it
//! down into materials, or installing the module it carries.

use crate::career::{nonneg, sat_i64, sat_u32, CareerStats};
use crate::data::GameData;
use crate::engine::market_quote_spec;
use crate::layout::{PlacedItem, ShipLayout};
use crate::progression::newly_unlocked_spec;
use crate::session::{cargo_layout_id, cargo_layout_key, DecisionRecord, Economy, GameSession, ReturnedItem, STOCK, WALLET};
use crate::text::{decimal, err_msg, joined, push_int, views};
use vstd::prelude::*;

verus! {

/// What is done with a load brought home.
#[derive(Clone, Copy, Debug, PartialEq, Eq, Structural)]
pub enum Disposition {
    Sell,
    Install,
    BreakDown,
}

impl Disposition {
    pub open spec fn name_spec(self) -> Seq<char> {
        match self {
            Disposition::Sell => "Sell"@,
            Disposition::Install => "Install"@,
            Disposition::BreakDown => "BreakDown"@,
        }
    }

    /// The name the decision log files the disposition under.
    pub fn name(self) -> (r: &'static str)
        ensures
            r@ == self.name_spec(),
    {
        match self {
            Disposition::Sell => "Sell",
            Disposition::Install => "Install",
            Disposition::BreakDown => "BreakDown",
        }
    }
}

/// Index of the first load at port with the identifier, or -1.
pub open spec fn returned_index(s: Seq<ReturnedItem>, id: Seq<char>) -> int
    decreases s.len(),
{
    if s.len() == 0 {
        -1
    } else {
        let k = returned_index(s.drop_last(), id);
        if k >= 0 {
            k
        } else if s.last().object_id@ == id {
            s.len() - 1
        } else {
            -1
        }
    }
}

proof fn lemma_returned_index_prefix(s: Seq<ReturnedItem>, id: Seq<char>, n: int)
    requires
        0 <= n <= s.len(),
        returned_index(s.take(n), id) >= 0,
    ensures
        returned_index(s, id) == returned_index(s.take(n), id),
    decreases s.len() - n,
{
    if n < s.len() {
        assert(s.take(n + 1).drop_last() =~= s.take(n));
        lemma_returned_index_prefix(s, id, n + 1);
    } else {
        assert(s.take(n) =~= s);
    }
}

proof fn lemma_returned_index_range(s: Seq<ReturnedItem>, id: Seq<char>)
    ensures
        -1 <= returned_index(s, id) < s.len(),
        returned_index(s, id) >= 0 ==> s[returned_index(s, id)].object_id@ == id,
    decreases s.len(),
{
    if s.len() > 0 {
        lemma_returned_index_range(s.drop_last(), id);
    }
}

fn find_returned(v: &Vec<ReturnedItem>, id: &str) -> (r: Option<usize>)
    ensures
        match r {
            Some(k) => k < v.len() && returned_index(v@, id@) == k,
            None => returned_index(v@, id@) == -1,
        },
{
    let mut i: usize = 0;
    while i < v.len()
        invariant
            i <= v.len(),
            returned_index(v@.take(i as int), id@) == -1,
        decreases v.len() - i,
    {
        proof {
            assert(v@.take(i + 1).drop_last() =~= v@.take(i as int));
            assert(v@.take(i + 1).last() == v@[i as int]);
        }
        if crate::text::same_text(v[i].object_id.as_str(), id) {
            proof {
                lemma_returned_index_prefix(v@, id@, i + 1);
            }
            return Some(i);
        }
        i = i + 1;
    }
    proof {
        assert(v@.take(v.len() as int) =~= v@);
    }
    None
}

/// Removing an identifier that no item carries keeps the list as it is.
proof fn lemma_without_absent(s: Seq<PlacedItem>, id: Seq<char>)
    requires
        forall|i: int| 0 <= i < s.len() ==> (#[trigger] s[i]).id@ != id,
    ensures
        ShipLayout::without(s, id) == s,
    decreases s.len(),
{
    reveal_with_fuel(Seq::<_>::filter, 1);
    if s.len() > 0 {
        let d = s.drop_last();
        assert forall|i: int| 0 <= i < d.len() implies (#[trigger] d[i]).id@ != id by {
            assert(d[i] == s[i]);
        }
        lemma_without_absent(d, id);
        assert(s.last() == s[s.len() - 1]);
        assert(d.push(s.last()) =~= s);
    }
}

fn has_item_id(v: &Vec<PlacedItem>, id: &str) -> (r: bool)
    ensures
        r == exists|i: int| 0 <= i < v.len() && (#[trigger] v@[i]).id@ == id@,
{
    let mut i: usize = 0;
    while i < v.len()
        invariant
            i <= v.len(),
            forall|j: int| 0 <= j < i ==> v@[j].id@ != id@,
        decreases v.len() - i,
    {
        if crate::text::same_text(v[i].id.as_str(), id) {
            return true;
        }
        i = i + 1;
    }
    false
}

fn copy_items(v: &Vec<PlacedItem>) -> (r: Vec<PlacedItem>)
    ensures
        r@ == v@,
{
    let mut out: Vec<PlacedItem> = Vec::new();
    let mut i: usize = 0;
    while i < v.len()
        invariant
            i <= v.len(),
            out@ == v@.take(i as int),
        decreases v.len() - i,
    {
        out.push(v[i].duplicate());
        proof {
            assert(out@ =~= v@.take(i + 1));
        }
        i = i + 1;
    }
    proof {
        assert(v@.take(v.len() as int) =~= v@);
    }
    out
}

/// The report of a disposition: what was done, then any blueprints the
/// wallet now reaches.
pub open spec fn disposition_message(label: Seq<char>, newly: Seq<Seq<char>>, data: GameData) -> Seq<char> {
    if newly.len() == 0 {
        label
    } else {
        label + ". Blueprint unlocked: "@ + joined(crate::contracts::module_names(newly, data), ", "@)
            + "."@
    }
}

impl GameSession {
    /// Settles a disposition once its own step is done: the load leaves the
    /// port, the decision is filed, and blueprint unlocks are refreshed.
    pub open spec fn disposition_settled(
        mid: GameSession,
        new: GameSession,
        k: int,
        id: Seq<char>,
        d: Disposition,
        label: Seq<char>,
        data: GameData,
        r: Result<String, String>,
    ) -> bool {
        let newly = newly_unlocked_spec(data.modules@, mid.economy.credits, views(mid.unlocked_modules@));
        &&& new.returned@ == mid.returned@.remove(k)
        &&& new.decisions.len() == mid.decisions.len() + 1
        &&& new.decisions@.drop_last() == mid.decisions@
        &&& new.decisions@.last().object_id@ == id
        &&& new.decisions@.last().disposition@ == d.name_spec()
        &&& views(new.unlocked_modules@) == views(mid.unlocked_modules@) + newly
        &&& new.milestone_reached == (mid.economy.credits >= data.config.progression_credit_threshold
            && new.unlocked_modules.len() > data.config.starting_modules.len())
        &&& new == (GameSession {
            returned: new.returned,
            decisions: new.decisions,
            unlocked_modules: new.unlocked_modules,
            milestone_reached: new.milestone_reached,
            ..mid
        })
        &&& r is Ok && r->Ok_0@ == disposition_message(label, newly, data)
    }

    /// What a disposition does when the load is at port and known.
    pub open spec fn disposed(
        old: GameSession,
        new: GameSession,
        id: Seq<char>,
        d: Disposition,
        data: GameData,
        r: Result<String, String>,
    ) -> bool {
        let k = returned_index(old.returned@, id);
        let o = data.object_spec(id).unwrap();
        let item = old.returned@[k];
        let key = cargo_layout_key(id);
        match d {
            Disposition::Sell => {
                let q = market_quote_spec(o, item.market_cycle, data.config.market).sale_value;
                exists|mid: GameSession|
                    {
                        &&& mid == (GameSession {
                            economy: Economy { credits: (old.economy.credits + q) as i64, ..old.economy },
                            ship_layout: mid.ship_layout,
                            career: CareerStats {
                                sale_income: sat_i64(old.career.sale_income + nonneg(q as int)),
                                ..old.career
                            },
                            ..old
                        })
                        &&& mid.ship_layout.width == old.ship_layout.width
                        &&& mid.ship_layout.height == old.ship_layout.height
                        &&& mid.ship_layout.placements@ == ShipLayout::without(
                            old.ship_layout.placements@,
                            key,
                        )
                        &&& Self::disposition_settled(
                            mid,
                            new,
                            k,
                            id,
                            d,
                            "Sold "@ + o.display_name@ + " for "@ + decimal(q as int) + " credits"@,
                            data,
                            r,
                        )
                    }
            },
            Disposition::BreakDown => exists|mid: GameSession|
                {
                    &&& mid == (GameSession {
                        economy: Economy {
                            alloy: (old.economy.alloy + o.alloy_yield) as i32,
                            electronics: (old.economy.electronics + o.electronics_yield) as i32,
                            ..old.economy
                        },
                        ship_layout: mid.ship_layout,
                        ..old
                    })
                    &&& mid.ship_layout.width == old.ship_layout.width
                    &&& mid.ship_layout.height == old.ship_layout.height
                    &&& mid.ship_layout.placements@ == ShipLayout::without(
                        old.ship_layout.placements@,
                        key,
                    )
                    &&& Self::disposition_settled(
                        mid,
                        new,
                        k,
                        id,
                        d,
                        "Broke down "@ + o.display_name@ + " for materials"@,
                        data,
                        r,
                    )
                },
            Disposition::Install => {
                if o.install_module_id is None {
                    new == old && err_msg(r, "that object has no installation effect"@)
                } else if data.module_spec(o.install_module_id.unwrap()@) is None {
                    new == old && err_msg(
                        r,
                        "missing install module '"@ + o.install_module_id.unwrap()@ + "'"@,
                    )
                } else {
                    let mid_id = o.install_module_id.unwrap()@;
                    let m = data.module_spec(mid_id).unwrap();
                    if exists|i: int|
                        0 <= i < old.ship_layout.placements.len()
                            && (#[trigger] old.ship_layout.placements@[i]).id@ == mid_id {
                        new == old && err_msg(r, m.display_name@ + " is already installed"@)
                    } else if old.economy.credits < m.install_cost {
                        new == old && err_msg(
                            r,
                            "installation requires "@ + decimal(m.install_cost as int) + " credits"@,
                        )
                    } else {
                        exists|g: ShipLayout|
                            {
                                &&& g.width == old.ship_layout.width
                                &&& g.height == old.ship_layout.height
                                &&& g.placements@ == ShipLayout::without(
                                    old.ship_layout.placements@,
                                    key,
                                )
                                &&& !g.placeable(mid_id, m.footprint, item.position, item.rotation)
                                    ==> new == old && r is Err
                                &&& g.placeable(mid_id, m.footprint, item.position, item.rotation)
                                    ==> exists|mid: GameSession|
                                    {
                                        &&& mid == (GameSession {
                                            economy: Economy {
                                                credits: (old.economy.credits - m.install_cost) as i64,
                                                ..old.economy
                                            },
                                            ship_layout: mid.ship_layout,
                                            career: CareerStats {
                                                module_changes: sat_u32(old.career.module_changes + 1),
                                                module_spend: sat_i64(
                                                    old.career.module_spend + nonneg(
                                                        m.install_cost as int,
                                                    ),
                                                ),
                                                ..old.career
                                            },
                                            unlocked_modules: mid.unlocked_modules,
                                            ..old
                                        })
                                        &&& mid.ship_layout.width == old.ship_layout.width
                                        &&& mid.ship_layout.height == old.ship_layout.height
                                        &&& mid.ship_layout.placements@.drop_last() == g.placements@
                                        &&& mid.ship_layout.placements.len() == g.placements.len()
                                            + 1
                                        &&& mid.ship_layout.placements@.last().id@ == mid_id
                                        &&& mid.ship_layout.placements@.last().footprint
                                            == m.footprint
                                        &&& mid.ship_layout.placements@.last().position
                                            == item.position
                                        &&& mid.ship_layout.placements@.last().rotation
                                            == item.rotation
                                        &&& mid.ship_layout.placements@.last().permanent
                                        &&& views(mid.unlocked_modules@) == if views(
                                            old.unlocked_modules@,
                                        ).contains(mid_id) {
                                            views(old.unlocked_modules@)
                                        } else {
                                            views(old.unlocked_modules@).push(mid_id)
                                        }
                                        &&& Self::disposition_settled(
                                            mid,
                                            new,
                                            k,
                                            id,
                                            d,
                                            "Installed "@ + o.display_name@,
                                            data,
                                            r,
                                        )
                                    }
                            }
                    }
                }
            },
        }
    }

    /// Resolves a load waiting at port: sells it at the quote of its own
    /// market cycle, breaks it down into alloy and electronics, or installs
    /// the module it carries in its place in the grid. The load leaves the
    /// port, the decision is filed, and blueprint unlocks are refreshed.
    pub fn dispose(&mut self, object_id: &str, disposition: Disposition, data: &GameData) -> (r: Result<
        String,
        String,
    >)
        requires
            old(self).wf(),
            data.wf(),
            old(self).ship_layout.placements.len() < 999,
            old(self).economy.credits <= WALLET - 10 * crate::data::AUTHORED_LIMIT,
            old(self).economy.alloy <= STOCK - 1000,
            old(self).economy.electronics <= STOCK - 1000,
        ensures
            final(self).wf(),
            r is Err ==> *final(self) == *old(self),
            returned_index(old(self).returned@, object_id@) < 0 ==> err_msg(
                r,
                "that item has already been resolved"@,
            ),
            returned_index(old(self).returned@, object_id@) >= 0 && data.object_spec(object_id@) is None
                ==> err_msg(r, "unknown salvage object '"@ + object_id@ + "'"@),
            returned_index(old(self).returned@, object_id@) >= 0 && data.object_spec(object_id@) is Some
                ==> Self::disposed(*old(self), *final(self), object_id@, disposition, *data, r),
    {
        proof {
            lemma_returned_index_range(self.returned@, object_id@);
        }
        let index = match find_returned(&self.returned, object_id) {
            Some(k) => k,
            None => {
                return Err("that item has already been resolved".to_owned());
            },
        };
        let object = match data.object(object_id) {
            Some(o) => o,
            None => {
                let mut e = "unknown salvage object '".to_owned();
                e.append(object_id);
                e.append("'");
                return Err(e);
            },
        };
        let ghost s0 = *self;
        let ghost mut g_out = self.ship_layout;
        let key = cargo_layout_id(object_id);
        let mut label = String::new();
        match disposition {
            Disposition::Sell | Disposition::BreakDown => {
                let ghost before = self.ship_layout;
                self.ship_layout.remove(key.as_str());
                proof {
                    crate::port::lemma_remove_keeps_wf(before, self.ship_layout, key@);
                }
                if disposition == Disposition::Sell {
                    let quote = crate::engine::quote_for(
                        object,
                        self.returned[index].market_cycle,
                        &data.config.market,
                    );
                    let credits = quote.sale_value;
                    self.economy.credits = self.economy.credits + credits;
                    self.career.record_sale(credits);
                    label = "Sold ".to_owned();
                    label.append(object.display_name.as_str());
                    label.append(" for ");
                    push_int(&mut label, credits);
                    label.append(" credits");
                } else {
                    self.economy.alloy = self.economy.alloy + object.alloy_yield;
                    self.economy.electronics = self.economy.electronics + object.electronics_yield;
                    label = "Broke down ".to_owned();
                    label.append(object.display_name.as_str());
                    label.append(" for materials");
                }
            },
            Disposition::Install => {
                let module_id = match &object.install_module_id {
                    Some(m) => m,
                    None => {
                        return Err("that object has no installation effect".to_owned());
                    },
                };
                let module = match data.module(module_id.as_str()) {
                    Some(m) => m,
                    None => {
                        let mut e = "missing install module '".to_owned();
                        e.append(module_id.as_str());
                        e.append("'");
                        return Err(e);
                    },
                };
                if has_item_id(&self.ship_layout.placements, module_id.as_str()) {
                    let mut e = module.display_name.clone();
                    e.append(" is already installed");
                    return Err(e);
                }
                if self.economy.credits < module.install_cost {
                    let mut e = "installation requires ".to_owned();
                    push_int(&mut e, module.install_cost);
                    e.append(" credits");
                    return Err(e);
                }
                let mut grid = ShipLayout {
                    width: self.ship_layout.width,
                    height: self.ship_layout.height,
                    placements: copy_items(&self.ship_layout.placements),
                };
                grid.remove(key.as_str());
                let ghost g = grid;
                proof {
                    g_out = g;
                }
                proof {
                    crate::port::lemma_remove_keeps_wf(self.ship_layout, grid, key@);
                    assert forall|i: int| 0 <= i < grid.placements.len() implies (
                    #[trigger] grid.placements@[i]).footprint.wf() by {}
                }
                let position = self.returned[index].position;
                let rotation = self.returned[index].rotation;
                match grid.place(module_id.as_str(), module.footprint, position, rotation, true) {
                    Err(e) => {
                        proof {
                            assert(!g.placeable(module_id@, module.footprint, position, rotation));
                        }
                        return Err(e.message());
                    },
                    Ok(()) => {},
                }
                proof {
                    crate::layout::lemma_place_keeps_wf(
                        g,
                        grid,
                        module_id@,
                        module.footprint,
                        position,
                        rotation,
                    );
                    assert(!exists|i: int|
                        0 <= i < g.placements.len() && (#[trigger] g.placements@[i]).id@
                            == module_id@) by {
                        if exists|i: int|
                            0 <= i < g.placements.len() && (#[trigger] g.placements@[i]).id@
                                == module_id@ {
                            let i = choose|i: int|
                                0 <= i < g.placements.len() && (#[trigger] g.placements@[i]).id@
                                    == module_id@;
                            crate::layout::lemma_without_member(s0.ship_layout.placements@, key@, i);
                        }
                    }
                    crate::layout::lemma_without_len(s0.ship_layout.placements@, key@);
                    assert(ShipLayout::without(g.placements@, module_id@) =~= g.placements@) by {
                        lemma_without_absent(g.placements@, module_id@);
                    }
                }
                self.ship_layout = grid;
                self.economy.credits = self.economy.credits - module.install_cost;
                self.career.record_module_change(module.install_cost);
                crate::text::insert_id(&mut self.unlocked_modules, module_id.as_str());
                label = "Installed ".to_owned();
                label.append(object.display_name.as_str());
            },
        }
        let ghost mid = *self;
        self.returned.remove(index);
        self.decisions.push(
            DecisionRecord { object_id: object_id.to_owned(), disposition: disposition.name().to_owned() },
        );
        let ghost label0 = label@;
        let ghost before_unlock = *self;
        let newly = self.refresh_module_unlocks(data);
        if newly.len() > 0 {
            let names = crate::contracts::names_of(&newly, data);
            let joined_names = crate::text::join(&names, ", ");
            label.append(". Blueprint unlocked: ");
            label.append(joined_names.as_str());
            label.append(".");
        }
        proof {
            let k = index as int;
            let newly_v = newly_unlocked_spec(
                data.modules@,
                mid.economy.credits,
                views(mid.unlocked_modules@),
            );
            assert(self.decisions@.drop_last() =~= mid.decisions@);
            assert(views(newly@).len() == newly.len());
            if newly.len() == 0 {
                assert(newly_v.len() == 0);
                assert(label@ == label0);
            }
            assert(label@ == disposition_message(label0, newly_v, *data));
            assert(Self::disposition_settled(
                mid,
                *self,
                k,
                object_id@,
                disposition,
                label0,
                *data,
                Ok::<String, String>(label),
            ));
            match disposition {
                Disposition::Install => {
                    let m = data.module_spec(object.install_module_id.unwrap()@).unwrap();
                    assert(g_out.placeable(
                        object.install_module_id.unwrap()@,
                        m.footprint,
                        s0.returned@[k].position,
                        s0.returned@[k].rotation,
                    ));
                },
                _ => {},
            }
        }
        Ok(label)
    }
}

} // verus!
