//! Port maintenance: quotes for hull damage, offline modules and wear, and
//! the service that clears them.

use crate::career::{nonneg, sat_i64, sat_u32};
use crate::data::GameData;
use crate::session::GameSession;
use crate::text::{decimal, err_msg, joined, ok_msg, push_int, views};
use vstd::prelude::*;

verus! {

#[derive(Clone, Copy, Debug, PartialEq, Eq)]
pub struct RepairQuote {
    pub missing_hull: i32,
    pub offline_modules: usize,
    pub hull_cost: i64,
    pub module_cost: i64,
    pub ship_wear: u8,
    pub wear_cost: i64,
    pub total_cost: i64,
}

impl RepairQuote {
    pub fn is_due(self) -> (r: bool)
        ensures
            r == (self.total_cost > 0),
    {
        self.total_cost > 0
    }
}

/// Display names of the known modules among `ids`, in order.
pub open spec fn module_names(data: GameData, ids: Seq<Seq<char>>) -> Seq<Seq<char>>
    decreases ids.len(),
{
    if ids.len() == 0 {
        Seq::empty()
    } else {
        let rest = module_names(data, ids.drop_last());
        match data.module_spec(ids.last()) {
            Some(m) => rest.push(m.display_name@),
            None => rest,
        }
    }
}

impl GameSession {
    pub open spec fn repair_quote_spec(&self, data: GameData) -> RepairQuote {
        let missing = nonneg(self.max_hull_spec(data) - self.hull);
        let offline = self.damaged_modules.len();
        let hull_cost = missing * data.config.repair_price_per_hull;
        let module_cost = offline * data.config.module_repair_price;
        let wear_cost = self.maintenance_cost_spec(data);
        RepairQuote {
            missing_hull: missing as i32,
            offline_modules: offline,
            hull_cost: hull_cost as i64,
            module_cost: module_cost as i64,
            ship_wear: self.wear_spec() as u8,
            wear_cost: wear_cost as i64,
            total_cost: (hull_cost + module_cost + wear_cost) as i64,
        }
    }

    /// What servicing the ship costs: missing hull, offline modules and wear.
    pub fn repair_quote(&self, data: &GameData) -> (r: RepairQuote)
        requires
            self.wf(),
            data.wf(),
        ensures
            r == self.repair_quote_spec(*data),
            r.total_cost == r.hull_cost + r.module_cost + r.wear_cost,
            0 <= r.hull_cost <= 20_000_000_000,
            0 <= r.module_cost <= 1_000_000_000,
            0 <= r.wear_cost <= 100_000_000,
    {
        let max_hull = self.max_hull_with_modules(data);
        let missing = if max_hull - self.hull < 0 {
            0
        } else {
            max_hull - self.hull
        };
        let offline = self.damaged_modules.len();
        assert(0 <= (missing as i64) * (data.config.repair_price_per_hull as i64) <= 20_000_000_000)
            by (nonlinear_arith)
            requires
                0 <= missing <= 20_000_000,
                0 <= data.config.repair_price_per_hull <= 1000,
        ;
        assert(0 <= (offline as i64) * (data.config.module_repair_price as i64) <= 1_000_000_000)
            by (nonlinear_arith)
            requires
                0 <= offline <= 1_000_000,
                0 <= data.config.module_repair_price <= 1000,
        ;
        let hull_cost = (missing as i64) * (data.config.repair_price_per_hull as i64);
        let module_cost = (offline as i64) * (data.config.module_repair_price as i64);
        let wear_cost = self.maintenance_cost(data);
        RepairQuote {
            missing_hull: missing,
            offline_modules: offline,
            hull_cost,
            module_cost,
            ship_wear: self.ship_wear(),
            wear_cost,
            total_cost: hull_cost + module_cost + wear_cost,
        }
    }

    /// Names of the damaged modules the catalog knows.
    fn damaged_module_names(&self, data: &GameData) -> (r: Vec<String>)
        ensures
            views(r@) == module_names(*data, views(self.damaged_modules@)),
    {
        let mut names: Vec<String> = Vec::new();
        let mut i: usize = 0;
        while i < self.damaged_modules.len()
            invariant
                i <= self.damaged_modules.len(),
                views(names@) == module_names(*data, views(self.damaged_modules@.take(i as int))),
            decreases self.damaged_modules.len() - i,
        {
            proof {
                assert(views(self.damaged_modules@.take(i + 1)).drop_last() =~= views(
                    self.damaged_modules@.take(i as int),
                ));
                assert(views(self.damaged_modules@.take(i + 1)).last()
                    == self.damaged_modules@[i as int]@);
            }
            let ghost before = names@;
            match data.module(self.damaged_modules[i].as_str()) {
                Some(m) => {
                    names.push(m.display_name.clone());
                    proof {
                        assert(views(names@) =~= views(before).push(m.display_name@));
                    }
                },
                None => {},
            }
            i = i + 1;
        }
        proof {
            assert(self.damaged_modules@.take(self.damaged_modules.len() as int)
                =~= self.damaged_modules@);
        }
        names
    }

    pub open spec fn repair_refusal(&self, data: GameData) -> Seq<char> {
        let q = self.repair_quote_spec(data);
        "repairs require "@ + decimal(q.total_cost as int) + " credits (hull "@ + decimal(
            q.hull_cost as int,
        ) + " + modules "@ + decimal(q.module_cost as int) + (if q.wear_cost > 0 {
            " + wear "@ + decimal(q.wear_cost as int)
        } else {
            Seq::empty()
        }) + ")"@
    }

    /// Services the ship: restores the hull to capacity, brings every module
    /// back online and clears wear, for the quoted total.
    pub fn repair(&mut self, data: &GameData) -> (r: Result<String, String>)
        requires
            old(self).wf(),
            data.wf(),
        ensures
            ({
                let q = old(self).repair_quote_spec(*data);
                let names = module_names(*data, views(old(self).damaged_modules@));
                if q.total_cost <= 0 {
                    *final(self) == *old(self) && err_msg(r, "the ship does not need repairs"@)
                } else if old(self).economy.credits < q.total_cost {
                    *final(self) == *old(self) && err_msg(r, old(self).repair_refusal(*data))
                } else {
                    &&& final(self).economy.credits == old(self).economy.credits - q.total_cost
                    &&& final(self).damaged_modules@.len() == 0
                    &&& final(self).ship_wear == 0
                    &&& final(self).hull == final(self).max_hull_spec(*data)
                    &&& final(self).career == (crate::career::CareerStats {
                        repairs_completed: sat_u32(old(self).career.repairs_completed + 1),
                        systems_restored: sat_u32(
                            old(self).career.systems_restored + (q.offline_modules as u32),
                        ),
                        repair_spend: sat_i64(old(self).career.repair_spend + q.total_cost),
                        ..old(self).career
                    })
                    &&& *final(self) == (GameSession {
                        economy: crate::session::Economy {
                            credits: final(self).economy.credits,
                            ..old(self).economy
                        },
                        damaged_modules: final(self).damaged_modules,
                        hull: final(self).hull,
                        ship_wear: 0,
                        career: final(self).career,
                        ..*old(self)
                    })
                    &&& if names.len() > 0 {
                        ok_msg(
                            r,
                            "Repaired hull and systems for "@ + decimal(q.total_cost as int)
                                + " credits. Restored: "@ + joined(names, ", "@) + "."@,
                        )
                    } else if q.hull_cost == 0 && q.module_cost == 0 {
                        ok_msg(
                            r,
                            "Serviced ship systems for "@ + decimal(q.total_cost as int)
                                + " credits."@,
                        )
                    } else {
                        ok_msg(
                            r,
                            "Repaired hull for "@ + decimal(q.total_cost as int) + " credits"@,
                        )
                    }
                }
            }),
            final(self).wf(),
    {
        let quote = self.repair_quote(data);
        if !quote.is_due() {
            return Err("the ship does not need repairs".to_owned());
        }
        if self.economy.credits < quote.total_cost {
            let mut e = "repairs require ".to_owned();
            push_int(&mut e, quote.total_cost);
            e.append(" credits (hull ");
            push_int(&mut e, quote.hull_cost);
            e.append(" + modules ");
            push_int(&mut e, quote.module_cost);
            let ghost head = e@;
            if quote.wear_cost > 0 {
                e.append(" + wear ");
                push_int(&mut e, quote.wear_cost);
            }
            e.append(")");
            proof {
                if quote.wear_cost > 0 {
                    assert(e@ =~= head + (" + wear "@ + decimal(quote.wear_cost as int)) + ")"@);
                } else {
                    assert(e@ =~= head + Seq::<char>::empty() + ")"@);
                }
            }
            return Err(e);
        }
        let restored = self.damaged_module_names(data);
        self.economy.credits = self.economy.credits - quote.total_cost;
        self.damaged_modules.clear();
        self.hull = self.max_hull_with_modules(data);
        self.ship_wear = 0;
        self.career.record_repair(quote.total_cost, quote.offline_modules);
        if restored.len() > 0 {
            let mut s = "Repaired hull and systems for ".to_owned();
            push_int(&mut s, quote.total_cost);
            s.append(" credits. Restored: ");
            let names = crate::text::join(&restored, ", ");
            s.append(names.as_str());
            s.append(".");
            Ok(s)
        } else if quote.hull_cost == 0 && quote.module_cost == 0 {
            let mut s = "Serviced ship systems for ".to_owned();
            push_int(&mut s, quote.total_cost);
            s.append(" credits.");
            Ok(s)
        } else {
            let mut s = "Repaired hull for ".to_owned();
            push_int(&mut s, quote.total_cost);
            s.append(" credits");
            Ok(s)
        }
    }
}

/// A repair quote charges the missing hull at the hull price, each offline
/// module at the module price and each point of wear (at most a hundred) at
/// the wear price, and its total is the sum of the three.
pub proof fn law_repair_quote_adds_up(s: GameSession, data: GameData)
    requires
        s.wf(),
        data.wf(),
    ensures
        ({
            let q = s.repair_quote_spec(data);
            let cap = s.max_hull_spec(data);
            let missing = if s.hull < cap {
                cap - s.hull
            } else {
                0
            };
            let wear = if s.ship_wear > 100 {
                100
            } else {
                s.ship_wear as int
            };
            &&& q.missing_hull == missing
            &&& q.hull_cost == missing * data.config.repair_price_per_hull
            &&& q.offline_modules == s.damaged_modules.len()
            &&& q.module_cost == s.damaged_modules.len() * data.config.module_repair_price
            &&& q.wear_cost == wear * data.config.maintenance.price_per_wear
            &&& q.total_cost == q.hull_cost + q.module_cost + q.wear_cost
        }),
{
    crate::reload::lemma_stats_bounded(data, views(s.damaged_modules@), s.ship_layout.placements@);
    let cap = s.max_hull_spec(data);
    let missing = nonneg(cap - s.hull);
    assert(0 <= missing <= 20_000_000);
    let offline = s.damaged_modules.len() as int;
    let wear = s.wear_spec();
    assert(0 <= missing * data.config.repair_price_per_hull <= 20_000_000_000) by (nonlinear_arith)
        requires
            0 <= missing <= 20_000_000,
            0 <= data.config.repair_price_per_hull <= 1000,
    ;
    assert(0 <= offline * data.config.module_repair_price <= 1_000_000_000) by (nonlinear_arith)
        requires
            0 <= offline <= 1_000_000,
            0 <= data.config.module_repair_price <= 1000,
    ;
    assert(0 <= wear * data.config.maintenance.price_per_wear <= 100_000_000) by (nonlinear_arith)
        requires
            0 <= wear <= 100,
            0 <= data.config.maintenance.price_per_wear <= 1_000_000,
    ;
}

} // verus!
