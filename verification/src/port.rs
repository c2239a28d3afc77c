//! Safe-port shipyard services: module purchases and removals, refuelling,
//! and the ship figures they change.

use crate::career::{nonneg, sat_i64, sat_u32};
use crate::data::GameData;
use crate::engine::{stats_from_layout, stats_upto, ModuleStats};
use crate::layout::{GridPosition, ShipLayout};
use crate::progression::newly_unlocked_spec;
use crate::session::GameSession;
use crate::text::{decimal, err_msg, ok_msg, push_int, views};
use vstd::prelude::*;

verus! {

pub const TITLE: &'static str = "PORT // SAFE CHECKPOINT";

impl GameSession {
    pub open spec fn stats_spec(&self, data: GameData) -> ModuleStats {
        stats_upto(data, views(self.damaged_modules@), self.ship_layout.placements@)
    }

    /// What the online permanent modules add to the ship.
    pub fn module_stats(&self, data: &GameData) -> (r: ModuleStats)
        requires
            data.wf(),
            self.ship_layout.placements.len() <= 4096,
        ensures
            r == self.stats_spec(*data),
            crate::engine::stats_bounded(r, self.ship_layout.placements.len() as int),
    {
        stats_from_layout(&self.ship_layout, data, &self.damaged_modules)
    }

    pub open spec fn max_fuel_spec(&self, data: GameData) -> int {
        data.config.max_fuel + self.stats_spec(data).fuel_capacity
    }

    /// Tank capacity: the base tank plus online fuel modules.
    pub fn max_fuel(&self, data: &GameData) -> (r: i32)
        requires
            data.wf(),
            self.ship_layout.placements.len() <= 1000,
        ensures
            r == self.max_fuel_spec(*data),
            0 <= r <= 1_001_000,
    {
        data.config.max_fuel + self.module_stats(data).fuel_capacity
    }

    pub open spec fn max_hull_spec(&self, data: GameData) -> int {
        self.max_hull + self.stats_spec(data).hull
    }

    /// Hull capacity: the base hull plus online plating.
    pub fn max_hull_with_modules(&self, data: &GameData) -> (r: i32)
        requires
            data.wf(),
            self.ship_layout.placements.len() <= 1000,
            1 <= self.max_hull <= 1000,
        ensures
            r == self.max_hull_spec(*data),
            1 <= r <= 1_001_000,
    {
        self.max_hull + self.module_stats(data).hull
    }

    pub open spec fn installed_permanent(&self, id: Seq<char>) -> bool {
        exists|i: int|
            0 <= i < self.ship_layout.placements.len()
                && (#[trigger] self.ship_layout.placements@[i]).id@ == id
                && self.ship_layout.placements@[i].permanent
    }

    /// Takes a permanent module out of the ship at port, for its removal fee.
    pub fn remove_module(&mut self, module_id: &str, data: &GameData) -> (r: Result<String, String>)
        requires
            old(self).wf(),
            data.wf(),
        ensures
            r is Err ==> *final(self) == *old(self),
            !old(self).at_port() ==> err_msg(r, "finish the current expedition before changing the ship"@),
            old(self).at_port() && data.module_spec(module_id@) is None ==> err_msg(
                r,
                "unknown module '"@ + module_id@ + "'"@,
            ),
            old(self).at_port() && data.module_spec(module_id@) is Some ==> {
                let m = data.module_spec(module_id@).unwrap();
                if !old(self).installed_permanent(module_id@) {
                    err_msg(r, m.display_name@ + " is not installed"@)
                } else if old(self).economy.credits < m.remove_cost {
                    err_msg(r, "removal requires "@ + decimal(m.remove_cost as int) + " credits"@)
                } else {
                    &&& ok_msg(
                        r,
                        "Removed "@ + m.display_name@ + " for "@ + decimal(m.remove_cost as int)
                            + " credits"@,
                    )
                    &&& final(self).ship_layout.placements@ == ShipLayout::without(
                        old(self).ship_layout.placements@,
                        module_id@,
                    )
                    &&& final(self).economy.credits == old(self).economy.credits - m.remove_cost
                    &&& final(self).career == (crate::career::CareerStats {
                        module_changes: sat_u32(old(self).career.module_changes + 1),
                        module_spend: sat_i64(old(self).career.module_spend + nonneg(
                            m.remove_cost as int,
                        )),
                        ..old(self).career
                    })
                    &&& views(final(self).damaged_modules@) == views(
                        old(self).damaged_modules@,
                    ).filter(|s: Seq<char>| s != module_id@)
                    &&& final(self).wf()
                    &&& *final(self) == (GameSession {
                        economy: final(self).economy,
                        ship_layout: final(self).ship_layout,
                        career: final(self).career,
                        damaged_modules: final(self).damaged_modules,
                        ..*old(self)
                    })
                    &&& final(self).economy == (crate::session::Economy {
                        credits: final(self).economy.credits,
                        ..old(self).economy
                    })
                    &&& final(self).ship_layout.width == old(self).ship_layout.width
                    &&& final(self).ship_layout.height == old(self).ship_layout.height
                }
            },
    {
        if self.expedition.is_some() || self.returned.len() > 0 {
            return Err("finish the current expedition before changing the ship".to_owned());
        }
        let module = match data.module(module_id) {
            Some(m) => m,
            None => {
                let mut e = "unknown module '".to_owned();
                e.append(module_id);
                e.append("'");
                return Err(e);
            },
        };
        if !self.ship_layout.has_permanent(module_id) {
            let mut e = module.display_name.clone();
            e.append(" is not installed");
            return Err(e);
        }
        if self.economy.credits < module.remove_cost {
            let mut e = "removal requires ".to_owned();
            push_int(&mut e, module.remove_cost);
            e.append(" credits");
            return Err(e);
        }
        let ghost before = self.ship_layout;
        self.ship_layout.remove(module_id);
        proof {
            lemma_remove_keeps_wf(before, self.ship_layout, module_id@);
        }
        self.economy.credits = self.economy.credits - module.remove_cost;
        self.career.record_module_change(module.remove_cost);
        crate::text::remove_id(&mut self.damaged_modules, module_id);
        let mut s = "Removed ".to_owned();
        s.append(module.display_name.as_str());
        s.append(" for ");
        push_int(&mut s, module.remove_cost);
        s.append(" credits");
        Ok(s)
    }

    pub open spec fn external_capacity_spec(&self, data: GameData) -> int {
        self.stats_spec(data).external_capacity + self.crew_external_capacity_spec()
    }

    /// Clamp capacity: online rig modules plus the crew's clamps.
    pub fn external_capacity(&self, data: &GameData) -> (r: i32)
        requires
            data.wf(),
            self.ship_layout.placements.len() <= 4096,
        ensures
            r == self.external_capacity_spec(*data),
            0 <= r <= 4_096_002,
    {
        self.module_stats(data).external_capacity + self.crew_external_capacity()
    }

    /// Buys an unlocked blueprint and installs it in the first open spot.
    /// Blueprint unlocks are refreshed first, whatever the outcome.
    pub fn purchase_module(&mut self, module_id: &str, data: &GameData) -> (r: Result<
        String,
        String,
    >)
        requires
            old(self).wf(),
            old(self).ship_layout.placements.len() < 999,
            data.wf(),
        ensures
            final(self).wf(),
            !old(self).at_port() ==> (*final(self) == *old(self) && err_msg(r, "finish the current expedition before changing the ship"@)),
            old(self).at_port() ==> {
                let newly = newly_unlocked_spec(
                    data.modules@,
                    old(self).economy.credits,
                    views(old(self).unlocked_modules@),
                );
                let unlocked = views(old(self).unlocked_modules@) + newly;
                &&& r is Err ==> views(final(self).unlocked_modules@) == unlocked
                    && final(self).ship_layout == old(self).ship_layout && final(self).economy
                    == old(self).economy && final(self).career == old(self).career
                &&& data.module_spec(module_id@) is None ==> err_msg(
                    r,
                    "unknown module '"@ + module_id@ + "'"@,
                )
                &&& data.module_spec(module_id@) is Some ==> {
                    let m = data.module_spec(module_id@).unwrap();
                    if !(unlocked.contains(module_id@) || crate::progression::starts_with_module(
                        data.config.starting_modules@,
                        module_id@,
                    )) {
                        err_msg(
                            r,
                            m.display_name@ + " blueprint is locked; reach "@ + decimal(
                                m.unlock_credits as int,
                            ) + " credits to unlock it"@,
                        )
                    } else if old(self).installed_permanent(module_id@) {
                        err_msg(r, m.display_name@ + " is already installed"@)
                    } else if old(self).economy.credits < m.purchase_cost {
                        err_msg(
                            r,
                            m.display_name@ + " requires "@ + decimal(m.purchase_cost as int)
                                + " credits"@,
                        )
                    } else {
                        let layout = old(self).ship_layout;
                        &&& (exists|pos: GridPosition, rot: u8|
                            (rot == 0 || rot == 1) && #[trigger] layout.placeable(
                                module_id@,
                                m.footprint,
                                pos,
                                rot,
                            )) <==> r is Ok
                        &&& r is Err ==> err_msg(r, m.display_name@ + " has no open fit in the ship grid"@)
                        &&& r is Ok ==> {
                            &&& forall|x: int, y: int, q: u8|
                                (q == 0 || q == 1) && 0 <= y < layout.height && 0 <= x < layout.width
                                    && ShipLayout::scan_before(
                                    x,
                                    y,
                                    q,
                                    final(self).ship_layout.placements@.last().position.x as int,
                                    final(self).ship_layout.placements@.last().position.y as int,
                                    final(self).ship_layout.placements@.last().rotation,
                                ) ==> !#[trigger] layout.placeable(
                                    module_id@,
                                    m.footprint,
                                    GridPosition { x: x as i32, y: y as i32 },
                                    q,
                                )
                            &&& final(self).ship_layout.placements@.last().rotation == 0
                                || final(self).ship_layout.placements@.last().rotation == 1
                            &&& final(self).economy.credits == old(self).economy.credits
                                - m.purchase_cost
                            &&& final(self).ship_layout.placements@.drop_last()
                                == ShipLayout::without(
                                old(self).ship_layout.placements@,
                                module_id@,
                            )
                            &&& final(self).ship_layout.placements@.last().id@ == module_id@
                            &&& final(self).ship_layout.placements@.last().permanent
                            &&& final(self).ship_layout.placements@.last().footprint == m.footprint
                            &&& old(self).ship_layout.placeable(
                                module_id@,
                                m.footprint,
                                final(self).ship_layout.placements@.last().position,
                                final(self).ship_layout.placements@.last().rotation,
                            )
                            &&& views(final(self).unlocked_modules@) == if unlocked.contains(
                                module_id@,
                            ) {
                                unlocked
                            } else {
                                unlocked.push(module_id@)
                            }
                            &&& final(self).career == (crate::career::CareerStats {
                                module_changes: sat_u32(old(self).career.module_changes + 1),
                                module_spend: sat_i64(
                                    old(self).career.module_spend + nonneg(m.purchase_cost as int),
                                ),
                                ..old(self).career
                            })
                            &&& ok_msg(
                                r,
                                "Bought and installed "@ + m.display_name@ + " for "@ + decimal(
                                    m.purchase_cost as int,
                                ) + (if m.external_capacity > 0 {
                                    " credits. Clamp capacity is now "@ + decimal(
                                        final(self).external_capacity_spec(*data),
                                    ) + "."@
                                } else {
                                    " credits"@
                                }),
                            )
                        }
                    }
                }
            },
    {
        if self.expedition.is_some() || self.returned.len() > 0 {
            return Err("finish the current expedition before changing the ship".to_owned());
        }
        self.refresh_module_unlocks(data);
        let module = match data.module(module_id) {
            Some(m) => m,
            None => {
                let mut e = "unknown module '".to_owned();
                e.append(module_id);
                e.append("'");
                return Err(e);
            },
        };
        if !self.module_is_unlocked(module_id, data) {
            let mut e = module.display_name.clone();
            e.append(" blueprint is locked; reach ");
            push_int(&mut e, module.unlock_credits);
            e.append(" credits to unlock it");
            return Err(e);
        }
        if self.ship_layout.has_permanent(module_id) {
            let mut e = module.display_name.clone();
            e.append(" is already installed");
            return Err(e);
        }
        if self.economy.credits < module.purchase_cost {
            let mut e = module.display_name.clone();
            e.append(" requires ");
            push_int(&mut e, module.purchase_cost);
            e.append(" credits");
            return Err(e);
        }
        let spot = self.ship_layout.first_fit(module_id, module.footprint, true);
        let (position, rotation) = match spot {
            Some(p) => p,
            None => {
                proof {
                    let layout = self.ship_layout;
                    if exists|pos: GridPosition, rot: u8|
                        (rot == 0 || rot == 1) && #[trigger] layout.placeable(
                            module_id@,
                            module.footprint,
                            pos,
                            rot,
                        ) {
                        let (pos, rot) = choose|pos: GridPosition, rot: u8|
                            (rot == 0 || rot == 1) && #[trigger] layout.placeable(
                                module_id@,
                                module.footprint,
                                pos,
                                rot,
                            );
                        assert(GridPosition { x: pos.x as int as i32, y: pos.y as int as i32 } == pos);
                        assert(!layout.placeable(
                            module_id@,
                            module.footprint,
                            GridPosition { x: pos.x as int as i32, y: pos.y as int as i32 },
                            rot,
                        ));
                    }
                }
                let mut e = module.display_name.clone();
                e.append(" has no open fit in the ship grid");
                return Err(e);
            },
        };
        let ghost before = self.ship_layout;
        let placed = self.ship_layout.place(module_id, module.footprint, position, rotation, true);
        if placed.is_err() {
            let mut e = module.display_name.clone();
            e.append(" has no open fit in the ship grid");
            return Err(e);
        }
        proof {
            crate::layout::lemma_place_keeps_wf(
                before,
                self.ship_layout,
                module_id@,
                module.footprint,
                position,
                rotation,
            );
            crate::layout::lemma_without_len(before.placements@, module_id@);
        }
        self.economy.credits = self.economy.credits - module.purchase_cost;
        self.career.record_module_change(module.purchase_cost);
        crate::text::insert_id(&mut self.unlocked_modules, module_id);
        let mut s = "Bought and installed ".to_owned();
        s.append(module.display_name.as_str());
        s.append(" for ");
        push_int(&mut s, module.purchase_cost);
        let ghost head = s@;
        if module.external_capacity > 0 {
            s.append(" credits. Clamp capacity is now ");
            let capacity = self.external_capacity(data);
            push_int(&mut s, capacity as i64);
            s.append(".");
            proof {
                assert(s@ =~= head + (" credits. Clamp capacity is now "@ + crate::text::decimal(
                    capacity as int,
                ) + "."@));
            }
        } else {
            s.append(" credits");
        }
        Ok(s)
    }

    pub open spec fn refuel_amount_spec(&self, data: GameData) -> int {
        let missing = nonneg(self.max_fuel_spec(data) - self.economy.fuel);
        let affordable = (self.economy.credits as int) / (data.config.refuel_price_per_unit as int);
        if missing <= affordable {
            missing
        } else {
            affordable
        }
    }

    /// Fills the tank as far as the wallet allows, at the authored unit price.
    pub fn refuel(&mut self, data: &GameData) -> (r: Result<String, String>)
        requires
            old(self).wf(),
            data.wf(),
            0 <= old(self).economy.credits,
        ensures
            old(self).refuel_amount_spec(*data) == 0 ==> *final(self) == *old(self) && err_msg(
                r,
                "fuel tank is full or credits are too low"@,
            ),
            old(self).refuel_amount_spec(*data) != 0 ==> final(self).economy == (
            crate::session::Economy {
                fuel: (old(self).economy.fuel + old(self).refuel_amount_spec(*data)) as i32,
                credits: (old(self).economy.credits - old(self).refuel_amount_spec(*data)
                    * data.config.refuel_price_per_unit) as i64,
                ..old(self).economy
            }),
            old(self).refuel_amount_spec(*data) != 0 ==> final(self).career == (
            crate::career::CareerStats {
                fuel_units_bought: crate::career::sat_i32(
                    old(self).career.fuel_units_bought + old(self).refuel_amount_spec(*data),
                ),
                refuel_spend: sat_i64(old(self).career.refuel_spend + old(self).refuel_amount_spec(
                    *data,
                ) * data.config.refuel_price_per_unit),
                ..old(self).career
            }),
            old(self).refuel_amount_spec(*data) != 0 ==> *final(self) == (GameSession {
                economy: final(self).economy,
                career: final(self).career,
                ..*old(self)
            }),
            old(self).refuel_amount_spec(*data) != 0 ==> ok_msg(
                r,
                "Refuelled "@ + decimal(old(self).refuel_amount_spec(*data)) + " units for "@
                    + decimal(old(self).refuel_amount_spec(*data) * data.config.refuel_price_per_unit)
                    + " credits"@,
            ),
            final(self).economy.credits >= 0,
            final(self).economy.fuel <= old(self).max_fuel_spec(*data) || final(self).economy.fuel
                == old(self).economy.fuel,
            final(self).wf(),
    {
        let max_fuel = self.max_fuel(data);
        let missing = if max_fuel - self.economy.fuel < 0 {
            0
        } else {
            max_fuel - self.economy.fuel
        };
        let price = data.config.refuel_price_per_unit;
        let affordable = self.economy.credits / (price as i64);
        assert(0 <= affordable);
        let amount = if (missing as i64) <= affordable {
            missing
        } else {
            affordable as i32
        };
        if amount == 0 {
            return Err("fuel tank is full or credits are too low".to_owned());
        }
        assert(amount * price <= self.economy.credits) by (nonlinear_arith)
            requires
                0 <= amount <= affordable,
                affordable == self.economy.credits / (price as i64),
                1 <= price,
                0 <= self.economy.credits,
        ;
        assert(0 <= amount * price) by (nonlinear_arith)
            requires
                0 <= amount,
                1 <= price,
        ;
        let cost = (amount as i64) * (price as i64);
        self.economy.fuel = self.economy.fuel + amount;
        self.economy.credits = self.economy.credits - cost;
        self.career.record_refuel(amount, cost);
        let mut s = "Refuelled ".to_owned();
        push_int(&mut s, amount as i64);
        s.append(" units for ");
        push_int(&mut s, cost);
        s.append(" credits");
        Ok(s)
    }
}

/// Refuelling buys as much as both the tank and the wallet allow: never
/// more than the tank is missing, never more than the wallet pays for, and
/// afterwards either the tank is full or the wallet cannot pay for one unit
/// more. So whenever the tank is not full and one unit is affordable, some
/// fuel is bought.
pub proof fn law_refuel_buys_all_it_can(s: GameSession, data: GameData)
    requires
        1 <= data.config.refuel_price_per_unit,
        0 <= s.economy.credits,
    ensures
        ({
            let a = s.refuel_amount_spec(data);
            let price = data.config.refuel_price_per_unit as int;
            let credits = s.economy.credits as int;
            let fuel = s.economy.fuel as int;
            let cap = s.max_fuel_spec(data);
            &&& 0 <= a
            &&& a == 0 || fuel + a <= cap
            &&& a * price <= credits
            &&& fuel + a >= cap || credits < (a + 1) * price
            &&& (fuel < cap && credits >= price ==> a > 0)
        }),
{
    let price = data.config.refuel_price_per_unit as int;
    let credits = s.economy.credits as int;
    let q = credits / price;
    assert(0 <= q && q * price <= credits && credits < (q + 1) * price) by (nonlinear_arith)
        requires
            1 <= price,
            0 <= credits,
            q == credits / price,
    ;
    let a = s.refuel_amount_spec(data);
    assert(a * price <= q * price) by (nonlinear_arith)
        requires
            0 <= a <= q,
            1 <= price,
    ;
    assert(a < q ==> (a + 1) * price <= q * price) by (nonlinear_arith)
        requires
            0 <= a,
            1 <= price,
    ;
    assert(credits >= price ==> q >= 1) by (nonlinear_arith)
        requires
            1 <= price,
            0 <= credits,
            credits < (q + 1) * price,
            0 <= q,
    ;
}

/// Taking items out of a well-formed grid keeps it well-formed.
pub proof fn lemma_remove_keeps_wf(before: ShipLayout, after: ShipLayout, id: Seq<char>)
    requires
        before.wf(),
        after.width == before.width,
        after.height == before.height,
        after.placements@ == ShipLayout::without(before.placements@, id),
    ensures
        after.wf(),
        after.placements.len() <= before.placements.len(),
{
    crate::layout::lemma_without_len(before.placements@, id);
    assert forall|i: int| 0 <= i < after.placements.len() implies {
        let p = #[trigger] after.placements@[i];
        p.footprint.wf() && after.fits(p.footprint, p.position, p.rotation)
    } by {
        crate::layout::lemma_without_member(before.placements@, id, i);
        let k = choose|k: int|
            0 <= k < before.placements@.len() && before.placements@[k] == after.placements@[i];
        assert(before.placements@[k].footprint.wf());
    }
    assert forall|i: int, j: int|
        0 <= i < after.placements.len() && 0 <= j < after.placements.len()
            && after.placements@[i].id@ != after.placements@[j].id@ implies !crate::layout::items_overlap(
        #[trigger] after.placements@[i],
        #[trigger] after.placements@[j],
    ) by {
        crate::layout::lemma_without_member(before.placements@, id, i);
        crate::layout::lemma_without_member(before.placements@, id, j);
        let ki = choose|k: int|
            0 <= k < before.placements@.len() && before.placements@[k] == after.placements@[i];
        let kj = choose|k: int|
            0 <= k < before.placements@.len() && before.placements@[k] == after.placements@[j];
        assert(!crate::layout::items_overlap(before.placements@[ki], before.placements@[kj]));
    }
}

} // verus!
