//! Internal cargo berths, their shipyard upgrades, and the counts of loads
//! held in the hold and on the external rig.

use crate::career::sat_u32;
use crate::data::GameData;
use crate::session::{CargoItem, CargoStatus, GameSession, ReturnedItem};
use crate::text::{decimal, err_msg, ok_msg, push_int};
use crate::workspace::TransferMode;
use crate::workspace_records::opt_str_view;
use vstd::prelude::*;

verus! {

pub const MAX_CARGO_BAY_LEVEL: u8 = 2;
pub const BASE_INTERNAL_CARGO_CAPACITY: i32 = 3;
pub const CAPACITY_PER_UPGRADE: i32 = 2;

/// Whether an object is known and rides on the rig (`external`) or in the
/// hold (`!external`).
pub open spec fn rides(data: GameData, id: Seq<char>, external: bool) -> bool {
    data.object_spec(id) is Some && TransferMode::from_target_spec(
        data.object_spec(id).unwrap(),
    ).uses_external_rig_spec() == external
}

pub open spec fn cargo_pred(data: GameData, excluding: Option<Seq<char>>, external: bool) -> spec_fn(
    CargoItem,
) -> bool {
    |c: CargoItem|
        c.status == CargoStatus::Packed && excluding != Some(c.object_id@) && rides(
            data,
            c.object_id@,
            external,
        )
}

pub open spec fn returned_pred(data: GameData, excluding: Option<Seq<char>>, external: bool) -> spec_fn(
    ReturnedItem,
) -> bool {
    |c: ReturnedItem| excluding != Some(c.object_id@) && rides(data, c.object_id@, external)
}

fn excluded(id: &String, excluding: Option<&str>) -> (r: bool)
    ensures
        r == (opt_str_view(excluding) == Some(id@)),
{
    match excluding {
        Some(e) => crate::text::same_text(id.as_str(), e),
        None => false,
    }
}

fn rides_exec(data: &GameData, id: &String, external: bool) -> (r: bool)
    ensures
        r == rides(*data, id@, external),
{
    match data.object(id.as_str()) {
        Some(o) => TransferMode::from_target(o).uses_external_rig() == external,
        None => false,
    }
}

/// Packed manifest loads that ride where `external` says.
pub fn count_cargo(cargo: &Vec<CargoItem>, data: &GameData, excluding: Option<&str>, external: bool) -> (r:
    usize)
    ensures
        r == cargo@.filter(cargo_pred(*data, opt_str_view(excluding), external)).len(),
        r <= cargo.len(),
{
    let ghost pred = cargo_pred(*data, opt_str_view(excluding), external);
    let mut n: usize = 0;
    let mut i: usize = 0;
    while i < cargo.len()
        invariant
            i <= cargo.len(),
            pred == cargo_pred(*data, opt_str_view(excluding), external),
            n == cargo@.take(i as int).filter(pred).len(),
            n <= i,
        decreases cargo.len() - i,
    {
        proof {
            reveal_with_fuel(Seq::<_>::filter, 1);
            assert(cargo@.take(i + 1).drop_last() =~= cargo@.take(i as int));
            assert(cargo@.take(i + 1).last() == cargo@[i as int]);
        }
        let c = &cargo[i];
        if c.status == CargoStatus::Packed && !excluded(&c.object_id, excluding) && rides_exec(
            data,
            &c.object_id,
            external,
        ) {
            n = n + 1;
        }
        i = i + 1;
    }
    proof {
        assert(cargo@.take(cargo.len() as int) =~= cargo@);
    }
    n
}

/// Returned loads that ride where `external` says.
pub fn count_returned(
    returned: &Vec<ReturnedItem>,
    data: &GameData,
    excluding: Option<&str>,
    external: bool,
) -> (r: usize)
    ensures
        r == returned@.filter(returned_pred(*data, opt_str_view(excluding), external)).len(),
        r <= returned.len(),
{
    let ghost pred = returned_pred(*data, opt_str_view(excluding), external);
    let mut n: usize = 0;
    let mut i: usize = 0;
    while i < returned.len()
        invariant
            i <= returned.len(),
            pred == returned_pred(*data, opt_str_view(excluding), external),
            n == returned@.take(i as int).filter(pred).len(),
            n <= i,
        decreases returned.len() - i,
    {
        proof {
            reveal_with_fuel(Seq::<_>::filter, 1);
            assert(returned@.take(i + 1).drop_last() =~= returned@.take(i as int));
            assert(returned@.take(i + 1).last() == returned@[i as int]);
        }
        let c = &returned[i];
        if !excluded(&c.object_id, excluding) && rides_exec(data, &c.object_id, external) {
            n = n + 1;
        }
        i = i + 1;
    }
    proof {
        assert(returned@.take(returned.len() as int) =~= returned@);
    }
    n
}

pub open spec fn upgrade_cost_spec(level: u8) -> Option<i64> {
    if level == 0 {
        Some(420)
    } else if level == 1 {
        Some(760)
    } else {
        None
    }
}

impl GameSession {
    pub open spec fn load_count_spec(
        &self,
        data: GameData,
        excluding: Option<Seq<char>>,
        external: bool,
    ) -> int {
        (match self.expedition {
            Some(e) => e.cargo@.filter(cargo_pred(data, excluding, external)).len() as int,
            None => 0,
        }) + self.returned@.filter(returned_pred(data, excluding, external)).len()
    }

    pub fn cargo_bay_level(&self) -> (r: u8)
        ensures
            r == self.cargo_bay_level,
    {
        self.cargo_bay_level
    }

    pub open spec fn internal_capacity_spec(&self) -> int {
        BASE_INTERNAL_CARGO_CAPACITY + self.cargo_bay_level * CAPACITY_PER_UPGRADE
    }

    /// Internal berths: three, and two more per bay upgrade.
    pub fn internal_cargo_capacity(&self) -> (r: i32)
        ensures
            r == self.internal_capacity_spec(),
    {
        BASE_INTERNAL_CARGO_CAPACITY + (self.cargo_bay_level as i32) * CAPACITY_PER_UPGRADE
    }

    fn count_loads(&self, data: &GameData, excluding: Option<&str>, external: bool) -> (r: i32)
        requires
            self.bounded(),
        ensures
            r == self.load_count_spec(*data, opt_str_view(excluding), external),
            0 <= r <= 2_000_000,
    {
        let in_expedition = match &self.expedition {
            Some(e) => count_cargo(&e.cargo, data, excluding, external),
            None => 0,
        };
        let returned = count_returned(&self.returned, data, excluding, external);
        (in_expedition + returned) as i32
    }

    /// Packed and returned loads that take an internal berth.
    pub fn internal_cargo_count(&self, data: &GameData, excluding: Option<&str>) -> (r: i32)
        requires
            self.bounded(),
        ensures
            r == self.load_count_spec(*data, opt_str_view(excluding), false),
            0 <= r,
    {
        self.count_loads(data, excluding, false)
    }

    /// Packed and returned loads that take an external clamp.
    pub fn external_cargo_count(&self, data: &GameData, excluding: Option<&str>) -> (r: i32)
        requires
            self.bounded(),
        ensures
            r == self.load_count_spec(*data, opt_str_view(excluding), true),
            0 <= r,
    {
        self.count_loads(data, excluding, true)
    }

    /// Price of the next bay upgrade, or none at the top level.
    pub fn cargo_bay_upgrade_cost(&self) -> (r: Option<i64>)
        ensures
            r == upgrade_cost_spec(self.cargo_bay_level),
    {
        if self.cargo_bay_level == 0 {
            Some(420)
        } else if self.cargo_bay_level == 1 {
            Some(760)
        } else {
            None
        }
    }

    /// The shipyard button for the next bay upgrade.
    pub fn cargo_bay_upgrade_label(&self) -> (r: String)
        ensures
            r@ == match upgrade_cost_spec(self.cargo_bay_level) {
                None => "HOLD MAX"@,
                Some(cost) => if self.economy.credits < cost {
                    "LOW CR ¢"@ + decimal(cost as int)
                } else {
                    "UPGRADE ¢"@ + decimal(cost as int)
                },
            },
    {
        match self.cargo_bay_upgrade_cost() {
            None => "HOLD MAX".to_owned(),
            Some(cost) => {
                let mut s = if self.economy.credits < cost {
                    "LOW CR ¢".to_owned()
                } else {
                    "UPGRADE ¢".to_owned()
                };
                push_int(&mut s, cost);
                s
            },
        }
    }

    /// Expands the cargo bay by one level at port, if the yard is paid.
    pub fn purchase_cargo_bay_upgrade(&mut self) -> (r: Result<String, String>)
        requires
            old(self).wf(),
        ensures
            !old(self).at_port() ==> *final(self) == *old(self) && err_msg(
                r,
                "finish the current expedition before expanding the cargo bay"@,
            ),
            old(self).at_port() && upgrade_cost_spec(old(self).cargo_bay_level) is None ==> *final(self) == *old(self) && err_msg(r, "cargo bay is already at maximum capacity"@),
            old(self).at_port() && upgrade_cost_spec(old(self).cargo_bay_level) is Some ==> {
                let cost = upgrade_cost_spec(old(self).cargo_bay_level).unwrap();
                if old(self).economy.credits < cost {
                    *final(self) == *old(self) && err_msg(
                        r,
                        "cargo bay expansion requires "@ + decimal(cost as int) + " credits"@,
                    )
                } else {
                    &&& *final(self) == (GameSession {
                        economy: crate::session::Economy {
                            credits: (old(self).economy.credits - cost) as i64,
                            ..old(self).economy
                        },
                        cargo_bay_level: (old(self).cargo_bay_level + 1) as u8,
                        career: crate::career::CareerStats {
                            cargo_bay_upgrades: sat_u32(old(self).career.cargo_bay_upgrades + 1),
                            ..old(self).career
                        },
                        ..*old(self)
                    })
                    &&& ok_msg(
                        r,
                        "Expanded the cargo bay to "@ + decimal(final(self).internal_capacity_spec())
                            + " internal berths for "@ + decimal(cost as int) + " credits."@,
                    )
                }
            },
            final(self).wf(),
    {
        if self.expedition.is_some() || self.returned.len() > 0 {
            return Err("finish the current expedition before expanding the cargo bay".to_owned());
        }
        let cost = match self.cargo_bay_upgrade_cost() {
            Some(c) => c,
            None => {
                return Err("cargo bay is already at maximum capacity".to_owned());
            },
        };
        if self.economy.credits < cost {
            let mut e = "cargo bay expansion requires ".to_owned();
            push_int(&mut e, cost);
            e.append(" credits");
            return Err(e);
        }
        self.economy.credits = self.economy.credits - cost;
        self.cargo_bay_level = self.cargo_bay_level + 1;
        self.career.record_cargo_bay_upgrade();
        let mut s = "Expanded the cargo bay to ".to_owned();
        push_int(&mut s, self.internal_cargo_capacity() as i64);
        s.append(" internal berths for ");
        push_int(&mut s, cost);
        s.append(" credits.");
        Ok(s)
    }
}

} // verus!
