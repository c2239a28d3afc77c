//! Field power and drone orders of the active workspace: the one-shot
//! power cycle, field power cells, and the drone directive.

use crate::career::{sat_u32, CareerStats};
use crate::data::GameData;
use crate::drone_directive::DroneDirective;
use crate::session::{logged, Economy, ExpeditionState, GameSession};
use crate::text::{decimal, err_msg, ok_msg, push_int};
use crate::workspace_records::WorkspaceLogEvent;
use vstd::prelude::*;

verus! {

pub const POWER_CYCLE_FUEL_COST: i32 = 1;
pub const POWER_CYCLE_ENERGY_RESTORE: i32 = 4;
/// Port price of one field power cell.
pub const FIELD_POWER_CELL_PRICE: i64 = 45;
/// Cells the rack holds.
pub const MAX_FIELD_POWER_CELLS: u8 = 2;
/// Power one cell restores.
pub const FIELD_POWER_CELL_RESTORE: i32 = 4;

pub open spec fn min_int(a: int, b: int) -> int {
    if a <= b {
        a
    } else {
        b
    }
}

impl GameSession {
    pub open spec fn drones_deployed_spec(&self) -> bool {
        self.expedition is Some && self.expedition.unwrap().drones_deployed
    }

    /// Whether the run's drones are out.
    pub fn workspace_drones_deployed(&self) -> (r: bool)
        ensures
            r == self.drones_deployed_spec(),
    {
        match &self.expedition {
            Some(e) => e.drones_deployed,
            None => false,
        }
    }

    pub open spec fn drone_directive_spec(&self) -> DroneDirective {
        match self.expedition {
            Some(e) => e.drone_directive,
            None => DroneDirective::PullSupport,
        }
    }

    /// The run's drone order; pull support when no run is active.
    pub fn workspace_drone_directive(&self) -> (r: DroneDirective)
        ensures
            r == self.drone_directive_spec(),
    {
        match &self.expedition {
            Some(e) => e.drone_directive,
            None => DroneDirective::default_directive(),
        }
    }

    pub open spec fn drone_support_spec(&self, data: GameData) -> int {
        match self.expedition {
            Some(e) => e.drone_directive.effective_support_spec(
                self.stats_spec(data).drone_support as int,
            ),
            None => self.stats_spec(data).drone_support as int,
        }
    }

    /// Field support the drones give under the run's order.
    pub fn workspace_drone_support(&self, data: &GameData) -> (r: i32)
        requires
            data.wf(),
            self.wf(),
        ensures
            r == self.drone_support_spec(*data),
    {
        let module_support = self.module_stats(data).drone_support;
        match &self.expedition {
            Some(e) => e.drone_directive.effective_support(module_support),
            None => module_support,
        }
    }

    /// Steps the drone order; needs an online drone bay and an active run.
    pub fn cycle_drone_directive(&mut self, data: &GameData) -> (r: Result<String, String>)
        requires
            old(self).wf(),
            old(self).log_room(1),
            data.wf(),
        ensures
            r is Err ==> *final(self) == *old(self),
            old(self).stats_spec(*data).drone_support <= 0 ==> err_msg(
                r,
                "Requires Drone Bay capability before issuing a drone directive."@,
            ),
            old(self).stats_spec(*data).drone_support > 0 && old(self).expedition is None
                ==> err_msg(r, "there is no active expedition"@),
            old(self).stats_spec(*data).drone_support > 0 && old(self).expedition is Some ==> {
                let e = old(self).expedition.unwrap();
                let next = e.drone_directive.next_spec();
                &&& ok_msg(
                    r,
                    "Drone directive: "@ + next.label_spec() + ". "@ + next.description_spec(),
                )
                &&& final(self).expedition == Some(
                    ExpeditionState {
                        drone_directive: next,
                        drones_deployed: if e.workspace_scanned {
                            next.deploys_drones_spec()
                        } else {
                            e.drones_deployed
                        },
                        ..e
                    },
                )
                &&& logged(
                    *old(self),
                    final(self).site_progress@,
                    e.site_id@,
                    WorkspaceLogEvent::DroneDirectiveChanged,
                    Some(e.workspace_section@),
                    None,
                )
                &&& *final(self) == (GameSession {
                    expedition: final(self).expedition,
                    site_progress: final(self).site_progress,
                    ..*old(self)
                })
                &&& final(self).wf()
            },
    {
        let module_support = self.module_stats(data).drone_support;
        if module_support <= 0 {
            return Err("Requires Drone Bay capability before issuing a drone directive.".to_owned());
        }
        let (next, site_id, section_id) = match &mut self.expedition {
            Some(e) => {
                let next = e.drone_directive.next();
                e.drone_directive = next;
                if e.workspace_scanned {
                    e.drones_deployed = next.deploys_drones();
                }
                (next, e.site_id.clone(), e.workspace_section.clone())
            },
            None => {
                return Err("there is no active expedition".to_owned());
            },
        };
        let ghost mid = *self;
        self.append_workspace_log(
            site_id.as_str(),
            WorkspaceLogEvent::DroneDirectiveChanged,
            Some(section_id.as_str()),
            None,
        );
        proof {
            assert(mid.progress_spec(site_id@) == old(self).progress_spec(site_id@));
            assert(mid.progress_index(site_id@) == old(self).progress_index(site_id@));
        }
        let mut msg = "Drone directive: ".to_owned();
        msg.append(next.label());
        msg.append(". ");
        msg.append(next.description());
        Ok(msg)
    }

    pub open spec fn can_power_cycle_spec(&self, data: GameData) -> bool {
        match self.expedition {
            Some(e) => e.power_cycles_used == 0 && e.workspace_energy < e.workspace_energy_capacity
                && self.economy.fuel > data.config.safe_return_buffer,
            None => false,
        }
    }

    /// Whether the one-shot power cycle is available: unused this run, the
    /// reserve below capacity, and fuel above the return reserve.
    pub fn can_power_cycle_workspace(&self, data: &GameData) -> (r: bool)
        ensures
            r == self.can_power_cycle_spec(*data),
    {
        match &self.expedition {
            Some(e) => e.power_cycles_used == 0 && e.workspace_energy < e.workspace_energy_capacity
                && self.economy.fuel > data.config.safe_return_buffer,
            None => false,
        }
    }

    /// Burns one fuel to restore up to four power, once per run.
    pub fn power_cycle_workspace(&mut self, data: &GameData) -> (r: Result<String, String>)
        requires
            old(self).wf(),
            old(self).log_room(1),
            data.wf(),
        ensures
            r is Err ==> *final(self) == *old(self),
            old(self).expedition is None ==> err_msg(r, "there is no active expedition"@),
            old(self).expedition is Some ==> {
                let e = old(self).expedition.unwrap();
                if e.power_cycles_used > 0 {
                    err_msg(r, "field power cycle already used this run"@)
                } else if e.workspace_energy >= e.workspace_energy_capacity {
                    err_msg(r, "workspace power reserve is already full"@)
                } else if old(self).economy.fuel <= data.config.safe_return_buffer {
                    err_msg(
                        r,
                        "power cycle unavailable: keep "@ + decimal(
                            data.config.safe_return_buffer as int,
                        ) + " fuel for the return burn"@,
                    )
                } else {
                    let restored = min_int(
                        4,
                        e.workspace_energy_capacity - e.workspace_energy,
                    );
                    &&& final(self).economy == (Economy {
                        fuel: (old(self).economy.fuel - 1) as i32,
                        ..old(self).economy
                    })
                    &&& final(self).expedition == Some(
                        ExpeditionState {
                            workspace_energy: (e.workspace_energy + restored) as i32,
                            power_cycles_used: 1,
                            ..e
                        },
                    )
                    &&& logged(
                        *old(self),
                        final(self).site_progress@,
                        e.site_id@,
                        WorkspaceLogEvent::PowerCycled,
                        Some(e.workspace_section@),
                        None,
                    )
                    &&& *final(self) == (GameSession {
                        economy: final(self).economy,
                        expedition: final(self).expedition,
                        site_progress: final(self).site_progress,
                        ..*old(self)
                    })
                    &&& ok_msg(
                        r,
                        "Field power cycled: +"@ + decimal(restored) + " power for 1 fuel. Reserve "@
                            + decimal(e.workspace_energy + restored) + "/"@ + decimal(
                            e.workspace_energy_capacity as int,
                        ) + "; FUEL "@ + decimal(old(self).economy.fuel - 1) + " // RETURN "@
                            + decimal(data.config.safe_return_buffer as int) + " RESERVED."@,
                    )
                    &&& final(self).wf()
                }
            },
    {
        let (energy, capacity, cycles_used) = match &self.expedition {
            Some(e) => (e.workspace_energy, e.workspace_energy_capacity, e.power_cycles_used),
            None => {
                return Err("there is no active expedition".to_owned());
            },
        };
        if cycles_used > 0 {
            return Err("field power cycle already used this run".to_owned());
        }
        if energy >= capacity {
            return Err("workspace power reserve is already full".to_owned());
        }
        if self.economy.fuel <= data.config.safe_return_buffer {
            let mut e = "power cycle unavailable: keep ".to_owned();
            push_int(&mut e, data.config.safe_return_buffer as i64);
            e.append(" fuel for the return burn");
            return Err(e);
        }
        let restored = if capacity - energy < POWER_CYCLE_ENERGY_RESTORE {
            capacity - energy
        } else {
            POWER_CYCLE_ENERGY_RESTORE
        };
        self.economy.fuel = self.economy.fuel - POWER_CYCLE_FUEL_COST;
        let (site_id, section_id) = match &mut self.expedition {
            Some(e) => {
                e.workspace_energy = e.workspace_energy + restored;
                e.power_cycles_used = 1;
                (e.site_id.clone(), e.workspace_section.clone())
            },
            None => {
                return Err("there is no active expedition".to_owned());
            },
        };
        let ghost mid = *self;
        self.append_workspace_log(
            site_id.as_str(),
            WorkspaceLogEvent::PowerCycled,
            Some(section_id.as_str()),
            None,
        );
        proof {
            assert(mid.progress_spec(site_id@) == old(self).progress_spec(site_id@));
            assert(mid.progress_index(site_id@) == old(self).progress_index(site_id@));
        }
        let mut msg = "Field power cycled: +".to_owned();
        push_int(&mut msg, restored as i64);
        msg.append(" power for 1 fuel. Reserve ");
        push_int(&mut msg, (energy + restored) as i64);
        msg.append("/");
        push_int(&mut msg, capacity as i64);
        msg.append("; FUEL ");
        push_int(&mut msg, self.economy.fuel as i64);
        msg.append(" // RETURN ");
        push_int(&mut msg, data.config.safe_return_buffer as i64);
        msg.append(" RESERVED.");
        Ok(msg)
    }

    pub open spec fn can_buy_cell_spec(&self) -> bool {
        self.expedition is None && self.field_power_cells < MAX_FIELD_POWER_CELLS
            && self.economy.credits >= FIELD_POWER_CELL_PRICE
    }

    /// Whether a cell can be bought: at port, room in the rack, and the price
    /// in hand.
    pub fn can_buy_field_power_cell(&self) -> (r: bool)
        ensures
            r == self.can_buy_cell_spec(),
    {
        self.expedition.is_none() && self.field_power_cells < MAX_FIELD_POWER_CELLS
            && self.economy.credits >= FIELD_POWER_CELL_PRICE
    }

    /// Buys one field power cell at port.
    pub fn buy_field_power_cell(&mut self) -> (r: Result<String, String>)
        requires
            old(self).wf(),
        ensures
            r is Err ==> *final(self) == *old(self),
            old(self).expedition is Some ==> err_msg(r, "field power cells are sold at port"@),
            old(self).expedition is None && old(self).field_power_cells >= MAX_FIELD_POWER_CELLS
                ==> err_msg(r, "field power cell rack is full"@),
            old(self).expedition is None && old(self).field_power_cells < MAX_FIELD_POWER_CELLS
                && old(self).economy.credits < FIELD_POWER_CELL_PRICE ==> err_msg(
                r,
                "a field power cell costs 45 credits"@,
            ),
            old(self).can_buy_cell_spec() ==> {
                &&& ok_msg(
                    r,
                    "Field power cell stowed for 45 credits. Rack "@ + decimal(
                        old(self).field_power_cells + 1,
                    ) + "/2."@,
                )
                &&& *final(self) == (GameSession {
                    economy: Economy {
                        credits: (old(self).economy.credits - FIELD_POWER_CELL_PRICE) as i64,
                        ..old(self).economy
                    },
                    field_power_cells: (old(self).field_power_cells + 1) as u8,
                    ..*old(self)
                })
                &&& final(self).wf()
            },
    {
        if self.expedition.is_some() {
            return Err("field power cells are sold at port".to_owned());
        }
        if self.field_power_cells >= MAX_FIELD_POWER_CELLS {
            return Err("field power cell rack is full".to_owned());
        }
        if self.economy.credits < FIELD_POWER_CELL_PRICE {
            return Err("a field power cell costs 45 credits".to_owned());
        }
        self.economy.credits = self.economy.credits - FIELD_POWER_CELL_PRICE;
        self.field_power_cells = self.field_power_cells + 1;
        let mut msg = "Field power cell stowed for 45 credits. Rack ".to_owned();
        push_int(&mut msg, self.field_power_cells as i64);
        msg.append("/2.");
        Ok(msg)
    }

    /// Builds one field power cell at port from one alloy and one
    /// electronics.
    pub fn fabricate_field_power_cell(&mut self) -> (r: Result<String, String>)
        requires
            old(self).wf(),
        ensures
            r is Err ==> *final(self) == *old(self),
            old(self).expedition is Some ==> err_msg(r, "field power cells are built at port"@),
            old(self).expedition is None && old(self).field_power_cells >= MAX_FIELD_POWER_CELLS
                ==> err_msg(r, "field power cell rack is full"@),
            old(self).expedition is None && old(self).field_power_cells < MAX_FIELD_POWER_CELLS && (
            old(self).economy.alloy < 1 || old(self).economy.electronics < 1) ==> err_msg(
                r,
                "fabrication needs 1 Alloy and 1 Electronics"@,
            ),
            old(self).expedition is None && old(self).field_power_cells < MAX_FIELD_POWER_CELLS
                && old(self).economy.alloy >= 1 && old(self).economy.electronics >= 1 ==> {
                &&& ok_msg(
                    r,
                    "Field power cell fabricated from salvage. Rack "@ + decimal(
                        old(self).field_power_cells + 1,
                    ) + "/2."@,
                )
                &&& *final(self) == (GameSession {
                    economy: Economy {
                        alloy: (old(self).economy.alloy - 1) as i32,
                        electronics: (old(self).economy.electronics - 1) as i32,
                        ..old(self).economy
                    },
                    field_power_cells: (old(self).field_power_cells + 1) as u8,
                    career: CareerStats {
                        field_power_cells_fabricated: sat_u32(
                            old(self).career.field_power_cells_fabricated + 1,
                        ),
                        ..old(self).career
                    },
                    ..*old(self)
                })
                &&& final(self).wf()
            },
    {
        if self.expedition.is_some() {
            return Err("field power cells are built at port".to_owned());
        }
        if self.field_power_cells >= MAX_FIELD_POWER_CELLS {
            return Err("field power cell rack is full".to_owned());
        }
        if self.economy.alloy < 1 || self.economy.electronics < 1 {
            return Err("fabrication needs 1 Alloy and 1 Electronics".to_owned());
        }
        self.economy.alloy = self.economy.alloy - 1;
        self.economy.electronics = self.economy.electronics - 1;
        self.field_power_cells = self.field_power_cells + 1;
        self.career.record_field_power_cell_fabricated();
        let mut msg = "Field power cell fabricated from salvage. Rack ".to_owned();
        push_int(&mut msg, self.field_power_cells as i64);
        msg.append("/2.");
        Ok(msg)
    }

    pub open spec fn can_use_cell_spec(&self) -> bool {
        match self.expedition {
            Some(e) => self.field_power_cells > 0 && e.workspace_energy
                < e.workspace_energy_capacity,
            None => false,
        }
    }

    /// Whether a cell can be spent: a run, a cell in the rack, and room in
    /// the reserve.
    pub fn can_use_field_power_cell(&self) -> (r: bool)
        ensures
            r == self.can_use_cell_spec(),
    {
        match &self.expedition {
            Some(e) => self.field_power_cells > 0 && e.workspace_energy < e.workspace_energy_capacity,
            None => false,
        }
    }

    /// Spends one cell to restore up to four power in the wreck.
    pub fn use_field_power_cell(&mut self) -> (r: Result<String, String>)
        requires
            old(self).wf(),
            old(self).log_room(1),
        ensures
            r is Err ==> *final(self) == *old(self),
            old(self).expedition is None ==> err_msg(r, "there is no active expedition"@),
            old(self).expedition is Some && old(self).field_power_cells == 0 ==> err_msg(
                r,
                "no field power cell is stowed"@,
            ),
            old(self).expedition is Some && old(self).field_power_cells > 0 ==> {
                let e = old(self).expedition.unwrap();
                if e.workspace_energy >= e.workspace_energy_capacity {
                    err_msg(r, "workspace power reserve is already full"@)
                } else {
                    let restored = min_int(4, e.workspace_energy_capacity - e.workspace_energy);
                    &&& final(self).field_power_cells == old(self).field_power_cells - 1
                    &&& final(self).expedition == Some(
                        ExpeditionState {
                            workspace_energy: (e.workspace_energy + restored) as i32,
                            ..e
                        },
                    )
                    &&& logged(
                        *old(self),
                        final(self).site_progress@,
                        e.site_id@,
                        WorkspaceLogEvent::FieldPowerCellUsed,
                        Some(e.workspace_section@),
                        None,
                    )
                    &&& *final(self) == (GameSession {
                        field_power_cells: final(self).field_power_cells,
                        expedition: final(self).expedition,
                        site_progress: final(self).site_progress,
                        ..*old(self)
                    })
                    &&& ok_msg(
                        r,
                        "Field power cell installed: +"@ + decimal(restored) + " power. Reserve "@
                            + decimal(e.workspace_energy + restored) + "/"@ + decimal(
                            e.workspace_energy_capacity as int,
                        ) + "."@,
                    )
                    &&& final(self).wf()
                }
            },
    {
        let (energy, capacity) = match &self.expedition {
            Some(e) => (e.workspace_energy, e.workspace_energy_capacity),
            None => {
                return Err("there is no active expedition".to_owned());
            },
        };
        if self.field_power_cells == 0 {
            return Err("no field power cell is stowed".to_owned());
        }
        if energy >= capacity {
            return Err("workspace power reserve is already full".to_owned());
        }
        let restored = if capacity - energy < FIELD_POWER_CELL_RESTORE {
            capacity - energy
        } else {
            FIELD_POWER_CELL_RESTORE
        };
        self.field_power_cells = self.field_power_cells - 1;
        let (site_id, section_id) = match &mut self.expedition {
            Some(e) => {
                e.workspace_energy = e.workspace_energy + restored;
                (e.site_id.clone(), e.workspace_section.clone())
            },
            None => {
                return Err("there is no active expedition".to_owned());
            },
        };
        let ghost mid = *self;
        self.append_workspace_log(
            site_id.as_str(),
            WorkspaceLogEvent::FieldPowerCellUsed,
            Some(section_id.as_str()),
            None,
        );
        proof {
            assert(mid.progress_spec(site_id@) == old(self).progress_spec(site_id@));
            assert(mid.progress_index(site_id@) == old(self).progress_index(site_id@));
        }
        let mut msg = "Field power cell installed: +".to_owned();
        push_int(&mut msg, restored as i64);
        msg.append(" power. Reserve ");
        push_int(&mut msg, (energy + restored) as i64);
        msg.append("/");
        push_int(&mut msg, capacity as i64);
        msg.append(".");
        Ok(msg)
    }
}

} // verus!
