//! Game-state rules of a salvage-boat career: port services, wreck
//! workspaces, cargo packing, voyages and save integrity.

pub mod capability;
pub mod career;
pub mod cargo_actions;
pub mod cargo_bay;
pub mod contracts;
pub mod crew;
pub mod crew_readiness;
pub mod data;
pub mod departure;
pub mod discovery;
pub mod disposition;
pub mod drone_directive;
pub mod engine;
pub mod expedition;
pub mod insurance;
pub mod laws;
pub mod layout;
pub mod loadout;
pub mod ledger;
pub mod maintenance;
pub mod market;
pub mod packing;
pub mod persistence;
pub mod port;
pub mod progression;
pub mod rebuild;
pub mod reconnaissance;
pub mod recovery;
pub mod refinery;
pub mod reload;
pub mod reputation;
pub mod return_policy;
pub mod route_familiarity;
pub mod scan_profile;
pub mod section_clearance;
pub mod session;
pub mod survey;
pub mod ship_wear;
pub mod text;
pub mod validation;
pub mod voyage_record;
pub mod workspace;
pub mod workspace_condition;
pub mod workspace_ops;
pub mod workspace_power;
pub mod workspace_records;
pub mod workspace_transfer;
