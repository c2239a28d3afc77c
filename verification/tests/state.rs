use salvage_state::career::CareerStats;
use salvage_state::crew::CrewRole;
use salvage_state::crew_readiness::fatigue_gain;
use salvage_state::data::{
    DiscoveryCopy, DiscoveryPool, DiscoveryTuning, GameConfig, GameData, LeadKind, InsuranceTuning, MaintenanceTuning, MarketTuning, ModuleData,
    ReconnaissanceTuning, RefineryTuning, RiskTuning, SalvageObjectData, SalvageUiCopy, SiteData,
    StartingModule, VoyagePlanTuning, WreckSectionData,
};
use salvage_state::disposition::Disposition;
use salvage_state::drone_directive::DroneDirective;
use salvage_state::engine::{quote_for, RefineryResource, RiskOutcome, RiskResult, VoyagePlan};
use salvage_state::layout::{Footprint, GridPosition, PlacedItem, ShipLayout};
use salvage_state::loadout::validate_saved_loadouts;
use salvage_state::persistence::restore_legacy_fields;
use salvage_state::return_policy::ReturnPolicy;
use salvage_state::scan_profile::WorkspaceScanProfile;
use salvage_state::session::{
    CargoItem, CargoStatus, ExpeditionState, GameSession, ReturnedItem, SiteProgress, WreckRecord,
};
use salvage_state::ship_wear::wear_gain;
use salvage_state::voyage_record::VoyageRecord;
use salvage_state::workspace::TransferMode;
use salvage_state::workspace_power::{FIELD_POWER_CELL_PRICE, MAX_FIELD_POWER_CELLS};
use salvage_state::workspace_records::{WorkspaceLogEntry, WorkspaceLogEvent};

fn ids(list: &[&str]) -> Vec<String> {
    list.iter().map(|id| (*id).to_owned()).collect()
}

fn section(
    id: &str,
    name: &str,
    targets: &[&str],
    reward: i64,
    connected: &[&str],
    capability: Option<&str>,
    arrival: &str,
) -> WreckSectionData {
    WreckSectionData {
        id: id.to_owned(),
        display_name: name.to_owned(),
        candidate_targets: ids(targets),
        clearance_reward: reward,
        connected_sections: ids(connected),
        required_capability: capability.map(str::to_owned),
        arrival_text: arrival.to_owned(),
    }
}

#[allow(clippy::too_many_arguments)]
fn object(
    id: &str,
    name: &str,
    footprint: (i32, i32),
    transfer_mode: &str,
    sale_value: i64,
    yields: (i32, i32),
    capability: Option<&str>,
    hazard: Option<&str>,
    mass_tenths: i32,
    energy_cost: i32,
) -> SalvageObjectData {
    SalvageObjectData {
        id: id.to_owned(),
        display_name: name.to_owned(),
        workspace_name: name.to_owned(),
        footprint: Footprint {
            width: footprint.0,
            height: footprint.1,
        },
        rotatable: true,
        transfer_mode: transfer_mode.to_owned(),
        sale_value,
        alloy_yield: yields.0,
        electronics_yield: yields.1,
        required_capability: capability.map(str::to_owned),
        hazard: hazard.map(str::to_owned),
        mass_tenths,
        energy_cost,
        integrity: 80,
        extraction_difficulty: 2,
        install_module_id: None,
    }
}

#[allow(clippy::too_many_arguments)]
fn module(
    id: &str,
    name: &str,
    footprint: (i32, i32),
    costs: (i64, i64, i64),
    capability: Option<&str>,
    power: i32,
    fuel_capacity: i32,
    hull: i32,
    external_capacity: i32,
    drone_support: i32,
) -> ModuleData {
    ModuleData {
        id: id.to_owned(),
        display_name: name.to_owned(),
        footprint: Footprint {
            width: footprint.0,
            height: footprint.1,
        },
        purchase_cost: costs.0,
        remove_cost: costs.1,
        unlock_credits: costs.2,
        capability: capability.map(str::to_owned),
        power,
        fuel_capacity,
        hull,
        external_capacity,
        drone_support,
        install_cost: costs.1,
    }
}

/// The catalog the tests run against: three authored wrecks, their
/// salvage, and the shipyard's modules.
fn game_data() -> GameData {
    let sites = vec![
        SiteData {
            id: "merchant_wreck".to_owned(),
            display_name: "Merchant Wreck".to_owned(),
            danger: 20,
            fuel_cost: 4,
            condition: 82,
            contract_target: Some("industrial_battery".to_owned()),
            contract_reward: 180,
            candidate_salvage: ids(&[
                "industrial_battery",
                "navigation_computer",
                "engine_assembly",
                "sealed_container",
                "trade_crate",
            ]),
            sections: vec![
                section(
                    "cargo_bay",
                    "Cargo Bay",
                    &["industrial_battery", "navigation_computer", "engine_assembly"],
                    140,
                    &["engineering_access"],
                    None,
                    "The cargo bay opens under the work lights.",
                ),
                section(
                    "engineering_access",
                    "Engineering Access",
                    &["sealed_container"],
                    90,
                    &["cargo_bay"],
                    None,
                    "The workboat noses into a narrow service run.",
                ),
            ],
        },
        SiteData {
            id: "research_vessel".to_owned(),
            display_name: "Research Vessel".to_owned(),
            danger: 75,
            fuel_cost: 6,
            condition: 70,
            contract_target: Some("quantum_lens".to_owned()),
            contract_reward: 320,
            candidate_salvage: ids(&["quantum_lens", "medical_supplies"]),
            sections: vec![section(
                "lab_deck",
                "Lab Deck",
                &["quantum_lens", "medical_supplies"],
                160,
                &[],
                None,
                "Dead instruments line the lab deck.",
            )],
        },
        SiteData {
            id: "military_wreck".to_owned(),
            display_name: "Military Wreck".to_owned(),
            danger: 55,
            fuel_cost: 5,
            condition: 76,
            contract_target: None,
            contract_reward: 0,
            candidate_salvage: ids(&["titanium_plating", "weapon_core"]),
            sections: vec![
                section(
                    "hangar",
                    "Hangar",
                    &["titanium_plating"],
                    120,
                    &["reactor_spine"],
                    None,
                    "The hangar doors hang open.",
                ),
                section(
                    "reactor_spine",
                    "Reactor Spine",
                    &["weapon_core"],
                    200,
                    &["hangar"],
                    Some("stabilizer"),
                    "The reactor spine hums behind its shielding.",
                ),
            ],
        },
    ];
    let salvage_objects = vec![
        object(
            "industrial_battery",
            "Industrial Battery",
            (1, 1),
            "internal_cargo",
            160,
            (2, 1),
            None,
            None,
            20,
            1,
        ),
        object(
            "navigation_computer",
            "Navigation Computer",
            (1, 1),
            "internal_cargo",
            220,
            (0, 2),
            None,
            Some("static_discharge"),
            10,
            1,
        ),
        object(
            "engine_assembly",
            "Engine Assembly",
            (2, 1),
            "tow",
            300,
            (4, 0),
            Some("heavy_tractor"),
            None,
            70,
            2,
        ),
        object(
            "sealed_container",
            "Sealed Container",
            (1, 1),
            "external_clamp",
            140,
            (1, 0),
            None,
            None,
            40,
            1,
        ),
        object(
            "trade_crate",
            "Trade Crate",
            (1, 1),
            "external_clamp",
            120,
            (1, 0),
            None,
            None,
            30,
            1,
        ),
        object(
            "medical_supplies",
            "Medical Supplies",
            (1, 1),
            "internal_cargo",
            90,
            (0, 1),
            None,
            None,
            10,
            1,
        ),
        object(
            "quantum_lens",
            "Quantum Lens",
            (1, 1),
            "internal_cargo",
            400,
            (0, 3),
            None,
            Some("radiation"),
            10,
            1,
        ),
        object(
            "titanium_plating",
            "Titanium Plating",
            (2, 1),
            "external_clamp",
            180,
            (3, 0),
            None,
            None,
            60,
            1,
        ),
        object(
            "weapon_core",
            "Weapon Core",
            (1, 1),
            "internal_cargo",
            500,
            (1, 3),
            None,
            Some("unstable_charge"),
            20,
            2,
        ),
    ];
    let modules = vec![
        module(
            "engine_core",
            "Engine Core",
            (2, 2),
            (0, 0, 0),
            Some("basic_tractor"),
            2,
            0,
            0,
            1,
            0,
        ),
        module("fuel_tank", "Fuel Tank", (1, 1), (120, 20, 0), None, 0, 4, 0, 0, 0),
        module(
            "battery_module",
            "Battery Module",
            (1, 1),
            (150, 20, 300),
            None,
            1,
            0,
            0,
            0,
            0,
        ),
        module(
            "shield_module",
            "Shield Module",
            (1, 1),
            (200, 30, 400),
            Some("stabilizer"),
            0,
            0,
            0,
            1,
            0,
        ),
        module(
            "reactor_module",
            "Reactor Module",
            (1, 2),
            (300, 40, 600),
            Some("heavy_tractor"),
            2,
            0,
            0,
            2,
            0,
        ),
        module(
            "drone_bay",
            "Drone Bay",
            (1, 1),
            (250, 30, 700),
            None,
            0,
            0,
            0,
            0,
            1,
        ),
        module("nav_module", "Nav Module", (1, 1), (300, 30, 950), None, 0, 0, 0, 0, 0),
        module(
            "hull_plating",
            "Hull Plating",
            (1, 1),
            (200, 30, 1000),
            None,
            0,
            0,
            1,
            0,
            0,
        ),
        module(
            "scanner_module",
            "Scanner Module",
            (1, 1),
            (360, 40, 1100),
            Some("scanner_array"),
            0,
            0,
            0,
            1,
            0,
        ),
    ];
    let config = GameConfig {
        version: "2.40.0".to_owned(),
        grid_width: 5,
        grid_height: 5,
        starting_credits: 880,
        starting_fuel: 12,
        max_fuel: 20,
        max_hull: 10,
        starting_modules: vec![
            StartingModule {
                module_id: "engine_core".to_owned(),
                position: GridPosition::new(0, 0),
                rotation: 0,
            },
            StartingModule {
                module_id: "fuel_tank".to_owned(),
                position: GridPosition::new(0, 2),
                rotation: 0,
            },
        ],
        safe_return_buffer: 2,
        refuel_price_per_unit: 5,
        repair_price_per_hull: 10,
        module_repair_price: 55,
        progression_credit_threshold: 1500,
        workspace_scan_energy_cost: 1,
        risk: RiskTuning {
            safe_danger_threshold: 40,
            ordinary_return_weight: 60,
            damaged_module_weight: 10,
            lost_salvage_weight: 10,
            emergency_repair_weight: 10,
            forced_abandon_weight: 10,
            external_cargo_risk_per_item: 8,
        },
        reconnaissance: ReconnaissanceTuning {
            max_level: 2,
            base_cost: 100,
            cost_step: 20,
            danger_reduction_per_level: 5,
        },
        insurance: InsuranceTuning {
            base_premium: 25,
            premium_per_danger: 2,
            claim_percent: 50,
        },
        market: MarketTuning {
            cycle_percent: vec![100, 110],
        },
        voyage_plan: VoyagePlanTuning {
            cautious_fuel_delta: 1,
            cautious_danger_delta: -6,
            expedited_fuel_delta: -1,
            expedited_danger_delta: 6,
        },
        maintenance: MaintenanceTuning {
            base_wear_per_voyage: 4,
            setback_wear: 8,
            external_load_wear: 4,
            power_cycle_wear: 3,
            danger_per_wear_band: 4,
            price_per_wear: 6,
        },
        refinery: RefineryTuning {
            alloy_batch: 5,
            alloy_payout: 100,
            electronics_batch: 3,
            electronics_payout: 90,
        },
    };
    GameData {
        sites,
        salvage_objects,
        modules,
        config,
        salvage_ui: SalvageUiCopy {
            transfer_busy: "A transfer is already in progress.".to_owned(),
            choose_destination: "Choose a destination in the hold.".to_owned(),
            transfer_complete: "Transfer complete.".to_owned(),
            clamps_full: "No external clamp is free.".to_owned(),
            hold_full: "The hold has no room.".to_owned(),
            depleted_departure: "This wreck has nothing left to recover.".to_owned(),
        },
        discovery: DiscoveryTuning {
            active_limit: 4,
            specialist_cost: 250,
            pools: vec![
                DiscoveryPool {
                    specialist: false,
                    minimum_reputation: 0,
                },
                DiscoveryPool {
                    specialist: true,
                    minimum_reputation: 2,
                },
            ],
            copy: DiscoveryCopy {
                busy: "Finish the current voyage before chasing a new lead.".to_owned(),
                full: "The chart already lists as many wrecks as the crew can work.".to_owned(),
                locked: "No broker will share that lead yet.".to_owned(),
                unaffordable: "A specialist lead costs {cost} credits.".to_owned(),
                starter_ready: "Starter kit ready".to_owned(),
            },
        },
    }
}

fn progress<'a>(session: &'a GameSession, site_id: &str) -> &'a SiteProgress {
    let index = session.progress_slot(site_id).expect("site progress");
    &session.site_progress[index]
}

fn progress_mut<'a>(session: &'a mut GameSession, site_id: &str) -> &'a mut SiteProgress {
    let index = session.progress_slot(site_id).expect("site progress");
    &mut session.site_progress[index]
}

fn object_data<'a>(data: &'a GameData, id: &str) -> &'a SalvageObjectData {
    data.object(id).expect("salvage object")
}

fn module_data<'a>(data: &'a GameData, id: &str) -> &'a ModuleData {
    data.module(id).expect("module")
}

fn reload(session: &GameSession, data: &GameData) -> Result<GameSession, String> {
    GameSession::from_save(session.clone().to_save(&data.config.version), data)
}

fn same_placements(left: &ShipLayout, right: &ShipLayout) -> bool {
    left.width == right.width
        && left.height == right.height
        && left.placements.len() == right.placements.len()
        && left
            .placements
            .iter()
            .zip(right.placements.iter())
            .all(|(a, b)| same_item(a, b))
}

fn same_item(a: &PlacedItem, b: &PlacedItem) -> bool {
    a.id == b.id
        && a.footprint == b.footprint
        && a.position == b.position
        && a.rotation == b.rotation
        && a.permanent == b.permanent
}

#[test]
fn fixture_catalog_is_within_authored_ranges() {
    assert!(game_data().validate().is_ok());
}

fn record(outcome: RiskOutcome, value: i64, target_count: u32) -> VoyageRecord {
    VoyageRecord {
        site_id: "merchant_wreck".to_owned(),
        recovered_count: target_count,
        recovered_value: value,
        recovered_alloy: 3,
        recovered_electronics: 2,
        external_load: 1,
        risk_outcome: outcome,
        danger_score: 20,
        reconnaissance_level: 0,
        voyage_plan: VoyagePlan::Standard,
        return_policy: ReturnPolicy::Standard,
        contract_completed: outcome == RiskOutcome::OrdinaryReturn,
        contract_failed: false,
        contract_accepted: true,
        scan_profile: WorkspaceScanProfile::Standard,
        drone_directive: DroneDirective::PullSupport,
        condition_after: 80,
        cleared_sections: vec!["cargo_bay".to_owned()],
        clearance_payout: 0,
        return_fuel: 2,
        market_cycle: 0,
        insured: false,
        insurance_premium: 0,
        insurance_payout: 0,
    }
}

#[test]
fn career_stats_rebuild_the_dossier_from_the_voyage_log() {
    let records = vec![
        record(RiskOutcome::OrdinaryReturn, 250, 2),
        record(RiskOutcome::LostSalvage, 120, 1),
    ];

    let stats = CareerStats::from_voyage_log(&records);

    assert_eq!(stats.voyages_completed, 2);
    assert_eq!(stats.safe_returns, 1);
    assert_eq!(stats.targets_recovered, 3);
    assert_eq!(stats.gross_haul_value, 370);
    assert_eq!(stats.highest_haul_value, 250);
    assert_eq!(stats.contracts_completed, 1);
    assert_eq!(stats.sections_cleared, 2);
    stats.validate().unwrap();
}

#[test]
fn career_stats_record_service_work() {
    let mut stats = CareerStats::default();

    stats.record_repair(160, 1);
    stats.record_repair(35, 0);

    assert_eq!(stats.repairs_completed, 2);
    assert_eq!(stats.systems_restored, 1);
    assert_eq!(stats.repair_spend, 195);
    stats.validate().unwrap();
}

#[test]
fn career_stats_reject_impossible_totals() {
    let stats = CareerStats {
        voyages_completed: 1,
        safe_returns: 2,
        ..CareerStats::default()
    };

    assert_eq!(
        stats.validate().unwrap_err(),
        "save contains invalid career totals"
    );
}

#[test]
fn new_ships_have_three_internal_cargo_berths() {
    let data = game_data();
    let session = GameSession::new(&data);

    assert_eq!(session.cargo_bay_level(), 0);
    assert_eq!(session.internal_cargo_capacity(), 3);
    assert_eq!(session.internal_cargo_count(&data, None), 0);
    assert_eq!(session.cargo_bay_upgrade_label(), "UPGRADE ¢420");
}

#[test]
fn cargo_bay_upgrades_expand_berths_and_charge_the_yard() {
    let data = game_data();
    let mut session = GameSession::new(&data);
    let starting_credits = session.economy.credits;

    let first = session.purchase_cargo_bay_upgrade().unwrap();
    assert!(first.contains("Expanded the cargo bay to 5 internal berths"));
    assert_eq!(session.cargo_bay_level(), 1);
    assert_eq!(session.internal_cargo_capacity(), 5);
    assert_eq!(session.economy.credits, starting_credits - 420);

    session.economy.credits = 1_000;
    session.purchase_cargo_bay_upgrade().unwrap();
    assert_eq!(session.cargo_bay_level(), 2);
    assert_eq!(session.internal_cargo_capacity(), 7);
    assert_eq!(session.cargo_bay_upgrade_label(), "HOLD MAX");
    assert!(session.purchase_cargo_bay_upgrade().is_err());
}

#[test]
fn cargo_bay_level_survives_a_save_and_legacy_saves_start_at_level_zero() {
    let data = game_data();
    let mut session = GameSession::new(&data);
    session.purchase_cargo_bay_upgrade().unwrap();

    let restored = reload(&session, &data).unwrap();
    assert_eq!(restored.cargo_bay_level(), 1);
    assert_eq!(restored.internal_cargo_capacity(), 5);

    let legacy = GameSession::new(&data);
    let restored_legacy = reload(&legacy, &data).unwrap();
    assert_eq!(restored_legacy.cargo_bay_level(), 0);
}

#[test]
fn internal_cargo_berths_block_a_fourth_packed_item_until_upgrade() {
    let data = game_data();
    let mut session = GameSession::new(&data);
    session.begin_expedition("merchant_wreck", &data).unwrap();
    session.expedition.as_mut().unwrap().cargo = [
        "industrial_battery",
        "navigation_computer",
        "medical_supplies",
    ]
    .into_iter()
    .map(|object_id| CargoItem {
        object_id: object_id.to_owned(),
        status: CargoStatus::Packed,
        position: Some(GridPosition::new(1, 1)),
        rotation: 0,
    })
    .collect();

    let error = session
        .place_cargo("quantum_lens", GridPosition::new(2, 2), 0, &data)
        .unwrap_err();
    assert!(error.contains("No internal cargo berth is free (3/3)"));

    session.expedition = None;
    session.purchase_cargo_bay_upgrade().unwrap();
    assert_eq!(session.internal_cargo_capacity(), 5);
}

#[test]
fn packed_contract_target_pays_once() {
    let data = game_data();
    let mut session = GameSession::new(&data);
    let site = data.site("merchant_wreck").unwrap();
    let target_id = site.contract_target.as_ref().unwrap().clone();
    let before = session.economy.credits;
    let cargo = vec![CargoItem {
        object_id: target_id,
        status: CargoStatus::Packed,
        position: Some(GridPosition::new(1, 1)),
        rotation: 0,
    }];

    let message = session
        .complete_site_contract("merchant_wreck", &cargo, &data)
        .unwrap();
    let second = session.complete_site_contract("merchant_wreck", &cargo, &data);

    assert!(message.contains("Bonus +180 credits"));
    assert_eq!(session.economy.credits, before + 180);
    assert!(second.is_none());
}

#[test]
fn contract_bonus_can_complete_the_credit_milestone() {
    let data = game_data();
    let mut session = GameSession::new(&data);
    session.economy.credits = data.config.progression_credit_threshold - 180;
    session.unlocked_modules.push("nav_module".to_owned());
    let cargo = vec![CargoItem {
        object_id: "industrial_battery".to_owned(),
        status: CargoStatus::Packed,
        position: Some(GridPosition::new(1, 1)),
        rotation: 0,
    }];

    session.complete_site_contract("merchant_wreck", &cargo, &data);

    assert!(session.milestone_reached);
}

#[test]
fn crew_roles_cycle_in_a_visible_operating_order() {
    assert_eq!(CrewRole::all().len(), 5);
    assert_eq!(CrewRole::Deckhand.next(), CrewRole::Navigator);
    assert_eq!(CrewRole::SafetyOfficer.next(), CrewRole::Broker);
    assert_eq!(CrewRole::Broker.next(), CrewRole::Deckhand);
    assert_eq!(
        CrewRole::SafetyOfficer.description(),
        "-8 route danger // disciplined return watch"
    );
}

#[test]
fn crew_assignment_changes_only_the_promised_operating_levers() {
    let data = game_data();
    let mut session = GameSession::new(&data);
    assert_eq!(session.crew_role(), CrewRole::Deckhand);
    assert_eq!(session.crew_fuel_delta(), 0);
    assert_eq!(session.crew_adjusted_danger(45), 45);
    assert_eq!(session.crew_external_capacity(), 0);
    assert_eq!(session.crew_contract_bonus_percent(), 0);

    assert!(session.cycle_crew().unwrap().contains("NAVIGATOR"));
    assert_eq!(session.crew_fuel_delta(), -1);
    assert_eq!(session.crew_adjusted_danger(45), 45);

    assert!(session.cycle_crew().unwrap().contains("RIGGER"));
    assert_eq!(session.crew_external_capacity(), 1);

    assert!(session.cycle_crew().unwrap().contains("SAFETY OFFICER"));
    assert_eq!(session.crew_adjusted_danger(45), 37);

    assert!(session.cycle_crew().unwrap().contains("BROKER"));
    assert_eq!(session.crew_contract_bonus_percent(), 5);
}

#[test]
fn crew_expertise_grows_by_role_and_unlocks_tiered_operating_bonuses() {
    let data = game_data();
    let mut session = GameSession::new(&data);

    assert_eq!(session.crew_expertise_label(), "NOVICE");
    assert_eq!(
        GameSession::crew_experience_gain(RiskOutcome::OrdinaryReturn, true),
        2
    );
    assert_eq!(
        session.record_crew_experience(RiskOutcome::OrdinaryReturn, false),
        1
    );
    assert_eq!(session.crew_experience(), 1);
    assert_eq!(session.crew_expertise_level(), 0);

    session.crew_role = CrewRole::Navigator;
    session.career.crew_experience.set(CrewRole::Navigator, 3);
    assert_eq!(session.crew_expertise_label(), "QUALIFIED");
    assert_eq!(session.crew_fuel_delta(), -2);

    session.crew_role = CrewRole::Rigger;
    session.career.crew_experience.set(CrewRole::Rigger, 6);
    assert_eq!(session.crew_external_capacity(), 2);

    session.crew_role = CrewRole::SafetyOfficer;
    session.career.crew_experience.set(CrewRole::SafetyOfficer, 3);
    assert_eq!(session.crew_adjusted_danger(45), 33);

    session.crew_role = CrewRole::Broker;
    session.career.crew_experience.set(CrewRole::Broker, 6);
    assert_eq!(session.crew_contract_bonus_percent(), 9);
}

#[test]
fn veteran_deckhands_reduce_the_fatigue_of_a_completed_run() {
    let data = game_data();
    let mut session = GameSession::new(&data);
    session.career.crew_experience.set(CrewRole::Deckhand, 3);

    let gain = session.register_crew_fatigue(RiskOutcome::OrdinaryReturn, 0, 0);

    assert_eq!(gain, 7);
    assert_eq!(session.crew_readiness(), 93);
}

#[test]
fn crew_experience_report_calls_out_a_new_qualification() {
    let data = game_data();
    let mut session = GameSession::new(&data);
    session.career.crew_experience.set(CrewRole::Deckhand, 2);
    let previous_level = session.crew_expertise_level();
    session.record_crew_experience(RiskOutcome::OrdinaryReturn, false);

    assert_eq!(
        session.crew_experience_report(1, previous_level),
        "Crew DECKHAND expertise +1 // PROMOTED QUALIFIED."
    );
}

#[test]
fn veteran_crew_experience_caps_without_overflow() {
    let data = game_data();
    let mut session = GameSession::new(&data);
    session.crew_role = CrewRole::Broker;
    session.career.crew_experience.set(CrewRole::Broker, 5);
    let previous_level = session.crew_expertise_level();

    let gain = session.record_crew_experience(RiskOutcome::ForcedAbandon, true);

    assert_eq!(gain, 1);
    assert_eq!(session.crew_experience(), 6);
    assert_eq!(session.crew_expertise_label(), "VETERAN");
    assert!(session
        .crew_experience_report(gain, previous_level)
        .contains("PROMOTED VETERAN"));
    assert_eq!(
        session.record_crew_experience(RiskOutcome::OrdinaryReturn, true),
        0
    );
    assert_eq!(session.crew_experience(), 6);
}

#[test]
fn crew_cannot_be_reassigned_during_a_live_or_unresolved_run() {
    let data = game_data();
    let mut session = GameSession::new(&data);
    session.expedition = Some(ExpeditionState {
        site_id: "merchant_wreck".to_owned(),
        cargo: Vec::new(),
        workspace_transfer: None,
        risk: RiskResult {
            outcome: RiskOutcome::OrdinaryReturn,
            danger_score: 0,
            explanation: String::new(),
        },
        seed: 1,
        workspace_section: "cargo_bay".to_owned(),
        workspace_scanned: false,
        revealed_targets: Vec::new(),
        stabilized_targets: Vec::new(),
        scan_profile: WorkspaceScanProfile::Standard,
        drones_deployed: false,
        drone_directive: DroneDirective::Standby,
        workspace_energy: 1,
        workspace_energy_capacity: 1,
        power_cycles_used: 0,
        insured: false,
        contract_accepted: true,
        voyage_plan: VoyagePlan::Standard,
        return_policy: ReturnPolicy::Standard,
    });
    assert!(session.cycle_crew().unwrap_err().contains("safe port"));
}

#[test]
fn directive_cycle_covers_recall_survey_and_pull_orders() {
    assert_eq!(DroneDirective::Standby.next(), DroneDirective::Survey);
    assert_eq!(DroneDirective::Survey.next(), DroneDirective::PullSupport);
    assert_eq!(DroneDirective::PullSupport.next(), DroneDirective::Standby);
}

#[test]
fn survey_trades_extra_field_support_for_extraction_speed() {
    assert_eq!(DroneDirective::Survey.effective_support(1), 2);
    assert_eq!(DroneDirective::PullSupport.effective_support(1), 1);
    assert_eq!(DroneDirective::Standby.effective_support(1), 0);
}

#[test]
fn directive_labels_explain_the_operator_tradeoff() {
    assert!(DroneDirective::Survey.description().contains("safer"));
    assert!(DroneDirective::PullSupport
        .description()
        .contains("shorten"));
    assert!(DroneDirective::Standby.description().contains("recalled"));
}

#[test]
fn insured_departure_deducts_the_site_quote_and_marks_the_expedition() {
    let data = game_data();
    let mut session = GameSession::new(&data);
    let starting_credits = session.economy.credits;
    let starting_fuel = session.economy.fuel;
    let quote = session.insurance_quote("merchant_wreck", &data).unwrap();

    session
        .begin_expedition_with_coverage("merchant_wreck", &data, true)
        .unwrap();

    assert_eq!(session.economy.credits, starting_credits - quote.premium);
    assert_eq!(session.economy.fuel, starting_fuel - 4);
    assert!(session.expedition.as_ref().unwrap().insured);
}

#[test]
fn uninsured_departure_keeps_the_original_fuel_without_coverage() {
    let data = game_data();
    let mut session = GameSession::new(&data);

    session.begin_expedition("merchant_wreck", &data).unwrap();

    assert_eq!(session.economy.credits, data.config.starting_credits);
    assert_eq!(session.economy.fuel, data.config.starting_fuel - 4);
    assert!(!session.expedition.as_ref().unwrap().insured);
}

#[test]
fn cautious_and_expedited_plans_trade_fuel_for_route_danger() {
    let data = game_data();
    let mut cautious = GameSession::new(&data);
    cautious
        .begin_expedition_with_plan("merchant_wreck", &data, false, VoyagePlan::Cautious)
        .unwrap();
    let mut expedited = GameSession::new(&data);
    expedited
        .begin_expedition_with_plan("merchant_wreck", &data, false, VoyagePlan::Expedited)
        .unwrap();

    assert_eq!(cautious.economy.fuel, data.config.starting_fuel - 5);
    assert_eq!(expedited.economy.fuel, data.config.starting_fuel - 3);
    assert_eq!(
        cautious.expedition.as_ref().unwrap().voyage_plan,
        VoyagePlan::Cautious
    );
    assert!(
        cautious.expedition.as_ref().unwrap().risk.danger_score
            < expedited.expedition.as_ref().unwrap().risk.danger_score
    );
}

#[test]
fn worked_routes_lower_the_next_departure_risk() {
    let data = game_data();
    let mut fresh = GameSession::new(&data);
    fresh.begin_expedition("merchant_wreck", &data).unwrap();

    let mut familiar = GameSession::new(&data);
    progress_mut(&mut familiar, "merchant_wreck").visits = 2;
    familiar.begin_expedition("merchant_wreck", &data).unwrap();

    assert_eq!(familiar.route_familiarity("merchant_wreck"), 2);
    assert!(
        familiar.expedition.as_ref().unwrap().risk.danger_score
            < fresh.expedition.as_ref().unwrap().risk.danger_score
    );
}

#[test]
fn insurance_quote_scales_between_the_authored_wrecks() {
    let data = game_data();
    let session = GameSession::new(&data);

    assert_eq!(
        session
            .insurance_quote("merchant_wreck", &data)
            .unwrap()
            .premium,
        65
    );
    assert_eq!(
        session
            .insurance_quote("research_vessel", &data)
            .unwrap()
            .premium,
        175
    );
}

#[test]
fn insurance_departure_requires_the_premium_in_addition_to_fuel() {
    let data = game_data();
    let mut session = GameSession::new(&data);
    session.economy.credits = 64;
    session.economy.fuel = 12;

    assert!(!session.can_depart_insured("merchant_wreck", &data));
    session.economy.credits = 65;
    assert!(session.can_depart_insured("merchant_wreck", &data));
}

#[test]
fn completed_voyage_records_returned_value_and_outcome() {
    let data = game_data();
    let mut session = GameSession::new(&data);
    session.begin_expedition("merchant_wreck", &data).unwrap();
    let target_id = session.expedition.as_ref().unwrap().cargo[0]
        .object_id
        .clone();
    let position = GridPosition::new(3, 3);
    session.expedition.as_mut().unwrap().cargo[0].status = CargoStatus::Packed;
    session.expedition.as_mut().unwrap().cargo[0].position = Some(position);
    session
        .ship_layout
        .place(
            &format!("cargo:{target_id}"),
            object_data(&data, &target_id).footprint,
            position,
            0,
            false,
        )
        .unwrap();
    session.returned.push(ReturnedItem {
        object_id: target_id.clone(),
        position,
        rotation: 0,
        market_cycle: 0,
    });

    session.record_voyage(
        "merchant_wreck",
        &RiskResult {
            outcome: RiskOutcome::OrdinaryReturn,
            danger_score: 12,
            explanation: "clear".to_owned(),
        },
        VoyagePlan::Standard,
        ReturnPolicy::ProtectValue,
        0,
        1,
        true,
        false,
        true,
        WorkspaceScanProfile::Array,
        DroneDirective::Survey,
        64,
        2,
        &[],
        0,
        false,
        0,
        0,
        &data,
    );

    let record = session.last_voyage().expect("voyage record");
    assert_eq!(record.site_id, "merchant_wreck");
    assert_eq!(record.recovered_count, 1);
    assert_eq!(
        record.recovered_value,
        quote_for(object_data(&data, &target_id), 0, &data.config.market).sale_value
    );
    assert_eq!(record.external_load, 1);
    assert_eq!(record.risk_outcome, RiskOutcome::OrdinaryReturn);
    assert!(record.contract_completed);
    assert!(!record.contract_failed);
    assert_eq!(record.scan_profile, WorkspaceScanProfile::Array);
    assert_eq!(record.drone_directive, DroneDirective::Survey);
    assert_eq!(record.return_policy, ReturnPolicy::ProtectValue);
    assert_eq!(record.condition_after, 64);
    assert_eq!(record.return_fuel, 2);
    let value = record.recovered_value;
    assert_eq!(session.career.voyages_completed, 1);
    assert_eq!(session.career.safe_returns, 1);
    assert_eq!(session.career.targets_recovered, 1);
    assert_eq!(session.career.gross_haul_value, value);
    assert_eq!(session.career.highest_haul_value, value);
    assert_eq!(session.career.contracts_completed, 1);
    assert_eq!(session.career.sections_cleared, 0);
}

#[test]
fn closing_a_run_appends_a_ledger_entry() {
    let data = game_data();
    let mut session = GameSession::new(&data);
    session.begin_expedition("merchant_wreck", &data).unwrap();
    session.leave_all_pending().unwrap();

    let message = session.finish_packing(&data).unwrap();

    let record = session.last_voyage().expect("completed run is logged").clone();
    assert_eq!(record.site_id, "merchant_wreck");
    assert_eq!(record.recovered_count, 0);
    assert_eq!(record.external_load, 0);
    assert_eq!(record.condition_after, 64);
    assert!(!record.contract_completed);
    assert_eq!(record.scan_profile, WorkspaceScanProfile::Standard);
    let expected_fatigue = fatigue_gain(record.risk_outcome, record.external_load as i32, 0);
    assert_eq!(session.crew_fatigue(), expected_fatigue);
    assert_eq!(
        session.ship_wear(),
        wear_gain(
            record.risk_outcome,
            record.external_load as i32,
            0,
            &data.config.maintenance,
        )
    );
    assert!(message.contains("Commendation filed: FIRST RETURN."));
    assert!(message.contains("Crew fatigue +"));
    assert!(message.contains("Ship wear +"));
    assert!(message.contains("Crew DECKHAND expertise +1 // NOVICE"));
}

#[test]
fn closing_a_briefed_run_files_its_route_intelligence_level() {
    let data = game_data();
    let mut session = GameSession::new(&data);
    session.buy_reconnaissance("merchant_wreck", &data).unwrap();
    session.begin_expedition("merchant_wreck", &data).unwrap();
    session.leave_all_pending().unwrap();

    session.finish_packing(&data).unwrap();

    assert_eq!(session.last_voyage().unwrap().reconnaissance_level, 1);
}

#[test]
fn operation_log_remains_available_after_returning_to_debrief() {
    let data = game_data();
    let mut session = GameSession::new(&data);
    session.begin_expedition("merchant_wreck", &data).unwrap();
    session.scan_workspace(&data).unwrap();
    session.leave_all_pending().unwrap();

    session.finish_packing(&data).unwrap();

    let log = progress(&session, "merchant_wreck").operation_log.as_slice();
    assert_eq!(log.len(), 2);
    assert_eq!(log[0].event, WorkspaceLogEvent::Departed);
    assert_eq!(log[1].event, WorkspaceLogEvent::SectionScanned);
}

fn filed_record(site_id: &str, recovered: (u32, i64), insurance_payout: i64) -> VoyageRecord {
    VoyageRecord {
        site_id: site_id.to_owned(),
        recovered_count: recovered.0,
        recovered_value: recovered.1,
        recovered_alloy: 0,
        recovered_electronics: 0,
        external_load: 0,
        risk_outcome: RiskOutcome::OrdinaryReturn,
        danger_score: 10,
        reconnaissance_level: 0,
        voyage_plan: VoyagePlan::Standard,
        return_policy: ReturnPolicy::Standard,
        contract_completed: false,
        contract_failed: false,
        contract_accepted: true,
        scan_profile: WorkspaceScanProfile::Standard,
        drone_directive: DroneDirective::PullSupport,
        condition_after: 80,
        cleared_sections: Vec::new(),
        clearance_payout: 0,
        return_fuel: 2,
        market_cycle: 0,
        insured: false,
        insurance_premium: 0,
        insurance_payout,
    }
}

#[test]
fn save_rejects_impossible_voyage_log_entries() {
    let data = game_data();
    let mut save = GameSession::new(&data).to_save(&data.config.version);
    save.session
        .voyage_log
        .push(filed_record("missing_wreck", (1, 20), 0));

    let error = GameSession::from_save(save, &data).unwrap_err();
    assert!(error.contains("voyage log references unknown site"));
}

#[test]
fn save_rejects_uninsured_claim_records() {
    let data = game_data();
    let mut save = GameSession::new(&data).to_save(&data.config.version);
    save.session
        .voyage_log
        .push(filed_record("merchant_wreck", (0, 0), 1));

    let error = GameSession::from_save(save, &data).unwrap_err();
    assert!(error.contains("invalid voyage log measurement"));
}

#[test]
fn save_rejects_a_contract_marked_complete_and_failed() {
    let data = game_data();
    let mut save = GameSession::new(&data).to_save(&data.config.version);
    let progress = progress_mut(&mut save.session, "merchant_wreck");
    progress.contract_completed = true;
    progress.contract_failed = true;

    let error = GameSession::from_save(save, &data).unwrap_err();
    assert!(error.contains("marked complete and failed"));
}

#[test]
fn private_haul_files_cargo_without_touching_contract_standing() {
    let data = game_data();
    let mut session = GameSession::new(&data);
    session.career.contract_streak = 2;
    session.career.best_contract_streak = 2;
    session.reputation = 3;

    let departure = session
        .begin_expedition_with_plan_and_contract(
            "merchant_wreck",
            &data,
            false,
            VoyagePlan::Standard,
            false,
        )
        .unwrap();
    session.auto_place("industrial_battery", &data).unwrap();
    session.leave_all_pending().unwrap();
    let return_message = session.finish_packing(&data).unwrap();

    let record = session.last_voyage().expect("private voyage record").clone();
    assert!(departure.contains("client contract declined"));
    assert!(return_message.contains("Private haul"));
    assert!(!record.contract_accepted);
    assert!(!record.contract_completed);
    assert!(!record.contract_failed);
    assert_eq!(session.reputation, 3);
    assert_eq!(session.contract_streak(), 2);
    assert!(!progress(&session, "merchant_wreck").contract_completed);
    assert!(!progress(&session, "merchant_wreck").contract_failed);
    assert!(session
        .contract_objective_status("merchant_wreck", &data)
        .is_none());
}

#[test]
fn loadout_slots_store_and_restore_permanent_module_geometry() {
    let data = game_data();
    let mut session = GameSession::new(&data);
    session.store_loadout(0).unwrap();
    session.remove_module("fuel_tank", &data).unwrap();

    assert!(!session.loadout_matches_current(0));
    let message = session.apply_loadout(0, &data).unwrap();

    assert!(message.contains("slot 1 applied"));
    assert!(session.loadout_matches_current(0));
    assert!(session
        .ship_layout
        .placements
        .iter()
        .any(|item| item.id == "fuel_tank"));
}

#[test]
fn loadout_slots_reject_live_expeditions_and_empty_slots() {
    let data = game_data();
    let mut session = GameSession::new(&data);

    assert!(session
        .apply_loadout(1, &data)
        .unwrap_err()
        .contains("empty"));
    session.begin_expedition("merchant_wreck", &data).unwrap();
    assert!(session.store_loadout(0).unwrap_err().contains("safe port"));
}

#[test]
fn saved_loadouts_reject_unknown_or_malformed_modules() {
    let data = game_data();
    let mut session = GameSession::new(&data);
    session.store_loadout(0).unwrap();
    session.loadout_slots[0].as_mut().unwrap().placements[0].id = "ghost_module".to_owned();

    let error = validate_saved_loadouts(&session.loadout_slots, &session, &data).unwrap_err();

    assert!(error.contains("slot 1") && error.contains("unknown module"));
}

#[test]
fn loadout_slots_reject_a_ship_over_the_restored_capacity() {
    let data = game_data();
    let mut session = GameSession::new(&data);
    session.store_loadout(0).unwrap();
    session.economy.fuel = session.max_fuel(&data) + 1;

    let error = session.apply_loadout(0, &data).unwrap_err();

    assert!(error.contains("caps fuel"));
}

#[test]
fn repair_quote_prices_accumulated_ship_wear() {
    let data = game_data();
    let mut session = GameSession::new(&data);
    session.ship_wear = 10;
    session.hull = session.max_hull_with_modules(&data);

    let quote = session.repair_quote(&data);

    assert_eq!(quote.ship_wear, 10);
    assert_eq!(quote.wear_cost, 60);
    assert_eq!(quote.total_cost, 60);
}

#[test]
fn service_clears_ship_wear_and_reports_the_work() {
    let data = game_data();
    let mut session = GameSession::new(&data);
    session.ship_wear = 10;
    session.hull = session.max_hull_with_modules(&data);

    let message = session.repair(&data).unwrap();

    assert_eq!(session.ship_wear(), 0);
    assert!(message.starts_with("Serviced ship systems"));
}

#[test]
fn returned_salvage_keeps_the_quote_from_its_run() {
    let data = game_data();
    let mut session = GameSession::new(&data);
    let object_id = "industrial_battery";

    session.begin_expedition("merchant_wreck", &data).unwrap();
    session.auto_place(object_id, &data).unwrap();
    for item in &mut session.expedition.as_mut().unwrap().cargo {
        if item.object_id != object_id {
            item.status = CargoStatus::LeftBehind;
        }
    }
    session.finish_packing(&data).unwrap();

    let returned = session.returned.first().unwrap().clone();
    let locked_quote = session.returned_market_quote(&returned, &data).unwrap();
    assert_eq!(returned.market_cycle, 0);
    assert_eq!(session.market_cycle, 1);
    assert_eq!(locked_quote.sale_value, 160);

    let next_cycle_quote = session.market_quote(object_id, &data).unwrap();
    assert_ne!(next_cycle_quote.sale_value, locked_quote.sale_value);
}

#[test]
fn market_cycle_survives_save_round_trip() {
    let data = game_data();
    let mut session = GameSession::new(&data);
    session.market_cycle = 9;
    session
        .ship_layout
        .place(
            "cargo:industrial_battery",
            object_data(&data, "industrial_battery").footprint,
            GridPosition::new(3, 3),
            0,
            false,
        )
        .unwrap();
    session.returned.push(ReturnedItem {
        object_id: "industrial_battery".to_owned(),
        position: GridPosition::new(3, 3),
        rotation: 0,
        market_cycle: 4,
    });

    let restored = reload(&session, &data).unwrap();

    assert_eq!(restored.market_cycle, 9);
    assert_eq!(restored.returned[0].market_cycle, 4);
}

#[test]
fn starting_credits_open_only_the_early_blueprint_tier() {
    let data = game_data();
    let session = GameSession::new(&data);

    assert!(session.module_is_unlocked("battery_module", &data));
    assert!(!session.module_is_unlocked("scanner_module", &data));
    assert_eq!(session.next_module_unlock(&data).unwrap().id, "nav_module");
}

#[test]
fn credit_milestones_unlock_blueprints_permanently() {
    let data = game_data();
    let mut session = GameSession::new(&data);
    session.economy.credits = 1_200;

    let newly_unlocked = session.refresh_module_unlocks(&data);

    assert!(newly_unlocked.contains(&"nav_module".to_owned()));
    assert!(newly_unlocked.contains(&"hull_plating".to_owned()));
    assert!(newly_unlocked.contains(&"scanner_module".to_owned()));
    assert!(session.module_is_unlocked("scanner_module", &data));
    session.economy.credits = 0;
    session.refresh_module_unlocks(&data);
    assert!(session.module_is_unlocked("scanner_module", &data));
}

#[test]
fn locked_blueprint_rejects_purchase_without_mutating_the_ship() {
    let data = game_data();
    let mut session = GameSession::new(&data);
    let layout_before = session.ship_layout.clone();
    let credits_before = session.economy.credits;

    let error = session
        .purchase_module("scanner_module", &data)
        .unwrap_err();

    assert!(error.contains("blueprint is locked"));
    assert!(same_placements(&session.ship_layout, &layout_before));
    assert_eq!(session.economy.credits, credits_before);
}

#[test]
fn progression_milestone_activates_after_credit_threshold_and_blueprint_unlock() {
    let data = game_data();
    let mut session = GameSession::new(&data);
    session.economy.credits = data.config.progression_credit_threshold;

    session.refresh_module_unlocks(&data);

    assert!(session.milestone_reached);
    assert!(session.unlocked_module_count(&data) > data.config.starting_modules.len());
}

#[test]
fn route_briefs_persist_and_escalate_in_price() {
    let data = game_data();
    let mut session = GameSession::new(&data);

    session.buy_reconnaissance("merchant_wreck", &data).unwrap();

    assert_eq!(session.reconnaissance_level("merchant_wreck"), 1);
    assert_eq!(session.economy.credits, 780);
    assert_eq!(
        session
            .reconnaissance_quote("merchant_wreck", &data)
            .unwrap()
            .cost,
        120
    );
}

#[test]
fn route_briefing_stops_at_the_configured_intelligence_ceiling() {
    let data = game_data();
    let mut session = GameSession::new(&data);
    session.buy_reconnaissance("merchant_wreck", &data).unwrap();
    session.buy_reconnaissance("merchant_wreck", &data).unwrap();

    assert_eq!(session.reconnaissance_level("merchant_wreck"), 2);
    assert!(session
        .reconnaissance_quote("merchant_wreck", &data)
        .is_none());
    assert!(!session.can_buy_reconnaissance("merchant_wreck", &data));
}

#[test]
fn refining_a_material_batch_returns_shipyard_credits() {
    let data = game_data();
    let mut session = GameSession::new(&data);
    session.economy.alloy = 7;
    let before = session.economy.credits;

    session
        .refine_resource(RefineryResource::Alloy, &data)
        .unwrap();

    assert_eq!(session.economy.alloy, 2);
    assert_eq!(session.economy.credits, before + 100);
}

#[test]
fn refining_rejects_an_incomplete_batch_without_mutating_stock() {
    let data = game_data();
    let mut session = GameSession::new(&data);
    session.economy.electronics = 2;
    let before = session.economy.credits;

    assert!(session
        .refine_resource(RefineryResource::Electronics, &data)
        .is_err());
    assert_eq!(session.economy.electronics, 2);
    assert_eq!(session.economy.credits, before);
}

#[test]
fn route_familiarity_grows_from_persistent_visits_and_caps() {
    let data = game_data();
    let mut session = GameSession::new(&data);

    assert_eq!(session.route_familiarity("merchant_wreck"), 0);
    assert_eq!(session.route_familiarity_label("merchant_wreck"), "NEW");
    assert_eq!(
        session.route_familiarity_danger_reduction("merchant_wreck"),
        0
    );

    progress_mut(&mut session, "merchant_wreck").visits = 9;

    assert_eq!(session.route_familiarity("merchant_wreck"), 3);
    assert_eq!(
        session.route_familiarity_label("merchant_wreck"),
        "FAMILIAR"
    );
    assert_eq!(
        session.route_familiarity_danger_reduction("merchant_wreck"),
        12
    );
    assert_eq!(
        session.route_familiarity_readout("merchant_wreck"),
        "ROUTE FAMILIAR // DANGER -12"
    );
}

#[test]
fn unknown_routes_keep_a_first_pass_readout() {
    let data = game_data();
    let session = GameSession::new(&data);

    assert_eq!(
        session.route_familiarity_readout("merchant_wreck"),
        "ROUTE NEW // FIRST PASS"
    );
}

#[test]
fn scanner_capability_selects_the_deeper_array_profile() {
    assert_eq!(
        WorkspaceScanProfile::from_capability(false),
        WorkspaceScanProfile::Standard
    );
    assert_eq!(
        WorkspaceScanProfile::from_capability(true),
        WorkspaceScanProfile::Array
    );
    assert_eq!(
        WorkspaceScanProfile::Array.result_label(),
        "ARRAY SCAN // DEEP RESOLVE"
    );
}

#[test]
fn array_profile_adds_a_second_scan_pulse() {
    assert_eq!(WorkspaceScanProfile::Standard.pulse_count(), 1);
    assert_eq!(WorkspaceScanProfile::Array.pulse_count(), 2);
}

fn recovered_entry(sequence: u32, event: WorkspaceLogEvent, target: &str) -> WorkspaceLogEntry {
    WorkspaceLogEntry::new(sequence, event, Some("cargo_bay"), Some(target))
}

fn cargo_bay_recovered() -> Vec<WorkspaceLogEntry> {
    vec![
        recovered_entry(1, WorkspaceLogEvent::TargetRecovered, "industrial_battery"),
        recovered_entry(2, WorkspaceLogEvent::TargetRecovered, "navigation_computer"),
        recovered_entry(3, WorkspaceLogEvent::TargetRecovered, "engine_assembly"),
    ]
}

#[test]
fn fully_recovered_section_pays_once_and_files_its_clearance() {
    let data = game_data();
    let mut session = GameSession::new(&data);
    progress_mut(&mut session, "merchant_wreck").operation_log = cargo_bay_recovered();
    let credits_before = session.economy.credits;

    let report = session.resolve_section_clearance("merchant_wreck", &data);

    assert_eq!(report.section_ids, vec!["cargo_bay"]);
    assert_eq!(report.payout, 140);
    assert_eq!(session.economy.credits, credits_before + 140);
    assert_eq!(
        session.site_clearance_summary("merchant_wreck", &data),
        (1, 2)
    );
    assert_eq!(
        progress(&session, "merchant_wreck")
            .operation_log
            .last()
            .unwrap()
            .event,
        WorkspaceLogEvent::SectionCleared
    );
    assert!(
        session
            .section_clearance_status("merchant_wreck", "cargo_bay", &data)
            .unwrap()
            .cleared
    );

    let second = session.resolve_section_clearance("merchant_wreck", &data);
    assert!(second.section_ids.is_empty());
    assert_eq!(session.economy.credits, credits_before + 140);
}

#[test]
fn lost_target_does_not_qualify_a_section_for_clearance() {
    let data = game_data();
    let mut session = GameSession::new(&data);
    progress_mut(&mut session, "merchant_wreck").operation_log = vec![
        recovered_entry(1, WorkspaceLogEvent::TargetRecovered, "industrial_battery"),
        recovered_entry(2, WorkspaceLogEvent::TargetLost, "navigation_computer"),
        recovered_entry(3, WorkspaceLogEvent::TargetRecovered, "engine_assembly"),
    ];

    let report = session.resolve_section_clearance("merchant_wreck", &data);

    assert!(report.section_ids.is_empty());
    assert_eq!(
        session.site_clearance_summary("merchant_wreck", &data),
        (0, 2)
    );
}

#[test]
fn clearance_status_exposes_the_bounty_before_it_is_paid() {
    let data = game_data();
    let mut session = GameSession::new(&data);
    progress_mut(&mut session, "merchant_wreck").operation_log = cargo_bay_recovered();

    let status = session
        .section_clearance_status("merchant_wreck", "cargo_bay", &data)
        .unwrap();

    assert_eq!(status.recovered_targets, 3);
    assert_eq!(status.total_targets, 3);
    assert_eq!(status.reward, 140);
    assert!(status.ready);
    assert!(!status.cleared);
}

#[test]
fn closing_a_run_pays_new_section_clearance_and_records_it() {
    let data = game_data();
    let mut session = GameSession::new(&data);
    session.begin_expedition("merchant_wreck", &data).unwrap();
    let progress = progress_mut(&mut session, "merchant_wreck");
    progress.removed_targets = ids(&["industrial_battery", "navigation_computer", "engine_assembly"]);
    progress.operation_log.extend([
        recovered_entry(2, WorkspaceLogEvent::TargetRecovered, "industrial_battery"),
        recovered_entry(3, WorkspaceLogEvent::TargetRecovered, "navigation_computer"),
        recovered_entry(4, WorkspaceLogEvent::TargetRecovered, "engine_assembly"),
    ]);
    session.leave_all_pending().unwrap();
    let credits_before = session.economy.credits;

    session.finish_packing(&data).unwrap();

    assert_eq!(session.economy.credits, credits_before + 140);
    let record = session.last_voyage().unwrap();
    assert_eq!(record.cleared_sections, vec!["cargo_bay"]);
    assert_eq!(record.clearance_payout, 140);
}

#[test]
fn ship_wear_scales_with_setbacks_and_operational_strain() {
    let data = game_data();

    assert_eq!(
        wear_gain(RiskOutcome::OrdinaryReturn, 0, 0, &data.config.maintenance),
        4
    );
    assert_eq!(
        wear_gain(RiskOutcome::EmergencyRepair, 1, 1, &data.config.maintenance),
        27
    );
}

#[test]
fn ship_wear_adds_route_pressure_until_serviced() {
    let data = game_data();
    let mut session = GameSession::new(&data);
    session.ship_wear = 41;

    assert_eq!(session.maintenance_danger_delta(&data), 8);
    assert_eq!(session.maintenance_adjusted_danger(97, &data), 100);
    assert_eq!(session.maintenance_cost(&data), 246);
}

#[test]
fn new_game_has_a_valid_starter_layout_and_safe_economy() {
    let data = game_data();
    let session = GameSession::new(&data);
    assert_eq!(session.ship_layout.occupied_cells(), 5);
    assert_eq!(session.economy.credits, data.config.starting_credits);
    assert_eq!(session.economy.fuel, data.config.starting_fuel);
}

#[test]
fn expedition_spends_fuel_and_generates_five_objects() {
    let data = game_data();
    let mut session = GameSession::new(&data);
    let message = session.begin_expedition("merchant_wreck", &data).unwrap();
    assert_eq!(session.economy.fuel, 8);
    assert_eq!(session.expedition.as_ref().unwrap().cargo.len(), 5);
    assert!(message.contains("Manifest: 5 target(s) remain"));
}

#[test]
fn save_round_trip_preserves_layout_and_resources() {
    let data = game_data();
    let mut session = GameSession::new(&data);
    session.briefing_voyage_plan = VoyagePlan::Expedited;
    let restored = reload(&session, &data).unwrap();
    assert!(same_placements(&restored.ship_layout, &session.ship_layout));
    assert_eq!(restored.economy, session.economy);
    assert_eq!(restored.briefing_voyage_plan, VoyagePlan::Expedited);
}

#[test]
fn finishing_packing_burns_the_reserved_return_fuel() {
    let data = game_data();
    let mut session = GameSession::new(&data);
    session.begin_expedition("merchant_wreck", &data).unwrap();
    session.leave_all_pending().unwrap();
    let fuel_before_return = session.economy.fuel;

    let message = session.finish_packing(&data).unwrap();

    assert_eq!(
        session.economy.fuel,
        fuel_before_return - data.config.safe_return_buffer
    );
    assert!(message.contains("Return burn: 2 fuel"));
}

#[test]
fn invalid_saved_layout_is_rejected() {
    let data = game_data();
    let mut session = GameSession::new(&data);
    session.ship_layout.placements[0].position = GridPosition::new(4, 4);
    let save = session.to_save(&data.config.version);
    assert!(GameSession::from_save(save, &data).is_err());
}

#[test]
fn invalid_saved_cargo_phase_is_rejected() {
    let data = game_data();
    let mut session = GameSession::new(&data);
    session.begin_expedition("merchant_wreck", &data).unwrap();
    let object_id = session.expedition.as_ref().unwrap().cargo[0]
        .object_id
        .clone();
    session.auto_place(&object_id, &data).unwrap();
    session
        .expedition
        .as_mut()
        .unwrap()
        .cargo
        .iter_mut()
        .find(|item| item.object_id == object_id)
        .unwrap()
        .status = CargoStatus::Pending;
    let save = session.to_save(&data.config.version);
    assert!(GameSession::from_save(save, &data).is_err());
}

#[test]
fn save_rejects_invalid_workspace_power_reserve() {
    let data = game_data();
    for (energy, capacity) in [(-1, 12), (13, 12), (1, 0)] {
        let mut session = GameSession::new(&data);
        session.begin_expedition("merchant_wreck", &data).unwrap();
        let expedition = session.expedition.as_mut().unwrap();
        expedition.workspace_energy = energy;
        expedition.workspace_energy_capacity = capacity;

        let error = reload(&session, &data).unwrap_err();

        assert!(error.contains("workspace power reserve"));
    }
}

#[test]
fn installed_module_can_be_removed_at_port() {
    let data = game_data();
    let mut session = GameSession::new(&data);
    assert_eq!(session.max_fuel(&data), 24);
    session.remove_module("fuel_tank", &data).unwrap();
    assert_eq!(session.max_fuel(&data), 20);
    assert!(!session
        .ship_layout
        .placements
        .iter()
        .any(|item| item.id == "fuel_tank"));
}

#[test]
fn starter_engine_provides_one_external_clamp() {
    let data = game_data();
    let session = GameSession::new(&data);
    assert_eq!(session.external_capacity(&data), 1);
    assert_eq!(session.external_cargo_count(&data, None), 0);
}

#[test]
fn returned_external_cargo_count_matches_transfer_modes() {
    let data = game_data();
    let mut session = GameSession::new(&data);
    session.returned = vec![
        ReturnedItem {
            object_id: "sealed_container".to_owned(),
            position: GridPosition::new(0, 0),
            rotation: 0,
            market_cycle: 0,
        },
        ReturnedItem {
            object_id: "medical_supplies".to_owned(),
            position: GridPosition::new(2, 0),
            rotation: 0,
            market_cycle: 0,
        },
    ];

    assert_eq!(session.external_cargo_count(&data, None), 1);
    assert_eq!(
        session.external_cargo_count(&data, Some("sealed_container")),
        0
    );
}

#[test]
fn external_cargo_respects_clamp_capacity() {
    let data = game_data();
    let mut session = GameSession::new(&data);
    session.begin_expedition("merchant_wreck", &data).unwrap();
    session.auto_place("sealed_container", &data).unwrap();
    let error = session.auto_place("trade_crate", &data).unwrap_err();
    assert!(error.contains("No external clamp is free"));
}

#[test]
fn heavy_salvage_modules_expand_the_external_rig() {
    let data = game_data();
    assert_eq!(module_data(&data, "reactor_module").external_capacity, 2);
    assert_eq!(module_data(&data, "shield_module").external_capacity, 1);
}

#[test]
fn yard_can_buy_a_scanner_into_open_ship_space() {
    let data = game_data();
    let mut session = GameSession::new(&data);
    let scanner = module_data(&data, "scanner_module");
    session.economy.credits = scanner.unlock_credits + scanner.purchase_cost;
    session.refresh_module_unlocks(&data);
    let before = session.economy.credits;
    let message = session.purchase_module("scanner_module", &data).unwrap();
    assert_eq!(session.economy.credits, before - 360);
    assert!(message.contains("Clamp capacity is now 2"));
    assert!(session.has_capability("scanner_array", &data));
    assert!(session
        .ship_layout
        .placements
        .iter()
        .any(|item| item.permanent && item.id == "scanner_module"));
}

#[test]
fn yard_rejects_unaffordable_purchase_without_mutating_ship() {
    let data = game_data();
    let mut session = GameSession::new(&data);
    let scanner = module_data(&data, "scanner_module");
    session.economy.credits = scanner.unlock_credits;
    session.refresh_module_unlocks(&data);
    session.economy.credits = 0;
    let layout_before = session.ship_layout.clone();
    let unlocked_before = session.unlocked_modules.clone();

    let error = session
        .purchase_module("scanner_module", &data)
        .unwrap_err();

    assert!(error.contains("requires 360 credits"));
    assert!(same_placements(&session.ship_layout, &layout_before));
    assert_eq!(session.unlocked_modules, unlocked_before);
    assert_eq!(session.economy.credits, 0);
}

#[test]
fn yard_rejects_purchase_when_the_grid_has_no_fit() {
    let data = game_data();
    let mut session = GameSession::new(&data);
    let scanner = module_data(&data, "scanner_module");
    session.economy.credits = scanner.unlock_credits + scanner.purchase_cost;
    session.refresh_module_unlocks(&data);
    session.ship_layout.placements.clear();
    session
        .ship_layout
        .place(
            "test_blocker",
            Footprint {
                width: 5,
                height: 5,
            },
            GridPosition::new(0, 0),
            0,
            true,
        )
        .unwrap();
    let credits_before = session.economy.credits;

    let error = session
        .purchase_module("scanner_module", &data)
        .unwrap_err();

    assert!(error.contains("no open fit"));
    assert_eq!(session.economy.credits, credits_before);
    assert_eq!(session.ship_layout.placements.len(), 1);
}

#[test]
fn damaged_engine_goes_offline_until_repaired() {
    let data = game_data();
    let mut session = GameSession::new(&data);
    session.damaged_modules.push("engine_core".to_owned());

    assert_eq!(session.module_stats(&data).power, 0);
    assert!(!session.has_capability("basic_tractor", &data));
    let expected_cost = session.repair_quote(&data).total_cost;

    let message = session.repair(&data).unwrap();

    assert!(session.damaged_modules.is_empty());
    assert!(message.contains("Restored: Engine Core"));
    assert_eq!(session.module_stats(&data).power, 2);
    assert!(session.has_capability("basic_tractor", &data));
    assert_eq!(session.career.repairs_completed, 1);
    assert_eq!(session.career.systems_restored, 1);
    assert_eq!(session.career.repair_spend, expected_cost);
}

#[test]
fn offline_module_service_has_a_quote_even_when_hull_is_full() {
    let data = game_data();
    let mut session = GameSession::new(&data);
    session.damaged_modules.push("engine_core".to_owned());
    session.hull = session.max_hull_with_modules(&data);

    let quote = session.repair_quote(&data);

    assert_eq!(quote.missing_hull, 0);
    assert_eq!(quote.offline_modules, 1);
    assert_eq!(quote.hull_cost, 0);
    assert_eq!(quote.module_cost, 55);
    assert_eq!(quote.total_cost, 55);
}

#[test]
fn unaffordable_service_reports_the_hull_and_module_cost_split() {
    let data = game_data();
    let mut session = GameSession::new(&data);
    session.damaged_modules.push("engine_core".to_owned());
    session.hull = session.max_hull_with_modules(&data);
    session.economy.credits = 20;

    let error = session.repair(&data).unwrap_err();

    assert_eq!(error, "repairs require 55 credits (hull 0 + modules 55)");
}

#[test]
fn repairing_hull_plating_restores_its_bonus_capacity() {
    let data = game_data();
    let mut session = GameSession::new(&data);
    let hull_plating = module_data(&data, "hull_plating");
    session
        .ship_layout
        .place(
            &hull_plating.id,
            hull_plating.footprint,
            GridPosition::new(2, 0),
            0,
            true,
        )
        .unwrap();
    session.damaged_modules.push(hull_plating.id.clone());
    session.hull = session.max_hull_with_modules(&data);

    session.repair(&data).unwrap();

    assert_eq!(session.hull, data.config.max_hull + 1);
    assert_eq!(
        session.max_hull_with_modules(&data),
        data.config.max_hull + 1
    );
    assert!(session.damaged_modules.is_empty());
}

#[test]
fn damaged_fuel_tank_clamps_fuel_to_new_capacity() {
    let data = game_data();
    let mut session = GameSession::new(&data);
    session.damaged_modules.push("engine_core".to_owned());
    session.economy.fuel = session.max_fuel(&data);

    session.apply_workspace_damage(&data);

    assert!(session.damaged_modules.contains(&"fuel_tank".to_owned()));
    assert_eq!(session.max_fuel(&data), 20);
    assert_eq!(session.economy.fuel, 20);
}

#[test]
fn save_rejects_duplicate_damaged_modules() {
    let data = game_data();
    let mut session = GameSession::new(&data);
    session.damaged_modules = ids(&["engine_core", "engine_core"]);

    let error = reload(&session, &data).unwrap_err();

    assert!(error.contains("invalid damaged module 'engine_core'"));
}

#[test]
fn return_damage_uses_the_same_offline_system_rules() {
    let mut data = game_data();
    data.config.risk.safe_danger_threshold = 0;
    data.config.risk.ordinary_return_weight = 0;
    data.config.risk.damaged_module_weight = 100;
    data.config.risk.lost_salvage_weight = 0;
    data.config.risk.emergency_repair_weight = 0;
    data.config.risk.forced_abandon_weight = 0;
    let index = data
        .sites
        .iter()
        .position(|site| site.id == "merchant_wreck")
        .unwrap();
    let mut site = data.sites.remove(index);
    site.danger = 100;
    data.sites.push(site);
    let mut session = GameSession::new(&data);
    session.hull = 1;
    session.begin_expedition("merchant_wreck", &data).unwrap();
    let expedition = session.expedition.as_mut().unwrap();
    for cargo in &mut expedition.cargo {
        cargo.status = CargoStatus::LeftBehind;
    }

    let message = session.finish_packing(&data).unwrap();

    assert!(session.damaged_modules.contains(&"engine_core".to_owned()));
    assert!(message.contains("Engine Core is marked damaged"));
    assert_eq!(session.module_stats(&data).power, 0);
}

#[test]
fn packed_contract_is_paid_when_the_run_is_closed() {
    let data = game_data();
    let mut session = GameSession::new(&data);
    session.begin_expedition("merchant_wreck", &data).unwrap();
    let before = session.economy.credits;
    let target_id = data
        .site("merchant_wreck")
        .unwrap()
        .contract_target
        .as_ref()
        .unwrap()
        .clone();
    session.auto_place(&target_id, &data).unwrap();
    let expedition = session.expedition.as_mut().unwrap();
    expedition.risk.outcome = RiskOutcome::OrdinaryReturn;
    for cargo in &mut expedition.cargo {
        if cargo.object_id != target_id {
            cargo.status = CargoStatus::LeftBehind;
        }
    }

    let message = session.finish_packing(&data).unwrap();

    assert_eq!(session.economy.credits, before + 180);
    assert!(message.contains("Contract complete"));
    assert!(progress(&session, "merchant_wreck").contract_completed);
}

#[test]
fn revisiting_a_wreck_does_not_regenerate_removed_targets() {
    let data = game_data();
    let mut session = GameSession::new(&data);
    session.begin_expedition("merchant_wreck", &data).unwrap();
    session.scan_workspace(&data).unwrap();
    session
        .recover_workspace_target("industrial_battery", &data)
        .unwrap();
    for cargo in &mut session.expedition.as_mut().unwrap().cargo {
        cargo.status = CargoStatus::LeftBehind;
    }
    session.finish_packing(&data).unwrap();
    session.economy.fuel = data.config.starting_fuel;

    session.begin_expedition("merchant_wreck", &data).unwrap();

    assert!(!session
        .expedition
        .as_ref()
        .unwrap()
        .cargo
        .iter()
        .any(|cargo| cargo.object_id == "industrial_battery"));
    assert_eq!(session.site_recovery_summary("merchant_wreck", &data).0, 1);
}

#[test]
fn external_haul_raises_the_return_risk_preview() {
    let data = game_data();
    let mut session = GameSession::new(&data);
    session.begin_expedition("merchant_wreck", &data).unwrap();
    let before = session.expedition_risk_preview(&data).unwrap();

    session.auto_place("sealed_container", &data).unwrap();

    let after = session.expedition_risk_preview(&data).unwrap();
    assert_eq!(session.external_cargo_count(&data, None), 1);
    assert_eq!(
        after.danger_score - before.danger_score,
        data.config.risk.external_cargo_risk_per_item
    );
}

#[test]
fn return_notice_reports_external_haul_strain() {
    let data = game_data();
    let mut session = GameSession::new(&data);
    session.begin_expedition("merchant_wreck", &data).unwrap();
    session.auto_place("sealed_container", &data).unwrap();
    for cargo in &mut session.expedition.as_mut().unwrap().cargo {
        if cargo.object_id != "sealed_container" {
            cargo.status = CargoStatus::LeftBehind;
        }
    }

    let message = session.finish_packing(&data).unwrap();

    assert!(message.contains("External load added +8 risk"));
}

#[test]
fn save_rejects_an_external_haul_over_clamp_capacity() {
    let data = game_data();
    let mut session = GameSession::new(&data);
    session.begin_expedition("merchant_wreck", &data).unwrap();
    session.auto_place("sealed_container", &data).unwrap();
    let trade_index = session
        .expedition
        .as_ref()
        .unwrap()
        .cargo
        .iter()
        .position(|cargo| cargo.object_id == "trade_crate")
        .unwrap();
    session
        .ship_layout
        .place(
            "cargo:trade_crate",
            object_data(&data, "trade_crate").footprint,
            GridPosition::new(2, 1),
            0,
            false,
        )
        .unwrap();
    let trade = &mut session.expedition.as_mut().unwrap().cargo[trade_index];
    trade.status = CargoStatus::Packed;
    trade.position = Some(GridPosition::new(2, 1));

    let error = reload(&session, &data).unwrap_err();

    assert!(error.contains("external clamp capacity"));
}

#[test]
fn save_rejects_duplicate_removed_targets() {
    let data = game_data();
    let mut session = GameSession::new(&data);
    progress_mut(&mut session, "merchant_wreck").removed_targets =
        ids(&["industrial_battery", "industrial_battery"]);

    let error = reload(&session, &data).unwrap_err();

    assert!(error.contains("unknown removed target"));
}

#[test]
fn save_rejects_duplicate_discovered_sections() {
    let data = game_data();
    let mut session = GameSession::new(&data);
    progress_mut(&mut session, "merchant_wreck").discovered_sections =
        ids(&["cargo_bay", "cargo_bay"]);

    let error = reload(&session, &data).unwrap_err();

    assert!(error.contains("duplicate discovered section"));
}

#[test]
fn scan_reveals_the_authored_merchant_targets() {
    let data = game_data();
    let mut session = GameSession::new(&data);
    session.begin_expedition("merchant_wreck", &data).unwrap();
    let message = session.scan_workspace(&data).unwrap();
    let expedition = session.expedition.as_ref().unwrap();
    assert!(expedition.workspace_scanned);
    assert!(message.contains("Site recovery is 0/"));
    assert!(message.contains("4 remain"));
    assert!(expedition
        .revealed_targets
        .contains(&"industrial_battery".to_owned()));
    assert!(expedition
        .revealed_targets
        .contains(&"engine_assembly".to_owned()));
}

#[test]
fn wreck_status_tracks_explored_frames_and_recovered_targets() {
    let data = game_data();
    let mut session = GameSession::new(&data);
    session.begin_expedition("merchant_wreck", &data).unwrap();

    let initial = session.site_recovery_status("merchant_wreck", &data);
    assert_eq!(initial.explored_sections, 0);
    assert_eq!(initial.exploration_percent, 0);
    assert_eq!(initial.recovered_targets, 0);

    session.scan_workspace(&data).unwrap();
    session
        .recover_workspace_target("industrial_battery", &data)
        .unwrap();
    let first_frame = session.site_recovery_status("merchant_wreck", &data);
    assert_eq!(first_frame.explored_sections, 1);
    assert_eq!(first_frame.exploration_percent, 50);
    assert_eq!(first_frame.recovered_targets, 1);
    assert_eq!(first_frame.total_targets, 4);
    assert_eq!(first_frame.remaining_targets, 3);
}

#[test]
fn workspace_condition_reflects_persistent_frame_wear() {
    let data = game_data();
    let mut session = GameSession::new(&data);
    session.begin_expedition("merchant_wreck", &data).unwrap();

    let unread = session.workspace_condition_status(&data).unwrap();
    assert_eq!(unread.frame_condition, 82);
    assert_eq!(unread.section_condition, 82);
    assert_eq!(unread.label(), "UNMAPPED");

    session.scan_workspace(&data).unwrap();
    let scanned = session.workspace_condition_status(&data).unwrap();
    assert_eq!(scanned.label(), "STABLE");

    session
        .recover_workspace_target("industrial_battery", &data)
        .unwrap();
    let salvaged = session.workspace_condition_status(&data).unwrap();
    assert_eq!(salvaged.frame_condition, 82);
    assert_eq!(salvaged.section_condition, 74);
    assert_eq!(salvaged.recovered_targets, 1);
    assert_eq!(salvaged.total_targets, 3);
    assert_eq!(salvaged.structural_stress(), 26);
    assert_eq!(salvaged.label(), "STRESSED");

    let restored = reload(&session, &data).unwrap();
    let restored_status = restored.workspace_condition_status(&data).unwrap();
    assert_eq!(restored_status, salvaged);
}

#[test]
fn scanning_and_extraction_spend_the_expedition_power_reserve() {
    let data = game_data();
    let mut session = GameSession::new(&data);
    session.begin_expedition("merchant_wreck", &data).unwrap();
    assert_eq!(session.workspace_energy(), Some((12, 12)));

    session.scan_workspace(&data).unwrap();
    assert_eq!(session.workspace_energy(), Some((11, 12)));

    let repeat_message = session.scan_workspace(&data).unwrap();
    assert!(repeat_message.contains("already scanned"));
    assert_eq!(session.workspace_energy(), Some((11, 12)));

    let message = session
        .reserve_workspace_energy("industrial_battery", &data)
        .unwrap();
    assert!(message.contains("Power reserve -1"));
    assert_eq!(session.workspace_energy(), Some((10, 12)));
}

#[test]
fn stabilizing_a_revealed_hazard_spends_power_and_survives_a_save() {
    let data = game_data();
    let mut session = GameSession::new(&data);
    session.purchase_module("shield_module", &data).unwrap();
    session.begin_expedition("merchant_wreck", &data).unwrap();
    session.scan_workspace(&data).unwrap();

    let message = session
        .stabilize_workspace_target("navigation_computer", &data)
        .unwrap();

    assert!(message.contains("Exposure -20"));
    assert!(message.contains("Tap LOAD CARGO"));
    assert_eq!(session.workspace_energy(), Some((9, 12)));
    assert!(session.target_is_stabilized("navigation_computer"));
    let restored = reload(&session, &data).unwrap();
    assert!(restored.target_is_stabilized("navigation_computer"));
}

#[test]
fn stabilization_lock_clears_when_the_target_leaves_the_wreck() {
    let data = game_data();
    let mut recovered_session = GameSession::new(&data);
    recovered_session
        .purchase_module("shield_module", &data)
        .unwrap();
    recovered_session
        .begin_expedition("merchant_wreck", &data)
        .unwrap();
    recovered_session.scan_workspace(&data).unwrap();
    recovered_session
        .stabilize_workspace_target("navigation_computer", &data)
        .unwrap();
    recovered_session
        .recover_workspace_target("navigation_computer", &data)
        .unwrap();
    assert!(!recovered_session.target_is_stabilized("navigation_computer"));

    let mut lost_session = GameSession::new(&data);
    lost_session
        .purchase_module("shield_module", &data)
        .unwrap();
    lost_session
        .begin_expedition("merchant_wreck", &data)
        .unwrap();
    lost_session.scan_workspace(&data).unwrap();
    lost_session
        .stabilize_workspace_target("navigation_computer", &data)
        .unwrap();
    lost_session
        .lose_workspace_target("navigation_computer", &data)
        .unwrap();
    assert!(!lost_session.target_is_stabilized("navigation_computer"));
}

#[test]
fn operation_log_records_workspace_actions_and_survives_a_save() {
    let data = game_data();
    let mut session = GameSession::new(&data);
    session.purchase_module("shield_module", &data).unwrap();
    session.begin_expedition("merchant_wreck", &data).unwrap();
    session.scan_workspace(&data).unwrap();
    session
        .stabilize_workspace_target("navigation_computer", &data)
        .unwrap();
    session
        .reserve_workspace_energy("industrial_battery", &data)
        .unwrap();
    session
        .recover_workspace_target("industrial_battery", &data)
        .unwrap();
    session
        .switch_workspace_section("engineering_access", &data)
        .unwrap();
    session.scan_workspace(&data).unwrap();

    let log = session.workspace_log().unwrap().clone();
    assert_eq!(log.len(), 7);
    assert_eq!(log[0].event, WorkspaceLogEvent::Departed);
    assert_eq!(log[1].event, WorkspaceLogEvent::SectionScanned);
    assert_eq!(log[2].event, WorkspaceLogEvent::TargetStabilized);
    assert_eq!(log[2].target_id.as_deref(), Some("navigation_computer"));
    assert_eq!(log[3].event, WorkspaceLogEvent::ExtractionStarted);
    assert_eq!(log[4].event, WorkspaceLogEvent::TargetRecovered);
    assert_eq!(log[4].target_id.as_deref(), Some("industrial_battery"));
    assert_eq!(log[5].event, WorkspaceLogEvent::EnteredSection);
    assert_eq!(log[6].event, WorkspaceLogEvent::SectionScanned);
    assert!(log
        .windows(2)
        .all(|pair| pair[0].sequence < pair[1].sequence));

    let restored = reload(&session, &data).unwrap();
    assert_eq!(restored.workspace_log().unwrap(), &log);
}

#[test]
fn cancelled_pull_is_recorded_as_a_field_event() {
    let data = game_data();
    let mut session = GameSession::new(&data);
    session.begin_expedition("merchant_wreck", &data).unwrap();
    session.scan_workspace(&data).unwrap();
    session
        .reserve_workspace_energy("industrial_battery", &data)
        .unwrap();
    session.record_workspace_event(
        WorkspaceLogEvent::ExtractionCancelled,
        Some("industrial_battery"),
    );

    let log = session.workspace_log().unwrap();
    assert_eq!(
        log.last().map(|entry| entry.event),
        Some(WorkspaceLogEvent::ExtractionCancelled)
    );
    assert_eq!(
        log.last().and_then(|entry| entry.target_id.as_deref()),
        Some("industrial_battery")
    );
}

#[test]
fn extraction_explains_when_the_power_reserve_is_empty() {
    let data = game_data();
    let mut session = GameSession::new(&data);
    session.begin_expedition("merchant_wreck", &data).unwrap();
    session.scan_workspace(&data).unwrap();
    session.expedition.as_mut().unwrap().workspace_energy = 0;

    let reason = session
        .extraction_block_reason("industrial_battery", &data)
        .unwrap()
        .unwrap();

    assert!(reason.contains("Power reserve insufficient"));
}

#[test]
fn losing_the_contract_target_marks_the_briefing_failed() {
    let data = game_data();
    let mut session = GameSession::new(&data);
    session.begin_expedition("merchant_wreck", &data).unwrap();
    session.scan_workspace(&data).unwrap();

    let message = session
        .lose_workspace_target("industrial_battery", &data)
        .unwrap();

    assert!(message.contains("Contract failed"));
    assert!(progress(&session, "merchant_wreck").contract_failed);
}

#[test]
fn starter_tractor_explains_the_engine_gate() {
    let data = game_data();
    let mut session = GameSession::new(&data);
    session.begin_expedition("merchant_wreck", &data).unwrap();
    session.scan_workspace(&data).unwrap();
    let reason = session
        .extraction_block_reason("engine_assembly", &data)
        .unwrap()
        .unwrap();
    assert!(reason.contains("Heavy Tractor"));
    assert!(session.has_capability("basic_tractor", &data));
    assert!(!session.has_capability("stabilizer", &data));
}

#[test]
fn recovered_target_persists_as_an_empty_mount() {
    let data = game_data();
    let mut session = GameSession::new(&data);
    session.begin_expedition("merchant_wreck", &data).unwrap();
    session.scan_workspace(&data).unwrap();
    session
        .recover_workspace_target("industrial_battery", &data)
        .unwrap();
    assert!(session.target_is_removed("industrial_battery"));
    assert!(session
        .expedition
        .as_ref()
        .unwrap()
        .cargo
        .iter()
        .any(|item| item.object_id == "industrial_battery"));
    assert!(!session
        .expedition
        .as_ref()
        .unwrap()
        .revealed_targets
        .contains(&"industrial_battery".to_owned()));
    let save = session.clone().to_save(&data.config.version);
    let restored = GameSession::from_save(save, &data).unwrap();
    assert!(restored.target_is_removed("industrial_battery"));
}

#[test]
fn recovery_message_names_external_clamp_destination() {
    let data = game_data();
    let mut session = GameSession::new(&data);
    session.begin_expedition("military_wreck", &data).unwrap();
    session.scan_workspace(&data).unwrap();

    let message = session
        .recover_workspace_target("titanium_plating", &data)
        .unwrap();

    assert!(message.contains("external clamp queue"));
}

#[test]
fn transfer_modes_keep_commands_and_destinations_distinct() {
    let data = game_data();
    let cases = [
        (
            "industrial_battery",
            TransferMode::InternalCargo,
            "LOAD CARGO",
            "SALVAGE HOLD",
        ),
        (
            "titanium_plating",
            TransferMode::ExternalClamp,
            "LOCK CLAMP",
            "EXTERNAL CLAMP",
        ),
        ("engine_assembly", TransferMode::Tow, "ENGAGE TOW", "TOW RIG"),
    ];
    for (target_id, expected_mode, command, destination) in cases {
        let target = object_data(&data, target_id);
        let mode = TransferMode::from_target(target);
        assert_eq!(mode, expected_mode);
        assert_eq!(mode.command_label(), command);
        assert_eq!(mode.destination_label(), destination);
        assert!(mode.cancel_label().starts_with("CANCEL "));
    }
}

#[test]
fn transfer_modes_only_external_loads_use_the_rig() {
    assert!(!TransferMode::InternalCargo.uses_external_rig());
    assert!(TransferMode::ExternalClamp.uses_external_rig());
    assert!(TransferMode::Tow.uses_external_rig());
}

#[test]
fn recovery_message_names_tow_destination() {
    let data = game_data();
    let mut session = GameSession::new(&data);
    session.purchase_module("reactor_module", &data).unwrap();
    session.begin_expedition("merchant_wreck", &data).unwrap();
    session.scan_workspace(&data).unwrap();

    let message = session
        .recover_workspace_target("engine_assembly", &data)
        .unwrap();

    assert!(message.contains("tow rig queue"));
}

#[test]
fn gated_reactor_section_explains_missing_stabilizer() {
    let data = game_data();
    let mut session = GameSession::new(&data);
    session.begin_expedition("military_wreck", &data).unwrap();
    let error = session
        .switch_workspace_section("reactor_spine", &data)
        .unwrap_err();
    assert!(error.contains("Stabilizer"));
}

#[test]
fn section_change_returns_the_authored_arrival_briefing() {
    let data = game_data();
    let mut session = GameSession::new(&data);
    session.begin_expedition("merchant_wreck", &data).unwrap();
    let message = session
        .switch_workspace_section("engineering_access", &data)
        .unwrap();
    assert!(message.contains("narrow service run"));
}

#[test]
fn returning_to_a_known_section_restores_its_scan() {
    let data = game_data();
    let mut session = GameSession::new(&data);
    session.begin_expedition("merchant_wreck", &data).unwrap();
    session.scan_workspace(&data).unwrap();
    session
        .switch_workspace_section("engineering_access", &data)
        .unwrap();
    session.scan_workspace(&data).unwrap();
    session
        .switch_workspace_section("cargo_bay", &data)
        .unwrap();
    let expedition = session.expedition.as_ref().unwrap();
    assert!(expedition.workspace_scanned);
    assert!(expedition
        .revealed_targets
        .contains(&"navigation_computer".to_owned()));
}

#[test]
fn drone_bay_shortens_extraction_time() {
    let data = game_data();
    let mut session = GameSession::new(&data);
    assert_eq!(session.module_stats(&data).drone_support, 0);

    session.purchase_module("drone_bay", &data).unwrap();

    assert_eq!(session.module_stats(&data).drone_support, 1);
}

#[test]
fn field_power_cells_are_bought_at_port_and_spent_in_the_wreck() {
    let data = game_data();
    let mut session = GameSession::new(&data);

    assert!(session.can_buy_field_power_cell());
    session.buy_field_power_cell().unwrap();
    assert_eq!(session.field_power_cells, 1);
    assert_eq!(
        session.economy.credits,
        data.config.starting_credits - FIELD_POWER_CELL_PRICE
    );

    session.begin_expedition("merchant_wreck", &data).unwrap();
    session.expedition.as_mut().unwrap().workspace_energy = 2;
    assert!(session.can_use_field_power_cell());

    let message = session.use_field_power_cell().unwrap();

    assert!(message.contains("+4 power"));
    assert_eq!(session.field_power_cells, 0);
    assert_eq!(session.workspace_energy(), Some((6, 12)));
    assert!(progress(&session, "merchant_wreck")
        .operation_log
        .iter()
        .any(|entry| entry.event == WorkspaceLogEvent::FieldPowerCellUsed));
    assert!(!session.can_use_field_power_cell());
}

#[test]
fn field_power_cell_stock_stops_at_the_rack_limit() {
    let data = game_data();
    let mut session = GameSession::new(&data);
    session.economy.credits = FIELD_POWER_CELL_PRICE * i64::from(MAX_FIELD_POWER_CELLS);

    for _ in 0..MAX_FIELD_POWER_CELLS {
        session.buy_field_power_cell().unwrap();
    }

    assert_eq!(session.field_power_cells, MAX_FIELD_POWER_CELLS);
    assert!(!session.can_buy_field_power_cell());
    assert_eq!(
        session.buy_field_power_cell().unwrap_err(),
        "field power cell rack is full"
    );
}

#[test]
fn field_power_cell_can_be_fabricated_from_salvage_at_port() {
    let data = game_data();
    let mut session = GameSession::new(&data);
    session.economy.alloy = 1;
    session.economy.electronics = 1;
    let starting_credits = session.economy.credits;

    let message = session.fabricate_field_power_cell().unwrap();

    assert!(message.contains("from salvage"));
    assert_eq!(session.field_power_cells, 1);
    assert_eq!(session.economy.alloy, 0);
    assert_eq!(session.economy.electronics, 0);
    assert_eq!(session.economy.credits, starting_credits);
    assert_eq!(session.career.field_power_cells_fabricated, 1);
    assert!(session.can_buy_field_power_cell());
}

#[test]
fn field_power_cell_fabrication_requires_both_salvage_materials() {
    let data = game_data();
    let mut session = GameSession::new(&data);
    session.economy.alloy = 1;

    let error = session.fabricate_field_power_cell().unwrap_err();

    assert!(error.contains("Alloy") && error.contains("Electronics"));
    assert_eq!(session.field_power_cells, 0);
    assert_eq!(session.economy.alloy, 1);
    assert_eq!(session.career.field_power_cells_fabricated, 0);
}

#[test]
fn operating_orders_return_to_their_start_after_a_full_cycle() {
    let mut role = CrewRole::Deckhand;
    for _ in 0..5 {
        role = role.next();
    }
    assert_eq!(role, CrewRole::Deckhand);
    let mut directive = DroneDirective::Survey;
    for _ in 0..3 {
        directive = directive.next();
    }
    assert_eq!(directive, DroneDirective::Survey);
    let mut policy = ReturnPolicy::ProtectValue;
    for _ in 0..3 {
        policy = policy.next();
    }
    assert_eq!(policy, ReturnPolicy::ProtectValue);
}

#[test]
fn return_priorities_cycle_only_during_a_haul() {
    let data = game_data();
    let mut session = GameSession::new(&data);
    assert_eq!(session.return_policy(), None);
    assert_eq!(
        session.cycle_return_policy().unwrap_err(),
        "return priorities are available during an active haul"
    );

    session.begin_expedition("merchant_wreck", &data).unwrap();
    assert_eq!(session.return_policy(), Some(ReturnPolicy::Standard));
    assert_eq!(
        session.cycle_return_policy().unwrap(),
        "Return policy: PROTECT OBJECTIVE. sacrifice another load before the contract target."
    );
    assert_eq!(session.return_policy(), Some(ReturnPolicy::ProtectObjective));
    session.cycle_return_policy().unwrap();
    session.cycle_return_policy().unwrap();
    assert_eq!(session.return_policy(), Some(ReturnPolicy::Standard));
}

#[test]
fn a_second_clearance_right_after_the_first_pays_nothing() {
    let data = game_data();
    let mut session = GameSession::new(&data);
    progress_mut(&mut session, "merchant_wreck").operation_log = cargo_bay_recovered();
    let first = session.resolve_section_clearance("merchant_wreck", &data);
    let credits = session.economy.credits;
    let log_len = progress(&session, "merchant_wreck").operation_log.len();

    let second = session.resolve_section_clearance("merchant_wreck", &data);

    assert_eq!(first.payout, 140);
    assert_eq!(second.payout, 0);
    assert!(second.section_ids.is_empty());
    assert_eq!(session.economy.credits, credits);
    assert_eq!(progress(&session, "merchant_wreck").operation_log.len(), log_len);
}

#[test]
fn a_lost_contract_settles_once() {
    let data = game_data();
    let mut session = GameSession::new(&data);
    progress_mut(&mut session, "merchant_wreck").removed_targets = ids(&["industrial_battery"]);
    let cargo: Vec<CargoItem> = Vec::new();

    let first = session
        .complete_site_contract("merchant_wreck", &cargo, &data)
        .unwrap();
    let reputation = session.reputation;
    let second = session.complete_site_contract("merchant_wreck", &cargo, &data);

    assert!(first.contains("Contract failed"));
    assert_eq!(reputation, -1);
    assert!(second.is_none());
    assert_eq!(session.reputation, reputation);
    assert!(progress(&session, "merchant_wreck").contract_failed);
}

#[test]
fn a_stored_loadout_matches_the_ship_it_was_taken_from() {
    let data = game_data();
    let mut session = GameSession::new(&data);
    assert!(!session.loadout_matches_current(0));
    let message = session.store_loadout(2).unwrap();
    assert_eq!(
        message,
        "Loadout slot 3 stored. 2 permanent module(s) remembered."
    );
    assert!(session.loadout_matches_current(2));
    assert!(!session.loadout_matches_current(0));
    assert!(session.loadout_slot(2).is_some());
    assert!(session.loadout_slot(7).is_none());
}

#[test]
fn loadout_slots_outside_the_rack_are_refused() {
    let data = game_data();
    let mut session = GameSession::new(&data);
    assert_eq!(
        session.store_loadout(3).unwrap_err(),
        "loadout slot 4 does not exist"
    );
    assert_eq!(
        session.apply_loadout(5, &data).unwrap_err(),
        "loadout slot 6 does not exist"
    );
    assert_eq!(
        session.apply_loadout(0, &data).unwrap_err(),
        "loadout slot 1 is empty"
    );
}

#[test]
fn applying_a_loadout_reports_the_capacity_it_caps_and_keeps_the_ship() {
    let data = game_data();
    let mut session = GameSession::new(&data);
    session.store_loadout(0).unwrap();
    session.economy.fuel = 25;
    let placements = session.ship_layout.placements.len();

    assert_eq!(
        session.apply_loadout(0, &data).unwrap_err(),
        "loadout slot 1 caps fuel at 24; burn or refit before applying"
    );
    assert_eq!(session.ship_layout.placements.len(), placements);

    session.economy.fuel = 10;
    session.hull = 11;
    assert_eq!(
        session.apply_loadout(0, &data).unwrap_err(),
        "loadout slot 1 caps hull at 10; repair or refit before applying"
    );
}

#[test]
fn applying_a_loadout_drops_damage_records_of_removed_modules() {
    let data = game_data();
    let mut session = GameSession::new(&data);
    session.remove_module("fuel_tank", &data).unwrap();
    session.store_loadout(1).unwrap();
    let fuel_tank = module_data(&data, "fuel_tank");
    session
        .ship_layout
        .place(&fuel_tank.id, fuel_tank.footprint, GridPosition::new(0, 2), 0, true)
        .unwrap();
    session.damaged_modules = ids(&["fuel_tank", "engine_core"]);

    let message = session.apply_loadout(1, &data).unwrap();

    assert_eq!(
        message,
        "Loadout slot 2 applied. 1 permanent module(s) online."
    );
    assert_eq!(session.damaged_modules, ids(&["engine_core"]));
}

#[test]
fn saved_loadouts_name_the_refused_slot_and_placement() {
    let data = game_data();
    let mut session = GameSession::new(&data);
    session.store_loadout(1).unwrap();
    session.loadout_slots[1].as_mut().unwrap().placements[1].position = GridPosition::new(1, 1);

    let error = validate_saved_loadouts(&session.loadout_slots, &session, &data).unwrap_err();
    assert_eq!(
        error,
        "save loadout slot 2 is invalid: fuel_tank: placement overlaps engine_core"
    );

    session.loadout_slots[1].as_mut().unwrap().placements[1].permanent = false;
    let error = validate_saved_loadouts(&session.loadout_slots, &session, &data).unwrap_err();
    assert_eq!(
        error,
        "save loadout slot 2 is invalid: 'fuel_tank' is not a permanent module"
    );
    assert_eq!(reload(&session, &data).unwrap_err(), error);
}

#[test]
fn loads_refuse_saves_outside_the_game_limits() {
    let data = game_data();
    let cases: Vec<(fn(&mut GameSession), &str)> = vec![
        (
            |s| s.career.safe_returns = 1,
            "save contains invalid career totals",
        ),
        (
            |s| s.ship_layout.width = 6,
            "save uses an incompatible ship grid",
        ),
        (|s| s.crew_fatigue = 101, "save contains invalid crew fatigue"),
        (|s| s.ship_wear = 101, "save contains invalid ship wear"),
        (
            |s| s.field_power_cells = 3,
            "save contains too many field power cells",
        ),
        (
            |s| s.cargo_bay_level = 3,
            "save contains an invalid cargo bay level",
        ),
        (
            |s| s.economy.fuel = -1,
            "save contains invalid economy or hull values",
        ),
        (|s| s.hull = 0, "save contains invalid economy or hull values"),
        (
            |s| s.max_hull = 11,
            "save contains invalid economy or hull values",
        ),
        (
            |s| s.economy.credits = 2_000_000_000_000_000,
            "save contains values outside the supported ranges",
        ),
        (
            |s| {
                s.loadout_slots.pop();
            },
            "save contains values outside the supported ranges",
        ),
    ];
    for (corrupt, expected) in cases {
        let mut session = GameSession::new(&data);
        corrupt(&mut session);
        assert_eq!(reload(&session, &data).unwrap_err(), expected);
    }
}

#[test]
fn loads_rebuild_the_grid_and_name_what_it_refuses() {
    let data = game_data();

    let mut unknown = GameSession::new(&data);
    unknown.ship_layout.placements[1].id = "ghost_module".to_owned();
    assert_eq!(
        reload(&unknown, &data).unwrap_err(),
        "save references missing module 'ghost_module'"
    );

    let mut cargo = GameSession::new(&data);
    cargo.ship_layout.placements[1].id = "cargo:ghost_crate".to_owned();
    assert_eq!(
        reload(&cargo, &data).unwrap_err(),
        "save references missing salvage 'ghost_crate'"
    );

    let mut resized = GameSession::new(&data);
    resized.ship_layout.placements[1].footprint = Footprint {
        width: 2,
        height: 1,
    };
    assert_eq!(
        reload(&resized, &data).unwrap_err(),
        "save footprint mismatch for 'fuel_tank'"
    );

    let mut overlapping = GameSession::new(&data);
    overlapping.ship_layout.placements[1].position = GridPosition::new(1, 1);
    assert_eq!(
        reload(&overlapping, &data).unwrap_err(),
        "invalid saved layout: placement overlaps engine_core"
    );

    let mut outside = GameSession::new(&data);
    outside.ship_layout.placements[0].position = GridPosition::new(4, 4);
    assert_eq!(
        reload(&outside, &data).unwrap_err(),
        "invalid saved layout: placement leaves the ship grid"
    );
}

#[test]
fn loads_refuse_references_the_catalog_does_not_know() {
    let data = game_data();

    let mut site = GameSession::new(&data);
    site.begin_expedition("merchant_wreck", &data).unwrap();
    site.expedition.as_mut().unwrap().site_id = "ghost_wreck".to_owned();
    assert_eq!(
        reload(&site, &data).unwrap_err(),
        "save references missing expedition site 'ghost_wreck'"
    );

    let mut cargo = GameSession::new(&data);
    cargo.begin_expedition("merchant_wreck", &data).unwrap();
    cargo.expedition.as_mut().unwrap().cargo[2].object_id = "ghost_crate".to_owned();
    assert_eq!(
        reload(&cargo, &data).unwrap_err(),
        "save references missing salvage 'ghost_crate'"
    );

    let mut returned = GameSession::new(&data);
    returned.returned.push(ReturnedItem {
        object_id: "ghost_crate".to_owned(),
        position: GridPosition::new(3, 3),
        rotation: 0,
        market_cycle: 0,
    });
    assert_eq!(
        reload(&returned, &data).unwrap_err(),
        "save references missing returned salvage 'ghost_crate'"
    );
}

#[test]
fn loads_refuse_fuel_beyond_the_saved_tanks() {
    let data = game_data();
    let mut session = GameSession::new(&data);
    session.economy.fuel = 25;
    assert_eq!(
        reload(&session, &data).unwrap_err(),
        "save exceeds the ship's current fuel or hull capacity"
    );
    session.economy.fuel = 24;
    assert!(reload(&session, &data).is_ok());
}

#[test]
fn loads_re_evaluate_blueprints_with_the_saved_wallet() {
    let data = game_data();
    let mut session = GameSession::new(&data);
    session.economy.credits = 1_600;
    assert!(!session.module_is_unlocked("scanner_module", &data));

    let restored = reload(&session, &data).unwrap();

    assert!(restored.module_is_unlocked("scanner_module", &data));
    assert!(restored.milestone_reached);
    assert!(restored.within_bounds());
}

#[test]
fn legacy_fields_are_filled_in_from_what_the_save_holds() {
    let data = game_data();
    let mut session = GameSession::new(&data);
    session.begin_expedition("merchant_wreck", &data).unwrap();
    session.expedition.as_mut().unwrap().workspace_section = String::new();
    session.voyage_log = vec![
        record(RiskOutcome::OrdinaryReturn, 250, 2),
        record(RiskOutcome::LostSalvage, 120, 1),
    ];

    restore_legacy_fields(&mut session, &data);

    assert_eq!(
        session.expedition.as_ref().unwrap().workspace_section,
        "cargo_bay"
    );
    assert_eq!(session.career.voyages_completed, 2);
    assert_eq!(session.career.gross_haul_value, 370);

    let mut kept = GameSession::new(&data);
    kept.career.voyages_completed = 4;
    kept.voyage_log = vec![record(RiskOutcome::OrdinaryReturn, 250, 2)];
    restore_legacy_fields(&mut kept, &data);
    assert_eq!(kept.career.voyages_completed, 4);
}

#[test]
fn voyage_log_entries_claiming_too_many_targets_are_refused() {
    let data = game_data();
    let mut save = GameSession::new(&data).to_save(&data.config.version);
    save.session
        .voyage_log
        .push(filed_record("merchant_wreck", (5, 20), 0));

    let error = GameSession::from_save(save, &data).unwrap_err();
    assert_eq!(
        error,
        "save voyage log overstates recovery at site 'merchant_wreck'"
    );
}

#[test]
fn loads_name_the_first_manifest_entry_that_disagrees_with_the_grid() {
    let data = game_data();

    let mut unplaced = GameSession::new(&data);
    unplaced.begin_expedition("merchant_wreck", &data).unwrap();
    let cargo = &mut unplaced.expedition.as_mut().unwrap().cargo[1];
    cargo.status = CargoStatus::Packed;
    cargo.position = Some(GridPosition::new(3, 3));
    let object_id = cargo.object_id.clone();
    assert_eq!(
        reload(&unplaced, &data).unwrap_err(),
        format!("packed cargo '{object_id}' is missing from the layout")
    );

    let mut positionless = GameSession::new(&data);
    positionless.begin_expedition("merchant_wreck", &data).unwrap();
    let cargo = &mut positionless.expedition.as_mut().unwrap().cargo[0];
    cargo.status = CargoStatus::Packed;
    let object_id = cargo.object_id.clone();
    assert_eq!(
        reload(&positionless, &data).unwrap_err(),
        format!("packed cargo '{object_id}' has no position")
    );

    let mut stray = GameSession::new(&data);
    stray.begin_expedition("merchant_wreck", &data).unwrap();
    stray.expedition.as_mut().unwrap().cargo[0].position = Some(GridPosition::new(3, 3));
    let object_id = stray.expedition.as_ref().unwrap().cargo[0].object_id.clone();
    assert_eq!(
        reload(&stray, &data).unwrap_err(),
        format!("unpacked cargo '{object_id}' occupies the layout")
    );

    let mut doubled = GameSession::new(&data);
    doubled.begin_expedition("merchant_wreck", &data).unwrap();
    let expedition = doubled.expedition.as_mut().unwrap();
    let first = expedition.cargo[0].clone();
    expedition.cargo.push(first.clone());
    assert_eq!(
        reload(&doubled, &data).unwrap_err(),
        format!("save contains duplicate cargo '{}'", first.object_id)
    );
}

#[test]
fn loads_name_port_cargo_and_grid_items_the_save_does_not_hold() {
    let data = game_data();

    let mut missing = GameSession::new(&data);
    missing.returned.push(ReturnedItem {
        object_id: "trade_crate".to_owned(),
        position: GridPosition::new(3, 3),
        rotation: 0,
        market_cycle: 0,
    });
    assert_eq!(
        reload(&missing, &data).unwrap_err(),
        "returned cargo 'trade_crate' is missing from the layout"
    );

    let mut orphan = GameSession::new(&data);
    orphan
        .ship_layout
        .place(
            "cargo:trade_crate",
            object_data(&data, "trade_crate").footprint,
            GridPosition::new(3, 3),
            0,
            false,
        )
        .unwrap();
    assert_eq!(
        reload(&orphan, &data).unwrap_err(),
        "layout contains cargo not present in the save state: 'trade_crate'"
    );

    let mut loose = GameSession::new(&data);
    let fuel_tank = module_data(&data, "fuel_tank");
    loose
        .ship_layout
        .place(&fuel_tank.id, fuel_tank.footprint, GridPosition::new(0, 2), 0, false)
        .unwrap();
    assert_eq!(
        reload(&loose, &data).unwrap_err(),
        "temporary layout item 'fuel_tank' is not cargo"
    );

    let mut unlocked = GameSession::new(&data);
    unlocked.unlocked_modules.push("ghost_module".to_owned());
    assert_eq!(
        reload(&unlocked, &data).unwrap_err(),
        "save contains an invalid unlocked module 'ghost_module'"
    );
}

#[test]
fn loads_name_the_wreck_record_that_is_out_of_order() {
    let data = game_data();

    let mut sequence = GameSession::new(&data);
    progress_mut(&mut sequence, "merchant_wreck").operation_log = vec![
        recovered_entry(1, WorkspaceLogEvent::TargetRecovered, "industrial_battery"),
        recovered_entry(1, WorkspaceLogEvent::TargetRecovered, "engine_assembly"),
    ];
    assert_eq!(
        reload(&sequence, &data).unwrap_err(),
        "save contains an invalid operation log sequence at site 'merchant_wreck'"
    );

    let mut target = GameSession::new(&data);
    progress_mut(&mut target, "merchant_wreck").operation_log = vec![recovered_entry(
        1,
        WorkspaceLogEvent::TargetRecovered,
        "quantum_lens",
    )];
    assert_eq!(
        reload(&target, &data).unwrap_err(),
        "save operation log references unknown target 'quantum_lens'"
    );

    let mut condition = GameSession::new(&data);
    progress_mut(&mut condition, "merchant_wreck").reconnaissance_level = 3;
    assert_eq!(
        reload(&condition, &data).unwrap_err(),
        "save contains an invalid reconnaissance level"
    );
}

#[test]
fn reloading_a_loaded_session_gives_it_back() {
    let data = game_data();
    let mut session = GameSession::new(&data);
    session.economy.credits = 1_200;
    session.begin_expedition("merchant_wreck", &data).unwrap();
    let loaded = reload(&session, &data).unwrap();
    assert!(loaded.module_is_unlocked("scanner_module", &data));
    assert!(loaded.unlocked_modules.len() > session.unlocked_modules.len());
    let again = reload(&loaded, &data).unwrap();
    assert_eq!(format!("{:?}", again), format!("{:?}", loaded));
    assert!(same_placements(&again.ship_layout, &loaded.ship_layout));
    assert_eq!(again.unlocked_modules, loaded.unlocked_modules);
    assert_eq!(again.milestone_reached, loaded.milestone_reached);
}

fn haul_home(data: &GameData) -> (GameSession, String) {
    let mut session = GameSession::new(data);
    session.begin_expedition("merchant_wreck", data).unwrap();
    let first = session.expedition.as_ref().unwrap().cargo[0].object_id.clone();
    session.auto_place(&first, data).unwrap();
    let remaining: Vec<String> = session
        .expedition
        .as_ref()
        .unwrap()
        .cargo
        .iter()
        .skip(1)
        .map(|item| item.object_id.clone())
        .collect();
    for item in remaining {
        session.set_cargo_status(&item, CargoStatus::LeftBehind).unwrap();
    }
    session.finish_packing(data).unwrap();
    (session, first)
}

#[test]
fn selling_returns_credits() {
    let data = game_data();
    let (mut session, first) = haul_home(&data);
    let credits = session.economy.credits;
    let message = session.dispose(&first, Disposition::Sell, &data).unwrap();
    assert!(message.starts_with("Sold "));
    assert!(session.economy.credits > credits);
    assert!(session.economy.credits > data.config.starting_credits);
    assert!(session.returned.is_empty());
    assert_eq!(session.decisions.len(), 1);
    assert_eq!(session.decisions[0].object_id, first);
    assert_eq!(session.decisions[0].disposition, "Sell");
    assert!(!session
        .ship_layout
        .placements
        .iter()
        .any(|item| item.id == format!("cargo:{}", first)));
}

#[test]
fn breaking_down_returned_salvage_adds_its_materials() {
    let data = game_data();
    let (mut session, first) = haul_home(&data);
    let object = object_data(&data, &first);
    let alloy = session.economy.alloy;
    let electronics = session.economy.electronics;
    let credits = session.economy.credits;
    let message = session.dispose(&first, Disposition::BreakDown, &data).unwrap();
    assert!(message.starts_with(&format!("Broke down {} for materials", object.display_name)));
    assert_eq!(session.economy.alloy, alloy + object.alloy_yield);
    assert_eq!(session.economy.electronics, electronics + object.electronics_yield);
    assert_eq!(session.economy.credits, credits);
    assert_eq!(session.decisions[0].disposition, "BreakDown");
}

#[test]
fn resolved_salvage_cannot_be_disposed_twice() {
    let data = game_data();
    let (mut session, first) = haul_home(&data);
    session.dispose(&first, Disposition::Sell, &data).unwrap();
    let credits = session.economy.credits;
    let error = session.dispose(&first, Disposition::Sell, &data).unwrap_err();
    assert_eq!(error, "that item has already been resolved");
    assert_eq!(session.economy.credits, credits);
}

#[test]
fn salvage_without_an_installation_effect_cannot_be_installed() {
    let data = game_data();
    let (mut session, first) = haul_home(&data);
    let error = session.dispose(&first, Disposition::Install, &data).unwrap_err();
    assert_eq!(error, "that object has no installation effect");
    assert_eq!(session.returned.len(), 1);
}

fn site_ids(data: &GameData, listed: &[usize]) -> Vec<String> {
    listed.iter().map(|&i| data.sites[i].id.clone()).collect()
}

#[test]
fn chart_lists_the_latest_charted_wreck_first_then_by_name() {
    let data = game_data();
    let mut session = GameSession::new(&data);
    assert_eq!(
        site_ids(&data, &session.listed_wrecks(&data, false)),
        vec!["merchant_wreck", "military_wreck", "research_vessel"]
    );
    session.wrecks.push(WreckRecord {
        site_id: "research_vessel".to_owned(),
        serial: 2,
    });
    session.wrecks.push(WreckRecord {
        site_id: "military_wreck".to_owned(),
        serial: 1,
    });
    assert_eq!(
        site_ids(&data, &session.listed_wrecks(&data, false)),
        vec!["research_vessel", "military_wreck", "merchant_wreck"]
    );
    assert!(session.listed_wrecks(&data, true).is_empty());
}

#[test]
fn discovery_is_blocked_while_a_voyage_is_in_hand() {
    let data = game_data();
    let mut session = GameSession::new(&data);
    assert_eq!(session.discovery_block_reason(LeadKind::Local, &data), None);
    session.begin_expedition("merchant_wreck", &data).unwrap();
    assert_eq!(
        session.discovery_block_reason(LeadKind::Local, &data),
        Some(data.discovery.copy.busy.clone())
    );
}

#[test]
fn discovery_refuses_a_full_chart_a_locked_pool_and_a_short_wallet() {
    let mut data = game_data();
    let mut session = GameSession::new(&data);
    assert_eq!(
        session.discovery_block_reason(LeadKind::Specialist, &data),
        Some(data.discovery.copy.locked.clone())
    );
    session.reputation = 2;
    session.economy.credits = 100;
    assert_eq!(
        session.discovery_block_reason(LeadKind::Specialist, &data),
        Some("A specialist lead costs 250 credits.".to_owned())
    );
    session.economy.credits = 250;
    assert_eq!(session.discovery_block_reason(LeadKind::Specialist, &data), None);
    data.discovery.active_limit = 3;
    assert_eq!(
        session.discovery_block_reason(LeadKind::Local, &data),
        Some(data.discovery.copy.full.clone())
    );
}

#[test]
fn wreck_equipment_names_each_needed_capability_once_in_order() {
    let data = game_data();
    let session = GameSession::new(&data);
    let mut site = data.sites[0].clone();
    site.candidate_salvage = Vec::new();
    site.sections = vec![
        section("a", "A", &[], 0, &[], Some("stabilizer"), ""),
        section("b", "B", &[], 0, &[], Some("heavy_tractor"), ""),
        section("c", "C", &[], 0, &[], Some("deep_sonar"), ""),
        section("d", "D", &[], 0, &[], Some("stabilizer"), ""),
    ];
    assert_eq!(
        session.wreck_equipment(&site, &data),
        "deep sonar, Reactor Module, Shield Module"
    );
    site.sections = Vec::new();
    assert_eq!(
        session.wreck_equipment(&site, &data),
        data.discovery.copy.starter_ready
    );
}

#[test]
fn a_run_in_progress_is_saved_and_loads_back_as_itself() {
    let data = game_data();
    let mut session = GameSession::new(&data);
    session.begin_expedition("merchant_wreck", &data).unwrap();
    session.scan_workspace(&data).unwrap();
    session.market_cycle = 6;
    let restored = reload(&session, &data).unwrap();
    assert_eq!(format!("{:?}", restored), format!("{:?}", session));
    assert!(same_placements(&restored.ship_layout, &session.ship_layout));
    assert_eq!(restored.economy, session.economy);
    assert_eq!(restored.market_cycle, 6);
    assert_eq!(
        progress(&restored, "merchant_wreck").operation_log.len(),
        progress(&session, "merchant_wreck").operation_log.len()
    );
}

#[test]
fn workspace_survey_note_reads_the_scanned_section() {
    let data = game_data();
    let mut session = GameSession::new(&data);
    assert!(session.workspace_survey_note("industrial_battery", &data).is_none());
    session.begin_expedition("merchant_wreck", &data).unwrap();
    assert!(session.workspace_survey_note("industrial_battery", &data).is_none());
    session.scan_workspace(&data).unwrap();
    let note = session.workspace_survey_note("industrial_battery", &data).unwrap();
    assert_eq!(note.target_id, "industrial_battery");
    assert_eq!(note.section_id, "cargo_bay");
    assert_eq!(note.scan_count, 1);
    assert!(session.workspace_survey_note("sealed_container", &data).is_none());
}

#[test]
fn wear_gain_clamps_any_tuning_into_the_wear_range() {
    let steep = MaintenanceTuning {
        base_wear_per_voyage: 5,
        setback_wear: i32::MAX,
        external_load_wear: i32::MAX,
        power_cycle_wear: i32::MAX,
        danger_per_wear_band: 3,
        price_per_wear: 10,
    };
    assert_eq!(wear_gain(RiskOutcome::ForcedAbandon, i32::MAX, 9, &steep), 100);
    let negative = MaintenanceTuning {
        base_wear_per_voyage: i32::MIN,
        setback_wear: i32::MIN,
        external_load_wear: i32::MIN,
        power_cycle_wear: i32::MIN,
        danger_per_wear_band: 3,
        price_per_wear: 10,
    };
    assert_eq!(wear_gain(RiskOutcome::ForcedAbandon, i32::MAX, 9, &negative), 0);
    assert_eq!(wear_gain(RiskOutcome::OrdinaryReturn, -40, 0, &steep), 5);
}

#[test]
fn maintenance_danger_is_clamped_for_extreme_authored_danger() {
    let data = game_data();
    let mut session = GameSession::new(&data);
    session.ship_wear = 60;
    assert_eq!(session.maintenance_adjusted_danger(-2_000_000_000, &data), 0);
    assert_eq!(session.maintenance_adjusted_danger(2_000_000_000, &data), 100);
}
