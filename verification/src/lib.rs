//! Dead Drop Drive's simulation core: cars, contracts, loot, route encounters, the route-run
//! state machine and the garage economy, with every rule stated as a contract.

pub mod arith;
pub mod balance;
pub mod car;
pub mod car_table;
pub mod consequences;
pub mod garage;
pub mod job;
pub mod laws;
pub mod loot;
pub mod market;
pub mod rng;
pub mod route;
pub mod route_run;

pub use balance::BalanceConfig;
pub use car::{
    generate_car_market_offers, Car, CarMarketOffer, Drivetrain, EffectiveStats, EngineSpec,
    InstalledUpgrade, PartCondition, PartDamage, VehicleSpec,
};
pub use car_table::{market_car_catalog, starter_car_catalog};
pub use garage::{Garage, JobReport};
pub use job::{starter_jobs, CargoType, Job, Terrain};
pub use loot::{
    black_market_upgrade_catalog, generate_black_market_offers, generate_loot, BlackMarketOffer,
    InstallCostVoucherEffect, LootEffect, LootItem, LootRarity, UpgradeEffect,
};
pub use route::{
    fork_choice_previews, fork_choice_previews_with_config, patrol_action_previews,
    patrol_action_previews_with_config, resolve_fork_choice, resolve_fork_choice_with_config,
    resolve_job, resolve_job_with_config, resolve_patrol_action, resolve_patrol_action_with_config,
    CheckModifier, ForkChoice, ForkChoicePreview, ForkResolution, JobOutcome, PatrolAction,
    PatrolActionPreview, PatrolResolution, RouteEvent,
};
pub use route_run::{
    RouteAction, RouteEncounterKind, RouteEncounterPreview, RoutePhase, RouteResolution, RouteRun,
    RouteRunReport, SegmentOutcome, SegmentPreview, SegmentResolution,
};
pub use rng::SeededRng;
