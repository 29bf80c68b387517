use ddd_core::{
    generate_black_market_offers, generate_car_market_offers, market_car_catalog, starter_jobs,
    BalanceConfig, CargoType, Drivetrain, ForkChoice, Garage, InstalledUpgrade, LootRarity,
    PartDamage, PatrolAction, RouteAction, RouteEncounterKind, RoutePhase, RouteResolution,
    RouteRun, Terrain,
};

#[test]
fn terrain_roughness_and_drivetrains_follow_the_table() {
    assert_eq!(Terrain::City.roughness(), 1);
    assert_eq!(Terrain::Industrial.roughness(), 3);
    assert_eq!(Terrain::Rural.roughness(), 5);
    assert_eq!(Terrain::Mountain.roughness(), 8);
    assert!(Drivetrain::Awd.handles_rough_terrain());
    assert!(Drivetrain::FourWd.handles_rough_terrain());
    assert!(!Drivetrain::Fwd.handles_rough_terrain());
    assert!(!Drivetrain::Rwd.handles_rough_terrain());
}

#[test]
fn action_labels_name_the_choices() {
    assert_eq!(PatrolAction::BlendIn.label(), "Blend in");
    assert_eq!(PatrolAction::Detour.label(), "Detour through service roads");
    assert_eq!(PatrolAction::PushSpeed.label(), "Push speed");
    assert_eq!(ForkChoice::Highway.label(), "Take the highway");
    assert_eq!(ForkChoice::ServiceRoad.label(), "Take the service road");
    assert_eq!(ForkChoice::Backtrack.label(), "Backtrack");
}

#[test]
fn part_damage_reports_whether_it_hurts() {
    assert!(!PartDamage::default().any());
    assert!(PartDamage {
        body: 1,
        ..PartDamage::default()
    }
    .any());
}

#[test]
fn starter_jobs_come_from_the_contract_table() {
    let jobs = starter_jobs();

    assert_eq!(jobs.len(), 4);
    assert_eq!(jobs[1].name, "Industrial parts delivery");
    assert_eq!(jobs[1].cargo, CargoType::Parts);
    assert_eq!(jobs[1].terrain, Terrain::Industrial);
    assert_eq!((jobs[1].cargo_size, jobs[1].payout, jobs[1].heat, jobs[1].distance), (2, 420, 3, 4));
}

#[test]
fn market_catalog_spans_every_rarity() {
    let cars = market_car_catalog();

    assert!(cars.iter().any(|car| car.rarity == LootRarity::Common));
    assert!(cars.iter().any(|car| car.rarity == LootRarity::Uncommon));
    assert!(cars.iter().any(|car| car.rarity == LootRarity::Rare));
    assert!(cars.iter().all(|car| car.installed_upgrades.is_empty()));
}

#[test]
fn installed_upgrade_reports_its_effect() {
    let upgrade = InstalledUpgrade {
        name: "Tinted window film".to_string(),
        rarity: LootRarity::Common,
        black_market_value: 120,
        install_cost: 60,
        stealth_modifier: 1,
        drivetrain_modifier: 0,
        repair_discount_percent: 0,
    };
    let effect = upgrade.effect();

    assert_eq!(effect.stealth_modifier, 1);
    assert_eq!(effect.install_cost, 60);
}

#[test]
fn restocking_markets_uses_the_next_seed() {
    let mut garage = Garage::starter();
    let config = BalanceConfig::default();

    garage.refresh_black_market();
    garage.refresh_car_market();

    assert_eq!(garage.black_market, generate_black_market_offers(154, &config));
    assert_eq!(garage.car_market, generate_car_market_offers(356, &config));
    assert_eq!(garage.black_market_seed, 207);
    assert_eq!(garage.car_market_seed, 427);
}

#[test]
fn route_actions_dispatch_to_the_matching_encounter() {
    let mut garage = Garage::starter();
    let jobs = starter_jobs();
    let mut run = RouteRun::new(0, jobs[1].clone(), 11);

    assert!(run
        .resolve_action(&mut garage, RouteAction::Fork(ForkChoice::Highway))
        .is_none());
    run.phase = RoutePhase::Fork;
    assert_eq!(run.next_encounter(), Some(RouteEncounterKind::Fork));
    let resolution = run
        .resolve_action(&mut garage, RouteAction::Fork(ForkChoice::Highway))
        .unwrap();
    assert!(matches!(resolution, RouteResolution::Fork(_)));
    assert_eq!(run.phase, RoutePhase::Segment);
    assert_eq!(run.seed, 28);
}

#[test]
fn selling_the_whole_inventory_sums_its_values() {
    let mut garage = Garage::starter();
    let offers = garage.black_market.clone();
    garage.cash = 5_000;
    while !garage.black_market.is_empty() {
        assert!(garage.buy_black_market_part(0));
    }
    let worth: i32 = offers.iter().map(|offer| offer.item.black_market_value).sum();
    let cash = garage.cash;

    assert_eq!(garage.sell_inventory(), worth);
    assert_eq!(garage.cash, cash + worth);
    assert!(garage.inventory.is_empty());
}
