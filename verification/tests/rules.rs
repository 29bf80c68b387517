use ddd_core::{
    black_market_upgrade_catalog, fork_choice_previews, generate_black_market_offers,
    generate_car_market_offers, generate_loot, patrol_action_previews, resolve_fork_choice,
    resolve_patrol_action, starter_jobs, BalanceConfig, CargoType, Car, ForkChoice, Garage, Job,
    LootEffect, LootItem, LootRarity, PartDamage, PatrolAction, RouteEvent, RoutePhase, RouteRun,
    SegmentOutcome, Terrain, UpgradeEffect,
};

fn industrial_job() -> Job {
    Job::new(
        "Industrial parts delivery",
        CargoType::Parts,
        Terrain::Industrial,
        2,
        420,
        3,
        4,
    )
}

fn rural_job() -> Job {
    Job::new(
        "Rural night drop",
        CargoType::Contraband,
        Terrain::Rural,
        2,
        650,
        5,
        5,
    )
}

#[test]
fn patrol_odds_match_the_formula_for_a_fresh_civic() {
    let car = Car::honda_civic_1998_dx_sedan();
    let previews = patrol_action_previews(&car, &industrial_job(), 0);

    assert_eq!(previews[0].chance, 63);
    assert_eq!(previews[1].chance, 56);
    assert_eq!(previews[2].chance, 45);
    assert_eq!(previews[0].modifiers.len(), 5);
    assert_eq!(previews[2].modifiers.len(), 6);
    assert_eq!(previews[0].modifiers[1].label, "effective stealth");
    assert_eq!(previews[0].modifiers[1].value, 24);
    assert_eq!(previews[0].check, "Stealth");
}

#[test]
fn fork_odds_match_the_formula_for_a_fresh_civic() {
    let car = Car::honda_civic_1998_dx_sedan();
    let previews = fork_choice_previews(&car, &industrial_job(), 0);

    assert_eq!(previews[0].chance, Some(58));
    assert_eq!(previews[1].chance, Some(56));
    assert_eq!(previews[2].success, "safe route, payout reduced by 20%");
}

#[test]
fn more_garage_heat_never_raises_patrol_odds() {
    let car = Car::honda_civic_1998_dx_sedan();
    let job = industrial_job();
    let cool = patrol_action_previews(&car, &job, 0);
    let hot = patrol_action_previews(&car, &job, 10);

    assert_eq!(hot[0].chance, 33);
    assert_eq!(hot[1].chance, 26);
    assert_eq!(hot[2].chance, 25);
    for i in 0..3 {
        assert!(hot[i].chance <= cool[i].chance);
    }
}

#[test]
fn more_wear_never_raises_patrol_odds() {
    let mut car = Car::volvo_v70_1999_turbo_awd();
    let job = rural_job();
    let fresh = patrol_action_previews(&car, &job, 2);
    car.condition.apply_damage(PartDamage {
        engine: 5,
        suspension: 20,
        tires: 12,
        body: 30,
    });
    let worn = patrol_action_previews(&car, &job, 2);

    for i in 0..3 {
        assert!(worn[i].chance <= fresh[i].chance);
    }
}

#[test]
fn resolutions_roll_against_the_previewed_odds() {
    let job = industrial_job();
    for seed in 0..40u64 {
        let mut car = Car::honda_civic_1998_dx_sedan();
        let previews = patrol_action_previews(&car, &job, 3);
        let result = resolve_patrol_action(&mut car, &job, 3, PatrolAction::Detour, seed);
        assert_eq!(result.chance, previews[1].chance);
        assert_eq!(result.success, result.roll <= result.chance);
        assert!((1..=100).contains(&result.roll));

        let mut car = Car::honda_civic_1998_dx_sedan();
        let forks = fork_choice_previews(&car, &job, 3);
        let fork = resolve_fork_choice(&mut car, &job, 3, ForkChoice::ServiceRoad, seed);
        assert_eq!(fork.chance, forks[1].chance);
        assert_eq!(fork.payout_multiplier_percent, 100);
    }
}

#[test]
fn failed_service_road_damages_suspension_tires_and_body() {
    let job = industrial_job();
    let seed = (0..1000u64)
        .find(|seed| {
            let mut car = Car::honda_civic_1998_dx_sedan();
            !resolve_fork_choice(&mut car, &job, 0, ForkChoice::ServiceRoad, *seed).success
        })
        .expect("some seed fails the service road");
    let mut car = Car::honda_civic_1998_dx_sedan();

    let result = resolve_fork_choice(&mut car, &job, 0, ForkChoice::ServiceRoad, seed);

    assert_eq!(
        result.damage,
        PartDamage {
            engine: 0,
            suspension: 7,
            tires: 6,
            body: 5
        }
    );
    assert_eq!(car.condition.suspension, 93);
    assert_eq!(car.condition.body, 95);
    assert_eq!(result.heat_gained, 0);
}

#[test]
fn black_market_offers_are_distinct_upgrades_priced_above_value() {
    let config = BalanceConfig::default();
    for seed in 0..200u64 {
        let offers = generate_black_market_offers(seed, &config);
        assert!(offers.len() <= 3);
        for (i, offer) in offers.iter().enumerate() {
            assert!(matches!(offer.item.effect, LootEffect::VehicleUpgrade(_)));
            assert!(offer.asking_price > offer.item.black_market_value);
            for other in &offers[i + 1..] {
                assert_ne!(offer.item.name, other.item.name);
            }
        }
    }
}

#[test]
fn black_market_price_marks_up_by_rarity() {
    let offers = generate_black_market_offers(101, &BalanceConfig::default());

    assert_eq!(offers[0].item.name, "Forged plate kit");
    assert_eq!(offers[0].asking_price, 448);
}

#[test]
fn car_market_offers_are_distinct_cars_priced_above_value() {
    let config = BalanceConfig::default();
    for seed in 0..200u64 {
        let offers = generate_car_market_offers(seed, &config);
        assert!(!offers.is_empty() || seed > 0);
        assert!(offers.len() <= 3);
        for (i, offer) in offers.iter().enumerate() {
            assert!(offer.asking_price > offer.car.value);
            for other in &offers[i + 1..] {
                assert_ne!(offer.car.name, other.car.name);
            }
        }
    }
}

#[test]
fn loot_drops_are_always_worth_something() {
    let config = BalanceConfig::default();
    for job in starter_jobs() {
        for seed in 0..100u64 {
            let loot = generate_loot(&job, seed, &config);
            assert!(loot.len() <= 2);
            assert!(loot.iter().all(|item| item.black_market_value > 0));
        }
    }
}

#[test]
fn loot_follows_the_cargo_table() {
    let loot = generate_loot(&rural_job(), 4, &BalanceConfig::default());

    assert_eq!(loot.len(), 1);
    assert_eq!(loot[0].name, "Cash-stuffed spare tire");
    assert_eq!(loot[0].black_market_value, 240);
    assert_eq!(loot[0].effect, LootEffect::SellOnly);
}

#[test]
fn black_market_catalog_holds_only_upgrades() {
    let catalog = black_market_upgrade_catalog();

    assert_eq!(catalog.len(), 7);
    assert!(catalog
        .iter()
        .all(|item| matches!(item.effect, LootEffect::VehicleUpgrade(_))));
}

#[test]
fn repair_cost_follows_missing_condition_and_discount() {
    let mut car = Car::honda_civic_1998_dx_sedan();
    car.condition.apply_damage(PartDamage {
        engine: 10,
        suspension: 20,
        tires: 0,
        body: 10,
    });
    assert_eq!(car.repair_cost(), 120);

    car.install_loot(LootItem {
        name: "Shop manual bundle".to_string(),
        rarity: LootRarity::Uncommon,
        black_market_value: 200,
        effect: LootEffect::VehicleUpgrade(UpgradeEffect {
            stealth_modifier: 0,
            drivetrain_modifier: 0,
            repair_discount_percent: 15,
            install_cost: 90,
        }),
    });
    assert_eq!(car.repair_cost(), 102);

    car.repair_fully();
    assert_eq!(car.repair_cost(), 0);
}

#[test]
fn repaired_car_cannot_be_repaired_again() {
    let mut garage = Garage::starter();
    garage.cars[0].condition.apply_damage(PartDamage {
        body: 5,
        ..PartDamage::default()
    });
    assert!(garage.repair_car(0));
    let cash = garage.cash;

    assert!(!garage.repair_car(0));
    assert_eq!(garage.cash, cash);
    assert!(!garage.repair_car(9));
}

#[test]
fn effective_stats_follow_wear() {
    let mut car = Car::volvo_v70_1999_turbo_awd();
    car.condition.apply_damage(PartDamage {
        engine: 24,
        suspension: 40,
        tires: 25,
        body: 16,
    });
    let stats = car.effective_stats();

    assert_eq!(stats.stealth, 3);
    assert_eq!(stats.drivetrain, 12 - 10 - 5);
    assert_eq!(car.condition.average(), 73);
}

#[test]
fn installing_and_uninstalling_an_upgrade_hands_the_item_back() {
    let item = LootItem {
        name: "Forged plate kit".to_string(),
        rarity: LootRarity::Uncommon,
        black_market_value: 280,
        effect: LootEffect::VehicleUpgrade(UpgradeEffect {
            stealth_modifier: 2,
            drivetrain_modifier: -1,
            repair_discount_percent: 0,
            install_cost: 170,
        }),
    };
    let mut car = Car::honda_civic_1998_dx_sedan();

    assert!(car.install_loot(item.clone()));
    assert_eq!(car.installed_upgrades.len(), 1);
    assert_eq!(car.uninstall_upgrade(0), Some(item));
    assert!(car.installed_upgrades.is_empty());
    assert_eq!(car.uninstall_upgrade(0), None);
}

#[test]
fn sell_only_loot_is_not_installed_on_a_car() {
    let mut car = Car::honda_civic_1998_dx_sedan();
    let voucher = LootItem {
        name: "Contact favor voucher".to_string(),
        rarity: LootRarity::Uncommon,
        black_market_value: 160,
        effect: LootEffect::InstallCostVoucher(ddd_core::InstallCostVoucherEffect {
            discount_percent: 50,
        }),
    };

    assert!(!car.install_loot(voucher));
    assert!(car.installed_upgrades.is_empty());
}

#[test]
fn voucher_discounts_install_cost_by_its_share() {
    let mut garage = Garage::starter();
    garage.inventory.push(LootItem {
        name: "Contact favor voucher".to_string(),
        rarity: LootRarity::Uncommon,
        black_market_value: 160,
        effect: LootEffect::InstallCostVoucher(ddd_core::InstallCostVoucherEffect {
            discount_percent: 50,
        }),
    });
    garage.inventory.push(LootItem {
        name: "Forged plate kit".to_string(),
        rarity: LootRarity::Uncommon,
        black_market_value: 280,
        effect: LootEffect::VehicleUpgrade(UpgradeEffect {
            stealth_modifier: 2,
            drivetrain_modifier: -1,
            repair_discount_percent: 0,
            install_cost: 170,
        }),
    });

    assert!(garage.install_inventory_item(1, 1));
    assert_eq!(garage.cash, 665);
    assert!(garage.inventory.is_empty());
    assert!(!garage.install_inventory_item(0, 0));
}

#[test]
fn sale_value_falls_with_heat_and_wear() {
    let mut garage = Garage::new(750, vec![Car::volvo_v70_1999_turbo_awd()]);
    assert_eq!(garage.car_sale_value(0), Some(3600));
    let mut previous = 3600;
    for heat in 1..12u8 {
        garage.heat = heat;
        let value = garage.car_sale_value(0).unwrap();
        assert!(value <= previous);
        previous = value;
    }
    garage.heat = 3;
    assert_eq!(garage.car_sale_value(0), Some(2520));
    garage.cars[0].condition.apply_damage(PartDamage {
        engine: 20,
        suspension: 20,
        tires: 20,
        body: 20,
    });
    assert_eq!(garage.car_sale_value(0), Some(2016));
    assert_eq!(garage.car_sale_value(4), None);
}

#[test]
fn selling_a_spare_car_pays_its_sale_value() {
    let mut garage = Garage::starter();
    let value = garage.car_sale_value(1).unwrap();

    assert_eq!(garage.sell_car(1), Some(value));
    assert_eq!(garage.cash, 750 + value);
    assert_eq!(garage.cars.len(), 1);
    assert_eq!(garage.sell_car(0), None);
}

#[test]
fn out_of_range_indexes_change_nothing() {
    let mut garage = Garage::starter();
    let before = garage.clone();
    let job = industrial_job();

    assert!(garage.run_job(7, &job, 1).is_none());
    assert!(garage.resolve_patrol_encounter(7, &job, PatrolAction::BlendIn, 1).is_none());
    assert!(garage.resolve_fork_encounter(7, &job, ForkChoice::Highway, 1).is_none());
    assert!(garage.patrol_previews(7, &job).is_none());
    assert!(garage.fork_previews(7, &job).is_none());
    assert_eq!(garage.sell_inventory_item(0), None);
    assert!(!garage.uninstall_upgrade(0, 0));
    assert!(!garage.buy_black_market_part(9));
    assert!(!garage.buy_market_car(9));
    assert_eq!(garage, before);
}

#[test]
fn running_a_job_pays_out_and_stocks_loot() {
    let mut garage = Garage::starter();
    let job = industrial_job();
    let report = garage.run_job(1, &job, 5).expect("car exists");

    assert_eq!(report.job_name, "Industrial parts delivery");
    assert_eq!(report.car_name, garage.cars[1].name);
    assert_eq!(garage.cash, 750 + report.outcome.payout);
    assert_eq!(garage.heat, report.outcome.heat_gained);
    assert_eq!(garage.inventory, report.loot);
}

#[test]
fn garage_encounters_add_heat_only_on_failure() {
    let job = industrial_job();
    for seed in 0..30u64 {
        let mut garage = Garage::starter();
        let result = garage
            .resolve_patrol_encounter(0, &job, PatrolAction::BlendIn, seed)
            .unwrap();
        if result.success {
            assert_eq!(garage.heat, 0);
        } else {
            assert_eq!(garage.heat, 2);
        }
    }
}

#[test]
fn segment_preview_shows_the_odds_and_route_strip() {
    let garage = Garage::starter();
    let mut run = RouteRun::new(0, industrial_job(), 11);
    let preview = run.segment_preview(&garage).unwrap();

    assert_eq!(preview.encounter_chance, 50);
    assert_eq!(preview.crash_chance, 1);
    assert_eq!(preview.caught_chance, 6);
    assert_eq!(preview.route_marker, ">---");

    run.current_segment = 2;
    assert_eq!(run.segment_preview(&garage).unwrap().route_marker, "==>-");
    run.phase = RoutePhase::Patrol;
    assert!(run.segment_preview(&garage).is_none());
}

#[test]
fn route_run_finishes_and_cannot_be_completed_twice() {
    let mut garage = Garage::starter();
    let mut run = RouteRun::new(1, industrial_job(), 3);
    let mut guard = 0;
    while run.phase != RoutePhase::Complete && guard < 50 {
        guard += 1;
        match run.phase {
            RoutePhase::Segment if run.current_segment < run.job.distance => {
                run.resolve_segment(&mut garage).unwrap();
            }
            RoutePhase::Patrol => {
                run.resolve_patrol(&mut garage, PatrolAction::BlendIn).unwrap();
            }
            RoutePhase::Fork => {
                run.resolve_fork(&mut garage, ForkChoice::Highway).unwrap();
            }
            _ => {
                run.complete(&mut garage).unwrap();
            }
        }
    }
    assert_eq!(run.phase, RoutePhase::Complete);
    if !run.car_wrecked && !run.caught_by_cops {
        assert!(run.complete(&mut garage).is_none());
    }
}

#[test]
fn encounter_actions_need_the_matching_phase() {
    let mut garage = Garage::starter();
    let mut run = RouteRun::new(0, industrial_job(), 11);

    assert!(run.resolve_patrol(&mut garage, PatrolAction::Detour).is_none());
    assert!(run.resolve_fork(&mut garage, ForkChoice::Highway).is_none());
    assert!(run.patrol_previews(&garage).is_none());
    assert!(run.fork_previews(&garage).is_none());
    assert!(run.complete(&mut garage).is_none());
    assert_eq!(run.next_encounter(), None);

    run.phase = RoutePhase::Patrol;
    let resolution = run.resolve_patrol(&mut garage, PatrolAction::BlendIn).unwrap();
    assert_eq!(run.phase, RoutePhase::Segment);
    assert_eq!(run.current_segment, 1);
    assert_eq!(garage.heat, resolution.heat_gained);
}

#[test]
fn cargo_too_large_fails_the_route_at_the_end() {
    let mut garage = Garage::starter();
    let job = Job::new("Crate", CargoType::Parts, Terrain::City, 9, 400, 1, 1);
    let mut run = RouteRun::new(0, job, 1);
    run.current_segment = 1;

    let report = run.complete(&mut garage).unwrap();

    assert!(!report.outcome.completed);
    assert_eq!(report.outcome.payout, 0);
    assert_eq!(report.outcome.events.last(), Some(&RouteEvent::CargoTooLarge));
    assert_eq!(garage.heat, 1);
    assert_eq!(garage.cash, 750);
}

#[test]
fn clear_segments_advance_the_route() {
    let mut garage = Garage::starter();
    let job = Job::new("Quiet run", CargoType::Documents, Terrain::City, 1, 0, 0, 3);
    for seed in 0..60u64 {
        let mut run = RouteRun::new(0, job.clone(), seed);
        let res = run.resolve_segment(&mut garage).unwrap();
        if res.outcome == SegmentOutcome::Clear {
            assert_eq!(run.current_segment, 1);
            assert_eq!(run.seed, seed + 17);
            assert!(!res.events.is_empty());
            return;
        }
    }
    panic!("no clear segment found");
}
