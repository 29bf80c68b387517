use ddd_core::{
    patrol_action_previews_with_config, resolve_fork_choice_with_config, resolve_job_with_config,
    BalanceConfig, Car, CargoType, ForkChoice, Garage, Job, PartCondition, RouteEvent, RoutePhase,
    RouteRun, Terrain,
};

fn industrial_job() -> Job {
    Job::new(
        "Industrial parts delivery",
        CargoType::Parts,
        Terrain::Industrial,
        2,
        420,
        3,
        4,
    )
}

#[test]
fn run_fork_preview_states_the_backtrack_share() {
    let mut garage = Garage::starter();
    let mut run = RouteRun::new(0, industrial_job(), 11);
    run.phase = RoutePhase::Fork;

    let previews = run.fork_previews(&garage).expect("fork previews");
    assert_eq!(previews.len(), 3);
    assert_eq!(previews[2].choice, ForkChoice::Backtrack);
    assert_eq!(previews[2].chance, None);
    assert!(previews[2].modifiers.is_empty());
    assert_eq!(previews[2].success, "safe route, payout reduced to 20%");
    assert_eq!(previews[2].failure, "none");

    let resolution = run
        .resolve_fork(&mut garage, ForkChoice::Backtrack)
        .expect("fork should resolve");
    assert_eq!(resolution.payout_multiplier_percent, 20);
}

#[test]
fn run_fork_preview_share_grows_along_the_route() {
    let garage = Garage::starter();
    let mut run = RouteRun::new(0, industrial_job(), 11);
    run.phase = RoutePhase::Fork;
    run.current_segment = 2;
    let previews = run.fork_previews(&garage).expect("fork previews");
    assert_eq!(previews[2].success, "safe route, payout reduced to 60%");

    run.current_segment = 3;
    let previews = run.fork_previews(&garage).expect("fork previews");
    assert_eq!(previews[2].success, "safe route, payout reduced to 80%");
}

#[test]
fn run_fork_preview_writes_every_digit_of_the_share() {
    let mut garage = Garage::starter();
    garage.balance.fork_backtrack_payout_multiplier_percent = 250;
    let mut run = RouteRun::new(0, industrial_job(), 11);
    run.phase = RoutePhase::Fork;
    run.current_segment = 3;
    let previews = run.fork_previews(&garage).expect("fork previews");
    assert_eq!(previews[2].success, "safe route, payout reduced to 250%");

    garage.balance.fork_backtrack_payout_multiplier_percent = 20;
    run.current_segment = 0;
    let previews = run.fork_previews(&garage).expect("fork previews");
    assert_eq!(previews[2].success, "safe route, payout reduced to 5%");
}

#[test]
fn negative_condition_divisor_divides_toward_zero() {
    let car = Car::honda_civic_1998_dx_sedan();
    let mut config = BalanceConfig::default();
    config.patrol_detour_condition_divisor = -5;
    config.patrol_push_condition_divisor = -3;

    let previews = patrol_action_previews_with_config(&car, &industrial_job(), 0, &config);
    assert_eq!(previews[1].modifiers[3].label, "condition");
    assert_eq!(previews[1].modifiers[3].value, -20);
    assert_eq!(previews[2].modifiers[2].label, "condition");
    assert_eq!(previews[2].modifiers[2].value, -33);
}

#[test]
fn breakdown_with_a_negative_divisor_pays_a_negative_share() {
    let mut car = Car::honda_civic_1998_dx_sedan();
    car.condition = PartCondition {
        engine: 30,
        suspension: 30,
        tires: 30,
        body: 30,
    };
    let mut config = BalanceConfig::default();
    config.breakdown_payout_divisor = -4;

    let outcome = resolve_job_with_config(&mut car, &industrial_job(), 7, &config);
    assert!(!outcome.completed);
    assert_eq!(outcome.payout, -105);
    assert_eq!(outcome.events.last(), Some(&RouteEvent::Breakdown));
}

#[test]
fn refused_cargo_reads_no_drive_tuning() {
    let mut car = Car::honda_civic_1998_dx_sedan();
    let before = car.clone();
    let mut config = BalanceConfig::default();
    config.breakdown_payout_divisor = 0;
    config.segment_terrain_stress_multiplier = 200;
    config.segment_low_condition_penalty = 200;
    let job = Job::new(
        "Oversized crate",
        CargoType::Parts,
        Terrain::Mountain,
        99,
        500,
        2,
        3,
    );

    let outcome = resolve_job_with_config(&mut car, &job, 1, &config);
    assert!(!outcome.completed);
    assert_eq!(outcome.payout, 0);
    assert_eq!(outcome.heat_gained, config.cargo_too_large_heat);
    assert_eq!(outcome.events, vec![RouteEvent::CargoTooLarge]);
    assert_eq!(car, before);
}

#[test]
fn backtracking_reads_no_odds_tuning() {
    let mut car = Car::honda_civic_1998_dx_sedan();
    let before = car.clone();
    let mut config = BalanceConfig::default();
    config.chance_min = 90;
    config.chance_max = 10;
    config.fork_service_condition_divisor = 0;
    config.fork_backtrack_payout_multiplier_percent = 55;

    let resolution = resolve_fork_choice_with_config(
        &mut car,
        &industrial_job(),
        0,
        ForkChoice::Backtrack,
        5,
        &config,
    );
    assert_eq!(resolution.chance, None);
    assert_eq!(resolution.roll, None);
    assert!(resolution.success);
    assert_eq!(resolution.heat_gained, 0);
    assert_eq!(resolution.payout_multiplier_percent, 55);
    assert_eq!(car, before);
}

#[test]
fn purchases_beyond_the_cash_are_refused_without_arithmetic() {
    let mut garage = Garage::starter();
    garage.cash = i32::MIN;
    let offers = garage.black_market.len();
    let cars = garage.car_market.len();

    assert!(!garage.buy_black_market_part(0));
    assert!(!garage.buy_market_car(0));
    assert_eq!(garage.cash, i32::MIN);
    assert_eq!(garage.black_market.len(), offers);
    assert_eq!(garage.car_market.len(), cars);
}

#[test]
fn backtracked_run_settles_once() {
    let mut garage = Garage::starter();
    let mut run = RouteRun::new(0, industrial_job(), 11);
    run.phase = RoutePhase::Fork;
    run.resolve_fork(&mut garage, ForkChoice::Backtrack)
        .expect("fork should resolve");
    let report = run.complete(&mut garage).expect("route should settle");
    assert!(report.backtracked);

    let settled_run = run.clone();
    let settled_garage = garage.clone();
    assert!(run.complete(&mut garage).is_none());
    assert_eq!(run, settled_run);
    assert_eq!(garage, settled_garage);
}
