use ddd_core::{
    fork_choice_previews, patrol_action_previews, resolve_fork_choice, resolve_job,
    resolve_patrol_action, CargoType, Car, Drivetrain, EngineSpec, ForkChoice, Job, LootRarity,
    PartDamage, PatrolAction, RouteEvent, Terrain, VehicleSpec,
};

fn industrial_job() -> Job {
    Job::new(
        "Industrial parts delivery",
        CargoType::Parts,
        Terrain::Industrial,
        2,
        420,
        3,
        4,
    )
}

#[test]
fn rejects_jobs_that_exceed_cargo_capacity() {
    let mut car = Car::honda_civic_1998_dx_sedan();
    let job = Job::new(
        "Oversized crate",
        CargoType::Parts,
        Terrain::City,
        9,
        500,
        1,
        2,
    );

    let outcome = resolve_job(&mut car, &job, 7);

    assert!(!outcome.completed);
    assert_eq!(outcome.payout, 0);
    assert_eq!(outcome.events, vec![RouteEvent::CargoTooLarge]);
}

#[test]
fn rough_terrain_can_damage_a_two_wheel_drive_car() {
    let mut car = Car::new(
        "Old Sedan",
        LootRarity::Common,
        1996,
        700,
        3,
        5,
        Drivetrain::Rwd,
        VehicleSpec {
            make: "Generic".to_string(),
            model: "Sedan".to_string(),
            trim: "Base".to_string(),
            body_style: "4-door sedan".to_string(),
            transmission: "5-speed manual".to_string(),
            curb_weight_lbs: 2800,
            cargo_volume_cu_ft: "13.0".to_string(),
            fuel_capacity_gal: "14.0".to_string(),
            engine: EngineSpec {
                layout: "inline-4".to_string(),
                displacement_liters: "2.0".to_string(),
                aspiration: "naturally aspirated".to_string(),
                fuel: "gasoline".to_string(),
                horsepower: 120,
                horsepower_rpm: 5600,
                torque_lb_ft: 125,
                torque_rpm: 4200,
            },
        },
    );
    let job = Job::new(
        "Logging road drop",
        CargoType::Contraband,
        Terrain::Mountain,
        2,
        900,
        4,
        5,
    );

    let starting_condition = car.condition;
    let outcome = resolve_job(&mut car, &job, 11);

    assert!(outcome.completed || outcome.payout > 0);
    assert_ne!(car.condition, starting_condition);
}

#[test]
fn successful_jobs_pay_full_payout() {
    let mut car = Car::new(
        "Old 4x4",
        LootRarity::Common,
        1994,
        1200,
        4,
        4,
        Drivetrain::FourWd,
        VehicleSpec {
            make: "Generic".to_string(),
            model: "4x4".to_string(),
            trim: "Base".to_string(),
            body_style: "2-door SUV".to_string(),
            transmission: "5-speed manual".to_string(),
            curb_weight_lbs: 3600,
            cargo_volume_cu_ft: "30.0".to_string(),
            fuel_capacity_gal: "18.0".to_string(),
            engine: EngineSpec {
                layout: "inline-6".to_string(),
                displacement_liters: "4.0".to_string(),
                aspiration: "naturally aspirated".to_string(),
                fuel: "gasoline".to_string(),
                horsepower: 180,
                horsepower_rpm: 4750,
                torque_lb_ft: 220,
                torque_rpm: 3000,
            },
        },
    );
    let job = Job::new(
        "Rural night drop",
        CargoType::Documents,
        Terrain::Rural,
        1,
        420,
        1,
        2,
    );

    let outcome = resolve_job(&mut car, &job, 3);

    assert!(outcome.completed);
    assert_eq!(outcome.payout, 420);
}

#[test]
fn patrol_previews_show_visible_odds() {
    let car = Car::honda_civic_1998_dx_sedan();
    let job = industrial_job();

    let previews = patrol_action_previews(&car, &job, 0);

    assert_eq!(previews.len(), 3);
    assert!(previews.iter().all(|preview| preview.chance >= 10));
    assert!(previews.iter().all(|preview| preview.chance <= 90));
}

#[test]
fn failed_push_speed_applies_damage_and_heat() {
    let mut car = Car::honda_civic_1998_dx_sedan();
    let job = industrial_job();

    let result = resolve_patrol_action(&mut car, &job, 0, PatrolAction::PushSpeed, 1);

    assert!(!result.success);
    assert_eq!(result.heat_gained, 1);
    assert_eq!(car.condition.engine, 90);
    assert_eq!(car.condition.tires, 88);
}

#[test]
fn damage_and_heat_lower_patrol_odds() {
    let mut car = Car::honda_civic_1998_dx_sedan();
    let job = industrial_job();

    let clean = patrol_action_previews(&car, &job, 0);

    car.condition.apply_damage(PartDamage {
        engine: 30,
        suspension: 35,
        tires: 30,
        body: 40,
    });
    let damaged_hot = patrol_action_previews(&car, &job, 4);

    assert!(damaged_hot[0].chance < clean[0].chance);
    assert!(damaged_hot[1].chance < clean[1].chance);
    assert!(damaged_hot[2].chance < clean[2].chance);
}

#[test]
fn fork_previews_include_two_risks_and_a_safe_backtrack() {
    let car = Car::honda_civic_1998_dx_sedan();
    let job = industrial_job();

    let previews = fork_choice_previews(&car, &job, 0);

    assert_eq!(previews.len(), 3);
    assert_eq!(previews[0].choice, ForkChoice::Highway);
    assert_eq!(previews[1].choice, ForkChoice::ServiceRoad);
    assert_eq!(previews[2].choice, ForkChoice::Backtrack);
    assert!(previews[0].chance.is_some());
    assert!(previews[1].chance.is_some());
    assert_eq!(previews[2].chance, None);
}

#[test]
fn backtrack_reduces_payout_without_damage_or_heat() {
    let mut car = Car::honda_civic_1998_dx_sedan();
    let job = industrial_job();

    let result = resolve_fork_choice(&mut car, &job, 0, ForkChoice::Backtrack, 1);

    assert!(result.success);
    assert_eq!(result.roll, None);
    assert_eq!(result.heat_gained, 0);
    assert_eq!(result.damage, PartDamage::default());
    assert_eq!(result.payout_multiplier_percent, 80);
}
