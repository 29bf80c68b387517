use ddd_core::{
    CargoType, ForkChoice, Garage, Job, RouteEncounterPreview, RoutePhase, RouteRun, SeededRng,
    SegmentOutcome, SegmentResolution, Terrain,
};

fn industrial_job() -> Job {
    Job::new(
        "Industrial parts delivery",
        CargoType::Parts,
        Terrain::Industrial,
        2,
        420,
        3,
        4,
    )
}

fn drive_until_encounter(run: &mut RouteRun, garage: &mut Garage) -> Option<SegmentResolution> {
    while run.phase == RoutePhase::Segment && run.current_segment < run.job.distance {
        let resolution = run.resolve_segment(garage)?;
        if matches!(resolution.outcome, SegmentOutcome::Encounter(_)) {
            return Some(resolution);
        }
    }
    None
}

fn crash_seed_for(run: &RouteRun, garage: &Garage) -> u64 {
    let crash_chance = run.segment_preview(garage).unwrap().crash_chance;
    (1..10_000)
        .find(|seed| {
            let mut rng = SeededRng::new(*seed);
            rng.d100() <= crash_chance
        })
        .expect("expected a seed that crashes")
}

fn caught_seed_for(run: &RouteRun, garage: &Garage) -> u64 {
    let preview = run.segment_preview(garage).unwrap();
    let min_roll = preview.crash_chance.saturating_add(1);
    let max_roll = preview
        .crash_chance
        .saturating_add(preview.caught_chance)
        .min(100);
    (1..10_000)
        .find(|seed| {
            let mut rng = SeededRng::new(*seed);
            let roll = rng.d100();
            roll >= min_roll && roll <= max_roll
        })
        .expect("expected a seed that gets caught")
}

#[test]
fn route_run_advances_through_patrol_and_fork() {
    let mut garage = Garage::starter();
    let mut run = RouteRun::new(0, industrial_job(), 11);

    assert_eq!(run.phase, RoutePhase::Segment);
    assert!(run.segment_preview(&garage).is_some());
    let resolution = drive_until_encounter(&mut run, &mut garage)
        .expect("route should produce an encounter");

    assert!(matches!(resolution.outcome, SegmentOutcome::Encounter(_)));
    assert!(run.next_encounter().is_some());
    assert!(run.encounter_preview(&garage).is_some());
}

#[test]
fn backtrack_completes_with_reduced_payout_and_no_loot() {
    let mut garage = Garage::starter();
    let mut run = RouteRun::new(0, industrial_job(), 11);
    run.phase = RoutePhase::Fork;

    assert!(matches!(
        run.encounter_preview(&garage),
        Some(RouteEncounterPreview::Fork(_))
    ));
    run.resolve_fork(&mut garage, ForkChoice::Backtrack)
        .expect("fork should resolve");
    let report = run.complete(&mut garage).expect("route should complete");

    assert!(report.backtracked);
    assert_eq!(report.payout_multiplier_percent, 20);
    assert_eq!(report.outcome.payout, 84);
    assert!(report.loot.is_empty());
    assert_eq!(garage.cash, 834);
    assert_eq!(run.phase, RoutePhase::Complete);
}

#[test]
fn backtrack_payout_scales_with_distance_travelled() {
    let mut garage = Garage::starter();
    let mut run = RouteRun::new(0, industrial_job(), 11);
    run.current_segment = 2;
    run.phase = RoutePhase::Fork;

    let resolution = run
        .resolve_fork(&mut garage, ForkChoice::Backtrack)
        .expect("fork should resolve");
    let report = run.complete(&mut garage).expect("route should complete");

    assert_eq!(resolution.payout_multiplier_percent, 60);
    assert_eq!(report.outcome.payout, 252);
}

#[test]
fn crash_wrecks_and_removes_car() {
    let mut garage = Garage::starter();
    garage.cars[0].condition.engine = 1;
    garage.heat = 50;
    let job = Job::new(
        "Mountain pass emergency",
        CargoType::Contraband,
        Terrain::Mountain,
        2,
        900,
        8,
        4,
    );
    let starting_cars = garage.cars.len();
    let mut run = RouteRun::new(0, job, 1);
    run.seed = crash_seed_for(&run, &garage);

    let resolution = run
        .resolve_segment(&mut garage)
        .expect("segment should resolve");
    let report = run.complete(&mut garage).expect("wreck should report");

    assert_eq!(resolution.outcome, SegmentOutcome::Crash);
    assert!(report.car_wrecked);
    assert!(report.loot.is_empty());
    assert_eq!(garage.cars.len(), starting_cars - 1);
    assert_eq!(run.phase, RoutePhase::Complete);
}

#[test]
fn cops_can_catch_driver_and_impound_car() {
    let mut garage = Garage::starter();
    garage.heat = 40;
    let job = Job::new(
        "Hot courier job",
        CargoType::Contraband,
        Terrain::City,
        3,
        1200,
        9,
        4,
    );
    let starting_cars = garage.cars.len();
    let mut run = RouteRun::new(0, job, 1);
    run.seed = caught_seed_for(&run, &garage);

    let resolution = run
        .resolve_segment(&mut garage)
        .expect("segment should resolve");
    let report = run.complete(&mut garage).expect("caught run should report");

    assert_eq!(resolution.outcome, SegmentOutcome::CaughtByCops);
    assert!(report.caught_by_cops);
    assert!(!report.car_wrecked);
    assert_eq!(report.outcome.payout, 0);
    assert_eq!(garage.cars.len(), starting_cars - 1);
    assert_eq!(run.phase, RoutePhase::Complete);
}
