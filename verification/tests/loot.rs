use ddd_core::{
    generate_black_market_offers, generate_loot, BalanceConfig, CargoType, Job, LootEffect, Terrain,
};

fn rural_job() -> Job {
    Job::new(
        "Rural night drop",
        CargoType::Contraband,
        Terrain::Rural,
        2,
        650,
        5,
        5,
    )
}

#[test]
fn generates_deterministic_loot_for_same_seed() {
    let job = rural_job();
    let config = BalanceConfig::default();

    let first = generate_loot(&job, 4, &config);
    let second = generate_loot(&job, 4, &config);

    assert_eq!(first, second);
}

#[test]
fn can_generate_sellable_loot() {
    let job = rural_job();
    let config = BalanceConfig::default();

    let loot = generate_loot(&job, 4, &config);

    assert!(!loot.is_empty());
    assert!(loot.iter().all(|item| item.black_market_value > 0));
}

#[test]
fn black_market_generates_two_or_three_vehicle_upgrades_above_sell_value() {
    let config = BalanceConfig::default();

    let offers = generate_black_market_offers(42, &config);

    assert!((2..=3).contains(&offers.len()));
    assert!(offers
        .iter()
        .all(|offer| matches!(offer.item.effect, LootEffect::VehicleUpgrade(_))));
    assert!(offers
        .iter()
        .all(|offer| offer.asking_price > offer.item.black_market_value));
}

#[test]
fn black_market_generation_is_deterministic() {
    let config = BalanceConfig::default();

    let first = generate_black_market_offers(99, &config);
    let second = generate_black_market_offers(99, &config);

    assert_eq!(first, second);
}
