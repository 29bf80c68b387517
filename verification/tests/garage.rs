use ddd_core::{
    market_car_catalog, starter_car_catalog, Car, Garage, InstallCostVoucherEffect, LootEffect,
    LootItem, LootRarity, PartDamage, UpgradeEffect,
};

fn upgrade_item(
    name: &str,
    rarity: LootRarity,
    value: i32,
    stealth: i16,
    drivetrain: i16,
    install_cost: i32,
) -> LootItem {
    LootItem {
        name: name.to_string(),
        rarity,
        black_market_value: value,
        effect: LootEffect::VehicleUpgrade(UpgradeEffect {
            stealth_modifier: stealth,
            drivetrain_modifier: drivetrain,
            repair_discount_percent: 0,
            install_cost,
        }),
    }
}

#[test]
fn repair_car_spends_cash_and_restores_condition() {
    let mut garage = Garage::starter();
    garage.cars[0].condition.apply_damage(PartDamage {
        suspension: 10,
        ..PartDamage::default()
    });

    let repaired = garage.repair_car(0);

    assert!(repaired);
    assert_eq!(garage.cash, 720);
    assert_eq!(garage.cars[0].condition.suspension, 100);
}

#[test]
fn sell_inventory_adds_black_market_value_to_cash() {
    let mut garage = Garage::starter();
    garage.inventory.push(LootItem {
        name: "Test loot".to_string(),
        rarity: LootRarity::Common,
        black_market_value: 123,
        effect: LootEffect::SellOnly,
    });

    let sold_for = garage.sell_inventory();

    assert_eq!(sold_for, 123);
    assert_eq!(garage.cash, 873);
    assert!(garage.inventory.is_empty());
}

#[test]
fn sell_inventory_item_sells_one_item() {
    let mut garage = Garage::starter();
    garage.inventory.push(LootItem {
        name: "First loot".to_string(),
        rarity: LootRarity::Common,
        black_market_value: 123,
        effect: LootEffect::SellOnly,
    });
    garage.inventory.push(LootItem {
        name: "Second loot".to_string(),
        rarity: LootRarity::Common,
        black_market_value: 77,
        effect: LootEffect::SellOnly,
    });

    let sold_for = garage.sell_inventory_item(0);

    assert_eq!(sold_for, Some(123));
    assert_eq!(garage.cash, 873);
    assert_eq!(garage.inventory.len(), 1);
    assert_eq!(garage.inventory[0].name, "Second loot");
}

#[test]
fn install_inventory_item_applies_upgrade_and_removes_item() {
    let mut garage = Garage::starter();
    garage
        .inventory
        .push(upgrade_item("Forged plate kit", LootRarity::Uncommon, 280, 2, -1, 170));

    let installed = garage.install_inventory_item(0, 0);

    assert!(installed);
    assert!(garage.inventory.is_empty());
    assert_eq!(garage.cash, 580);
    assert_eq!(garage.cars[0].effective_stats().stealth, 10);
    assert_eq!(garage.cars[0].effective_stats().drivetrain, -1);
}

#[test]
fn install_inventory_item_requires_cash_for_install_cost() {
    let mut garage = Garage::starter();
    garage.cash = 100;
    garage
        .inventory
        .push(upgrade_item("Hidden compartment liner", LootRarity::Rare, 520, 3, -2, 360));

    let installed = garage.install_inventory_item(0, 0);

    assert!(!installed);
    assert_eq!(garage.cash, 100);
    assert_eq!(garage.inventory.len(), 1);
    assert!(garage.cars[0].installed_upgrades.is_empty());
}

#[test]
fn install_cost_voucher_is_consumed_to_discount_upgrade_install() {
    let mut garage = Garage::starter();
    garage.inventory.push(LootItem {
        name: "Contact favor voucher".to_string(),
        rarity: LootRarity::Uncommon,
        black_market_value: 160,
        effect: LootEffect::InstallCostVoucher(InstallCostVoucherEffect {
            discount_percent: 100,
        }),
    });
    garage
        .inventory
        .push(upgrade_item("Forged ECU module", LootRarity::Rare, 420, -2, 4, 320));

    let installed = garage.install_inventory_item(1, 0);

    assert!(installed);
    assert_eq!(garage.cash, 750);
    assert!(garage.inventory.is_empty());
    assert_eq!(garage.cars[0].installed_upgrades.len(), 1);
    assert_eq!(garage.cars[0].effective_stats().drivetrain, 4);
}

#[test]
fn uninstall_upgrade_moves_it_back_to_inventory_without_refund() {
    let mut garage = Garage::starter();
    garage.inventory.push(upgrade_item(
        "Salvaged all-terrain tires",
        LootRarity::Uncommon,
        180,
        -1,
        2,
        150,
    ));
    assert!(garage.install_inventory_item(0, 0));

    let uninstalled = garage.uninstall_upgrade(0, 0);

    assert!(uninstalled);
    assert_eq!(garage.cash, 600);
    assert_eq!(garage.inventory.len(), 1);
    assert!(garage.cars[0].installed_upgrades.is_empty());
}

#[test]
fn sell_only_inventory_item_cannot_be_installed() {
    let mut garage = Garage::starter();
    garage.inventory.push(LootItem {
        name: "Unmarked packet".to_string(),
        rarity: LootRarity::Common,
        black_market_value: 90,
        effect: LootEffect::SellOnly,
    });

    let installed = garage.install_inventory_item(0, 0);

    assert!(!installed);
    assert_eq!(garage.inventory.len(), 1);
    assert!(garage.cars[0].installed_upgrades.is_empty());
}

#[test]
fn starter_garage_has_limited_black_market_stock() {
    let garage = Garage::starter();

    assert!((2..=3).contains(&garage.black_market.len()));
    assert!(garage
        .black_market
        .iter()
        .all(|offer| offer.asking_price > offer.item.black_market_value));
}

#[test]
fn car_catalog_flags_drive_starter_and_market_lists() {
    let starters = starter_car_catalog();
    let market = market_car_catalog();
    let garage = Garage::starter();

    assert!(!starters.is_empty());
    assert!(!market.is_empty());
    assert_eq!(garage.cars, starters);
}

#[test]
fn buying_black_market_part_spends_cash_and_adds_inventory() {
    let mut garage = Garage::starter();
    let offer = garage.black_market[0].clone();
    let starting_stock = garage.black_market.len();

    let bought = garage.buy_black_market_part(0);

    assert!(bought);
    assert_eq!(garage.cash, 750 - offer.asking_price);
    assert_eq!(garage.inventory.last(), Some(&offer.item));
    assert_eq!(garage.black_market.len(), starting_stock - 1);
}

#[test]
fn starter_garage_has_car_market_stock_above_sell_value() {
    let garage = Garage::starter();

    assert!((1..=3).contains(&garage.car_market.len()));
    assert!(garage
        .car_market
        .iter()
        .all(|offer| offer.asking_price > offer.car.value));
}

#[test]
fn buying_market_car_spends_cash_and_adds_car() {
    let mut garage = Garage::starter();
    garage.cash = 10_000;
    let offer = garage.car_market[0].clone();
    let starting_stock = garage.car_market.len();
    let starting_cars = garage.cars.len();

    let bought = garage.buy_market_car(0);

    assert!(bought);
    assert_eq!(garage.cash, 10_000 - offer.asking_price);
    assert_eq!(garage.cars.last(), Some(&offer.car));
    assert_eq!(garage.car_market.len(), starting_stock - 1);
    assert_eq!(garage.cars.len(), starting_cars + 1);
}

#[test]
fn selling_car_requires_a_spare_car() {
    let mut garage = Garage::new(750, vec![Car::honda_civic_1998_dx_sedan()]);

    let sold_for = garage.sell_car(0);

    assert_eq!(sold_for, None);
    assert_eq!(garage.cars.len(), 1);
}

#[test]
fn car_sale_value_drops_with_damage_and_heat() {
    let clean_garage = Garage::new(
        750,
        vec![
            Car::honda_civic_1998_dx_sedan(),
            Car::volvo_v70_1999_turbo_awd(),
        ],
    );
    let clean_value = clean_garage.car_sale_value(1).unwrap();
    let mut hot_damaged_garage = clean_garage.clone();
    hot_damaged_garage.heat = 6;
    hot_damaged_garage.cars[1].condition.apply_damage(PartDamage {
        engine: 40,
        suspension: 40,
        tires: 40,
        body: 40,
    });

    let hot_damaged_value = hot_damaged_garage.car_sale_value(1).unwrap();

    assert!(hot_damaged_value < clean_value / 2);
}

#[test]
fn car_sale_value_includes_half_upgrade_value_and_install_cost() {
    let mut garage = Garage::new(
        750,
        vec![
            Car::honda_civic_1998_dx_sedan(),
            Car::volvo_v70_1999_turbo_awd(),
        ],
    );
    garage
        .inventory
        .push(upgrade_item("Hidden compartment liner", LootRarity::Rare, 520, 3, -2, 360));
    let base_value = garage.car_sale_value(1).unwrap();

    assert!(garage.install_inventory_item(0, 1));

    assert_eq!(garage.car_sale_value(1), Some(base_value + 440));
}

#[test]
fn black_market_purchase_requires_cash() {
    let mut garage = Garage::starter();
    garage.cash = 0;
    let starting_stock = garage.black_market.len();

    let bought = garage.buy_black_market_part(0);

    assert!(!bought);
    assert_eq!(garage.cash, 0);
    assert!(garage.inventory.is_empty());
    assert_eq!(garage.black_market.len(), starting_stock);
}
