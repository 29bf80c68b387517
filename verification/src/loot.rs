use vstd::prelude::*;

use crate::arith::{sat_mul_u8, saturating_mul_u8};
use crate::balance::BalanceConfig;
use crate::job::{CargoType, Job};
use crate::market::{lemma_market_run, market_picks, pick_market_stock};
use crate::rng::{draw, lcg_next, SeededRng};

verus! {

#[derive(Debug, Clone, Copy, PartialEq, Eq, Structural)]
pub enum LootRarity {
    Common,
    Uncommon,
    Rare,
}

#[derive(Debug, Clone, Copy, PartialEq, Eq, Structural)]
pub struct UpgradeEffect {
    pub stealth_modifier: i16,
    pub drivetrain_modifier: i16,
    pub repair_discount_percent: u8,
    pub install_cost: i32,
}

#[derive(Debug, Clone, Copy, PartialEq, Eq, Structural)]
pub struct InstallCostVoucherEffect {
    pub discount_percent: u8,
}

#[derive(Debug, Clone, Copy, PartialEq, Eq, Structural)]
pub enum LootEffect {
    SellOnly,
    VehicleUpgrade(UpgradeEffect),
    InstallCostVoucher(InstallCostVoucherEffect),
}

#[derive(Debug, Clone, PartialEq, Eq)]
pub struct LootItem {
    pub name: String,
    pub rarity: LootRarity,
    pub black_market_value: i32,
    pub effect: LootEffect,
}

#[derive(Debug, Clone, PartialEq, Eq)]
pub struct BlackMarketOffer {
    pub item: LootItem,
    pub asking_price: i32,
}

/// One line of the loot table.
#[derive(Debug, Clone, Copy)]
pub struct LootRow {
    pub name: &'static str,
    pub rarity: LootRarity,
    pub black_market_value: i32,
    pub effect: LootEffect,
}

/// Every item the loot table knows.
#[derive(Debug, Clone, Copy, PartialEq, Eq, Structural)]
pub enum LootKind {
    TintedWindowFilm,
    ReinforcedSkidPlate,
    ForgedPlateKit,
    SalvagedAllTerrainTires,
    ShopManualBundle,
    HiddenCompartmentLiner,
    ForgedEcuModule,
    BlankTitleForms,
    BoxedSparkPlugs,
    UnmarkedPacket,
    CashStuffedSpareTire,
    ContactFavorVoucher,
    ScrapCatalyticConverter,
}

pub open spec fn upgrade(stealth: i16, drivetrain: i16, discount: u8, install: i32) -> LootEffect {
    LootEffect::VehicleUpgrade(
        UpgradeEffect {
            stealth_modifier: stealth,
            drivetrain_modifier: drivetrain,
            repair_discount_percent: discount,
            install_cost: install,
        },
    )
}

impl LootKind {
    /// The table line of this item.
    pub open spec fn spec_row(self) -> LootRow {
        match self {
            LootKind::TintedWindowFilm => LootRow { name: "Tinted window film", rarity: LootRarity::Common,
                black_market_value: 120, effect: upgrade(1, 0, 0, 60) },
            LootKind::ReinforcedSkidPlate => LootRow { name: "Reinforced skid plate", rarity: LootRarity::Common,
                black_market_value: 140, effect: upgrade(0, 1, 0, 80) },
            LootKind::ForgedPlateKit => LootRow { name: "Forged plate kit", rarity: LootRarity::Uncommon,
                black_market_value: 280, effect: upgrade(2, -1i16, 0, 170) },
            LootKind::SalvagedAllTerrainTires => LootRow { name: "Salvaged all-terrain tires",
                rarity: LootRarity::Uncommon, black_market_value: 180, effect: upgrade(-1i16, 2, 0, 150) },
            LootKind::ShopManualBundle => LootRow { name: "Shop manual bundle", rarity: LootRarity::Uncommon,
                black_market_value: 200, effect: upgrade(0, 0, 15, 90) },
            LootKind::HiddenCompartmentLiner => LootRow { name: "Hidden compartment liner",
                rarity: LootRarity::Rare, black_market_value: 520, effect: upgrade(3, -2i16, 0, 360) },
            LootKind::ForgedEcuModule => LootRow { name: "Forged ECU module", rarity: LootRarity::Rare,
                black_market_value: 420, effect: upgrade(-2i16, 4, 0, 320) },
            LootKind::BlankTitleForms => LootRow { name: "Blank title forms", rarity: LootRarity::Common,
                black_market_value: 110, effect: LootEffect::SellOnly },
            LootKind::BoxedSparkPlugs => LootRow { name: "Boxed spark plugs", rarity: LootRarity::Common,
                black_market_value: 70, effect: LootEffect::SellOnly },
            LootKind::UnmarkedPacket => LootRow { name: "Unmarked packet", rarity: LootRarity::Common,
                black_market_value: 90, effect: LootEffect::SellOnly },
            LootKind::CashStuffedSpareTire => LootRow { name: "Cash-stuffed spare tire",
                rarity: LootRarity::Uncommon, black_market_value: 240, effect: LootEffect::SellOnly },
            LootKind::ContactFavorVoucher => LootRow { name: "Contact favor voucher",
                rarity: LootRarity::Uncommon, black_market_value: 160,
                effect: LootEffect::InstallCostVoucher(InstallCostVoucherEffect { discount_percent: 50 }) },
            LootKind::ScrapCatalyticConverter => LootRow { name: "Scrap catalytic converter",
                rarity: LootRarity::Common, black_market_value: 60, effect: LootEffect::SellOnly },
        }
    }

    pub fn row(self) -> (r: LootRow)
        ensures
            r == self.spec_row(),
    {
        match self {
            LootKind::TintedWindowFilm => LootRow { name: "Tinted window film", rarity: LootRarity::Common,
                black_market_value: 120, effect: make_upgrade(1, 0, 0, 60) },
            LootKind::ReinforcedSkidPlate => LootRow { name: "Reinforced skid plate", rarity: LootRarity::Common,
                black_market_value: 140, effect: make_upgrade(0, 1, 0, 80) },
            LootKind::ForgedPlateKit => LootRow { name: "Forged plate kit", rarity: LootRarity::Uncommon,
                black_market_value: 280, effect: make_upgrade(2, -1, 0, 170) },
            LootKind::SalvagedAllTerrainTires => LootRow { name: "Salvaged all-terrain tires",
                rarity: LootRarity::Uncommon, black_market_value: 180, effect: make_upgrade(-1, 2, 0, 150) },
            LootKind::ShopManualBundle => LootRow { name: "Shop manual bundle", rarity: LootRarity::Uncommon,
                black_market_value: 200, effect: make_upgrade(0, 0, 15, 90) },
            LootKind::HiddenCompartmentLiner => LootRow { name: "Hidden compartment liner",
                rarity: LootRarity::Rare, black_market_value: 520, effect: make_upgrade(3, -2, 0, 360) },
            LootKind::ForgedEcuModule => LootRow { name: "Forged ECU module", rarity: LootRarity::Rare,
                black_market_value: 420, effect: make_upgrade(-2, 4, 0, 320) },
            LootKind::BlankTitleForms => LootRow { name: "Blank title forms", rarity: LootRarity::Common,
                black_market_value: 110, effect: LootEffect::SellOnly },
            LootKind::BoxedSparkPlugs => LootRow { name: "Boxed spark plugs", rarity: LootRarity::Common,
                black_market_value: 70, effect: LootEffect::SellOnly },
            LootKind::UnmarkedPacket => LootRow { name: "Unmarked packet", rarity: LootRarity::Common,
                black_market_value: 90, effect: LootEffect::SellOnly },
            LootKind::CashStuffedSpareTire => LootRow { name: "Cash-stuffed spare tire",
                rarity: LootRarity::Uncommon, black_market_value: 240, effect: LootEffect::SellOnly },
            LootKind::ContactFavorVoucher => LootRow { name: "Contact favor voucher",
                rarity: LootRarity::Uncommon, black_market_value: 160,
                effect: LootEffect::InstallCostVoucher(InstallCostVoucherEffect { discount_percent: 50 }) },
            LootKind::ScrapCatalyticConverter => LootRow { name: "Scrap catalytic converter",
                rarity: LootRarity::Common, black_market_value: 60, effect: LootEffect::SellOnly },
        }
    }

    /// A fresh item of this kind.
    pub fn item(self) -> (r: LootItem)
        ensures
            r.matches_row(self.spec_row()),
    {
        let row = self.row();
        LootItem {
            name: row.name.to_owned(),
            rarity: row.rarity,
            black_market_value: row.black_market_value,
            effect: row.effect,
        }
    }
}

fn make_upgrade(stealth: i16, drivetrain: i16, discount: u8, install: i32) -> (r: LootEffect)
    ensures
        r == upgrade(stealth, drivetrain, discount, install),
{
    LootEffect::VehicleUpgrade(
        UpgradeEffect {
            stealth_modifier: stealth,
            drivetrain_modifier: drivetrain,
            repair_discount_percent: discount,
            install_cost: install,
        },
    )
}

impl LootItem {
    /// The item carries exactly the data of a table line.
    pub open spec fn matches_row(&self, row: LootRow) -> bool {
        &&& self.name@ == row.name@
        &&& self.rarity == row.rarity
        &&& self.black_market_value == row.black_market_value
        &&& self.effect == row.effect
    }

    /// An exact copy of the item.
    pub fn duplicate(&self) -> (r: Self)
        ensures
            r == *self,
    {
        LootItem {
            name: self.name.clone(),
            rarity: self.rarity,
            black_market_value: self.black_market_value,
            effect: self.effect,
        }
    }
}


/// The chance, in percent, that a finished job drops loot at all.
pub open spec fn loot_drop_chance(job: &Job, config: &BalanceConfig) -> u8 {
    let raw = config.loot_base_drop_chance.saturating_add(
        sat_mul_u8(job.heat, config.loot_job_heat_multiplier),
    ).saturating_add(sat_mul_u8(job.cargo_size, config.loot_cargo_size_multiplier));
    if raw <= config.loot_max_drop_chance {
        raw
    } else {
        config.loot_max_drop_chance
    }
}

/// The item a job's cargo yields for a primary roll (0 to 99).
pub open spec fn primary_loot_kind(cargo: CargoType, roll: u8) -> LootKind {
    match cargo {
        CargoType::Documents => if roll < 60 {
            LootKind::BlankTitleForms
        } else if roll < 85 {
            LootKind::ContactFavorVoucher
        } else {
            LootKind::ForgedPlateKit
        },
        CargoType::Parts => if roll < 55 {
            LootKind::BoxedSparkPlugs
        } else if roll < 85 {
            LootKind::SalvagedAllTerrainTires
        } else {
            LootKind::ForgedEcuModule
        },
        CargoType::Contraband => if roll < 50 {
            LootKind::UnmarkedPacket
        } else if roll < 85 {
            LootKind::CashStuffedSpareTire
        } else {
            LootKind::HiddenCompartmentLiner
        },
    }
}

/// The extra item a bonus roll (0 to 99) yields.
pub open spec fn bonus_loot_kind(roll: u8) -> LootKind {
    if roll < 60 {
        LootKind::ScrapCatalyticConverter
    } else if roll < 90 {
        LootKind::ShopManualBundle
    } else {
        LootKind::ContactFavorVoucher
    }
}

/// The loot a job drops for a seed: a drop roll against the drop chance, then a primary item
/// chosen by the cargo, then a bonus roll that may add one more item.
pub open spec fn loot_kinds(job: &Job, seed: u64, config: &BalanceConfig) -> Seq<LootKind> {
    if draw(seed, 100) >= loot_drop_chance(job, config) {
        Seq::empty()
    } else {
        let s1 = lcg_next(seed);
        let first = primary_loot_kind(job.cargo, draw(s1, 100));
        let s2 = lcg_next(s1);
        if draw(s2, 100) < config.loot_bonus_drop_chance {
            seq![first, bonus_loot_kind(draw(lcg_next(s2), 100))]
        } else {
            seq![first]
        }
    }
}

/// The items hold, in order, the data of the table lines of `kinds`.
pub open spec fn items_match_kinds(items: Seq<LootItem>, kinds: Seq<LootKind>) -> bool {
    &&& items.len() == kinds.len()
    &&& forall|i: int| 0 <= i < items.len() ==> #[trigger] items[i].matches_row(kinds[i].spec_row())
}

pub fn generate_loot(job: &Job, seed: u64, config: &BalanceConfig) -> (r: Vec<LootItem>)
    ensures
        items_match_kinds(r@, loot_kinds(job, seed, config)),
{
    let mut rng = SeededRng::new(seed);
    let raw = config.loot_base_drop_chance.saturating_add(
        saturating_mul_u8(job.heat, config.loot_job_heat_multiplier),
    ).saturating_add(saturating_mul_u8(job.cargo_size, config.loot_cargo_size_multiplier));
    let drop_chance = if raw <= config.loot_max_drop_chance {
        raw
    } else {
        config.loot_max_drop_chance
    };
    if rng.next_u8(100) >= drop_chance {
        return Vec::new();
    }
    let mut items = vec![primary_loot(job, rng.next_u8(100))];
    if rng.next_u8(100) < config.loot_bonus_drop_chance {
        items.push(bonus_loot(job, rng.next_u8(100)));
    }
    items
}

fn primary_loot(job: &Job, roll: u8) -> (r: LootItem)
    ensures
        r.matches_row(primary_loot_kind(job.cargo, roll).spec_row()),
{
    let kind = match job.cargo {
        CargoType::Documents => if roll < 60 {
            LootKind::BlankTitleForms
        } else if roll < 85 {
            LootKind::ContactFavorVoucher
        } else {
            LootKind::ForgedPlateKit
        },
        CargoType::Parts => if roll < 55 {
            LootKind::BoxedSparkPlugs
        } else if roll < 85 {
            LootKind::SalvagedAllTerrainTires
        } else {
            LootKind::ForgedEcuModule
        },
        CargoType::Contraband => if roll < 50 {
            LootKind::UnmarkedPacket
        } else if roll < 85 {
            LootKind::CashStuffedSpareTire
        } else {
            LootKind::HiddenCompartmentLiner
        },
    };
    kind.item()
}

fn bonus_loot(_job: &Job, roll: u8) -> (r: LootItem)
    ensures
        r.matches_row(bonus_loot_kind(roll).spec_row()),
{
    let kind = if roll < 60 {
        LootKind::ScrapCatalyticConverter
    } else if roll < 90 {
        LootKind::ShopManualBundle
    } else {
        LootKind::ContactFavorVoucher
    };
    kind.item()
}

/// The upgrades the black market deals in, in catalog order.
pub open spec fn black_market_kinds() -> Seq<LootKind> {
    seq![
        LootKind::TintedWindowFilm,
        LootKind::ReinforcedSkidPlate,
        LootKind::ForgedPlateKit,
        LootKind::SalvagedAllTerrainTires,
        LootKind::ShopManualBundle,
        LootKind::HiddenCompartmentLiner,
        LootKind::ForgedEcuModule,
    ]
}

/// The rarity of each black-market catalog entry.
pub open spec fn black_market_rarities() -> Seq<LootRarity> {
    black_market_kinds().map_values(|k: LootKind| k.spec_row().rarity)
}

fn black_market_kind_list() -> (r: Vec<LootKind>)
    ensures
        r@ == black_market_kinds(),
{
    let r = vec![
        LootKind::TintedWindowFilm,
        LootKind::ReinforcedSkidPlate,
        LootKind::ForgedPlateKit,
        LootKind::SalvagedAllTerrainTires,
        LootKind::ShopManualBundle,
        LootKind::HiddenCompartmentLiner,
        LootKind::ForgedEcuModule,
    ];
    assert(r@ == black_market_kinds());
    r
}

pub fn black_market_upgrade_catalog() -> (r: Vec<LootItem>)
    ensures
        items_match_kinds(r@, black_market_kinds()),
{
    let kinds = black_market_kind_list();
    let mut items: Vec<LootItem> = Vec::new();
    let mut i: usize = 0;
    while i < kinds.len()
        invariant
            i <= kinds.len(),
            kinds@ == black_market_kinds(),
            items_match_kinds(items@, kinds@.take(i as int)),
        decreases kinds.len() - i,
    {
        items.push(kinds[i].item());
        i += 1;
    }
    assert(kinds@.take(kinds.len() as int) == kinds@);
    items
}

/// A price marked up by `markup_percent`, but always above the plain value.
pub open spec fn marked_up_price(value: i32, markup_percent: u16) -> i32 {
    let price = (value * markup_percent) / 100;
    if price >= value + 1 {
        price as i32
    } else {
        (value + 1) as i32
    }
}

/// The markup the black market applies to a rarity.
pub open spec fn black_market_markup(rarity: LootRarity, config: &BalanceConfig) -> u16 {
    match rarity {
        LootRarity::Common => config.black_market_common_markup_percent,
        LootRarity::Uncommon => config.black_market_uncommon_markup_percent,
        LootRarity::Rare => config.black_market_rare_markup_percent,
    }
}

/// The catalog entries the black market stocks for a seed, in stocking order.
pub open spec fn black_market_stock(seed: u64, config: &BalanceConfig) -> Seq<LootKind> {
    market_picks(
        black_market_rarities(),
        (
            config.black_market_common_weight,
            config.black_market_uncommon_weight,
            config.black_market_rare_weight,
        ),
        seed,
        config.black_market_min_parts,
        config.black_market_max_parts,
    ).map_values(|p: usize| black_market_kinds()[p as int])
}

fn black_market_price(item: &LootItem, config: &BalanceConfig) -> (r: i32)
    requires
        0 <= item.black_market_value <= 30000,
    ensures
        r == marked_up_price(item.black_market_value, black_market_markup(item.rarity, config)),
{
    let markup = match item.rarity {
        LootRarity::Common => config.black_market_common_markup_percent,
        LootRarity::Uncommon => config.black_market_uncommon_markup_percent,
        LootRarity::Rare => config.black_market_rare_markup_percent,
    };
    assert(item.black_market_value * markup <= 30000 * 65535) by (nonlinear_arith)
        requires
            0 <= item.black_market_value <= 30000,
            markup <= 65535,
    ;
    let price = item.black_market_value * markup as i32 / 100;
    if price >= item.black_market_value + 1 {
        price
    } else {
        item.black_market_value + 1
    }
}

/// The offers are the black-market stock for the seed, in order, each at its marked-up price.
pub open spec fn black_market_offers_for(offers: Seq<BlackMarketOffer>, seed: u64, config: &BalanceConfig) -> bool {
    &&& offers.len() == black_market_stock(seed, config).len()
    &&& forall|i: int|
        0 <= i < offers.len() ==> {
            let kind = #[trigger] black_market_stock(seed, config)[i];
            &&& offers[i].item.matches_row(kind.spec_row())
            &&& offers[i].asking_price == marked_up_price(
                kind.spec_row().black_market_value,
                black_market_markup(kind.spec_row().rarity, config),
            )
        }
}

pub fn generate_black_market_offers(seed: u64, config: &BalanceConfig) -> (r: Vec<BlackMarketOffer>)
    ensures
        black_market_offers_for(r@, seed, config),
{
    let kinds = black_market_kind_list();
    let mut rarities: Vec<LootRarity> = Vec::new();
    let mut i: usize = 0;
    while i < kinds.len()
        invariant
            i <= kinds.len(),
            kinds@ == black_market_kinds(),
            rarities@ == kinds@.take(i as int).map_values(|k: LootKind| k.spec_row().rarity),
        decreases kinds.len() - i,
    {
        let row = kinds[i].row();
        rarities.push(row.rarity);
        assert(kinds@.take(i + 1).map_values(|k: LootKind| k.spec_row().rarity)
            == kinds@.take(i as int).map_values(|k: LootKind| k.spec_row().rarity).push(row.rarity));
        i += 1;
    }
    assert(kinds@.take(kinds.len() as int) == kinds@);
    let weights = (
        config.black_market_common_weight,
        config.black_market_uncommon_weight,
        config.black_market_rare_weight,
    );
    let picks = pick_market_stock(
        &rarities,
        weights,
        seed,
        config.black_market_min_parts,
        config.black_market_max_parts,
    );
    let ghost all = market_picks(
        rarities@,
        weights,
        seed,
        config.black_market_min_parts,
        config.black_market_max_parts,
    );
    proof {
        let count = crate::market::market_count(
            seed,
            config.black_market_min_parts,
            config.black_market_max_parts,
        );
        lemma_market_run(rarities@, weights, lcg_next(seed), Seq::empty(), count, count * 12);
    }
    let mut offers: Vec<BlackMarketOffer> = Vec::new();
    let mut j: usize = 0;
    while j < picks.len()
        invariant
            j <= picks.len(),
            picks@ == all,
            kinds@ == black_market_kinds(),
            rarities@ == black_market_rarities(),
            forall|k: int| 0 <= k < all.len() ==> #[trigger] all[k] < kinds@.len(),
            offers@.len() == j,
            forall|k: int|
                0 <= k < j ==> {
                    let kind = #[trigger] kinds@[all[k] as int];
                    &&& offers@[k].item.matches_row(kind.spec_row())
                    &&& offers@[k].asking_price == marked_up_price(
                        kind.spec_row().black_market_value,
                        black_market_markup(kind.spec_row().rarity, config),
                    )
                },
        decreases picks.len() - j,
    {
        let kind = kinds[picks[j]];
        let item = kind.item();
        let asking_price = black_market_price(&item, config);
        offers.push(BlackMarketOffer { item, asking_price });
        j += 1;
    }
    offers
}

} // verus!
