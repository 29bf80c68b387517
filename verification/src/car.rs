use vstd::prelude::*;

use crate::arith::div_trunc;
use crate::balance::BalanceConfig;
use crate::car_table::{market_kind_list, market_kinds, CarKind, CarRow};
use crate::loot::marked_up_price;
use crate::market::{lemma_market_run, market_count, market_picks, pick_market_stock};
use crate::rng::lcg_next;
use crate::loot::{LootEffect, LootItem, LootRarity, UpgradeEffect};

verus! {

#[derive(Debug, Clone, Copy, PartialEq, Eq, Structural)]
pub enum Drivetrain {
    Fwd,
    Rwd,
    Awd,
    FourWd,
}

impl Drivetrain {
    pub open spec fn spec_handles_rough_terrain(self) -> bool {
        self is Awd || self is FourWd
    }

    pub fn handles_rough_terrain(self) -> (r: bool)
        ensures
            r == self.spec_handles_rough_terrain(),
    {
        matches!(self, Drivetrain::Awd | Drivetrain::FourWd)
    }
}

#[derive(Debug, Clone, Copy, PartialEq, Eq, Structural)]
pub struct EffectiveStats {
    pub stealth: u8,
    pub drivetrain: i16,
}

#[derive(Debug, Clone, PartialEq, Eq)]
pub struct EngineSpec {
    pub layout: String,
    pub displacement_liters: String,
    pub aspiration: String,
    pub fuel: String,
    pub horsepower: u16,
    pub horsepower_rpm: u16,
    pub torque_lb_ft: u16,
    pub torque_rpm: u16,
}

#[derive(Debug, Clone, PartialEq, Eq)]
pub struct VehicleSpec {
    pub make: String,
    pub model: String,
    pub trim: String,
    pub body_style: String,
    pub transmission: String,
    pub curb_weight_lbs: u16,
    pub cargo_volume_cu_ft: String,
    pub fuel_capacity_gal: String,
    pub engine: EngineSpec,
}

#[derive(Debug, Clone, PartialEq, Eq)]
pub struct InstalledUpgrade {
    pub name: String,
    pub rarity: LootRarity,
    pub black_market_value: i32,
    pub install_cost: i32,
    pub stealth_modifier: i16,
    pub drivetrain_modifier: i16,
    pub repair_discount_percent: u8,
}

#[derive(Debug, Clone, PartialEq, Eq)]
pub struct CarMarketOffer {
    pub car: Car,
    pub asking_price: i32,
}

#[derive(Debug, Clone, Copy, PartialEq, Eq, Structural)]
pub struct PartCondition {
    pub engine: u8,
    pub suspension: u8,
    pub tires: u8,
    pub body: u8,
}

impl PartCondition {
    /// Every part in perfect shape.
    pub open spec fn spec_new() -> Self {
        PartCondition { engine: 100, suspension: 100, tires: 100, body: 100 }
    }

    pub fn new() -> (r: Self)
        ensures
            r == Self::spec_new(),
    {
        PartCondition { engine: 100, suspension: 100, tires: 100, body: 100 }
    }

    /// The mean of the four parts, rounded down.
    pub open spec fn spec_average(self) -> u8 {
        ((self.engine + self.suspension + self.tires + self.body) / 4) as u8
    }

    pub fn average(self) -> (r: u8)
        ensures
            r == self.spec_average(),
    {
        let total = self.engine as u16 + self.suspension as u16 + self.tires as u16
            + self.body as u16;
        (total / 4) as u8
    }

    /// The condition after `damage`: each part loses its share, bottoming out at zero.
    pub open spec fn damaged(self, damage: PartDamage) -> Self {
        PartCondition {
            engine: self.engine.saturating_sub(damage.engine),
            suspension: self.suspension.saturating_sub(damage.suspension),
            tires: self.tires.saturating_sub(damage.tires),
            body: self.body.saturating_sub(damage.body),
        }
    }

    pub fn apply_damage(&mut self, damage: PartDamage)
        ensures
            *final(self) == old(self).damaged(damage),
    {
        self.engine = self.engine.saturating_sub(damage.engine);
        self.suspension = self.suspension.saturating_sub(damage.suspension);
        self.tires = self.tires.saturating_sub(damage.tires);
        self.body = self.body.saturating_sub(damage.body);
    }
}

impl Default for PartCondition {
    fn default() -> (r: Self)
        ensures
            r == Self::spec_new(),
    {
        Self::new()
    }
}

#[derive(Debug, Clone, Copy, PartialEq, Eq, Structural)]
pub struct PartDamage {
    pub engine: u8,
    pub suspension: u8,
    pub tires: u8,
    pub body: u8,
}

impl PartDamage {
    /// No damage at all.
    pub open spec fn spec_none() -> Self {
        PartDamage { engine: 0, suspension: 0, tires: 0, body: 0 }
    }

    pub open spec fn spec_any(self) -> bool {
        self.engine > 0 || self.suspension > 0 || self.tires > 0 || self.body > 0
    }

    pub fn any(self) -> (r: bool)
        ensures
            r == self.spec_any(),
    {
        self.engine > 0 || self.suspension > 0 || self.tires > 0 || self.body > 0
    }
}

impl Default for PartDamage {
    fn default() -> (r: Self)
        ensures
            r == Self::spec_none(),
    {
        PartDamage { engine: 0, suspension: 0, tires: 0, body: 0 }
    }
}

#[derive(Debug, Clone, PartialEq, Eq)]
pub struct Car {
    pub name: String,
    pub rarity: LootRarity,
    pub model_year: u16,
    pub value: i32,
    pub cargo_capacity: u8,
    pub stealth: u8,
    pub drivetrain: Drivetrain,
    pub spec: VehicleSpec,
    pub condition: PartCondition,
    pub installed_upgrades: Vec<InstalledUpgrade>,
}

/// The sum of the stealth modifiers of the upgrades.
pub open spec fn stealth_modifier_total(ups: Seq<InstalledUpgrade>) -> int
    decreases ups.len(),
{
    if ups.len() == 0 {
        0
    } else {
        stealth_modifier_total(ups.drop_last()) + ups.last().stealth_modifier
    }
}

/// The sum of the drivetrain modifiers of the upgrades.
pub open spec fn drivetrain_modifier_total(ups: Seq<InstalledUpgrade>) -> int
    decreases ups.len(),
{
    if ups.len() == 0 {
        0
    } else {
        drivetrain_modifier_total(ups.drop_last()) + ups.last().drivetrain_modifier
    }
}

/// The sum of the repair discounts of the upgrades.
pub open spec fn repair_discount_total(ups: Seq<InstalledUpgrade>) -> int
    decreases ups.len(),
{
    if ups.len() == 0 {
        0
    } else {
        repair_discount_total(ups.drop_last()) + ups.last().repair_discount_percent
    }
}

/// Every running sum of the stealth and drivetrain modifiers, summed in upgrade order, fits in
/// an `i16`.
pub open spec fn modifier_sums_fit(ups: Seq<InstalledUpgrade>) -> bool {
    forall|k: int|
        0 <= k <= ups.len() ==> {
            &&& i16::MIN <= #[trigger] stealth_modifier_total(ups.take(k)) <= i16::MAX
            &&& i16::MIN <= drivetrain_modifier_total(ups.take(k)) <= i16::MAX
        }
}

/// How far a part is below perfect condition.
pub open spec fn missing_condition(value: u8) -> u8 {
    (100u8).saturating_sub(value)
}

/// The drivetrain stat of a drive layout before wear and upgrades.
pub open spec fn drivetrain_base(drivetrain: Drivetrain) -> int {
    match drivetrain {
        Drivetrain::Fwd => 0,
        Drivetrain::Rwd => 0,
        Drivetrain::Awd => 12,
        Drivetrain::FourWd => 16,
    }
}

impl Car {
    /// The car carries exactly the data of a table line, in full condition, without upgrades.
    pub open spec fn matches_row(&self, row: CarRow) -> bool {
        &&& self.name@ == row.name@
        &&& self.rarity == row.rarity
        &&& self.model_year == row.model_year
        &&& self.value == row.value
        &&& self.cargo_capacity == row.cargo_capacity
        &&& self.stealth == row.stealth
        &&& self.drivetrain == row.drivetrain
        &&& self.spec.make@ == row.make@
        &&& self.spec.model@ == row.model@
        &&& self.spec.trim@ == row.trim@
        &&& self.spec.body_style@ == row.body_style@
        &&& self.spec.transmission@ == row.transmission@
        &&& self.spec.curb_weight_lbs == row.curb_weight_lbs
        &&& self.spec.cargo_volume_cu_ft@ == row.cargo_volume_cu_ft@
        &&& self.spec.fuel_capacity_gal@ == row.fuel_capacity_gal@
        &&& self.spec.engine.layout@ == row.engine_layout@
        &&& self.spec.engine.displacement_liters@ == row.displacement_liters@
        &&& self.spec.engine.aspiration@ == row.aspiration@
        &&& self.spec.engine.fuel@ == row.fuel@
        &&& self.spec.engine.horsepower == row.horsepower
        &&& self.spec.engine.horsepower_rpm == row.horsepower_rpm
        &&& self.spec.engine.torque_lb_ft == row.torque_lb_ft
        &&& self.spec.engine.torque_rpm == row.torque_rpm
        &&& self.condition == PartCondition::spec_new()
        &&& self.installed_upgrades@.len() == 0
    }

    /// The stealth stat before it is held to a byte: base stealth less body and engine wear,
    /// plus the upgrades.
    pub open spec fn raw_stealth(&self) -> int {
        let penalty = missing_condition(self.condition.body) / 8 + missing_condition(
            self.condition.engine,
        ) / 12;
        self.stealth.saturating_sub(penalty as u8) + stealth_modifier_total(
            self.installed_upgrades@,
        )
    }

    /// The drivetrain stat: the layout's base less suspension and tire wear, plus the upgrades.
    pub open spec fn raw_drivetrain(&self) -> int {
        drivetrain_base(self.drivetrain) - missing_condition(self.condition.suspension) / 4
            - missing_condition(self.condition.tires) / 5 + drivetrain_modifier_total(
            self.installed_upgrades@,
        )
    }

    /// The effective stats can be computed in `i16`: each running sum of modifiers fits, and so
    /// do the stealth and drivetrain stats of the car in its present condition.
    pub open spec fn stats_defined(&self) -> bool {
        &&& modifier_sums_fit(self.installed_upgrades@)
        &&& i16::MIN <= self.raw_stealth() <= i16::MAX
        &&& i16::MIN <= self.raw_drivetrain() <= i16::MAX
    }

    /// The effective stats can be computed whatever the wear: each running sum of modifiers
    /// fits, the stealth total leaves room for a byte of base stealth, and the drivetrain total
    /// leaves room for the largest base and the largest wear penalty.
    pub open spec fn stats_defined_under_wear(&self) -> bool {
        &&& modifier_sums_fit(self.installed_upgrades@)
        &&& stealth_modifier_total(self.installed_upgrades@) <= i16::MAX - 255
        &&& i16::MIN + 45 <= drivetrain_modifier_total(self.installed_upgrades@) <= i16::MAX - 16
    }

    /// A car whose stats can be computed under any wear has computable stats in every condition.
    pub proof fn lemma_stats_defined_in_any_condition(self, condition: PartCondition)
        requires
            self.stats_defined_under_wear(),
        ensures
            self.with_condition(condition).stats_defined(),
    {
        let ups = self.installed_upgrades@;
        assert(ups.take(ups.len() as int) == ups);
        let c = self.with_condition(condition);
        assert(c.installed_upgrades@ == ups);
        assert(i16::MIN <= stealth_modifier_total(ups) <= i16::MAX);
        assert(0 <= missing_condition(condition.body) / 8 + missing_condition(condition.engine) / 12 <= 20);
    }

    /// The same car with another condition.
    pub open spec fn with_condition(self, condition: PartCondition) -> Car {
        Car { condition, ..self }
    }

    pub open spec fn spec_effective_stats(&self) -> EffectiveStats {
        let s = self.raw_stealth();
        EffectiveStats {
            stealth: if s < 0 {
                0u8
            } else if s > 255 {
                255u8
            } else {
                s as u8
            },
            drivetrain: self.raw_drivetrain() as i16,
        }
    }

    /// The summed repair discounts fit in a byte.
    pub open spec fn repair_defined(&self) -> bool {
        repair_discount_total(self.installed_upgrades@) <= 255
    }

    /// Three per missing condition point, less the upgrades' discount (at most 80%).
    pub open spec fn spec_repair_cost(&self) -> i32 {
        let missing = 400 - self.condition.engine - self.condition.suspension - self.condition.tires
            - self.condition.body;
        let discount = if repair_discount_total(self.installed_upgrades@) < 80 {
            repair_discount_total(self.installed_upgrades@)
        } else {
            80
        };
        div_trunc(missing * 3 * (100 - discount), 100) as i32
    }

    pub fn new(
        name: &str,
        rarity: LootRarity,
        model_year: u16,
        value: i32,
        cargo_capacity: u8,
        stealth: u8,
        drivetrain: Drivetrain,
        spec: VehicleSpec,
    ) -> (r: Self)
        ensures
            r.name@ == name@,
            r.rarity == rarity,
            r.model_year == model_year,
            r.value == value,
            r.cargo_capacity == cargo_capacity,
            r.stealth == stealth,
            r.drivetrain == drivetrain,
            r.spec == spec,
            r.condition == PartCondition::spec_new(),
            r.installed_upgrades@.len() == 0,
    {
        Car {
            name: name.to_owned(),
            rarity,
            model_year,
            value,
            cargo_capacity,
            stealth,
            drivetrain,
            spec,
            condition: PartCondition::new(),
            installed_upgrades: Vec::new(),
        }
    }

    pub fn honda_civic_1998_dx_sedan() -> (r: Self)
        ensures
            r.matches_row(CarKind::HondaCivic1998DxSedan.spec_row()),
    {
        CarKind::HondaCivic1998DxSedan.car()
    }

    pub fn volvo_v70_1999_turbo_awd() -> (r: Self)
        ensures
            r.matches_row(CarKind::VolvoV70_1999TurboAwd.spec_row()),
    {
        CarKind::VolvoV70_1999TurboAwd.car()
    }

    pub fn repair_cost(&self) -> (r: i32)
        requires
            self.repair_defined(),
        ensures
            r == self.spec_repair_cost(),
    {
        let missing = 400 - self.condition.engine as i32 - self.condition.suspension as i32
            - self.condition.tires as i32 - self.condition.body as i32;
        let base_cost = missing * 3;
        let total = self.total_repair_discount_percent();
        let discount = if total < 80 { total as i32 } else { 80 };
        assert(-1860 * 100 <= base_cost * (100 - discount) <= 1200 * 100) by (nonlinear_arith)
            requires
                -1860 <= base_cost <= 1200,
                0 <= discount <= 80,
        ;
        base_cost * (100 - discount) / 100
    }

    pub fn repair_fully(&mut self)
        ensures
            final(self).condition == PartCondition::spec_new(),
            final(self).same_except_condition(*old(self)),
    {
        self.condition = PartCondition::new();
    }

    /// Everything but the condition is unchanged.
    pub open spec fn same_except_condition(&self, other: Car) -> bool {
        &&& self.name == other.name
        &&& self.rarity == other.rarity
        &&& self.model_year == other.model_year
        &&& self.value == other.value
        &&& self.cargo_capacity == other.cargo_capacity
        &&& self.stealth == other.stealth
        &&& self.drivetrain == other.drivetrain
        &&& self.spec == other.spec
        &&& self.installed_upgrades == other.installed_upgrades
    }

    /// Everything but the upgrades is unchanged.
    pub open spec fn same_except_upgrades(&self, other: Car) -> bool {
        &&& self.name == other.name
        &&& self.rarity == other.rarity
        &&& self.model_year == other.model_year
        &&& self.value == other.value
        &&& self.cargo_capacity == other.cargo_capacity
        &&& self.stealth == other.stealth
        &&& self.drivetrain == other.drivetrain
        &&& self.spec == other.spec
        &&& self.condition == other.condition
    }

    pub fn effective_stats(&self) -> (r: EffectiveStats)
        requires
            self.stats_defined(),
        ensures
            r == self.spec_effective_stats(),
    {
        proof {
            assert(self.installed_upgrades@.take(self.installed_upgrades@.len() as int)
                == self.installed_upgrades@);
        }
        let body_penalty = missing(self.condition.body) / 8;
        let engine_penalty = missing(self.condition.engine) / 12;
        let stealth_modifier = self.total_stealth_modifier();
        let raw: i16 = self.stealth.saturating_sub(body_penalty + engine_penalty) as i16
            + stealth_modifier;
        let stealth: u8 = if raw < 0 {
            0
        } else if raw > 255 {
            255
        } else {
            raw as u8
        };
        let drivetrain = drivetrain_base_stat(self.drivetrain) - (missing(self.condition.suspension) as i16 / 4) - (missing(
            self.condition.tires,
        ) as i16 / 5) + self.total_drivetrain_modifier();
        EffectiveStats { stealth, drivetrain }
    }

    pub fn install_loot(&mut self, loot: LootItem) -> (r: bool)
        ensures
            match loot.effect {
                LootEffect::VehicleUpgrade(effect) => {
                    &&& r
                    &&& final(self).installed_upgrades@ == old(self).installed_upgrades@.push(
                        InstalledUpgrade::spec_from_loot(loot, effect),
                    )
                    &&& final(self).same_except_upgrades(*old(self))
                },
                _ => !r && *final(self) == *old(self),
            },
    {
        let effect = match loot.effect {
            LootEffect::SellOnly => return false,
            LootEffect::VehicleUpgrade(effect) => effect,
            LootEffect::InstallCostVoucher(_) => return false,
        };
        self.installed_upgrades.push(
            InstalledUpgrade::from_loot(loot.name, loot.rarity, loot.black_market_value, effect),
        );
        true
    }

    pub fn uninstall_upgrade(&mut self, upgrade_index: usize) -> (r: Option<LootItem>)
        ensures
            upgrade_index < old(self).installed_upgrades@.len() ==> {
                &&& r == Some(old(self).installed_upgrades@[upgrade_index as int].spec_into_loot_item())
                &&& final(self).installed_upgrades@ == old(self).installed_upgrades@.remove(
                    upgrade_index as int,
                )
                &&& final(self).same_except_upgrades(*old(self))
            },
            upgrade_index >= old(self).installed_upgrades@.len() ==> r is None && *final(self)
                == *old(self),
    {
        if upgrade_index >= self.installed_upgrades.len() {
            return None;
        }
        let upgrade = self.installed_upgrades.remove(upgrade_index);
        Some(upgrade.into_loot_item())
    }

    fn total_stealth_modifier(&self) -> (r: i16)
        requires
            modifier_sums_fit(self.installed_upgrades@),
        ensures
            r == stealth_modifier_total(self.installed_upgrades@),
    {
        let ups = &self.installed_upgrades;
        let mut sum: i16 = 0;
        let mut i: usize = 0;
        while i < ups.len()
            invariant
                i <= ups.len(),
                modifier_sums_fit(ups@),
                sum == stealth_modifier_total(ups@.take(i as int)),
            decreases ups.len() - i,
        {
            assert(ups@.take(i + 1).drop_last() == ups@.take(i as int));
            assert(i16::MIN <= stealth_modifier_total(ups@.take(i + 1)) <= i16::MAX);
            sum = sum + ups[i].stealth_modifier;
            i += 1;
        }
        assert(ups@.take(ups.len() as int) == ups@);
        sum
    }

    fn total_drivetrain_modifier(&self) -> (r: i16)
        requires
            modifier_sums_fit(self.installed_upgrades@),
        ensures
            r == drivetrain_modifier_total(self.installed_upgrades@),
    {
        let ups = &self.installed_upgrades;
        let mut sum: i16 = 0;
        let mut i: usize = 0;
        while i < ups.len()
            invariant
                i <= ups.len(),
                modifier_sums_fit(ups@),
                sum == drivetrain_modifier_total(ups@.take(i as int)),
            decreases ups.len() - i,
        {
            assert(ups@.take(i + 1).drop_last() == ups@.take(i as int));
            assert(i16::MIN <= stealth_modifier_total(ups@.take(i + 1)) <= i16::MAX);
            sum = sum + ups[i].drivetrain_modifier;
            i += 1;
        }
        assert(ups@.take(ups.len() as int) == ups@);
        sum
    }

    fn total_repair_discount_percent(&self) -> (r: u8)
        requires
            self.repair_defined(),
        ensures
            r == repair_discount_total(self.installed_upgrades@),
    {
        let ups = &self.installed_upgrades;
        let mut sum: u8 = 0;
        let mut i: usize = 0;
        while i < ups.len()
            invariant
                i <= ups.len(),
                repair_discount_total(ups@) <= 255,
                sum == repair_discount_total(ups@.take(i as int)),
            decreases ups.len() - i,
        {
            assert(ups@.take(i + 1).drop_last() == ups@.take(i as int));
            proof {
                lemma_discount_prefix_bounded(ups@, i + 1);
            }
            sum = sum + ups[i].repair_discount_percent;
            i += 1;
        }
        assert(ups@.take(ups.len() as int) == ups@);
        sum
    }
}

/// A prefix of the upgrades never has more discount than all of them.
proof fn lemma_discount_prefix_bounded(ups: Seq<InstalledUpgrade>, k: int)
    requires
        0 <= k <= ups.len(),
    ensures
        0 <= repair_discount_total(ups.take(k)) <= repair_discount_total(ups),
    decreases ups.len(),
{
    if ups.len() == 0 {
        assert(ups.take(k) == ups);
    } else if k == ups.len() {
        assert(ups.take(k) == ups);
        lemma_discount_prefix_bounded(ups.drop_last(), k - 1);
    } else {
        assert(ups.drop_last().take(k) == ups.take(k));
        lemma_discount_prefix_bounded(ups.drop_last(), k);
    }
}

fn drivetrain_base_stat(drivetrain: Drivetrain) -> (r: i16)
    ensures
        r == drivetrain_base(drivetrain),
{
    match drivetrain {
        Drivetrain::Fwd => 0,
        Drivetrain::Rwd => 0,
        Drivetrain::Awd => 12,
        Drivetrain::FourWd => 16,
    }
}

fn missing(value: u8) -> (r: u8)
    ensures
        r == missing_condition(value),
{
    100u8.saturating_sub(value)
}

/// The markup the car market applies to a rarity.
pub open spec fn car_market_markup(rarity: LootRarity, config: &BalanceConfig) -> u16 {
    match rarity {
        LootRarity::Common => config.car_market_common_markup_percent,
        LootRarity::Uncommon => config.car_market_uncommon_markup_percent,
        LootRarity::Rare => config.car_market_rare_markup_percent,
    }
}

/// The rarity of each car-market catalog entry.
pub open spec fn car_market_rarities() -> Seq<LootRarity> {
    market_kinds().map_values(|k: CarKind| k.spec_row().rarity)
}

/// The catalog entries the car market stocks for a seed, in stocking order.
pub open spec fn car_market_stock(seed: u64, config: &BalanceConfig) -> Seq<CarKind> {
    market_picks(
        car_market_rarities(),
        (config.car_market_common_weight, config.car_market_uncommon_weight, config.car_market_rare_weight),
        seed,
        config.car_market_min_cars,
        config.car_market_max_cars,
    ).map_values(|p: usize| market_kinds()[p as int])
}

/// The offers are the car-market stock for the seed, in order, each at its marked-up price.
pub open spec fn car_market_offers_for(offers: Seq<CarMarketOffer>, seed: u64, config: &BalanceConfig) -> bool {
    &&& offers.len() == car_market_stock(seed, config).len()
    &&& forall|i: int|
        0 <= i < offers.len() ==> {
            let kind = #[trigger] car_market_stock(seed, config)[i];
            &&& offers[i].car.matches_row(kind.spec_row())
            &&& offers[i].asking_price == marked_up_price(
                kind.spec_row().value,
                car_market_markup(kind.spec_row().rarity, config),
            )
        }
}

pub fn generate_car_market_offers(seed: u64, config: &BalanceConfig) -> (r: Vec<CarMarketOffer>)
    ensures
        car_market_offers_for(r@, seed, config),
{
    let kinds = market_kind_list();
    let mut rarities: Vec<LootRarity> = Vec::new();
    let mut i: usize = 0;
    while i < kinds.len()
        invariant
            i <= kinds.len(),
            kinds@ == market_kinds(),
            rarities@ == kinds@.take(i as int).map_values(|k: CarKind| k.spec_row().rarity),
        decreases kinds.len() - i,
    {
        let row = kinds[i].row();
        rarities.push(row.rarity);
        assert(kinds@.take(i + 1).map_values(|k: CarKind| k.spec_row().rarity)
            == kinds@.take(i as int).map_values(|k: CarKind| k.spec_row().rarity).push(row.rarity));
        i += 1;
    }
    assert(kinds@.take(kinds.len() as int) == kinds@);
    let weights = (
        config.car_market_common_weight,
        config.car_market_uncommon_weight,
        config.car_market_rare_weight,
    );
    let picks = pick_market_stock(
        &rarities,
        weights,
        seed,
        config.car_market_min_cars,
        config.car_market_max_cars,
    );
    let ghost all = market_picks(
        rarities@,
        weights,
        seed,
        config.car_market_min_cars,
        config.car_market_max_cars,
    );
    proof {
        let count = market_count(seed, config.car_market_min_cars, config.car_market_max_cars);
        lemma_market_run(rarities@, weights, lcg_next(seed), Seq::empty(), count, count * 12);
    }
    let mut offers: Vec<CarMarketOffer> = Vec::new();
    let mut j: usize = 0;
    while j < picks.len()
        invariant
            j <= picks.len(),
            picks@ == all,
            kinds@ == market_kinds(),
            rarities@ == car_market_rarities(),
            forall|k: int| 0 <= k < all.len() ==> #[trigger] all[k] < kinds@.len(),
            offers@.len() == j,
            forall|k: int|
                0 <= k < j ==> {
                    let kind = #[trigger] kinds@[all[k] as int];
                    &&& offers@[k].car.matches_row(kind.spec_row())
                    &&& offers@[k].asking_price == marked_up_price(
                        kind.spec_row().value,
                        car_market_markup(kind.spec_row().rarity, config),
                    )
                },
        decreases picks.len() - j,
    {
        let kind = kinds[picks[j]];
        let car = kind.car();
        let asking_price = car_market_price(&car, config);
        offers.push(CarMarketOffer { car, asking_price });
        j += 1;
    }
    offers
}

fn car_market_price(car: &Car, config: &BalanceConfig) -> (r: i32)
    requires
        0 <= car.value <= 30000,
    ensures
        r == marked_up_price(car.value, car_market_markup(car.rarity, config)),
{
    let markup = match car.rarity {
        LootRarity::Common => config.car_market_common_markup_percent,
        LootRarity::Uncommon => config.car_market_uncommon_markup_percent,
        LootRarity::Rare => config.car_market_rare_markup_percent,
    };
    assert(car.value * markup <= 30000 * 65535) by (nonlinear_arith)
        requires
            0 <= car.value <= 30000,
            markup <= 65535,
    ;
    let price = car.value * markup as i32 / 100;
    if price >= car.value + 1 {
        price
    } else {
        car.value + 1
    }
}

impl InstalledUpgrade {
    /// The upgrade an installed item becomes.
    pub open spec fn spec_from_loot(loot: LootItem, effect: UpgradeEffect) -> InstalledUpgrade {
        InstalledUpgrade {
            name: loot.name,
            rarity: loot.rarity,
            black_market_value: loot.black_market_value,
            install_cost: effect.install_cost,
            stealth_modifier: effect.stealth_modifier,
            drivetrain_modifier: effect.drivetrain_modifier,
            repair_discount_percent: effect.repair_discount_percent,
        }
    }

    pub open spec fn spec_effect(&self) -> UpgradeEffect {
        UpgradeEffect {
            stealth_modifier: self.stealth_modifier,
            drivetrain_modifier: self.drivetrain_modifier,
            repair_discount_percent: self.repair_discount_percent,
            install_cost: self.install_cost,
        }
    }

    /// The item an uninstalled upgrade becomes.
    pub open spec fn spec_into_loot_item(self) -> LootItem {
        LootItem {
            name: self.name,
            rarity: self.rarity,
            black_market_value: self.black_market_value,
            effect: LootEffect::VehicleUpgrade(self.spec_effect()),
        }
    }

    pub fn effect(&self) -> (r: UpgradeEffect)
        ensures
            r == self.spec_effect(),
    {
        UpgradeEffect {
            stealth_modifier: self.stealth_modifier,
            drivetrain_modifier: self.drivetrain_modifier,
            repair_discount_percent: self.repair_discount_percent,
            install_cost: self.install_cost,
        }
    }

    fn from_loot(
        name: String,
        rarity: LootRarity,
        black_market_value: i32,
        effect: UpgradeEffect,
    ) -> (r: Self)
        ensures
            r == (InstalledUpgrade {
                name,
                rarity,
                black_market_value,
                install_cost: effect.install_cost,
                stealth_modifier: effect.stealth_modifier,
                drivetrain_modifier: effect.drivetrain_modifier,
                repair_discount_percent: effect.repair_discount_percent,
            }),
    {
        InstalledUpgrade {
            name,
            rarity,
            black_market_value,
            install_cost: effect.install_cost,
            stealth_modifier: effect.stealth_modifier,
            drivetrain_modifier: effect.drivetrain_modifier,
            repair_discount_percent: effect.repair_discount_percent,
        }
    }

    fn into_loot_item(self) -> (r: LootItem)
        ensures
            r == self.spec_into_loot_item(),
    {
        let effect = self.effect();
        LootItem {
            name: self.name,
            rarity: self.rarity,
            black_market_value: self.black_market_value,
            effect: LootEffect::VehicleUpgrade(effect),
        }
    }
}

} // verus!
