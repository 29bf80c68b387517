use vstd::prelude::*;

use crate::arith::{clamp_int, div_trunc, max_int, min_int};
use crate::balance::BalanceConfig;
use crate::car::{
    car_market_offers_for, generate_car_market_offers, Car, CarMarketOffer, InstalledUpgrade,
};
use crate::car_table::{starter_car_catalog, starter_kinds, cars_match_kinds};
use crate::job::Job;
use crate::loot::{
    black_market_offers_for, generate_black_market_offers, generate_loot, items_match_kinds,
    loot_kinds, BlackMarketOffer, LootEffect, LootItem,
};
use crate::rng::{offset_seed, wrapping_offset};
use crate::route::{
    fork_choice_previews_with_config, fork_preview_shows, fork_resolution, job_defined, job_result,
    fork_previews_defined, fork_resolution_defined, patrol_action_previews_with_config,
    patrol_preview_shows, patrol_previews_defined, patrol_resolution, patrol_resolution_defined,
    resolve_fork_choice_with_config, resolve_job_with_config,
    resolve_patrol_action_with_config, ForkChoice, ForkChoicePreview, ForkResolution, JobOutcome,
    PatrolAction, PatrolActionPreview, PatrolResolution, RouteEvent,
};

verus! {

#[derive(Debug, Clone, PartialEq, Eq)]
pub struct Garage {
    pub cash: i32,
    pub heat: u8,
    pub cars: Vec<Car>,
    pub inventory: Vec<LootItem>,
    pub black_market: Vec<BlackMarketOffer>,
    pub car_market: Vec<CarMarketOffer>,
    pub black_market_seed: u64,
    pub car_market_seed: u64,
    pub balance: BalanceConfig,
}

#[derive(Debug, Clone, PartialEq, Eq)]
pub struct JobReport {
    pub car_name: String,
    pub job_name: String,
    pub outcome: JobOutcome,
    pub loot: Vec<LootItem>,
}

/// An exact copy of a list of items.
pub fn duplicate_items(items: &Vec<LootItem>) -> (r: Vec<LootItem>)
    ensures
        r@ == items@,
{
    let mut out: Vec<LootItem> = Vec::new();
    let mut i: usize = 0;
    while i < items.len()
        invariant
            i <= items.len(),
            out@ == items@.take(i as int),
        decreases items.len() - i,
    {
        out.push(items[i].duplicate());
        assert(items@.take(i + 1) == items@.take(i as int).push(items@[i as int]));
        i += 1;
    }
    assert(items@.take(items.len() as int) == items@);
    out
}

/// An exact copy of a list of route events.
pub fn duplicate_events(events: &Vec<RouteEvent>) -> (r: Vec<RouteEvent>)
    ensures
        r@ == events@,
{
    let mut out: Vec<RouteEvent> = Vec::new();
    let mut i: usize = 0;
    while i < events.len()
        invariant
            i <= events.len(),
            out@ == events@.take(i as int),
        decreases events.len() - i,
    {
        out.push(events[i]);
        assert(events@.take(i + 1) == events@.take(i as int).push(events@[i as int]));
        i += 1;
    }
    assert(events@.take(events.len() as int) == events@);
    out
}

/// The sum of the black-market values of the items.
pub open spec fn item_value_total(items: Seq<LootItem>) -> int
    decreases items.len(),
{
    if items.len() == 0 {
        0
    } else {
        item_value_total(items.drop_last()) + items.last().black_market_value
    }
}

/// Every running sum of the items' values fits in an `i32`.
pub open spec fn item_sums_fit(items: Seq<LootItem>) -> bool {
    forall|k: int| 0 <= k <= items.len() ==> i32::MIN <= #[trigger] item_value_total(items.take(k)) <= i32::MAX
}

/// The first position from `from` on, other than `skip`, that holds an install-cost voucher.
pub open spec fn voucher_index_from(items: Seq<LootItem>, skip: int, from: nat) -> Option<int>
    decreases items.len() - from,
{
    if from >= items.len() {
        None
    } else if from != skip && items[from as int].effect is InstallCostVoucher {
        Some(from as int)
    } else {
        voucher_index_from(items, skip, from + 1)
    }
}

/// An install cost less a voucher's discount (at most 100%).
pub open spec fn discounted_cost(base: i32, discount_percent: u8) -> int {
    div_trunc(base * (100 - min_int(discount_percent as int, 100)), 100)
}

/// What installing the item at `item_index` costs: its install cost, discounted by the first
/// other voucher in the inventory if there is one.
pub open spec fn install_cost_for(items: Seq<LootItem>, item_index: int, base: i32) -> int {
    match voucher_index_from(items, item_index, 0) {
        Some(v) => match items[v].effect {
            LootEffect::InstallCostVoucher(voucher) => discounted_cost(base, voucher.discount_percent),
            _ => base as int,
        },
        None => base as int,
    }
}

/// The two car lists agree everywhere but at `index`.
pub open spec fn cars_agree_except(a: Seq<Car>, b: Seq<Car>, index: int) -> bool {
    &&& a.len() == b.len()
    &&& forall|j: int| 0 <= j < a.len() && j != index ==> #[trigger] a[j] == b[j]
}

/// The sum, over the upgrades, of black-market value plus install cost.
pub open spec fn upgrade_worth_total(ups: Seq<InstalledUpgrade>) -> int
    decreases ups.len(),
{
    if ups.len() == 0 {
        0
    } else {
        upgrade_worth_total(ups.drop_last()) + ups.last().black_market_value + ups.last().install_cost
    }
}

/// A car's worth before wear and heat: its value plus half of what its upgrades are worth.
pub open spec fn pre_discount_value(car: Car) -> int {
    car.value + div_trunc(upgrade_worth_total(car.installed_upgrades@), 2)
}

/// The share of its worth a car keeps for its condition: its average condition, at least 10.
pub open spec fn condition_percent(car: Car) -> int {
    max_int(car.condition.spec_average() as int, 10)
}

/// The share of its worth a car keeps for the garage heat: 100 less 10 per heat, 25 to 100.
pub open spec fn heat_percent(heat: u8) -> int {
    clamp_int(100 - heat * 10, 25, 100)
}

/// What selling a car brings at some garage heat, at least 1.
pub open spec fn sale_value(car: Car, heat: u8) -> i32 {
    max_int(
        div_trunc(pre_discount_value(car) * condition_percent(car) * heat_percent(heat), 10000),
        1,
    ) as i32
}

/// The sale value can be computed in `i32`: every running sum of upgrade worth and each
/// product on the way fit.
pub open spec fn sale_value_defined(car: Car, heat: u8) -> bool {
    let ups = car.installed_upgrades@;
    &&& forall|k: int|
        0 <= k <= ups.len() ==> i32::MIN <= #[trigger] upgrade_worth_total(ups.take(k)) <= i32::MAX
    &&& forall|k: int|
        0 <= k < ups.len() ==> i32::MIN <= #[trigger] ups[k].black_market_value + ups[k].install_cost
            <= i32::MAX
    &&& i32::MIN <= pre_discount_value(car) <= i32::MAX
    &&& i32::MIN <= pre_discount_value(car) * condition_percent(car) <= i32::MAX
    &&& i32::MIN <= pre_discount_value(car) * condition_percent(car) * heat_percent(heat) <= i32::MAX
}

fn discounted_install_cost(base_cost: i32, discount_percent: u8) -> (r: i32)
    requires
        i32::MIN <= base_cost * (100 - min_int(discount_percent as int, 100)) <= i32::MAX,
    ensures
        r == discounted_cost(base_cost, discount_percent),
{
    let pct: i32 = if discount_percent < 100 { discount_percent as i32 } else { 100 };
    base_cost * (100 - pct) / 100
}

impl Garage {
    /// The markets, their seeds and the tuning are those of `other`.
    pub open spec fn same_markets(&self, other: Garage) -> bool {
        &&& self.black_market == other.black_market
        &&& self.car_market == other.car_market
        &&& self.black_market_seed == other.black_market_seed
        &&& self.car_market_seed == other.car_market_seed
        &&& self.balance == other.balance
    }

    /// A fresh garage: no heat, no inventory, markets stocked from their opening seeds.
    pub open spec fn is_fresh(&self, cash: i32, cars: Seq<Car>, balance: BalanceConfig) -> bool {
        &&& self.cash == cash
        &&& self.heat == 0
        &&& self.cars@ == cars
        &&& self.inventory@.len() == 0
        &&& black_market_offers_for(self.black_market@, 101, &balance)
        &&& car_market_offers_for(self.car_market@, 303, &balance)
        &&& self.black_market_seed == 154
        &&& self.car_market_seed == 356
        &&& self.balance == balance
    }

    pub fn new(cash: i32, cars: Vec<Car>) -> (r: Self)
        ensures
            r.is_fresh(cash, cars@, BalanceConfig::spec_default()),
    {
        let balance = BalanceConfig::default();
        Garage {
            cash,
            heat: 0,
            cars,
            inventory: Vec::new(),
            black_market: generate_black_market_offers(101, &balance),
            car_market: generate_car_market_offers(303, &balance),
            black_market_seed: 154,
            car_market_seed: 356,
            balance,
        }
    }

    pub fn with_balance(cash: i32, cars: Vec<Car>, balance: BalanceConfig) -> (r: Self)
        ensures
            r.is_fresh(cash, cars@, balance),
    {
        Garage {
            cash,
            heat: 0,
            cars,
            inventory: Vec::new(),
            black_market: generate_black_market_offers(101, &balance),
            car_market: generate_car_market_offers(303, &balance),
            black_market_seed: 154,
            car_market_seed: 356,
            balance,
        }
    }

    pub fn starter() -> (r: Self)
        ensures
            r.is_fresh(750, r.cars@, BalanceConfig::spec_default()),
            cars_match_kinds(r.cars@, starter_kinds()),
    {
        Self::new(750, starter_car_catalog())
    }

    /// Driving a job with a car can be computed and its payout added to the cash.
    pub open spec fn job_run_defined(&self, car_index: int, job: Job, seed: u64) -> bool {
        let car = self.cars@[car_index];
        &&& job_defined(car, job, seed, &self.balance)
        &&& i32::MIN <= self.cash + job_result(car, job, seed, &self.balance).1 <= i32::MAX
    }

    pub fn run_job(&mut self, car_index: usize, job: &Job, seed: u64) -> (r: Option<JobReport>)
        requires
            car_index < old(self).cars@.len() ==> old(self).job_run_defined(car_index as int, *job, seed),
        ensures
            car_index >= old(self).cars@.len() ==> r is None && *final(self) == *old(self),
            car_index < old(self).cars@.len() ==> {
                let car = old(self).cars@[car_index as int];
                let (completed, payout, heat, events, condition) = job_result(
                    car,
                    *job,
                    seed,
                    &old(self).balance,
                );
                let loot = if completed {
                    loot_kinds(job, wrapping_offset(seed, 211), &old(self).balance)
                } else {
                    Seq::empty()
                };
                &&& r matches Some(report)
                &&& report.car_name == car.name
                &&& report.job_name == job.name
                &&& report.outcome.completed == completed
                &&& report.outcome.payout == payout
                &&& report.outcome.heat_gained == heat
                &&& report.outcome.events@ == events
                &&& items_match_kinds(report.loot@, loot)
                &&& final(self).cash == old(self).cash + payout
                &&& final(self).heat == old(self).heat.saturating_add(heat)
                &&& final(self).inventory@ == old(self).inventory@ + report.loot@
                &&& final(self).cars@ == old(self).cars@.update(car_index as int, car.with_condition(condition))
                &&& final(self).same_markets(*old(self))
            },
    {
        if car_index >= self.cars.len() {
            return None;
        }
        let balance = self.balance;
        let car = &mut self.cars[car_index];
        let car_name = car.name.clone();
        let outcome = resolve_job_with_config(car, job, seed, &balance);
        let loot = if outcome.completed {
            generate_loot(job, offset_seed(seed, 211), &balance)
        } else {
            Vec::new()
        };
        self.cash = self.cash + outcome.payout;
        self.heat = self.heat.saturating_add(outcome.heat_gained);
        let mut added = duplicate_items(&loot);
        self.inventory.append(&mut added);
        Some(JobReport { car_name, job_name: job.name.clone(), outcome, loot })
    }

    pub fn resolve_patrol_encounter(
        &mut self,
        car_index: usize,
        job: &Job,
        action: PatrolAction,
        seed: u64,
    ) -> (r: Option<PatrolResolution>)
        requires
            car_index < old(self).cars@.len() ==> patrol_resolution_defined(
                action,
                old(self).cars@[car_index as int],
                *job,
                old(self).heat,
                seed,
                &old(self).balance,
            ),
        ensures
            car_index >= old(self).cars@.len() ==> r is None && *final(self) == *old(self),
            car_index < old(self).cars@.len() ==> {
                let car = old(self).cars@[car_index as int];
                let res = patrol_resolution(action, car, *job, old(self).heat, seed, &old(self).balance);
                &&& r == Some(res)
                &&& final(self).heat == old(self).heat.saturating_add(res.heat_gained)
                &&& final(self).cars@ == old(self).cars@.update(
                    car_index as int,
                    car.with_condition(car.condition.damaged(res.damage)),
                )
                &&& final(self).cash == old(self).cash
                &&& final(self).inventory == old(self).inventory
                &&& final(self).same_markets(*old(self))
            },
    {
        if car_index >= self.cars.len() {
            return None;
        }
        let balance = self.balance;
        let heat = self.heat;
        let car = &mut self.cars[car_index];
        let resolution = resolve_patrol_action_with_config(car, job, heat, action, seed, &balance);
        self.heat = self.heat.saturating_add(resolution.heat_gained);
        Some(resolution)
    }

    pub fn patrol_previews(&self, car_index: usize, job: &Job) -> (r: Option<Vec<PatrolActionPreview>>)
        requires
            car_index < self.cars@.len() ==> patrol_previews_defined(
                self.cars@[car_index as int],
                *job,
                self.heat,
                &self.balance,
            ),
        ensures
            car_index >= self.cars@.len() ==> r is None,
            car_index < self.cars@.len() ==> {
                let car = self.cars@[car_index as int];
                &&& r matches Some(previews)
                &&& previews@.len() == 3
                &&& patrol_preview_shows(previews@[0], PatrolAction::BlendIn, car, *job, self.heat, &self.balance)
                &&& patrol_preview_shows(previews@[1], PatrolAction::Detour, car, *job, self.heat, &self.balance)
                &&& patrol_preview_shows(previews@[2], PatrolAction::PushSpeed, car, *job, self.heat, &self.balance)
            },
    {
        if car_index >= self.cars.len() {
            return None;
        }
        Some(patrol_action_previews_with_config(&self.cars[car_index], job, self.heat, &self.balance))
    }

    pub fn resolve_fork_encounter(
        &mut self,
        car_index: usize,
        job: &Job,
        choice: ForkChoice,
        seed: u64,
    ) -> (r: Option<ForkResolution>)
        requires
            car_index < old(self).cars@.len() ==> fork_resolution_defined(
                choice,
                old(self).cars@[car_index as int],
                *job,
                old(self).heat,
                seed,
                &old(self).balance,
            ),
        ensures
            car_index >= old(self).cars@.len() ==> r is None && *final(self) == *old(self),
            car_index < old(self).cars@.len() ==> {
                let car = old(self).cars@[car_index as int];
                let res = fork_resolution(choice, car, *job, old(self).heat, seed, &old(self).balance);
                &&& r == Some(res)
                &&& final(self).heat == old(self).heat.saturating_add(res.heat_gained)
                &&& final(self).cars@ == old(self).cars@.update(
                    car_index as int,
                    car.with_condition(car.condition.damaged(res.damage)),
                )
                &&& final(self).cash == old(self).cash
                &&& final(self).inventory == old(self).inventory
                &&& final(self).same_markets(*old(self))
            },
    {
        if car_index >= self.cars.len() {
            return None;
        }
        let balance = self.balance;
        let heat = self.heat;
        let car = &mut self.cars[car_index];
        let resolution = resolve_fork_choice_with_config(car, job, heat, choice, seed, &balance);
        self.heat = self.heat.saturating_add(resolution.heat_gained);
        Some(resolution)
    }

    pub fn fork_previews(&self, car_index: usize, job: &Job) -> (r: Option<Vec<ForkChoicePreview>>)
        requires
            car_index < self.cars@.len() ==> fork_previews_defined(
                self.cars@[car_index as int],
                *job,
                self.heat,
                &self.balance,
            ),
        ensures
            car_index >= self.cars@.len() ==> r is None,
            car_index < self.cars@.len() ==> {
                let car = self.cars@[car_index as int];
                &&& r matches Some(previews)
                &&& previews@.len() == 3
                &&& fork_preview_shows(previews@[0], ForkChoice::Highway, car, *job, self.heat, &self.balance)
                &&& fork_preview_shows(previews@[1], ForkChoice::ServiceRoad, car, *job, self.heat, &self.balance)
                &&& fork_preview_shows(previews@[2], ForkChoice::Backtrack, car, *job, self.heat, &self.balance)
            },
    {
        if car_index >= self.cars.len() {
            return None;
        }
        Some(fork_choice_previews_with_config(&self.cars[car_index], job, self.heat, &self.balance))
    }

    pub fn repair_car(&mut self, car_index: usize) -> (r: bool)
        requires
            car_index < old(self).cars@.len() ==> {
                let car = old(self).cars@[car_index as int];
                &&& car.repair_defined()
                &&& car.spec_repair_cost() != 0 && old(self).cash >= car.spec_repair_cost() ==> i32::MIN
                    <= old(self).cash - car.spec_repair_cost() <= i32::MAX
            },
        ensures
            ({
                let car = old(self).cars@[car_index as int];
                let cost = car.spec_repair_cost();
                if car_index < old(self).cars@.len() && cost != 0 && old(self).cash >= cost {
                    &&& r
                    &&& final(self).cash == old(self).cash - cost
                    &&& final(self).cars@ == old(self).cars@.update(
                        car_index as int,
                        car.with_condition(crate::car::PartCondition::spec_new()),
                    )
                    &&& final(self).heat == old(self).heat
                    &&& final(self).inventory == old(self).inventory
                    &&& final(self).same_markets(*old(self))
                } else {
                    !r && *final(self) == *old(self)
                }
            }),
    {
        if car_index >= self.cars.len() {
            return false;
        }
        let cost = self.cars[car_index].repair_cost();
        if cost == 0 || self.cash < cost {
            return false;
        }
        self.cash = self.cash - cost;
        let car = &mut self.cars[car_index];
        car.repair_fully();
        proof {
            let c = old(self).cars@[car_index as int];
            assert(self.cars@[car_index as int] == c.with_condition(crate::car::PartCondition::spec_new()));
        }
        true
    }

    pub fn sell_inventory(&mut self) -> (r: i32)
        requires
            item_sums_fit(old(self).inventory@),
            i32::MIN <= old(self).cash + item_value_total(old(self).inventory@) <= i32::MAX,
        ensures
            r == item_value_total(old(self).inventory@),
            final(self).cash == old(self).cash + r,
            final(self).inventory@.len() == 0,
            final(self).heat == old(self).heat,
            final(self).cars == old(self).cars,
            final(self).same_markets(*old(self)),
    {
        let mut total: i32 = 0;
        let mut i: usize = 0;
        while i < self.inventory.len()
            invariant
                i <= self.inventory@.len(),
                self.inventory@ == old(self).inventory@,
                item_sums_fit(self.inventory@),
                total == item_value_total(self.inventory@.take(i as int)),
            decreases self.inventory@.len() - i,
        {
            assert(self.inventory@.take(i + 1).drop_last() == self.inventory@.take(i as int));
            assert(i32::MIN <= item_value_total(self.inventory@.take(i + 1)) <= i32::MAX);
            total = total + self.inventory[i].black_market_value;
            i += 1;
        }
        assert(self.inventory@.take(self.inventory@.len() as int) == self.inventory@);
        self.inventory.clear();
        self.cash = self.cash + total;
        total
    }

    pub fn sell_inventory_item(&mut self, item_index: usize) -> (r: Option<i32>)
        requires
            item_index < old(self).inventory@.len() ==> i32::MIN <= old(self).cash
                + old(self).inventory@[item_index as int].black_market_value <= i32::MAX,
        ensures
            item_index >= old(self).inventory@.len() ==> r is None && *final(self) == *old(self),
            item_index < old(self).inventory@.len() ==> {
                let value = old(self).inventory@[item_index as int].black_market_value;
                &&& r == Some(value)
                &&& final(self).cash == old(self).cash + value
                &&& final(self).inventory@ == old(self).inventory@.remove(item_index as int)
                &&& final(self).heat == old(self).heat
                &&& final(self).cars == old(self).cars
                &&& final(self).same_markets(*old(self))
            },
    {
        if item_index >= self.inventory.len() {
            return None;
        }
        let item = self.inventory.remove(item_index);
        self.cash = self.cash + item.black_market_value;
        Some(item.black_market_value)
    }

    /// Installing the item at `item_index` on the car at `car_index` can be priced, and paid
    /// for when the cash covers it and the car is there.
    pub open spec fn install_defined(&self, item_index: int, car_index: int) -> bool {
        let items = self.inventory@;
        match items[item_index].effect {
            LootEffect::VehicleUpgrade(effect) => {
                &&& (voucher_index_from(items, item_index, 0) matches Some(v) ==> (
                    items[v].effect matches LootEffect::InstallCostVoucher(voucher) ==>
                        i32::MIN <= effect.install_cost * (100 - min_int(voucher.discount_percent as int, 100))
                        <= i32::MAX))
                &&& self.cash >= install_cost_for(items, item_index, effect.install_cost) && 0 <= car_index
                    < self.cars@.len() ==> i32::MIN
                    <= self.cash - install_cost_for(items, item_index, effect.install_cost) <= i32::MAX
            },
            _ => true,
        }
    }

    pub fn install_inventory_item(&mut self, item_index: usize, car_index: usize) -> (r: bool)
        requires
            item_index < old(self).inventory@.len() ==> old(self).install_defined(
                item_index as int,
                car_index as int,
            ),
        ensures
            ({
                let items = old(self).inventory@;
                let item = items[item_index as int];
                if item_index < items.len() && car_index < old(self).cars@.len()
                    && item.effect is VehicleUpgrade
                    && old(self).cash >= install_cost_for(items, item_index as int, item.effect->VehicleUpgrade_0.install_cost) {
                    let effect = item.effect->VehicleUpgrade_0;
                    let cost = install_cost_for(items, item_index as int, effect.install_cost);
                    let car = old(self).cars@[car_index as int];
                    let new_car = final(self).cars@[car_index as int];
                    &&& r
                    &&& final(self).cash == old(self).cash - cost
                    &&& cars_agree_except(final(self).cars@, old(self).cars@, car_index as int)
                    &&& new_car.installed_upgrades@ == car.installed_upgrades@.push(
                        InstalledUpgrade::spec_from_loot(item, effect),
                    )
                    &&& new_car.same_except_upgrades(car)
                    &&& final(self).inventory@ == match voucher_index_from(items, item_index as int, 0) {
                        Some(v) => items.remove(item_index as int).remove(
                            if v > item_index { v - 1 } else { v },
                        ),
                        None => items.remove(item_index as int),
                    }
                    &&& final(self).heat == old(self).heat
                    &&& final(self).same_markets(*old(self))
                } else {
                    !r && *final(self) == *old(self)
                }
            }),
    {
        if item_index >= self.inventory.len() {
            return false;
        }
        let base_install_cost = match self.inventory[item_index].effect {
            LootEffect::SellOnly => return false,
            LootEffect::VehicleUpgrade(effect) => effect.install_cost,
            LootEffect::InstallCostVoucher(_) => return false,
        };
        let voucher_index = self.install_cost_voucher_index(item_index);
        let install_cost = match voucher_index {
            Some(v) => match self.inventory[v].effect {
                LootEffect::InstallCostVoucher(voucher) => discounted_install_cost(
                    base_install_cost,
                    voucher.discount_percent,
                ),
                _ => base_install_cost,
            },
            None => base_install_cost,
        };
        if self.cash < install_cost {
            return false;
        }
        if car_index >= self.cars.len() {
            return false;
        }
        let item = self.inventory.remove(item_index);
        let car = &mut self.cars[car_index];
        if car.install_loot(item.duplicate()) {
            self.cash = self.cash - install_cost;
            if let Some(v) = voucher_index {
                let adjusted_index = if v > item_index { v - 1 } else { v };
                self.inventory.remove(adjusted_index);
            }
            true
        } else {
            self.inventory.insert(item_index, item);
            false
        }
    }

    fn install_cost_voucher_index(&self, installing_item_index: usize) -> (r: Option<usize>)
        ensures
            match voucher_index_from(self.inventory@, installing_item_index as int, 0) {
                Some(v) => r == Some(v as usize) && 0 <= v < self.inventory@.len()
                    && v != installing_item_index && self.inventory@[v].effect is InstallCostVoucher,
                None => r is None,
            },
    {
        let mut i: usize = self.inventory.len();
        let mut found: Option<usize> = None;
        while i > 0
            invariant
                i <= self.inventory@.len(),
                match voucher_index_from(self.inventory@, installing_item_index as int, i as nat) {
                    Some(v) => found == Some(v as usize) && i <= v < self.inventory@.len()
                        && v != installing_item_index && self.inventory@[v].effect is InstallCostVoucher,
                    None => found is None,
                },
            decreases i,
        {
            i -= 1;
            if i != installing_item_index && matches!(self.inventory[i].effect, LootEffect::InstallCostVoucher(_)) {
                found = Some(i);
            }
        }
        found
    }

    pub fn uninstall_upgrade(&mut self, car_index: usize, upgrade_index: usize) -> (r: bool)
        ensures
            ({
                let car = old(self).cars@[car_index as int];
                if car_index < old(self).cars@.len() && upgrade_index < car.installed_upgrades@.len() {
                    let new_car = final(self).cars@[car_index as int];
                    &&& r
                    &&& cars_agree_except(final(self).cars@, old(self).cars@, car_index as int)
                    &&& new_car.installed_upgrades@ == car.installed_upgrades@.remove(upgrade_index as int)
                    &&& new_car.same_except_upgrades(car)
                    &&& final(self).inventory@ == old(self).inventory@.push(
                        car.installed_upgrades@[upgrade_index as int].spec_into_loot_item(),
                    )
                    &&& final(self).cash == old(self).cash
                    &&& final(self).heat == old(self).heat
                    &&& final(self).same_markets(*old(self))
                } else {
                    !r && *final(self) == *old(self)
                }
            }),
    {
        if car_index >= self.cars.len() {
            return false;
        }
        if upgrade_index >= self.cars[car_index].installed_upgrades.len() {
            return false;
        }
        let car = &mut self.cars[car_index];
        let item = car.uninstall_upgrade(upgrade_index);
        match item {
            Some(item) => {
                self.inventory.push(item);
                true
            },
            None => false,
        }
    }

    pub fn buy_black_market_part(&mut self, offer_index: usize) -> (r: bool)
        requires
            offer_index < old(self).black_market@.len() && old(self).cash >= old(
                self,
            ).black_market@[offer_index as int].asking_price ==> i32::MIN <= old(self).cash
                - old(self).black_market@[offer_index as int].asking_price <= i32::MAX,
        ensures
            ({
                let offer = old(self).black_market@[offer_index as int];
                if offer_index < old(self).black_market@.len() && old(self).cash >= offer.asking_price {
                    &&& r
                    &&& final(self).cash == old(self).cash - offer.asking_price
                    &&& final(self).black_market@ == old(self).black_market@.remove(offer_index as int)
                    &&& final(self).inventory@ == old(self).inventory@.push(offer.item)
                    &&& final(self).cars == old(self).cars
                    &&& final(self).heat == old(self).heat
                    &&& final(self).car_market == old(self).car_market
                    &&& final(self).black_market_seed == old(self).black_market_seed
                    &&& final(self).car_market_seed == old(self).car_market_seed
                    &&& final(self).balance == old(self).balance
                } else {
                    !r && *final(self) == *old(self)
                }
            }),
    {
        if offer_index >= self.black_market.len() {
            return false;
        }
        if self.cash < self.black_market[offer_index].asking_price {
            return false;
        }
        let offer = self.black_market.remove(offer_index);
        self.cash = self.cash - offer.asking_price;
        self.inventory.push(offer.item);
        true
    }

    pub fn buy_market_car(&mut self, offer_index: usize) -> (r: bool)
        requires
            offer_index < old(self).car_market@.len() && old(self).cash >= old(
                self,
            ).car_market@[offer_index as int].asking_price ==> i32::MIN <= old(self).cash
                - old(self).car_market@[offer_index as int].asking_price <= i32::MAX,
        ensures
            ({
                let offer = old(self).car_market@[offer_index as int];
                if offer_index < old(self).car_market@.len() && old(self).cash >= offer.asking_price {
                    &&& r
                    &&& final(self).cash == old(self).cash - offer.asking_price
                    &&& final(self).car_market@ == old(self).car_market@.remove(offer_index as int)
                    &&& final(self).cars@ == old(self).cars@.push(offer.car)
                    &&& final(self).inventory == old(self).inventory
                    &&& final(self).heat == old(self).heat
                    &&& final(self).black_market == old(self).black_market
                    &&& final(self).black_market_seed == old(self).black_market_seed
                    &&& final(self).car_market_seed == old(self).car_market_seed
                    &&& final(self).balance == old(self).balance
                } else {
                    !r && *final(self) == *old(self)
                }
            }),
    {
        if offer_index >= self.car_market.len() {
            return false;
        }
        if self.cash < self.car_market[offer_index].asking_price {
            return false;
        }
        let offer = self.car_market.remove(offer_index);
        self.cash = self.cash - offer.asking_price;
        self.cars.push(offer.car);
        true
    }

    pub fn sell_car(&mut self, car_index: usize) -> (r: Option<i32>)
        requires
            1 < old(self).cars@.len() && car_index < old(self).cars@.len() ==> {
                let car = old(self).cars@[car_index as int];
                &&& sale_value_defined(car, old(self).heat)
                &&& i32::MIN <= old(self).cash + sale_value(car, old(self).heat) <= i32::MAX
            },
        ensures
            ({
                let car = old(self).cars@[car_index as int];
                if 1 < old(self).cars@.len() && car_index < old(self).cars@.len() {
                    let value = sale_value(car, old(self).heat);
                    &&& r == Some(value)
                    &&& final(self).cash == old(self).cash + value
                    &&& final(self).cars@ == old(self).cars@.remove(car_index as int)
                    &&& final(self).inventory == old(self).inventory
                    &&& final(self).heat == old(self).heat
                    &&& final(self).same_markets(*old(self))
                } else {
                    r is None && *final(self) == *old(self)
                }
            }),
    {
        if self.cars.len() <= 1 || car_index >= self.cars.len() {
            return None;
        }
        let sale_value = match self.car_sale_value(car_index) {
            Some(v) => v,
            None => return None,
        };
        self.cars.remove(car_index);
        self.cash = self.cash + sale_value;
        Some(sale_value)
    }

    pub fn car_sale_value(&self, car_index: usize) -> (r: Option<i32>)
        requires
            car_index < self.cars@.len() ==> sale_value_defined(self.cars@[car_index as int], self.heat),
        ensures
            car_index >= self.cars@.len() ==> r is None,
            car_index < self.cars@.len() ==> r == Some(sale_value(self.cars@[car_index as int], self.heat)),
    {
        if car_index >= self.cars.len() {
            return None;
        }
        Some(self.estimated_car_sale_value(&self.cars[car_index]))
    }

    pub fn estimated_car_sale_value(&self, car: &Car) -> (r: i32)
        requires
            sale_value_defined(*car, self.heat),
        ensures
            r == sale_value(*car, self.heat),
            r >= 1,
    {
        let ups = &car.installed_upgrades;
        let mut total: i32 = 0;
        let mut i: usize = 0;
        while i < ups.len()
            invariant
                i <= ups@.len(),
                sale_value_defined(*car, self.heat),
                ups@ == car.installed_upgrades@,
                total == upgrade_worth_total(ups@.take(i as int)),
            decreases ups@.len() - i,
        {
            assert(ups@.take(i + 1).drop_last() == ups@.take(i as int));
            assert(i32::MIN <= upgrade_worth_total(ups@.take(i + 1)) <= i32::MAX);
            assert(i32::MIN <= ups@[i as int].black_market_value + ups@[i as int].install_cost <= i32::MAX);
            total = total + (ups[i].black_market_value + ups[i].install_cost);
            i += 1;
        }
        assert(ups@.take(ups@.len() as int) == ups@);
        let upgrade_value = total / 2;
        let pre_discount_value = car.value + upgrade_value;
        let average = car.condition.average();
        let condition_percent: i32 = if average >= 10 { average as i32 } else { 10 };
        let raw_heat: i32 = 100 - self.heat as i32 * 10;
        let heat_percent: i32 = if raw_heat < 25 {
            25
        } else if raw_heat > 100 {
            100
        } else {
            raw_heat
        };
        let value = pre_discount_value * condition_percent * heat_percent / 10_000;
        if value >= 1 {
            value
        } else {
            1
        }
    }

    pub fn refresh_black_market(&mut self)
        ensures
            black_market_offers_for(final(self).black_market@, old(self).black_market_seed, &old(self).balance),
            final(self).black_market_seed == wrapping_offset(old(self).black_market_seed, 53),
            final(self).cash == old(self).cash,
            final(self).heat == old(self).heat,
            final(self).cars == old(self).cars,
            final(self).inventory == old(self).inventory,
            final(self).car_market == old(self).car_market,
            final(self).car_market_seed == old(self).car_market_seed,
            final(self).balance == old(self).balance,
    {
        self.black_market = generate_black_market_offers(self.black_market_seed, &self.balance);
        self.black_market_seed = offset_seed(self.black_market_seed, 53);
    }

    pub fn refresh_car_market(&mut self)
        ensures
            car_market_offers_for(final(self).car_market@, old(self).car_market_seed, &old(self).balance),
            final(self).car_market_seed == wrapping_offset(old(self).car_market_seed, 71),
            final(self).cash == old(self).cash,
            final(self).heat == old(self).heat,
            final(self).cars == old(self).cars,
            final(self).inventory == old(self).inventory,
            final(self).black_market == old(self).black_market,
            final(self).black_market_seed == old(self).black_market_seed,
            final(self).balance == old(self).balance,
    {
        self.car_market = generate_car_market_offers(self.car_market_seed, &self.balance);
        self.car_market_seed = offset_seed(self.car_market_seed, 71);
    }
}

} // verus!
