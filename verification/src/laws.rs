use vstd::prelude::*;

use crate::arith::clamp_int;
use crate::balance::BalanceConfig;
use crate::car::{Car, InstalledUpgrade, PartCondition};
use crate::car::{car_market_markup, car_market_rarities, car_market_stock};
use crate::car_table::market_kinds;
use crate::garage::{
    condition_percent, heat_percent, pre_discount_value, sale_value, sale_value_defined,
};
use crate::job::Job;
use crate::loot::{
    black_market_kinds, black_market_markup, black_market_rarities, black_market_stock,
    loot_drop_chance, loot_kinds, marked_up_price, LootItem,
};
use crate::market::{lemma_market_run, market_count, market_picks};
use crate::rng::lcg_next;
use crate::route::{
    fork_terms, patrol_terms,
    check_chance, fork_chance, fork_resolution, patrol_chance, patrol_resolution, seq_sum,
    ForkChoice, PatrolAction,
};
use crate::route_run::{backtrack_percent, RoutePhase, RouteRun};

verus! {

/// A marked-up price is always above the plain value.
pub proof fn lemma_markup_above_value(value: i32, markup_percent: u16)
    requires
        0 <= value <= 30000,
    ensures
        marked_up_price(value, markup_percent) > value,
{
    assert(0 <= value * markup_percent <= 30000 * 65535) by (nonlinear_arith)
        requires
            0 <= value <= 30000,
            markup_percent <= 65535,
    ;
}

/// A market stocks distinct catalog entries and never more than its rolled count, which is at
/// most the larger of its bounds and one.
proof fn lemma_market_stock_shape(
    rarities: Seq<crate::loot::LootRarity>,
    weights: (u8, u8, u8),
    seed: u64,
    min_count: u8,
    max_count: u8,
)
    requires
        rarities.len() < 256,
    ensures
        ({
            let picks = market_picks(rarities, weights, seed, min_count, max_count);
            &&& picks.no_duplicates()
            &&& forall|i: int| 0 <= i < picks.len() ==> #[trigger] picks[i] < rarities.len()
            &&& picks.len() <= market_count(seed, min_count, max_count)
            &&& market_count(seed, min_count, max_count) <= if max_count >= 1 { max_count as nat } else { 1 }
        }),
{
    let count = market_count(seed, min_count, max_count);
    lemma_market_run(rarities, weights, lcg_next(seed), Seq::empty(), count, count * 12);
}

/// Catalog law: no two entries of the black-market catalog share a name.
pub proof fn lemma_black_market_names_distinct()
    ensures
        forall|a: int, b: int|
            0 <= a < b < black_market_kinds().len() ==> (#[trigger] black_market_kinds()[a]).spec_row().name@
                != (#[trigger] black_market_kinds()[b]).spec_row().name@,
{
    reveal_strlit("Tinted window film");
    reveal_strlit("Reinforced skid plate");
    reveal_strlit("Forged plate kit");
    reveal_strlit("Salvaged all-terrain tires");
    reveal_strlit("Shop manual bundle");
    reveal_strlit("Hidden compartment liner");
    reveal_strlit("Forged ECU module");
    let kinds = black_market_kinds();
    assert forall|a: int, b: int| 0 <= a < b < kinds.len() implies (#[trigger] kinds[a]).spec_row().name@
        != (#[trigger] kinds[b]).spec_row().name@ by {
        let x = kinds[a].spec_row().name@;
        let y = kinds[b].spec_row().name@;
        assert(x.len() != y.len() || x[0] != y[0]);
    }
}

/// Catalog law: no two cars of the market catalog share a name.
pub proof fn lemma_market_car_names_distinct()
    ensures
        forall|a: int, b: int|
            0 <= a < b < market_kinds().len() ==> (#[trigger] market_kinds()[a]).spec_row().name@
                != (#[trigger] market_kinds()[b]).spec_row().name@,
{
    reveal_strlit("1993 Toyota Corolla DX");
    reveal_strlit("1997 Ford Ranger XL");
    reveal_strlit("1999 Volvo V70 AWD");
    reveal_strlit("1996 Jeep Cherokee Sport");
    reveal_strlit("1995 Toyota Land Cruiser");
    let kinds = market_kinds();
    assert forall|a: int, b: int| 0 <= a < b < kinds.len() implies (#[trigger] kinds[a]).spec_row().name@
        != (#[trigger] kinds[b]).spec_row().name@ by {
        let x = kinds[a].spec_row().name@;
        let y = kinds[b].spec_row().name@;
        assert(x.len() != y.len() || x[3] != y[3]);
    }
}

/// Black-market law: every offer is a vehicle upgrade, priced above its black-market value,
/// no catalog entry, nor any name, is offered twice, and there are at most as many offers as the larger of
/// the configured maximum and one.
pub proof fn lemma_black_market_offers_are_upgrades_above_value(seed: u64, config: &BalanceConfig)
    ensures
        ({
            let stock = black_market_stock(seed, config);
            &&& forall|i: int| 0 <= i < stock.len() ==> {
                let row = (#[trigger] stock[i]).spec_row();
                &&& row.effect is VehicleUpgrade
                &&& marked_up_price(row.black_market_value, black_market_markup(row.rarity, config))
                    > row.black_market_value
            }
            &&& stock.no_duplicates()
            &&& forall|i: int, j: int|
                0 <= i < stock.len() && 0 <= j < stock.len() && i != j ==> (#[trigger] stock[i]).spec_row().name@
                    != (#[trigger] stock[j]).spec_row().name@
            &&& stock.len() <= if config.black_market_max_parts >= 1 {
                config.black_market_max_parts as nat
            } else {
                1
            }
        }),
{
    let weights = (
        config.black_market_common_weight,
        config.black_market_uncommon_weight,
        config.black_market_rare_weight,
    );
    let picks = market_picks(
        black_market_rarities(),
        weights,
        seed,
        config.black_market_min_parts,
        config.black_market_max_parts,
    );
    lemma_market_stock_shape(
        black_market_rarities(),
        weights,
        seed,
        config.black_market_min_parts,
        config.black_market_max_parts,
    );
    let kinds = black_market_kinds();
    let stock = black_market_stock(seed, config);
    assert forall|i: int| 0 <= i < stock.len() implies {
        let row = (#[trigger] stock[i]).spec_row();
        &&& row.effect is VehicleUpgrade
        &&& marked_up_price(row.black_market_value, black_market_markup(row.rarity, config))
            > row.black_market_value
    } by {
        assert(stock[i] == kinds[picks[i] as int]);
        let row = stock[i].spec_row();
        lemma_markup_above_value(row.black_market_value, black_market_markup(row.rarity, config));
    }
    assert forall|i: int, j: int| 0 <= i < stock.len() && 0 <= j < stock.len() && i != j implies stock[i]
        != stock[j] && (#[trigger] stock[i]).spec_row().name@ != (#[trigger] stock[j]).spec_row().name@ by {
        assert(picks[i] != picks[j]);
        assert(stock[i] == kinds[picks[i] as int]);
        assert(stock[j] == kinds[picks[j] as int]);
        lemma_black_market_names_distinct();
        if picks[i] < picks[j] {
            assert(kinds[picks[i] as int].spec_row().name@ != kinds[picks[j] as int].spec_row().name@);
        } else {
            assert(kinds[picks[j] as int].spec_row().name@ != kinds[picks[i] as int].spec_row().name@);
        }
    }
}

/// Car-market law: every car is offered above its value, no catalog car, nor any name, is
/// offered twice, and
/// there are at most as many offers as the larger of the configured maximum and one.
pub proof fn lemma_car_market_offers_above_value(seed: u64, config: &BalanceConfig)
    ensures
        ({
            let stock = car_market_stock(seed, config);
            &&& forall|i: int| 0 <= i < stock.len() ==> {
                let row = (#[trigger] stock[i]).spec_row();
                marked_up_price(row.value, car_market_markup(row.rarity, config)) > row.value
            }
            &&& stock.no_duplicates()
            &&& forall|i: int, j: int|
                0 <= i < stock.len() && 0 <= j < stock.len() && i != j ==> (#[trigger] stock[i]).spec_row().name@
                    != (#[trigger] stock[j]).spec_row().name@
            &&& stock.len() <= if config.car_market_max_cars >= 1 {
                config.car_market_max_cars as nat
            } else {
                1
            }
        }),
{
    let weights = (
        config.car_market_common_weight,
        config.car_market_uncommon_weight,
        config.car_market_rare_weight,
    );
    let picks = market_picks(
        car_market_rarities(),
        weights,
        seed,
        config.car_market_min_cars,
        config.car_market_max_cars,
    );
    lemma_market_stock_shape(
        car_market_rarities(),
        weights,
        seed,
        config.car_market_min_cars,
        config.car_market_max_cars,
    );
    let kinds = market_kinds();
    let stock = car_market_stock(seed, config);
    assert forall|i: int| 0 <= i < stock.len() implies {
        let row = (#[trigger] stock[i]).spec_row();
        marked_up_price(row.value, car_market_markup(row.rarity, config)) > row.value
    } by {
        assert(stock[i] == kinds[picks[i] as int]);
        let row = stock[i].spec_row();
        lemma_markup_above_value(row.value, car_market_markup(row.rarity, config));
    }
    assert forall|i: int, j: int| 0 <= i < stock.len() && 0 <= j < stock.len() && i != j implies stock[i]
        != stock[j] && (#[trigger] stock[i]).spec_row().name@ != (#[trigger] stock[j]).spec_row().name@ by {
        assert(picks[i] != picks[j]);
        assert(stock[i] == kinds[picks[i] as int]);
        assert(stock[j] == kinds[picks[j] as int]);
        lemma_market_car_names_distinct();
        if picks[i] < picks[j] {
            assert(kinds[picks[i] as int].spec_row().name@ != kinds[picks[j] as int].spec_row().name@);
        } else {
            assert(kinds[picks[j] as int].spec_row().name@ != kinds[picks[i] as int].spec_row().name@);
        }
    }
}

/// Loot law: every item a job drops is worth something on the black market.
pub proof fn lemma_loot_is_sellable(job: &Job, seed: u64, config: &BalanceConfig)
    ensures
        forall|i: int|
            0 <= i < loot_kinds(job, seed, config).len() ==> (#[trigger] loot_kinds(job, seed, config)[i]).spec_row().black_market_value
                > 0,
{
}

/// The sum of five values.
proof fn lemma_sum_five(s: Seq<int>)
    requires
        s.len() == 5,
    ensures
        seq_sum(s) == s[0] + s[1] + s[2] + s[3] + s[4],
{
    reveal_with_fuel(seq_sum, 6);
    assert(s.drop_last().drop_last().drop_last().drop_last().drop_last().len() == 0);
}

/// The sum of six values.
proof fn lemma_sum_six(s: Seq<int>)
    requires
        s.len() == 6,
    ensures
        seq_sum(s) == s[0] + s[1] + s[2] + s[3] + s[4] + s[5],
{
    reveal_with_fuel(seq_sum, 7);
    assert(s.drop_last().drop_last().drop_last().drop_last().drop_last().drop_last().len() == 0);
}

/// Holding a value between ordered bounds keeps the order of values.
proof fn lemma_clamp_monotone(x: int, y: int, lo: int, hi: int)
    requires
        x <= y,
        lo <= hi,
    ensures
        clamp_int(x, lo, hi) <= clamp_int(y, lo, hi),
{
}

/// Odds of checks whose modifier sums are ordered are ordered the same way.
proof fn lemma_chance_monotone(low: Seq<int>, high: Seq<int>, config: &BalanceConfig)
    requires
        seq_sum(low) <= seq_sum(high),
        config.chance_min <= config.chance_max,
    ensures
        check_chance(low, config) <= check_chance(high, config),
{
    lemma_clamp_monotone(seq_sum(low), seq_sum(high), config.chance_min as int, config.chance_max as int);
}

/// A larger factor gives a larger product with a non-negative multiplier.
proof fn lemma_scale_monotone(a: int, b: int, m: int)
    requires
        a <= b,
        m >= 0,
    ensures
        a * m <= b * m,
{
    assert(a * m <= b * m) by (nonlinear_arith)
        requires
            a <= b,
            m >= 0,
    ;
}

/// The garage-heat multiplier of a patrol action.
pub open spec fn patrol_heat_multiplier(action: PatrolAction, config: &BalanceConfig) -> i16 {
    match action {
        PatrolAction::BlendIn => config.patrol_blend_garage_heat_multiplier,
        PatrolAction::Detour => config.patrol_detour_garage_heat_multiplier,
        PatrolAction::PushSpeed => config.patrol_push_garage_heat_multiplier,
    }
}

/// Heat law: with a non-negative garage-heat multiplier, more garage heat never raises the odds
/// of a patrol action.
pub proof fn lemma_patrol_odds_fall_with_heat(
    action: PatrolAction,
    car: Car,
    job: Job,
    low_heat: u8,
    high_heat: u8,
    config: &BalanceConfig,
)
    requires
        low_heat <= high_heat,
        patrol_heat_multiplier(action, config) >= 0,
        config.chance_min <= config.chance_max,
    ensures
        patrol_chance(action, car, job, high_heat, config) <= patrol_chance(action, car, job, low_heat, config),
{
    let hot = patrol_terms(action, car, job, high_heat, config);
    let cool = patrol_terms(action, car, job, low_heat, config);
    let m = patrol_heat_multiplier(action, config) as int;
    lemma_scale_monotone(low_heat as int, high_heat as int, m);
    match action {
        PatrolAction::PushSpeed => {
            lemma_sum_six(hot);
            lemma_sum_six(cool);
        },
        _ => {
            lemma_sum_five(hot);
            lemma_sum_five(cool);
        },
    }
    lemma_chance_monotone(hot, cool, config);
}

/// The garage-heat multiplier of a risky fork choice (backtracking has no roll).
pub open spec fn fork_heat_multiplier(choice: ForkChoice, config: &BalanceConfig) -> i16 {
    match choice {
        ForkChoice::Highway => config.fork_highway_garage_heat_multiplier,
        ForkChoice::ServiceRoad => config.fork_service_garage_heat_multiplier,
        ForkChoice::Backtrack => 0,
    }
}

/// Heat law for forks: with a non-negative garage-heat multiplier, more garage heat never
/// raises the odds of a risky fork choice.
pub proof fn lemma_fork_odds_fall_with_heat(
    choice: ForkChoice,
    car: Car,
    job: Job,
    low_heat: u8,
    high_heat: u8,
    config: &BalanceConfig,
)
    requires
        low_heat <= high_heat,
        choice != ForkChoice::Backtrack,
        fork_heat_multiplier(choice, config) >= 0,
        config.chance_min <= config.chance_max,
    ensures
        fork_chance(choice, car, job, high_heat, config)->0 <= fork_chance(choice, car, job, low_heat, config)->0,
{
    let hot = fork_terms(choice, car, job, high_heat, config);
    let cool = fork_terms(choice, car, job, low_heat, config);
    lemma_scale_monotone(low_heat as int, high_heat as int, fork_heat_multiplier(choice, config) as int);
    lemma_sum_five(hot);
    lemma_sum_five(cool);
    lemma_chance_monotone(hot, cool, config);
}

/// Every part of `worn` is in no better shape than the same part of `base`.
pub open spec fn no_better(worn: PartCondition, base: PartCondition) -> bool {
    &&& worn.engine <= base.engine
    &&& worn.suspension <= base.suspension
    &&& worn.tires <= base.tires
    &&& worn.body <= base.body
}

/// Wear never raises a car's effective stats or its average condition.
pub proof fn lemma_wear_lowers_stats(car: Car, worn: PartCondition)
    requires
        car.stats_defined(),
        car.with_condition(worn).stats_defined(),
        no_better(worn, car.condition),
    ensures
        car.with_condition(worn).spec_effective_stats().stealth <= car.spec_effective_stats().stealth,
        car.with_condition(worn).spec_effective_stats().drivetrain <= car.spec_effective_stats().drivetrain,
        worn.spec_average() <= car.condition.spec_average(),
{
}

/// A smaller dividend gives a smaller quotient for a positive divisor.
proof fn lemma_div_monotone(a: int, b: int, d: int)
    requires
        0 <= a <= b,
        d > 0,
    ensures
        a / d <= b / d,
{
    vstd::arithmetic::div_mod::lemma_div_is_ordered(a, b, d);
}

/// Wear law: with a non-negative stealth multiplier and positive condition divisors, a car in
/// worse shape never has better odds on a patrol action.
pub proof fn lemma_patrol_odds_fall_with_wear(
    action: PatrolAction,
    car: Car,
    worn: PartCondition,
    job: Job,
    heat: u8,
    config: &BalanceConfig,
)
    requires
        car.stats_defined(),
        car.with_condition(worn).stats_defined(),
        config.chance_min <= config.chance_max,
        config.patrol_detour_condition_divisor > 0,
        config.patrol_push_condition_divisor > 0,
        config.patrol_blend_stealth_multiplier >= 0,
        no_better(worn, car.condition),
    ensures
        patrol_chance(action, car.with_condition(worn), job, heat, config) <= patrol_chance(
            action,
            car,
            job,
            heat,
            config,
        ),
{
    let w = car.with_condition(worn);
    let hurt = patrol_terms(action, w, job, heat, config);
    let fine = patrol_terms(action, car, job, heat, config);
    lemma_wear_lowers_stats(car, worn);
    match action {
        PatrolAction::BlendIn => {
            lemma_scale_monotone(
                w.spec_effective_stats().stealth as int,
                car.spec_effective_stats().stealth as int,
                config.patrol_blend_stealth_multiplier as int,
            );
            lemma_sum_five(hurt);
            lemma_sum_five(fine);
        },
        PatrolAction::Detour => {
            lemma_div_monotone(
                worn.spec_average() as int,
                car.condition.spec_average() as int,
                config.patrol_detour_condition_divisor as int,
            );
            lemma_sum_five(hurt);
            lemma_sum_five(fine);
        },
        PatrolAction::PushSpeed => {
            lemma_div_monotone(
                worn.spec_average() as int,
                car.condition.spec_average() as int,
                config.patrol_push_condition_divisor as int,
            );
            lemma_sum_six(hurt);
            lemma_sum_six(fine);
        },
    }
    lemma_chance_monotone(hurt, fine, config);
}

/// Consistency law: a patrol action is rolled against exactly the odds its preview shows.
pub proof fn lemma_patrol_resolution_uses_previewed_odds(
    action: PatrolAction,
    car: Car,
    job: Job,
    heat: u8,
    seed: u64,
    config: &BalanceConfig,
)
    ensures
        patrol_resolution(action, car, job, heat, seed, config).chance == patrol_chance(action, car, job, heat, config),
        patrol_resolution(action, car, job, heat, seed, config).success <==> patrol_resolution(
            action,
            car,
            job,
            heat,
            seed,
            config,
        ).roll <= patrol_chance(action, car, job, heat, config),
{
}

/// Consistency law: a fork choice is rolled against exactly the odds its preview shows, and
/// backtracking, whose preview shows no odds, is not rolled at all.
pub proof fn lemma_fork_resolution_uses_previewed_odds(
    choice: ForkChoice,
    car: Car,
    job: Job,
    heat: u8,
    seed: u64,
    config: &BalanceConfig,
)
    ensures
        fork_resolution(choice, car, job, heat, seed, config).chance == fork_chance(choice, car, job, heat, config),
        fork_resolution(choice, car, job, heat, seed, config).roll is None <==> choice == ForkChoice::Backtrack,
{
}

/// Backtrack law: the payout share of a backtrack never exceeds the configured share and never
/// shrinks as the run gets further along.
pub proof fn lemma_backtrack_share_grows_with_distance(base_percent: u8, earlier: u8, later: u8, distance: u8)
    requires
        earlier <= later,
    ensures
        backtrack_percent(base_percent, earlier, distance) <= backtrack_percent(base_percent, later, distance),
        backtrack_percent(base_percent, later, distance) <= base_percent,
{
    if distance > 0 {
        let t1 = if earlier + 1 <= distance { earlier + 1 } else { distance as int };
        let t2 = if later + 1 <= distance { later + 1 } else { distance as int };
        assert(base_percent * t1 <= base_percent * t2) by (nonlinear_arith)
            requires
                t1 <= t2,
                base_percent >= 0,
        ;
        lemma_div_monotone(base_percent * t1, base_percent * t2, distance as int);
        assert(base_percent * t2 <= base_percent * distance) by (nonlinear_arith)
            requires
                t2 <= distance,
                base_percent >= 0,
        ;
        lemma_div_monotone(base_percent * t2, base_percent * distance, distance as int);
        vstd::arithmetic::div_mod::lemma_div_multiples_vanish(base_percent as int, distance as int);
        assert(0 <= base_percent * t1) by (nonlinear_arith)
            requires
                t1 >= 0,
                base_percent >= 0,
        ;
    }
}

/// A non-negative product grows with each non-negative factor.
proof fn lemma_product_monotone(p: int, c1: int, c2: int, h1: int, h2: int)
    requires
        p >= 0,
        0 <= c1 <= c2,
        0 <= h1 <= h2,
    ensures
        0 <= p * c1 * h1 <= p * c2 * h2,
{
    assert(0 <= p * c1 * h1 <= p * c2 * h2) by (nonlinear_arith)
        requires
            p >= 0,
            0 <= c1 <= c2,
            0 <= h1 <= h2,
    ;
}

/// Sale law: for a car whose worth before discounts is not negative, more garage heat and more
/// wear never raise what selling it brings.
pub proof fn lemma_sale_value_falls_with_heat_and_wear(
    car: Car,
    worn: PartCondition,
    low_heat: u8,
    high_heat: u8,
)
    requires
        pre_discount_value(car) >= 0,
        no_better(worn, car.condition),
        low_heat <= high_heat,
        sale_value_defined(car, low_heat),
        sale_value_defined(car.with_condition(worn), high_heat),
    ensures
        sale_value(car.with_condition(worn), high_heat) <= sale_value(car, low_heat),
{
    let w = car.with_condition(worn);
    assert(pre_discount_value(w) == pre_discount_value(car));
    assert(heat_percent(high_heat) <= heat_percent(low_heat));
    assert(condition_percent(w) <= condition_percent(car));
    lemma_product_monotone(
        pre_discount_value(car),
        condition_percent(w),
        condition_percent(car),
        heat_percent(high_heat),
        heat_percent(low_heat),
    );
    lemma_div_monotone(
        pre_discount_value(car) * condition_percent(w) * heat_percent(high_heat),
        pre_discount_value(car) * condition_percent(car) * heat_percent(low_heat),
        10000,
    );
}

/// Upgrade law: an item installed as an upgrade comes back as the very same item when it is
/// uninstalled.
pub proof fn lemma_upgrade_round_trip(loot: LootItem)
    requires
        loot.effect is VehicleUpgrade,
    ensures
        InstalledUpgrade::spec_from_loot(loot, loot.effect->VehicleUpgrade_0).spec_into_loot_item() == loot,
{
}

/// Upgrade law: installing an upgrade and then uninstalling the last one leaves the car's
/// upgrades as they were and hands back the installed item.
pub proof fn lemma_install_then_uninstall_last(ups: Seq<InstalledUpgrade>, loot: LootItem)
    requires
        loot.effect is VehicleUpgrade,
    ensures
        ({
            let installed = ups.push(InstalledUpgrade::spec_from_loot(loot, loot.effect->VehicleUpgrade_0));
            &&& installed.remove(ups.len() as int) == ups
            &&& installed[ups.len() as int].spec_into_loot_item() == loot
        }),
{
    let installed = ups.push(InstalledUpgrade::spec_from_loot(loot, loot.effect->VehicleUpgrade_0));
    assert(installed.remove(ups.len() as int) =~= ups);
}

/// Repair law: a fully repaired car costs nothing to repair, so a second repair is refused.
pub proof fn lemma_repaired_car_costs_nothing(car: Car)
    ensures
        car.with_condition(PartCondition::spec_new()).spec_repair_cost() == 0,
{
    let fixed = car.with_condition(PartCondition::spec_new());
    let missing = 400 - fixed.condition.engine - fixed.condition.suspension - fixed.condition.tires
        - fixed.condition.body;
    assert(missing == 0);
    assert(forall|d: int| #![trigger (0int * 3 * d)] 0int * 3 * d == 0) by (nonlinear_arith);
}

/// Loot law: hotter jobs and bigger cargo never lower the chance of a loot drop.
pub proof fn lemma_loot_chance_grows_with_heat_and_cargo(low: Job, high: Job, config: &BalanceConfig)
    requires
        low.heat <= high.heat,
        low.cargo_size <= high.cargo_size,
    ensures
        loot_drop_chance(&low, config) <= loot_drop_chance(&high, config),
{
    lemma_scale_monotone(low.heat as int, high.heat as int, config.loot_job_heat_multiplier as int);
    lemma_scale_monotone(low.cargo_size as int, high.cargo_size as int, config.loot_cargo_size_multiplier as int);
}

/// Wear law for forks: with a non-negative stealth multiplier and a positive condition divisor,
/// a car in worse shape never has better odds on a risky fork choice.
pub proof fn lemma_fork_odds_fall_with_wear(
    choice: ForkChoice,
    car: Car,
    worn: PartCondition,
    job: Job,
    heat: u8,
    config: &BalanceConfig,
)
    requires
        choice != ForkChoice::Backtrack,
        car.stats_defined(),
        car.with_condition(worn).stats_defined(),
        config.chance_min <= config.chance_max,
        config.fork_service_condition_divisor > 0,
        config.fork_highway_stealth_multiplier >= 0,
        no_better(worn, car.condition),
    ensures
        fork_chance(choice, car.with_condition(worn), job, heat, config)->0 <= fork_chance(
            choice,
            car,
            job,
            heat,
            config,
        )->0,
{
    let w = car.with_condition(worn);
    let hurt = fork_terms(choice, w, job, heat, config);
    let fine = fork_terms(choice, car, job, heat, config);
    lemma_wear_lowers_stats(car, worn);
    if choice == ForkChoice::Highway {
        lemma_scale_monotone(
            w.spec_effective_stats().stealth as int,
            car.spec_effective_stats().stealth as int,
            config.fork_highway_stealth_multiplier as int,
        );
    } else {
        lemma_div_monotone(
            worn.spec_average() as int,
            car.condition.spec_average() as int,
            config.fork_service_condition_divisor as int,
        );
    }
    lemma_sum_five(hurt);
    lemma_sum_five(fine);
    lemma_chance_monotone(hurt, fine, config);
}

/// Risk law: a worn car under more garage heat never gets better patrol odds than the same car
/// in better shape under less heat (with non-negative stealth and heat multipliers and positive
/// condition divisors).
pub proof fn lemma_patrol_odds_fall_with_wear_and_heat(
    action: PatrolAction,
    car: Car,
    worn: PartCondition,
    job: Job,
    low_heat: u8,
    high_heat: u8,
    config: &BalanceConfig,
)
    requires
        car.stats_defined(),
        car.with_condition(worn).stats_defined(),
        config.chance_min <= config.chance_max,
        config.patrol_detour_condition_divisor > 0,
        config.patrol_push_condition_divisor > 0,
        config.patrol_blend_stealth_multiplier >= 0,
        patrol_heat_multiplier(action, config) >= 0,
        no_better(worn, car.condition),
        low_heat <= high_heat,
    ensures
        patrol_chance(action, car.with_condition(worn), job, high_heat, config) <= patrol_chance(
            action,
            car,
            job,
            low_heat,
            config,
        ),
{
    lemma_patrol_odds_fall_with_heat(action, car.with_condition(worn), job, low_heat, high_heat, config);
    lemma_patrol_odds_fall_with_wear(action, car, worn, job, low_heat, config);
}

/// Settlement law: a run settled by arriving or by backtracking, neither wrecked nor caught,
/// settles once. The settled run no longer completes, so settling it again returns nothing and
/// changes neither the run nor the garage.
pub proof fn lemma_second_settlement_is_inert(run: RouteRun)
    requires
        run.travel_done() || run.phase is Backtrack,
        !run.car_wrecked,
        !run.caught_by_cops,
    ensures
        !(RouteRun { phase: RoutePhase::Complete, ..run }).completes(),
{
}

} // verus!
