use vstd::prelude::*;

use crate::arith::{div_trunc, max_int, min_int};
use crate::balance::BalanceConfig;
use crate::car::Car;
use crate::garage::{
    condition_percent, discounted_cost, install_cost_for, pre_discount_value, sale_value,
    voucher_index_from,
};
use crate::job::Job;
use crate::loot::{LootEffect, LootItem};
use crate::route::{
    drive, drive_step, fork_resolution, job_result, patrol_resolution, ForkChoice,
    PatrolAction, RouteEvent,
};
use crate::route_run::close_call_count;

verus! {

/// Patrol law: a successful action costs nothing. A failed one costs what its preview warns of:
/// blending in draws the blend heat; a detour hits the suspension and the tires, each for the
/// terrain's roughness plus its extra, and the tires lose exactly that much; pushing speed
/// draws the push heat and hits the engine and the tires.
pub proof fn lemma_patrol_action_consequences(
    action: PatrolAction,
    car: Car,
    job: Job,
    current_heat: u8,
    seed: u64,
    config: &BalanceConfig,
)
    requires
        action == PatrolAction::Detour ==> {
            &&& job.terrain.spec_roughness() + config.patrol_detour_failure_suspension_extra <= 255
            &&& job.terrain.spec_roughness() + config.patrol_detour_failure_tires_extra <= 255
        },
    ensures
        ({
            let r = patrol_resolution(action, car, job, current_heat, seed, config);
            let rough = job.terrain.spec_roughness() as int;
            let after = car.condition.damaged(r.damage);
            &&& r.action == action
            &&& 1 <= r.roll <= 100
            &&& r.success <==> r.roll <= r.chance
            &&& r.success ==> {
                &&& r.heat_gained == 0
                &&& r.damage.engine == 0 && r.damage.suspension == 0
                &&& r.damage.tires == 0 && r.damage.body == 0
                &&& after == car.condition
            }
            &&& !r.success && action == PatrolAction::BlendIn ==> {
                &&& r.heat_gained == config.patrol_blend_failure_heat
                &&& r.damage.engine == 0 && r.damage.suspension == 0
                &&& r.damage.tires == 0 && r.damage.body == 0
            }
            &&& !r.success && action == PatrolAction::Detour ==> {
                &&& r.heat_gained == 0
                &&& r.damage.suspension == rough + config.patrol_detour_failure_suspension_extra
                &&& r.damage.tires == rough + config.patrol_detour_failure_tires_extra
                &&& r.damage.tires > 0
                &&& r.damage.engine == 0 && r.damage.body == 0
                &&& after.tires == max_int(car.condition.tires - r.damage.tires, 0)
                &&& after.suspension == max_int(car.condition.suspension - r.damage.suspension, 0)
                &&& after.engine == car.condition.engine && after.body == car.condition.body
            }
            &&& !r.success && action == PatrolAction::PushSpeed ==> {
                &&& r.heat_gained == config.patrol_push_failure_heat
                &&& r.damage.engine == config.patrol_push_failure_engine_damage
                &&& r.damage.tires == config.patrol_push_failure_tire_damage
                &&& r.damage.suspension == 0 && r.damage.body == 0
            }
        }),
{
    lemma_roll_range(seed);
}

/// Fork law: backtracking is never rolled, always succeeds, costs nothing and keeps the
/// configured share of the payout. A risky choice keeps the whole payout; on success it costs
/// nothing. A failed highway draws the highway heat and does no damage; a failed service road
/// draws no heat and hits the suspension and the tires (each for the terrain's roughness plus
/// its extra) and the body.
pub proof fn lemma_fork_choice_consequences(
    choice: ForkChoice,
    car: Car,
    job: Job,
    current_heat: u8,
    seed: u64,
    config: &BalanceConfig,
)
    requires
        choice == ForkChoice::ServiceRoad ==> {
            &&& job.terrain.spec_roughness() + config.fork_service_failure_suspension_extra <= 255
            &&& job.terrain.spec_roughness() + config.fork_service_failure_tires_extra <= 255
        },
    ensures
        ({
            let r = fork_resolution(choice, car, job, current_heat, seed, config);
            let rough = job.terrain.spec_roughness() as int;
            &&& r.choice == choice
            &&& choice == ForkChoice::Backtrack ==> {
                &&& r.chance is None && r.roll is None
                &&& r.success
                &&& r.heat_gained == 0
                &&& r.damage.engine == 0 && r.damage.suspension == 0
                &&& r.damage.tires == 0 && r.damage.body == 0
                &&& r.payout_multiplier_percent == config.fork_backtrack_payout_multiplier_percent
            }
            &&& choice != ForkChoice::Backtrack ==> {
                &&& r.chance is Some && r.roll is Some
                &&& 1 <= r.roll->0 <= 100
                &&& r.success <==> r.roll->0 <= r.chance->0
                &&& r.payout_multiplier_percent == 100
            }
            &&& choice != ForkChoice::Backtrack && r.success ==> {
                &&& r.heat_gained == 0
                &&& r.damage.engine == 0 && r.damage.suspension == 0
                &&& r.damage.tires == 0 && r.damage.body == 0
            }
            &&& !r.success && choice == ForkChoice::Highway ==> {
                &&& r.heat_gained == config.fork_highway_failure_heat
                &&& r.damage.engine == 0 && r.damage.suspension == 0
                &&& r.damage.tires == 0 && r.damage.body == 0
            }
            &&& !r.success && choice == ForkChoice::ServiceRoad ==> {
                &&& r.heat_gained == 0
                &&& r.damage.suspension == rough + config.fork_service_failure_suspension_extra
                &&& r.damage.tires == rough + config.fork_service_failure_tires_extra
                &&& r.damage.body == config.fork_service_failure_body_damage
                &&& r.damage.engine == 0
            }
        }),
{
    lemma_roll_range(seed);
}

/// A d100 roll lies between 1 and 100.
proof fn lemma_roll_range(seed: u64)
    ensures
        1 <= crate::rng::d100_roll(seed) <= 100,
{
}

/// Adding one event to a list counts one more close call exactly when it is one.
proof fn lemma_close_calls_push(events: Seq<RouteEvent>, e: RouteEvent)
    ensures
        close_call_count(events.push(e)) == close_call_count(events) + if e is PatrolCloseCall {
            1int
        } else {
            0int
        },
{
    assert(events.push(e).drop_last() =~= events);
}

/// `min(255, a) + b`, held at 255, is `min(255, a + b)` for non-negative `a` and `b`.
proof fn lemma_saturate_twice(a: int, b: int)
    requires
        a >= 0,
        b >= 0,
    ensures
        min_int(min_int(a, 255) + b, 255) == min_int(a + b, 255),
{
}

/// How a drive accumulates heat: after any number of segments its heat is the close-call heat
/// of every close call in its events, held at 255; a drive that broke down ends with the
/// breakdown.
pub proof fn lemma_drive_heat(car: Car, job: Job, seed: u64, config: &BalanceConfig, n: nat)
    ensures
        ({
            let t = drive(car, job, seed, config, n);
            &&& t.heat == min_int(close_call_count(t.events) * config.patrol_close_call_heat, 255)
            &&& t.broken_down ==> t.events.len() > 0 && t.events.last() == RouteEvent::Breakdown
        }),
    decreases n,
{
    if n > 0 {
        lemma_drive_heat(car, job, seed, config, (n - 1) as nat);
        let prev = drive(car, job, seed, config, (n - 1) as nat);
        if !prev.broken_down {
            reveal(drive_step);
            let next = drive_step(car, job, config, prev);
            assert(drive(car, job, seed, config, n) == next);
            let h = config.patrol_close_call_heat as int;
            let c = close_call_count(prev.events) as int;
            let before = car.with_condition(prev.condition);
            let stress = crate::route::job_segment_stress(before, job, config);
            let roll = crate::rng::draw(prev.state, 100);
            let damage = crate::route::job_segment_damage(job.terrain, roll, config);
            let first = if roll < stress {
                RouteEvent::RoughRoad { damage }
            } else {
                RouteEvent::SmoothSegment
            };
            let condition = if roll < stress { prev.condition.damaged(damage) } else { prev.condition };
            let patrol_roll = crate::rng::draw(crate::rng::lcg_next(prev.state), 100);
            let risk = crate::arith::sat_mul_u8(job.heat, config.patrol_detection_job_heat_multiplier)
                .saturating_sub(car.with_condition(condition).spec_effective_stats().stealth);
            let e1 = prev.events.push(first);
            lemma_close_calls_push(prev.events, first);
            assert(close_call_count(e1) == c);
            assert(c * h >= 0) by (nonlinear_arith)
                requires
                    c >= 0,
                    h >= 0,
            ;
            if patrol_roll < risk {
                let e2 = e1.push(RouteEvent::PatrolCloseCall);
                lemma_close_calls_push(e1, RouteEvent::PatrolCloseCall);
                lemma_close_calls_push(e2, RouteEvent::Breakdown);
                assert((c + 1) * h == c * h + h) by (nonlinear_arith);
                lemma_saturate_twice(c * h, h);
                assert(next.heat == min_int(min_int(c * h, 255) + h, 255));
                assert(close_call_count(next.events) == c + 1);
                assert(next.heat == min_int(close_call_count(next.events) * h, 255));
            } else {
                lemma_close_calls_push(e1, RouteEvent::Breakdown);
                assert(next.heat == prev.heat);
                assert(close_call_count(next.events) == c);
                assert(next.heat == min_int(close_call_count(next.events) * h, 255));
            }
            assert(next.broken_down ==> next.events.last() == RouteEvent::Breakdown);
        } else {
            assert(drive(car, job, seed, config, n) == prev);
        }
    } else {
        let t = drive(car, job, seed, config, n);
        assert(close_call_count(t.events) == 0);
        assert(0 * (config.patrol_close_call_heat as int) == 0);
    }
}

/// Job law: a job that fails for its cargo draws the too-large heat. Otherwise its heat is the
/// close-call heat of the close calls among its events, and a breakdown adds the breakdown heat
/// on top (both held at 255), so a broken-down job draws at least the breakdown heat. A
/// broken-down job's events end with the breakdown and it pays the payout divided by the
/// breakdown divisor, rounded toward zero; a completed job pays the whole payout.
pub proof fn lemma_job_heat_and_payout(car: Car, job: Job, seed: u64, config: &BalanceConfig)
    ensures
        ({
            let (completed, payout, heat, events, _condition) = job_result(car, job, seed, config);
            let close_heat = close_call_count(events) * config.patrol_close_call_heat;
            &&& job.cargo_size > car.cargo_capacity ==> {
                &&& !completed
                &&& payout == 0
                &&& heat == config.cargo_too_large_heat
                &&& events == seq![RouteEvent::CargoTooLarge]
            }
            &&& job.cargo_size <= car.cargo_capacity && completed ==> {
                &&& payout == job.payout
                &&& heat == min_int(close_heat, 255)
            }
            &&& job.cargo_size <= car.cargo_capacity && !completed ==> {
                &&& heat == min_int(close_heat + config.breakdown_heat, 255)
                &&& heat >= config.breakdown_heat
                &&& events.len() > 0 && events.last() == RouteEvent::Breakdown
                &&& payout == div_trunc(job.payout as int, config.breakdown_payout_divisor as int) as i32
            }
        }),
{
    lemma_drive_heat(car, job, seed, config, job.distance as nat);
    let t = drive(car, job, seed, config, job.distance as nat);
    let h = config.patrol_close_call_heat as int;
    let c = close_call_count(t.events) as int;
    assert(c * h >= 0) by (nonlinear_arith)
        requires
            c >= 0,
            h >= 0,
    ;
    lemma_saturate_twice(c * h, config.breakdown_heat as int);
}

/// Sale law: the heat discount bottoms out at a quarter of the car's worth. At any heat the
/// sale value is at least a quarter of the worth kept for condition; every heat of 8 or more
/// sells for what heat 8 does; and at no heat the car sells for its whole worth kept for
/// condition.
pub proof fn lemma_heat_discount_floor(car: Car, heat: u8)
    ensures
        crate::garage::sale_value_defined(car, heat) && pre_discount_value(car) >= 0 ==> sale_value(car, heat)
            >= div_trunc(pre_discount_value(car) * condition_percent(car) * 25, 10000),
        heat >= 8 ==> sale_value(car, heat) == sale_value(car, 8),
        sale_value(car, 0) == max_int(
            div_trunc(pre_discount_value(car) * condition_percent(car) * 100, 10000),
            1,
        ) as i32,
{
    let a = pre_discount_value(car);
    let b = condition_percent(car);
    let p = crate::garage::heat_percent(heat);
    if a >= 0 {
        assert(a * b * 25 <= a * b * p && a * b * 25 >= 0) by (nonlinear_arith)
            requires
                a >= 0,
                b >= 10,
                p >= 25,
        ;
        vstd::arithmetic::div_mod::lemma_div_is_ordered(a * b * 25, a * b * p, 10000);
    }
}

/// Voucher law: the voucher an install uses is found wherever it lies in the inventory, before
/// or after the installed item. There is one exactly when some item other than the installed
/// one is an install-cost voucher, and it is the first such item; the install then costs the
/// base cost less that voucher's discount.
pub proof fn lemma_voucher_found_anywhere(items: Seq<LootItem>, skip: int, base: i32)
    ensures
        (voucher_index_from(items, skip, 0) is Some) <==> exists|v: int|
            0 <= v < items.len() && v != skip && (#[trigger] items[v]).effect is InstallCostVoucher,
        voucher_index_from(items, skip, 0) matches Some(w) ==> {
            &&& 0 <= w < items.len()
            &&& w != skip
            &&& items[w].effect is InstallCostVoucher
            &&& forall|v: int| 0 <= v < w && v != skip ==> !((#[trigger] items[v]).effect is InstallCostVoucher)
            &&& install_cost_for(items, skip, base) == discounted_cost(
                base,
                items[w].effect->InstallCostVoucher_0.discount_percent,
            )
        },
        voucher_index_from(items, skip, 0) is None ==> install_cost_for(items, skip, base) == base,
{
    lemma_voucher_search(items, skip, 0);
}

/// The search for a voucher from `from` on finds the first voucher at or after `from` other
/// than `skip`, and finds none when there is none.
proof fn lemma_voucher_search(items: Seq<LootItem>, skip: int, from: nat)
    ensures
        (voucher_index_from(items, skip, from) is Some) <==> exists|v: int|
            from <= v < items.len() && v != skip && (#[trigger] items[v]).effect is InstallCostVoucher,
        voucher_index_from(items, skip, from) matches Some(w) ==> {
            &&& from <= w < items.len()
            &&& w != skip
            &&& items[w].effect is InstallCostVoucher
            &&& forall|v: int| from <= v < w && v != skip ==> !((#[trigger] items[v]).effect is InstallCostVoucher)
        },
    decreases items.len() - from,
{
    if from < items.len() {
        lemma_voucher_search(items, skip, from + 1);
        if !(from != skip && items[from as int].effect is InstallCostVoucher) {
            if exists|v: int|
                from <= v < items.len() && v != skip && (#[trigger] items[v]).effect is InstallCostVoucher {
                let v = choose|v: int|
                    from <= v < items.len() && v != skip && (#[trigger] items[v]).effect is InstallCostVoucher;
                assert(v != from);
                assert(from + 1 <= v);
            }
        }
    }
}

} // verus!
