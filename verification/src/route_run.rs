use vstd::prelude::*;

use crate::arith::{clamp_int, div_trunc, max_int, min_int, sat_mul_u8, saturating_mul_u8};
use crate::balance::BalanceConfig;
use crate::car::{Car, PartDamage};
use crate::garage::{duplicate_events, duplicate_items, Garage};
use crate::job::{Job, Terrain};
use crate::loot::{generate_loot, items_match_kinds, loot_kinds, LootItem};
use crate::rng::{d100_roll, draw, lcg_next, offset_seed, wrapping_offset, SeededRng};
use crate::route::{
    fork_choice_previews_with_config, fork_preview_shows, fork_previews_defined, fork_resolution,
    fork_resolution_defined, patrol_action_previews_with_config, patrol_preview_shows,
    patrol_previews_defined, patrol_resolution, patrol_resolution_defined,
    resolve_fork_choice_with_config, resolve_patrol_action_with_config, CheckModifier,
    ForkChoice, ForkChoicePreview, ForkResolution, JobOutcome, PatrolAction, PatrolActionPreview,
    PatrolResolution, RouteEvent,
};

verus! {

#[derive(Debug, Clone, Copy, PartialEq, Eq, Structural)]
pub enum RoutePhase {
    Segment,
    Patrol,
    Fork,
    Backtrack,
    Complete,
}

#[derive(Debug, Clone, Copy, PartialEq, Eq, Structural)]
pub enum RouteEncounterKind {
    Patrol,
    Fork,
}

#[derive(Debug, Clone, PartialEq, Eq)]
pub enum RouteEncounterPreview {
    Patrol(Vec<PatrolActionPreview>),
    Fork(Vec<ForkChoicePreview>),
}

#[derive(Debug, Clone, Copy, PartialEq, Eq)]
pub enum RouteAction {
    Patrol(PatrolAction),
    Fork(ForkChoice),
}

#[derive(Debug, Clone, Copy, PartialEq, Eq)]
pub enum RouteResolution {
    Patrol(PatrolResolution),
    Fork(ForkResolution),
}

#[derive(Debug, Clone, Copy, PartialEq, Eq, Structural)]
pub enum SegmentOutcome {
    Clear,
    Encounter(RouteEncounterKind),
    Crash,
    CaughtByCops,
}

#[derive(Debug, Clone, PartialEq, Eq)]
pub struct SegmentPreview {
    pub segment_index: u8,
    pub segment_count: u8,
    pub encounter_chance: u8,
    pub crash_chance: u8,
    pub caught_chance: u8,
    pub route_marker: String,
}

#[derive(Debug, Clone, PartialEq, Eq)]
pub struct SegmentResolution {
    pub segment_index: u8,
    pub segment_count: u8,
    pub encounter_chance: u8,
    pub crash_chance: u8,
    pub caught_chance: u8,
    pub roll: u8,
    pub outcome: SegmentOutcome,
    pub events: Vec<RouteEvent>,
    pub heat_gained: u8,
}

#[derive(Debug, Clone, PartialEq, Eq)]
pub struct RouteRun {
    pub car_index: usize,
    pub job: Job,
    pub phase: RoutePhase,
    pub payout_multiplier_percent: u8,
    pub current_segment: u8,
    pub events: Vec<RouteEvent>,
    pub heat_gained: u8,
    pub car_wrecked: bool,
    pub caught_by_cops: bool,
    pub seed: u64,
}

#[derive(Debug, Clone, PartialEq, Eq)]
pub struct RouteRunReport {
    pub outcome: JobOutcome,
    pub loot: Vec<LootItem>,
    pub payout_multiplier_percent: u8,
    pub backtracked: bool,
    pub car_wrecked: bool,
    pub caught_by_cops: bool,
}

/// The chance, in percent, that a segment turns into an encounter: heat, terrain, cargo size
/// and the payout (up to 20) on top of the base drop chance, capped at the top odds.
pub open spec fn encounter_odds(job: Job, config: &BalanceConfig) -> u8 {
    let payout_pressure = clamp_int(div_trunc(job.payout as int, 100), 0, 20) as u8;
    let raw = config.loot_base_drop_chance.saturating_add(sat_mul_u8(job.heat, 4)).saturating_add(
        job.terrain.spec_roughness(),
    ).saturating_add(sat_mul_u8(job.cargo_size, 3)).saturating_add(payout_pressure);
    min_int(raw as int, config.chance_max as int) as u8
}

/// The chance, in percent, that a segment wrecks the car: wear, terrain and heat, at most 18.
pub open spec fn crash_odds(car: Car, job: Job, garage_heat: u8) -> u8 {
    let condition_risk = ((100u8).saturating_sub(car.condition.spec_average()) / 10) as u8;
    let terrain_risk = (job.terrain.spec_roughness() / 2) as u8;
    let heat_risk = (garage_heat / 4) as u8;
    min_int(condition_risk.saturating_add(terrain_risk).saturating_add(heat_risk) as int, 18) as u8
}

/// The chance, in percent, that the police catch the driver on a segment: job heat, garage
/// heat, cargo size and the payout (up to 8), at most 16.
pub open spec fn caught_odds(job: Job, garage_heat: u8) -> u8 {
    let payout_risk = clamp_int(div_trunc(job.payout as int, 250), 0, 8) as u8;
    min_int(
        job.heat.saturating_add((garage_heat / 3) as u8).saturating_add(job.cargo_size).saturating_add(
            payout_risk,
        ) as int,
        16,
    ) as u8
}

/// The heat of getting caught: job heat plus a quarter of the garage heat, 3 to 10.
pub open spec fn caught_heat(job: Job, garage_heat: u8) -> u8 {
    min_int(max_int(job.heat.saturating_add((garage_heat / 4) as u8) as int, 3), 10) as u8
}

/// The chance, in percent, that a clear segment wears the car, capped.
pub open spec fn run_segment_stress(car: Car, job: Job, config: &BalanceConfig) -> u8 {
    let terrain = sat_mul_u8(job.terrain.spec_roughness(), config.segment_terrain_stress_multiplier);
    let two_wheel = if !car.drivetrain.spec_handles_rough_terrain() {
        terrain.saturating_add(config.segment_rough_terrain_2wd_penalty)
    } else {
        terrain
    };
    let worn = if car.condition.spec_average() < config.segment_low_condition_threshold {
        two_wheel.saturating_add(config.segment_low_condition_penalty)
    } else {
        two_wheel
    };
    min_int(worn as int, config.segment_stress_cap as int) as u8
}

/// The wear of a rough clear segment: the part hit follows the roll modulo three.
pub open spec fn run_segment_damage(terrain: Terrain, roll: u8, config: &BalanceConfig) -> PartDamage {
    let base = max_int(terrain.spec_roughness() as int, 1);
    if roll % 3 == 0 {
        PartDamage { tires: (base + config.damage_tire_extra) as u8, ..PartDamage::spec_none() }
    } else if roll % 3 == 1 {
        PartDamage { suspension: (base + config.damage_suspension_extra) as u8, ..PartDamage::spec_none() }
    } else {
        PartDamage { body: (base + config.damage_body_extra) as u8, ..PartDamage::spec_none() }
    }
}

/// A clear segment driven from a generator state: a stress roll that may wear the car, then a
/// patrol roll that may bring a close call. Yields the new condition and the events.
pub open spec fn clear_segment(car: Car, job: Job, state: u64, config: &BalanceConfig) -> (
    crate::car::PartCondition,
    Seq<RouteEvent>,
) {
    let stress = run_segment_stress(car, job, config);
    let roll = draw(state, 100);
    let damage = run_segment_damage(job.terrain, roll, config);
    let rough = roll < stress;
    let condition = if rough { car.condition.damaged(damage) } else { car.condition };
    let first = if rough { RouteEvent::RoughRoad { damage } } else { RouteEvent::SmoothSegment };
    let patrol_roll = draw(lcg_next(state), 100);
    let risk = sat_mul_u8(job.heat, config.patrol_detection_job_heat_multiplier).saturating_sub(
        car.with_condition(condition).spec_effective_stats().stealth,
    );
    if patrol_roll < risk {
        (condition, seq![first, RouteEvent::PatrolCloseCall])
    } else {
        (condition, seq![first])
    }
}

/// The damage of a rough clear segment fits in a byte for this roll.
pub open spec fn run_damage_fits(terrain: Terrain, roll: u8, config: &BalanceConfig) -> bool {
    let base = max_int(terrain.spec_roughness() as int, 1);
    if roll % 3 == 0 {
        base + config.damage_tire_extra <= 255
    } else if roll % 3 == 1 {
        base + config.damage_suspension_extra <= 255
    } else {
        base + config.damage_body_extra <= 255
    }
}

/// A clear segment can be driven from the generator state: a rough roll's damage fits in a
/// byte, and the car's stats can be computed in the condition the segment leaves it in.
pub open spec fn clear_segment_defined(car: Car, job: Job, state: u64, config: &BalanceConfig) -> bool {
    let roll = draw(state, 100);
    let (condition, _events) = clear_segment(car, job, state, config);
    &&& roll < run_segment_stress(car, job, config) ==> run_damage_fits(job.terrain, roll, config)
    &&& car.with_condition(condition).stats_defined()
}

/// The digit `d` as a character.
pub open spec fn digit_char(d: int) -> char {
    if d == 0 {
        '0'
    } else if d == 1 {
        '1'
    } else if d == 2 {
        '2'
    } else if d == 3 {
        '3'
    } else if d == 4 {
        '4'
    } else if d == 5 {
        '5'
    } else if d == 6 {
        '6'
    } else if d == 7 {
        '7'
    } else if d == 8 {
        '8'
    } else {
        '9'
    }
}

/// A byte written in decimal, without leading zeros.
pub open spec fn decimal_chars(n: u8) -> Seq<char> {
    if n >= 100 {
        seq![digit_char((n / 100) as int), digit_char(((n / 10) % 10) as int), digit_char((n % 10) as int)]
    } else if n >= 10 {
        seq![digit_char((n / 10) as int), digit_char((n % 10) as int)]
    } else {
        seq![digit_char(n as int)]
    }
}

/// What the backtrack choice of a run promises: the share of the payout it keeps.
pub open spec fn backtrack_success_chars(percent: u8) -> Seq<char> {
    "safe route, payout reduced to "@ + decimal_chars(percent) + "%"@
}

/// The preview of backtracking in a run: no roll, no modifiers, nothing lost but the payout,
/// of which it keeps `percent`.
pub open spec fn backtrack_preview_shows(p: ForkChoicePreview, percent: u8) -> bool {
    &&& p.choice == ForkChoice::Backtrack
    &&& p.check == "No roll"
    &&& p.chance is None
    &&& p.modifiers@.len() == 0
    &&& p.success@ == backtrack_success_chars(percent)
    &&& p.failure == "none"
}

/// How many of the events are close calls with a patrol.
pub open spec fn close_call_count(events: Seq<RouteEvent>) -> nat
    decreases events.len(),
{
    if events.len() == 0 {
        0
    } else {
        close_call_count(events.drop_last()) + if events.last() is PatrolCloseCall {
            1nat
        } else {
            0nat
        }
    }
}

/// The heat the close calls among the events bring.
pub open spec fn events_heat(events: Seq<RouteEvent>, config: &BalanceConfig) -> u8 {
    sat_mul_u8(close_call_count(events) as u8, config.patrol_close_call_heat)
}

/// The route strip: `=` for segments behind, `>` for the current one, `-` for those ahead.
pub open spec fn route_marker_chars(current_segment: u8, segment_count: u8) -> Seq<char> {
    Seq::new(
        segment_count as nat,
        |i: int|
            if i < current_segment {
                '='
            } else if i == current_segment {
                '>'
            } else {
                '-'
            },
    )
}

/// The payout scaled by a percentage.
pub open spec fn scaled_payout(payout: i32, multiplier_percent: u8) -> i32 {
    div_trunc(payout * multiplier_percent, 100) as i32
}

/// The payout percentage of a backtrack: the base share for the segments reached so far
/// (counting the current one), over the whole distance; nothing for a route without distance.
pub open spec fn backtrack_percent(base_percent: u8, current_segment: u8, distance: u8) -> u8 {
    if distance == 0 {
        0
    } else {
        let travelled = min_int(current_segment + 1, distance as int);
        (base_percent * travelled / distance as int) as u8
    }
}

fn segment_encounter_chance(job: &Job, config: &BalanceConfig) -> (r: u8)
    ensures
        r == encounter_odds(*job, config),
{
    let pressure = job.payout / 100;
    let payout_pressure: u8 = if pressure < 0 {
        0
    } else if pressure > 20 {
        20
    } else {
        pressure as u8
    };
    let raw = config.loot_base_drop_chance.saturating_add(saturating_mul_u8(job.heat, 4))
        .saturating_add(job.terrain.roughness()).saturating_add(saturating_mul_u8(job.cargo_size, 3))
        .saturating_add(payout_pressure);
    if raw <= config.chance_max {
        raw
    } else {
        config.chance_max
    }
}

fn segment_crash_chance(car: &Car, job: &Job, garage_heat: u8) -> (r: u8)
    ensures
        r == crash_odds(*car, *job, garage_heat),
{
    let condition_risk = 100u8.saturating_sub(car.condition.average()) / 10;
    let terrain_risk = job.terrain.roughness() / 2;
    let heat_risk = garage_heat / 4;
    let total = condition_risk.saturating_add(terrain_risk).saturating_add(heat_risk);
    if total <= 18 {
        total
    } else {
        18
    }
}

fn segment_caught_chance(job: &Job, garage_heat: u8) -> (r: u8)
    ensures
        r == caught_odds(*job, garage_heat),
{
    let risk = job.payout / 250;
    let payout_risk: u8 = if risk < 0 {
        0
    } else if risk > 8 {
        8
    } else {
        risk as u8
    };
    let total = job.heat.saturating_add(garage_heat / 3).saturating_add(job.cargo_size)
        .saturating_add(payout_risk);
    if total <= 16 {
        total
    } else {
        16
    }
}

fn caught_heat_gained(job: &Job, garage_heat: u8) -> (r: u8)
    ensures
        r == caught_heat(*job, garage_heat),
{
    let raw = job.heat.saturating_add(garage_heat / 4);
    let at_least = if raw >= 3 { raw } else { 3 };
    if at_least <= 10 {
        at_least
    } else {
        10
    }
}

fn segment_stress(car: &Car, job: &Job, config: &BalanceConfig) -> (r: u8)
    ensures
        r == run_segment_stress(*car, *job, config),
{
    let mut stress = saturating_mul_u8(job.terrain.roughness(), config.segment_terrain_stress_multiplier);
    if !car.drivetrain.handles_rough_terrain() {
        stress = stress.saturating_add(config.segment_rough_terrain_2wd_penalty);
    }
    if car.condition.average() < config.segment_low_condition_threshold {
        stress = stress.saturating_add(config.segment_low_condition_penalty);
    }
    if stress <= config.segment_stress_cap {
        stress
    } else {
        config.segment_stress_cap
    }
}

fn damage_for(terrain: Terrain, roll: u8, config: &BalanceConfig) -> (r: PartDamage)
    requires
        run_damage_fits(terrain, roll, config),
    ensures
        r == run_segment_damage(terrain, roll, config),
{
    let rough = terrain.roughness();
    let base: u8 = if rough >= 1 { rough } else { 1 };
    if roll % 3 == 0 {
        PartDamage { tires: base + config.damage_tire_extra, ..PartDamage::default() }
    } else if roll % 3 == 1 {
        PartDamage { suspension: base + config.damage_suspension_extra, ..PartDamage::default() }
    } else {
        PartDamage { body: base + config.damage_body_extra, ..PartDamage::default() }
    }
}

fn resolve_clear_segment(car: &mut Car, job: &Job, rng: &mut SeededRng, config: &BalanceConfig) -> (r:
    Vec<RouteEvent>)
    requires
        clear_segment_defined(*old(car), *job, old(rng).state, config),
    ensures
        ({
            let (condition, events) = clear_segment(*old(car), *job, old(rng).state, config);
            &&& final(car).condition == condition
            &&& r@ == events
        }),
        final(car).same_except_condition(*old(car)),
        final(rng).state == lcg_next(lcg_next(old(rng).state)),
{
    let mut events: Vec<RouteEvent> = Vec::new();
    let stress = segment_stress(car, job, config);
    let roll = rng.next_u8(100);
    if roll < stress {
        let damage = damage_for(job.terrain, roll, config);
        car.condition.apply_damage(damage);
        events.push(RouteEvent::RoughRoad { damage });
    } else {
        events.push(RouteEvent::SmoothSegment);
    }
    assert(*car == old(car).with_condition(car.condition));
    let patrol_roll = rng.next_u8(100);
    let detection_risk = saturating_mul_u8(job.heat, config.patrol_detection_job_heat_multiplier)
        .saturating_sub(car.effective_stats().stealth);
    if patrol_roll < detection_risk {
        events.push(RouteEvent::PatrolCloseCall);
    }
    events
}

/// The digit `d` as a one-character string.
fn digit_str(d: u8) -> (r: &'static str)
    requires
        d < 10,
    ensures
        r@ == seq![digit_char(d as int)],
{
    proof {
        reveal_strlit("0");
        reveal_strlit("1");
        reveal_strlit("2");
        reveal_strlit("3");
        reveal_strlit("4");
        reveal_strlit("5");
        reveal_strlit("6");
        reveal_strlit("7");
        reveal_strlit("8");
        reveal_strlit("9");
    }
    if d == 0 {
        "0"
    } else if d == 1 {
        "1"
    } else if d == 2 {
        "2"
    } else if d == 3 {
        "3"
    } else if d == 4 {
        "4"
    } else if d == 5 {
        "5"
    } else if d == 6 {
        "6"
    } else if d == 7 {
        "7"
    } else if d == 8 {
        "8"
    } else {
        "9"
    }
}

/// The promise of backtracking: the share of the payout kept, in percent.
fn backtrack_success_text(percent: u8) -> (r: String)
    ensures
        r@ == backtrack_success_chars(percent),
{
    let mut text = "safe route, payout reduced to ".to_owned();
    if percent >= 100 {
        text.append(digit_str(percent / 100));
    }
    if percent >= 10 {
        text.append(digit_str((percent / 10) % 10));
    }
    text.append(digit_str(percent % 10));
    text.append("%");
    assert(text@ =~= backtrack_success_chars(percent));
    text
}

/// The preview of backtracking in a run, with the share of the payout it keeps.
fn backtrack_preview(percent: u8) -> (r: ForkChoicePreview)
    ensures
        backtrack_preview_shows(r, percent),
{
    ForkChoicePreview {
        choice: ForkChoice::Backtrack,
        check: "No roll",
        chance: None,
        modifiers: Vec::new(),
        success: backtrack_success_text(percent),
        failure: "none",
    }
}

fn segment_heat_gained(events: &Vec<RouteEvent>, config: &BalanceConfig) -> (r: u8)
    requires
        events@.len() <= 255,
    ensures
        r == events_heat(events@, config),
{
    let mut count: u8 = 0;
    let mut i: usize = 0;
    while i < events.len()
        invariant
            i <= events@.len() <= 255,
            count == close_call_count(events@.take(i as int)),
            count <= i,
        decreases events@.len() - i,
    {
        assert(events@.take(i + 1).drop_last() == events@.take(i as int));
        if matches!(events[i], RouteEvent::PatrolCloseCall) {
            count = count + 1;
        }
        i += 1;
    }
    assert(events@.take(events@.len() as int) == events@);
    saturating_mul_u8(count, config.patrol_close_call_heat)
}

fn route_marker(current_segment: u8, segment_count: u8) -> (r: String)
    ensures
        r@ == route_marker_chars(current_segment, segment_count),
{
    let mut marker = String::new();
    let mut index: u8 = 0;
    proof {
        reveal_strlit("=");
        reveal_strlit(">");
        reveal_strlit("-");
    }
    while index < segment_count
        invariant
            index <= segment_count,
            marker@ == route_marker_chars(current_segment, segment_count).take(index as int),
            "="@ == seq!['='],
            ">"@ == seq!['>'],
            "-"@ == seq!['-'],
        decreases segment_count - index,
    {
        if index < current_segment {
            marker.append("=");
        } else if index == current_segment {
            marker.append(">");
        } else {
            marker.append("-");
        }
        assert(marker@ =~= route_marker_chars(current_segment, segment_count).take(index + 1));
        index += 1;
    }
    marker
}

fn apply_payout_multiplier(payout: i32, multiplier_percent: u8) -> (r: i32)
    requires
        i32::MIN <= payout * multiplier_percent <= i32::MAX,
    ensures
        r == scaled_payout(payout, multiplier_percent),
{
    payout * multiplier_percent as i32 / 100
}

fn backtrack_payout_multiplier_percent(base_percent: u8, current_segment: u8, distance: u8) -> (r: u8)
    ensures
        r == backtrack_percent(base_percent, current_segment, distance),
        r <= base_percent,
{
    if distance == 0 {
        return 0;
    }
    let reached = current_segment.saturating_add(1);
    let travelled: u16 = if reached <= distance { reached as u16 } else { distance as u16 };
    assert(base_percent as u16 * travelled <= 255 * 255) by (nonlinear_arith)
        requires
            base_percent <= 255,
            travelled <= 255,
    ;
    assert(base_percent * travelled / (distance as int) <= base_percent) by (nonlinear_arith)
        requires
            travelled <= distance,
            distance > 0,
            base_percent >= 0,
    ;
    (base_percent as u16 * travelled / distance as u16) as u8
}

impl RouteRun {
    /// The route, job, car and payout share are those of `other`.
    pub open spec fn same_route(&self, other: RouteRun) -> bool {
        &&& self.car_index == other.car_index
        &&& self.job == other.job
        &&& self.payout_multiplier_percent == other.payout_multiplier_percent
    }

    /// The next segment can be driven: the run is between segments, segments remain, and the
    /// car is still in the garage.
    pub open spec fn segment_ready(&self, garage: &Garage) -> bool {
        &&& self.phase is Segment
        &&& self.current_segment < self.job.distance
        &&& self.car_index < garage.cars@.len()
    }

    /// The odds of the next segment, as the preview shows them.
    pub open spec fn segment_odds(&self, garage: &Garage) -> (u8, u8, u8) {
        let car = garage.cars@[self.car_index as int];
        (
            encounter_odds(self.job, &garage.balance),
            crash_odds(car, self.job, garage.heat),
            caught_odds(self.job, garage.heat),
        )
    }

    /// The garage is unchanged but for its heat and, at most, the run's car.
    pub open spec fn garage_kept(g: Garage, old_g: Garage) -> bool {
        &&& g.cash == old_g.cash
        &&& g.inventory == old_g.inventory
        &&& g.same_markets(old_g)
    }

    pub fn new(car_index: usize, job: Job, seed: u64) -> (r: Self)
        ensures
            r.car_index == car_index,
            r.job == job,
            r.phase == RoutePhase::Segment,
            r.payout_multiplier_percent == 100,
            r.current_segment == 0,
            r.events@.len() == 0,
            r.heat_gained == 0,
            !r.car_wrecked,
            !r.caught_by_cops,
            r.seed == seed,
    {
        RouteRun {
            car_index,
            job,
            phase: RoutePhase::Segment,
            payout_multiplier_percent: 100,
            current_segment: 0,
            events: Vec::new(),
            heat_gained: 0,
            car_wrecked: false,
            caught_by_cops: false,
            seed,
        }
    }

    pub open spec fn spec_next_encounter(&self) -> Option<RouteEncounterKind> {
        match self.phase {
            RoutePhase::Patrol => Some(RouteEncounterKind::Patrol),
            RoutePhase::Fork => Some(RouteEncounterKind::Fork),
            _ => None,
        }
    }

    pub fn next_encounter(&self) -> (r: Option<RouteEncounterKind>)
        ensures
            r == self.spec_next_encounter(),
    {
        match self.phase {
            RoutePhase::Segment => None,
            RoutePhase::Patrol => Some(RouteEncounterKind::Patrol),
            RoutePhase::Fork => Some(RouteEncounterKind::Fork),
            RoutePhase::Backtrack | RoutePhase::Complete => None,
        }
    }

    pub fn segment_preview(&self, garage: &Garage) -> (r: Option<SegmentPreview>)
        ensures
            r is Some <==> self.segment_ready(garage),
            r matches Some(p) ==> {
                let (encounter, crash, caught) = self.segment_odds(garage);
                &&& p.segment_index == self.current_segment
                &&& p.segment_count == self.job.distance
                &&& p.encounter_chance == encounter
                &&& p.crash_chance == crash
                &&& p.caught_chance == caught
                &&& p.route_marker@ == route_marker_chars(self.current_segment, self.job.distance)
            },
    {
        if self.phase != RoutePhase::Segment || self.current_segment >= self.job.distance {
            return None;
        }
        if self.car_index >= garage.cars.len() {
            return None;
        }
        let car = &garage.cars[self.car_index];
        Some(SegmentPreview {
            segment_index: self.current_segment,
            segment_count: self.job.distance,
            encounter_chance: segment_encounter_chance(&self.job, &garage.balance),
            crash_chance: segment_crash_chance(car, &self.job, garage.heat),
            caught_chance: segment_caught_chance(&self.job, garage.heat),
            route_marker: route_marker(self.current_segment, self.job.distance),
        })
    }

    /// The roll of the next segment falls past the crash, capture and encounter odds, so the
    /// segment is driven clear.
    pub open spec fn segment_clears(&self, garage: &Garage) -> bool {
        let (encounter, crash, caught) = self.segment_odds(garage);
        d100_roll(self.seed) > min_int(crash.saturating_add(caught).saturating_add(encounter) as int, 100)
    }

    /// Driving the next segment can be computed: only a clear segment computes wear and stats.
    pub open spec fn segment_defined(&self, garage: &Garage) -> bool {
        self.segment_clears(garage) ==> clear_segment_defined(
            garage.cars@[self.car_index as int],
            self.job,
            lcg_next(self.seed),
            &garage.balance,
        )
    }

    /// The previews of a patrol encounter, as the run shows them.
    pub open spec fn shows_patrol_previews(&self, previews: Seq<PatrolActionPreview>, garage: &Garage) -> bool {
        let car = garage.cars@[self.car_index as int];
        &&& previews.len() == 3
        &&& patrol_preview_shows(previews[0], PatrolAction::BlendIn, car, self.job, garage.heat, &garage.balance)
        &&& patrol_preview_shows(previews[1], PatrolAction::Detour, car, self.job, garage.heat, &garage.balance)
        &&& patrol_preview_shows(previews[2], PatrolAction::PushSpeed, car, self.job, garage.heat, &garage.balance)
    }

    /// The previews of a fork, as the run shows them: backtracking tells the share of the
    /// payout it keeps at this point of the route.
    pub open spec fn shows_fork_previews(&self, previews: Seq<ForkChoicePreview>, garage: &Garage) -> bool {
        let car = garage.cars@[self.car_index as int];
        &&& previews.len() == 3
        &&& fork_preview_shows(previews[0], ForkChoice::Highway, car, self.job, garage.heat, &garage.balance)
        &&& fork_preview_shows(previews[1], ForkChoice::ServiceRoad, car, self.job, garage.heat, &garage.balance)
        &&& backtrack_preview_shows(
            previews[2],
            backtrack_percent(
                garage.balance.fork_backtrack_payout_multiplier_percent,
                self.current_segment,
                self.job.distance,
            ),
        )
    }

    pub fn resolve_segment(&mut self, garage: &mut Garage) -> (r: Option<SegmentResolution>)
        requires
            old(self).segment_ready(old(garage)) ==> old(self).segment_defined(old(garage)),
        ensures
            !old(self).segment_ready(old(garage)) ==> r is None && *final(self) == *old(self)
                && *final(garage) == *old(garage),
            old(self).segment_ready(old(garage)) ==> {
                let idx = old(self).car_index as int;
                let car = old(garage).cars@[idx];
                let job = old(self).job;
                let (encounter, crash, caught) = old(self).segment_odds(old(garage));
                let roll = d100_roll(old(self).seed);
                let caught_threshold = min_int(crash.saturating_add(caught) as int, 100);
                let encounter_threshold = min_int(
                    crash.saturating_add(caught).saturating_add(encounter) as int,
                    100,
                );
                &&& r matches Some(res)
                &&& res.segment_index == old(self).current_segment
                &&& res.segment_count == job.distance
                &&& res.encounter_chance == encounter
                &&& res.crash_chance == crash
                &&& res.caught_chance == caught
                &&& res.roll == roll
                &&& final(self).same_route(*old(self))
                &&& Self::garage_kept(*final(garage), *old(garage))
                &&& if roll <= crash {
                    &&& res.outcome == SegmentOutcome::Crash
                    &&& res.events@.len() == 0
                    &&& res.heat_gained == 0
                    &&& final(self).car_wrecked
                    &&& final(self).caught_by_cops == old(self).caught_by_cops
                    &&& final(self).phase == RoutePhase::Complete
                    &&& final(self).events@ == old(self).events@.push(RouteEvent::Breakdown)
                    &&& final(self).heat_gained == old(self).heat_gained
                    &&& final(self).current_segment == old(self).current_segment
                    &&& final(self).seed == old(self).seed
                    &&& final(garage).heat == old(garage).heat
                    &&& final(garage).cars@ == old(garage).cars@.remove(idx)
                } else if roll <= caught_threshold {
                    let heat = caught_heat(job, old(garage).heat);
                    &&& res.outcome == SegmentOutcome::CaughtByCops
                    &&& res.events@ == seq![RouteEvent::CaughtByCops]
                    &&& res.heat_gained == heat
                    &&& final(self).caught_by_cops
                    &&& final(self).car_wrecked == old(self).car_wrecked
                    &&& final(self).phase == RoutePhase::Complete
                    &&& final(self).events@ == old(self).events@.push(RouteEvent::CaughtByCops)
                    &&& final(self).heat_gained == old(self).heat_gained.saturating_add(heat)
                    &&& final(self).current_segment == old(self).current_segment
                    &&& final(self).seed == old(self).seed
                    &&& final(garage).heat == old(garage).heat.saturating_add(heat)
                    &&& final(garage).cars@ == old(garage).cars@.remove(idx)
                } else if roll <= encounter_threshold {
                    let kind = if (old(self).current_segment + roll) % 2 == 0 {
                        RouteEncounterKind::Patrol
                    } else {
                        RouteEncounterKind::Fork
                    };
                    &&& res.outcome == SegmentOutcome::Encounter(kind)
                    &&& res.events@.len() == 0
                    &&& res.heat_gained == 0
                    &&& final(self).phase == if kind is Patrol {
                        RoutePhase::Patrol
                    } else {
                        RoutePhase::Fork
                    }
                    &&& final(self).car_wrecked == old(self).car_wrecked
                    &&& final(self).caught_by_cops == old(self).caught_by_cops
                    &&& final(self).events == old(self).events
                    &&& final(self).heat_gained == old(self).heat_gained
                    &&& final(self).current_segment == old(self).current_segment
                    &&& final(self).seed == wrapping_offset(old(self).seed, 17)
                    &&& final(garage).heat == old(garage).heat
                    &&& final(garage).cars == old(garage).cars
                } else {
                    let (condition, events) = clear_segment(
                        car,
                        job,
                        lcg_next(old(self).seed),
                        &old(garage).balance,
                    );
                    let heat = events_heat(events, &old(garage).balance);
                    &&& res.outcome == SegmentOutcome::Clear
                    &&& res.events@ == events
                    &&& res.heat_gained == heat
                    &&& final(self).phase == RoutePhase::Segment
                    &&& final(self).car_wrecked == old(self).car_wrecked
                    &&& final(self).caught_by_cops == old(self).caught_by_cops
                    &&& final(self).events@ == old(self).events@ + events
                    &&& final(self).heat_gained == old(self).heat_gained.saturating_add(heat)
                    &&& final(self).current_segment == old(self).current_segment + 1
                    &&& final(self).seed == wrapping_offset(old(self).seed, 17)
                    &&& final(garage).heat == old(garage).heat.saturating_add(heat)
                    &&& final(garage).cars@ == old(garage).cars@.update(idx, car.with_condition(condition))
                }
            },
    {
        let preview = match self.segment_preview(garage) {
            Some(p) => p,
            None => return None,
        };
        let mut rng = SeededRng::new(self.seed);
        let roll = rng.d100();
        let mut events: Vec<RouteEvent> = Vec::new();
        let mut heat_gained: u8 = 0;
        let crash_chance = preview.crash_chance;
        let caught_chance = preview.caught_chance;
        let encounter_chance = preview.encounter_chance;
        if roll <= crash_chance {
            self.car_wrecked = true;
            self.phase = RoutePhase::Complete;
            self.events.push(RouteEvent::Breakdown);
            garage.cars.remove(self.car_index);
            let mut res = preview.into_resolution_parts();
            res.roll = roll;
            res.outcome = SegmentOutcome::Crash;
            res.events = events;
            res.heat_gained = heat_gained;
            return Some(res);
        }
        let caught_sum = crash_chance.saturating_add(caught_chance);
        let caught_threshold = if caught_sum <= 100 { caught_sum } else { 100 };
        if roll <= caught_threshold {
            self.caught_by_cops = true;
            self.phase = RoutePhase::Complete;
            heat_gained = caught_heat_gained(&self.job, garage.heat);
            garage.heat = garage.heat.saturating_add(heat_gained);
            self.heat_gained = self.heat_gained.saturating_add(heat_gained);
            events.push(RouteEvent::CaughtByCops);
            let mut logged = duplicate_events(&events);
            self.events.append(&mut logged);
            garage.cars.remove(self.car_index);
            let mut res = preview.into_resolution_parts();
            res.roll = roll;
            res.outcome = SegmentOutcome::CaughtByCops;
            res.events = events;
            res.heat_gained = heat_gained;
            return Some(res);
        }
        let encounter_sum = crash_chance.saturating_add(caught_chance).saturating_add(encounter_chance);
        let encounter_threshold = if encounter_sum <= 100 { encounter_sum } else { 100 };
        let outcome = if roll <= encounter_threshold {
            let encounter = if (self.current_segment as u16 + roll as u16) % 2 == 0 {
                RouteEncounterKind::Patrol
            } else {
                RouteEncounterKind::Fork
            };
            self.phase = match encounter {
                RouteEncounterKind::Patrol => RoutePhase::Patrol,
                RouteEncounterKind::Fork => RoutePhase::Fork,
            };
            SegmentOutcome::Encounter(encounter)
        } else {
            let balance = garage.balance;
            let car = &mut garage.cars[self.car_index];
            events = resolve_clear_segment(car, &self.job, &mut rng, &balance);
            heat_gained = segment_heat_gained(&events, &balance);
            garage.heat = garage.heat.saturating_add(heat_gained);
            self.heat_gained = self.heat_gained.saturating_add(heat_gained);
            let mut logged = duplicate_events(&events);
            self.events.append(&mut logged);
            self.advance_segment();
            SegmentOutcome::Clear
        };
        self.seed = offset_seed(self.seed, 17);
        let mut res = preview.into_resolution_parts();
        res.roll = roll;
        res.outcome = outcome;
        res.events = events;
        res.heat_gained = heat_gained;
        Some(res)
    }

    pub fn patrol_previews(&self, garage: &Garage) -> (r: Option<Vec<PatrolActionPreview>>)
        requires
            self.phase is Patrol && self.car_index < garage.cars@.len() ==> patrol_previews_defined(
                garage.cars@[self.car_index as int],
                self.job,
                garage.heat,
                &garage.balance,
            ),
        ensures
            r is Some <==> self.phase is Patrol && self.car_index < garage.cars@.len(),
            r matches Some(previews) ==> self.shows_patrol_previews(previews@, garage),
    {
        if self.phase != RoutePhase::Patrol {
            return None;
        }
        if self.car_index >= garage.cars.len() {
            return None;
        }
        Some(patrol_action_previews_with_config(&garage.cars[self.car_index], &self.job, garage.heat, &garage.balance))
    }

    pub fn fork_previews(&self, garage: &Garage) -> (r: Option<Vec<ForkChoicePreview>>)
        requires
            self.phase is Fork && self.car_index < garage.cars@.len() ==> fork_previews_defined(
                garage.cars@[self.car_index as int],
                self.job,
                garage.heat,
                &garage.balance,
            ),
        ensures
            r is Some <==> self.phase is Fork && self.car_index < garage.cars@.len(),
            r matches Some(previews) ==> self.shows_fork_previews(previews@, garage),
    {
        if self.phase != RoutePhase::Fork {
            return None;
        }
        if self.car_index >= garage.cars.len() {
            return None;
        }
        let mut previews = fork_choice_previews_with_config(
            &garage.cars[self.car_index],
            &self.job,
            garage.heat,
            &garage.balance,
        );
        let percent = backtrack_payout_multiplier_percent(
            garage.balance.fork_backtrack_payout_multiplier_percent,
            self.current_segment,
            self.job.distance,
        );
        // Only the run knows how far along the route is, so it words the backtrack preview.
        let _without_share = previews.pop();
        previews.push(backtrack_preview(percent));
        Some(previews)
    }

    pub fn encounter_preview(&self, garage: &Garage) -> (r: Option<RouteEncounterPreview>)
        requires
            self.phase is Patrol && self.car_index < garage.cars@.len() ==> patrol_previews_defined(
                garage.cars@[self.car_index as int],
                self.job,
                garage.heat,
                &garage.balance,
            ),
            self.phase is Fork && self.car_index < garage.cars@.len() ==> fork_previews_defined(
                garage.cars@[self.car_index as int],
                self.job,
                garage.heat,
                &garage.balance,
            ),
        ensures
            r is Some <==> (self.phase is Patrol || self.phase is Fork) && self.car_index
                < garage.cars@.len(),
            r matches Some(RouteEncounterPreview::Patrol(previews)) ==> self.phase is Patrol
                && self.shows_patrol_previews(previews@, garage),
            r matches Some(RouteEncounterPreview::Fork(previews)) ==> self.phase is Fork
                && self.shows_fork_previews(previews@, garage),
    {
        match self.phase {
            RoutePhase::Segment => None,
            RoutePhase::Patrol => match self.patrol_previews(garage) {
                Some(p) => Some(RouteEncounterPreview::Patrol(p)),
                None => None,
            },
            RoutePhase::Fork => match self.fork_previews(garage) {
                Some(p) => Some(RouteEncounterPreview::Fork(p)),
                None => None,
            },
            RoutePhase::Backtrack | RoutePhase::Complete => None,
        }
    }

    pub fn resolve_patrol(&mut self, garage: &mut Garage, action: PatrolAction) -> (r: Option<PatrolResolution>)
        requires
            old(self).phase is Patrol && old(self).car_index < old(garage).cars@.len()
                ==> patrol_resolution_defined(
                action,
                old(garage).cars@[old(self).car_index as int],
                old(self).job,
                old(garage).heat,
                old(self).seed,
                &old(garage).balance,
            ),
        ensures
            !(old(self).phase is Patrol && old(self).car_index < old(garage).cars@.len()) ==> r is None
                && *final(self) == *old(self) && *final(garage) == *old(garage),
            old(self).phase is Patrol && old(self).car_index < old(garage).cars@.len() ==> {
                let idx = old(self).car_index as int;
                let car = old(garage).cars@[idx];
                let res = patrol_resolution(action, car, old(self).job, old(garage).heat, old(self).seed, &old(garage).balance);
                &&& r == Some(res)
                &&& final(garage).heat == old(garage).heat.saturating_add(res.heat_gained)
                &&& final(garage).cars@ == old(garage).cars@.update(idx, car.with_condition(car.condition.damaged(res.damage)))
                &&& Self::garage_kept(*final(garage), *old(garage))
                &&& final(self).heat_gained == old(self).heat_gained.saturating_add(res.heat_gained)
                &&& final(self).seed == wrapping_offset(old(self).seed, 17)
                &&& final(self).current_segment == old(self).current_segment.saturating_add(1)
                &&& final(self).phase == RoutePhase::Segment
                &&& final(self).same_route(*old(self))
                &&& final(self).events == old(self).events
                &&& final(self).car_wrecked == old(self).car_wrecked
                &&& final(self).caught_by_cops == old(self).caught_by_cops
            },
    {
        if self.phase != RoutePhase::Patrol {
            return None;
        }
        if self.car_index >= garage.cars.len() {
            return None;
        }
        let balance = garage.balance;
        let heat = garage.heat;
        let car = &mut garage.cars[self.car_index];
        let resolution = resolve_patrol_action_with_config(car, &self.job, heat, action, self.seed, &balance);
        garage.heat = garage.heat.saturating_add(resolution.heat_gained);
        self.heat_gained = self.heat_gained.saturating_add(resolution.heat_gained);
        self.seed = offset_seed(self.seed, 17);
        self.advance_segment();
        Some(resolution)
    }

    pub fn resolve_fork(&mut self, garage: &mut Garage, choice: ForkChoice) -> (r: Option<ForkResolution>)
        requires
            old(self).phase is Fork && old(self).car_index < old(garage).cars@.len() ==> fork_resolution_defined(
                choice,
                old(garage).cars@[old(self).car_index as int],
                old(self).job,
                old(garage).heat,
                old(self).seed,
                &old(garage).balance,
            ),
        ensures
            !(old(self).phase is Fork && old(self).car_index < old(garage).cars@.len()) ==> r is None
                && *final(self) == *old(self) && *final(garage) == *old(garage),
            old(self).phase is Fork && old(self).car_index < old(garage).cars@.len() ==> {
                let idx = old(self).car_index as int;
                let car = old(garage).cars@[idx];
                let res = fork_resolution(choice, car, old(self).job, old(garage).heat, old(self).seed, &old(garage).balance);
                let percent = if choice == ForkChoice::Backtrack {
                    backtrack_percent(
                        old(garage).balance.fork_backtrack_payout_multiplier_percent,
                        old(self).current_segment,
                        old(self).job.distance,
                    )
                } else {
                    res.payout_multiplier_percent
                };
                &&& r == Some(ForkResolution { payout_multiplier_percent: percent, ..res })
                &&& final(garage).heat == old(garage).heat.saturating_add(res.heat_gained)
                &&& final(garage).cars@ == old(garage).cars@.update(idx, car.with_condition(car.condition.damaged(res.damage)))
                &&& Self::garage_kept(*final(garage), *old(garage))
                &&& final(self).heat_gained == old(self).heat_gained.saturating_add(res.heat_gained)
                &&& final(self).seed == wrapping_offset(old(self).seed, 17)
                &&& final(self).payout_multiplier_percent == percent
                &&& if choice == ForkChoice::Backtrack {
                    &&& final(self).phase == RoutePhase::Backtrack
                    &&& final(self).current_segment == old(self).current_segment
                } else {
                    &&& final(self).phase == RoutePhase::Segment
                    &&& final(self).current_segment == old(self).current_segment.saturating_add(1)
                }
                &&& final(self).car_index == old(self).car_index
                &&& final(self).job == old(self).job
                &&& final(self).events == old(self).events
                &&& final(self).car_wrecked == old(self).car_wrecked
                &&& final(self).caught_by_cops == old(self).caught_by_cops
            },
    {
        if self.phase != RoutePhase::Fork {
            return None;
        }
        if self.car_index >= garage.cars.len() {
            return None;
        }
        let balance = garage.balance;
        let heat = garage.heat;
        let car = &mut garage.cars[self.car_index];
        let mut resolution = resolve_fork_choice_with_config(car, &self.job, heat, choice, self.seed, &balance);
        garage.heat = garage.heat.saturating_add(resolution.heat_gained);
        self.heat_gained = self.heat_gained.saturating_add(resolution.heat_gained);
        self.seed = offset_seed(self.seed, 17);
        if choice == ForkChoice::Backtrack {
            resolution.payout_multiplier_percent = backtrack_payout_multiplier_percent(
                balance.fork_backtrack_payout_multiplier_percent,
                self.current_segment,
                self.job.distance,
            );
        }
        self.payout_multiplier_percent = resolution.payout_multiplier_percent;
        if choice == ForkChoice::Backtrack {
            self.phase = RoutePhase::Backtrack;
        } else {
            self.advance_segment();
        }
        Some(resolution)
    }

    pub fn resolve_action(&mut self, garage: &mut Garage, action: RouteAction) -> (r: Option<RouteResolution>)
        requires
            old(self).car_index < old(garage).cars@.len() ==> match action {
                RouteAction::Patrol(a) => old(self).phase is Patrol ==> patrol_resolution_defined(
                    a,
                    old(garage).cars@[old(self).car_index as int],
                    old(self).job,
                    old(garage).heat,
                    old(self).seed,
                    &old(garage).balance,
                ),
                RouteAction::Fork(c) => old(self).phase is Fork ==> fork_resolution_defined(
                    c,
                    old(garage).cars@[old(self).car_index as int],
                    old(self).job,
                    old(garage).heat,
                    old(self).seed,
                    &old(garage).balance,
                ),
            },
        ensures
            match action {
                RouteAction::Patrol(a) => if old(self).phase is Patrol && old(self).car_index < old(garage).cars@.len() {
                    r == Some(RouteResolution::Patrol(patrol_resolution(
                        a,
                        old(garage).cars@[old(self).car_index as int],
                        old(self).job,
                        old(garage).heat,
                        old(self).seed,
                        &old(garage).balance,
                    )))
                } else {
                    r is None && *final(self) == *old(self) && *final(garage) == *old(garage)
                },
                RouteAction::Fork(c) => if old(self).phase is Fork && old(self).car_index < old(garage).cars@.len() {
                    let res = fork_resolution(
                        c,
                        old(garage).cars@[old(self).car_index as int],
                        old(self).job,
                        old(garage).heat,
                        old(self).seed,
                        &old(garage).balance,
                    );
                    r == Some(RouteResolution::Fork(ForkResolution {
                        payout_multiplier_percent: if c == ForkChoice::Backtrack {
                            backtrack_percent(
                                old(garage).balance.fork_backtrack_payout_multiplier_percent,
                                old(self).current_segment,
                                old(self).job.distance,
                            )
                        } else {
                            res.payout_multiplier_percent
                        },
                        ..res
                    }))
                } else {
                    r is None && *final(self) == *old(self) && *final(garage) == *old(garage)
                },
            },
    {
        match action {
            RouteAction::Patrol(action) => match self.resolve_patrol(garage, action) {
                Some(res) => Some(RouteResolution::Patrol(res)),
                None => None,
            },
            RouteAction::Fork(choice) => match self.resolve_fork(garage, choice) {
                Some(res) => Some(RouteResolution::Fork(res)),
                None => None,
            },
        }
    }

    /// The run has driven every segment and can be settled.
    pub open spec fn travel_done(&self) -> bool {
        self.phase is Segment && self.current_segment >= self.job.distance
    }

    /// Settling the run now pays out: a backtrack, or a finished route whose car is still in the
    /// garage and carried the cargo.
    pub open spec fn settles_with_payout(&self, garage: &Garage) -> bool {
        ||| self.phase is Backtrack
        ||| {
            &&& self.travel_done()
            &&& self.car_index < garage.cars@.len()
            &&& self.job.cargo_size <= garage.cars@[self.car_index as int].cargo_capacity
        }
    }

    /// Settling the run does something: a finished or backtracked route is paid out, and a
    /// wrecked or caught run is reported.
    pub open spec fn completes(&self) -> bool {
        ||| self.travel_done()
        ||| self.phase is Backtrack
        ||| (self.phase is Complete && (self.car_wrecked || self.caught_by_cops))
    }

    /// Paying out the run can be computed and added to the cash.
    pub open spec fn payout_defined(&self, garage: &Garage) -> bool {
        &&& i32::MIN <= self.job.payout * self.payout_multiplier_percent <= i32::MAX
        &&& i32::MIN <= garage.cash + scaled_payout(self.job.payout, self.payout_multiplier_percent) <= i32::MAX
    }

    pub fn complete(&mut self, garage: &mut Garage) -> (r: Option<RouteRunReport>)
        requires
            old(self).settles_with_payout(old(garage)) ==> old(self).payout_defined(old(garage)),
        ensures
            old(self).travel_done() && old(self).car_index < old(garage).cars@.len() ==> {
                let car = old(garage).cars@[old(self).car_index as int];
                let job = old(self).job;
                let completed = job.cargo_size <= car.cargo_capacity;
                let payout = if completed { scaled_payout(job.payout, old(self).payout_multiplier_percent) } else { 0 };
                let too_large = old(garage).balance.cargo_too_large_heat;
                let loot = if completed {
                    loot_kinds(&job, wrapping_offset(old(self).seed, 302), &old(garage).balance)
                } else {
                    Seq::empty()
                };
                &&& r matches Some(report)
                &&& report.outcome.completed == completed
                &&& report.outcome.payout == payout
                &&& report.outcome.heat_gained == if completed {
                    old(self).heat_gained
                } else {
                    old(self).heat_gained.saturating_add(too_large)
                }
                &&& report.outcome.events@ == if completed {
                    old(self).events@
                } else {
                    old(self).events@.push(RouteEvent::CargoTooLarge)
                }
                &&& items_match_kinds(report.loot@, loot)
                &&& report.payout_multiplier_percent == old(self).payout_multiplier_percent
                &&& !report.backtracked && !report.car_wrecked && !report.caught_by_cops
                &&& final(garage).cash == old(garage).cash + payout
                &&& final(garage).heat == if completed { old(garage).heat } else { old(garage).heat.saturating_add(too_large) }
                &&& final(garage).inventory@ == old(garage).inventory@ + report.loot@
                &&& final(garage).cars == old(garage).cars
                &&& final(garage).same_markets(*old(garage))
                &&& final(self).phase == RoutePhase::Complete
                &&& *final(self) == RouteRun { phase: RoutePhase::Complete, ..*old(self) }
            },
            old(self).travel_done() && old(self).car_index >= old(garage).cars@.len() ==> r is None
                && *final(self) == *old(self) && *final(garage) == *old(garage),
            old(self).phase is Backtrack ==> {
                let payout = scaled_payout(old(self).job.payout, old(self).payout_multiplier_percent);
                &&& r matches Some(report)
                &&& report.outcome.completed
                &&& report.outcome.payout == payout
                &&& report.outcome.heat_gained == 0
                &&& report.outcome.events@ == seq![RouteEvent::Backtracked]
                &&& report.loot@.len() == 0
                &&& report.payout_multiplier_percent == old(self).payout_multiplier_percent
                &&& report.backtracked && !report.car_wrecked && !report.caught_by_cops
                &&& final(garage).cash == old(garage).cash + payout
                &&& final(garage).heat == old(garage).heat
                &&& final(garage).inventory == old(garage).inventory
                &&& final(garage).cars == old(garage).cars
                &&& final(garage).same_markets(*old(garage))
                &&& *final(self) == RouteRun { phase: RoutePhase::Complete, ..*old(self) }
            },
            old(self).phase is Complete && (old(self).car_wrecked || old(self).caught_by_cops) ==> {
                &&& r matches Some(report)
                &&& !report.outcome.completed
                &&& report.outcome.payout == 0
                &&& report.outcome.heat_gained == old(self).heat_gained
                &&& report.outcome.events@ == old(self).events@
                &&& report.loot@.len() == 0
                &&& report.payout_multiplier_percent == 0
                &&& !report.backtracked
                &&& report.car_wrecked == old(self).car_wrecked
                &&& report.caught_by_cops == !old(self).car_wrecked
                &&& *final(self) == *old(self)
                &&& *final(garage) == *old(garage)
            },
            !old(self).completes() ==> r is None && *final(self) == *old(self) && *final(garage)
                == *old(garage),
    {
        match self.phase {
            RoutePhase::Segment => {
                if self.current_segment >= self.job.distance {
                    self.complete_travel(garage)
                } else {
                    None
                }
            },
            RoutePhase::Backtrack => Some(self.complete_backtrack(garage)),
            RoutePhase::Complete => {
                if self.car_wrecked {
                    Some(self.complete_wreck())
                } else if self.caught_by_cops {
                    Some(self.complete_caught())
                } else {
                    None
                }
            },
            _ => None,
        }
    }

    fn complete_travel(&mut self, garage: &mut Garage) -> (r: Option<RouteRunReport>)
        requires
            old(self).travel_done(),
            old(self).settles_with_payout(old(garage)) ==> old(self).payout_defined(old(garage)),
        ensures
            old(self).car_index < old(garage).cars@.len() ==> {
                let car = old(garage).cars@[old(self).car_index as int];
                let job = old(self).job;
                let completed = job.cargo_size <= car.cargo_capacity;
                let payout = if completed { scaled_payout(job.payout, old(self).payout_multiplier_percent) } else { 0 };
                let too_large = old(garage).balance.cargo_too_large_heat;
                let loot = if completed {
                    loot_kinds(&job, wrapping_offset(old(self).seed, 302), &old(garage).balance)
                } else {
                    Seq::empty()
                };
                &&& r matches Some(report)
                &&& report.outcome.completed == completed
                &&& report.outcome.payout == payout
                &&& report.outcome.heat_gained == if completed {
                    old(self).heat_gained
                } else {
                    old(self).heat_gained.saturating_add(too_large)
                }
                &&& report.outcome.events@ == if completed {
                    old(self).events@
                } else {
                    old(self).events@.push(RouteEvent::CargoTooLarge)
                }
                &&& items_match_kinds(report.loot@, loot)
                &&& report.payout_multiplier_percent == old(self).payout_multiplier_percent
                &&& !report.backtracked && !report.car_wrecked && !report.caught_by_cops
                &&& final(garage).cash == old(garage).cash + payout
                &&& final(garage).heat == if completed { old(garage).heat } else { old(garage).heat.saturating_add(too_large) }
                &&& final(garage).inventory@ == old(garage).inventory@ + report.loot@
                &&& final(garage).cars == old(garage).cars
                &&& final(garage).same_markets(*old(garage))
                &&& final(self).phase == RoutePhase::Complete
                &&& *final(self) == RouteRun { phase: RoutePhase::Complete, ..*old(self) }
            },
            old(self).car_index >= old(garage).cars@.len() ==> r is None && *final(self) == *old(self)
                && *final(garage) == *old(garage),
    {
        if self.car_index >= garage.cars.len() {
            return None;
        }
        let completed = self.job.cargo_size <= garage.cars[self.car_index].cargo_capacity;
        let payout = if completed {
            apply_payout_multiplier(self.job.payout, self.payout_multiplier_percent)
        } else {
            0
        };
        let heat_gained = if completed {
            self.heat_gained
        } else {
            self.heat_gained.saturating_add(garage.balance.cargo_too_large_heat)
        };
        let mut events = duplicate_events(&self.events);
        if !completed {
            events.push(RouteEvent::CargoTooLarge);
        }
        let outcome = JobOutcome { completed, payout, heat_gained, events };
        let loot = if completed {
            generate_loot(&self.job, offset_seed(self.seed, 302), &garage.balance)
        } else {
            Vec::new()
        };
        garage.cash = garage.cash + payout;
        if !completed {
            garage.heat = garage.heat.saturating_add(garage.balance.cargo_too_large_heat);
        }
        let mut stocked = duplicate_items(&loot);
        garage.inventory.append(&mut stocked);
        self.phase = RoutePhase::Complete;
        Some(RouteRunReport {
            outcome,
            loot,
            payout_multiplier_percent: self.payout_multiplier_percent,
            backtracked: false,
            car_wrecked: false,
            caught_by_cops: false,
        })
    }

    fn complete_backtrack(&mut self, garage: &mut Garage) -> (r: RouteRunReport)
        requires
            old(self).payout_defined(old(garage)),
        ensures
            ({
                let payout = scaled_payout(old(self).job.payout, old(self).payout_multiplier_percent);
                &&& r.outcome.completed
                &&& r.outcome.payout == payout
                &&& r.outcome.heat_gained == 0
                &&& r.outcome.events@ == seq![RouteEvent::Backtracked]
                &&& r.loot@.len() == 0
                &&& r.payout_multiplier_percent == old(self).payout_multiplier_percent
                &&& r.backtracked && !r.car_wrecked && !r.caught_by_cops
                &&& final(garage).cash == old(garage).cash + payout
                &&& final(garage).heat == old(garage).heat
                &&& final(garage).inventory == old(garage).inventory
                &&& final(garage).cars == old(garage).cars
                &&& final(garage).same_markets(*old(garage))
                &&& *final(self) == RouteRun { phase: RoutePhase::Complete, ..*old(self) }
            }),
    {
        let payout = apply_payout_multiplier(self.job.payout, self.payout_multiplier_percent);
        garage.cash = garage.cash + payout;
        self.phase = RoutePhase::Complete;
        RouteRunReport {
            outcome: JobOutcome {
                completed: true,
                payout,
                heat_gained: 0,
                events: vec![RouteEvent::Backtracked],
            },
            loot: Vec::new(),
            payout_multiplier_percent: self.payout_multiplier_percent,
            backtracked: true,
            car_wrecked: false,
            caught_by_cops: false,
        }
    }

    fn complete_wreck(&mut self) -> (r: RouteRunReport)
        ensures
            !r.outcome.completed,
            r.outcome.payout == 0,
            r.outcome.heat_gained == old(self).heat_gained,
            r.outcome.events@ == old(self).events@,
            r.loot@.len() == 0,
            r.payout_multiplier_percent == 0,
            !r.backtracked && r.car_wrecked && !r.caught_by_cops,
            *final(self) == *old(self),
    {
        RouteRunReport {
            outcome: JobOutcome {
                completed: false,
                payout: 0,
                heat_gained: self.heat_gained,
                events: duplicate_events(&self.events),
            },
            loot: Vec::new(),
            payout_multiplier_percent: 0,
            backtracked: false,
            car_wrecked: true,
            caught_by_cops: false,
        }
    }

    fn complete_caught(&mut self) -> (r: RouteRunReport)
        ensures
            !r.outcome.completed,
            r.outcome.payout == 0,
            r.outcome.heat_gained == old(self).heat_gained,
            r.outcome.events@ == old(self).events@,
            r.loot@.len() == 0,
            r.payout_multiplier_percent == 0,
            !r.backtracked && !r.car_wrecked && r.caught_by_cops,
            *final(self) == *old(self),
    {
        RouteRunReport {
            outcome: JobOutcome {
                completed: false,
                payout: 0,
                heat_gained: self.heat_gained,
                events: duplicate_events(&self.events),
            },
            loot: Vec::new(),
            payout_multiplier_percent: 0,
            backtracked: false,
            car_wrecked: false,
            caught_by_cops: true,
        }
    }

    fn advance_segment(&mut self)
        ensures
            final(self).current_segment == old(self).current_segment.saturating_add(1),
            final(self).phase == RoutePhase::Segment,
            final(self).same_route(*old(self)),
            final(self).events == old(self).events,
            final(self).heat_gained == old(self).heat_gained,
            final(self).car_wrecked == old(self).car_wrecked,
            final(self).caught_by_cops == old(self).caught_by_cops,
            final(self).seed == old(self).seed,
    {
        self.current_segment = self.current_segment.saturating_add(1);
        self.phase = RoutePhase::Segment;
    }
}

impl SegmentPreview {
    fn into_resolution_parts(self) -> (r: SegmentResolution)
        ensures
            r.segment_index == self.segment_index,
            r.segment_count == self.segment_count,
            r.encounter_chance == self.encounter_chance,
            r.crash_chance == self.crash_chance,
            r.caught_chance == self.caught_chance,
            r.roll == 0,
            r.outcome == SegmentOutcome::Clear,
            r.events@.len() == 0,
            r.heat_gained == 0,
    {
        SegmentResolution {
            segment_index: self.segment_index,
            segment_count: self.segment_count,
            encounter_chance: self.encounter_chance,
            crash_chance: self.crash_chance,
            caught_chance: self.caught_chance,
            roll: 0,
            outcome: SegmentOutcome::Clear,
            events: Vec::new(),
            heat_gained: 0,
        }
    }
}

} // verus!
