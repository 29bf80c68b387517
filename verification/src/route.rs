use vstd::prelude::*;

use crate::arith::{clamp_int, div_toward_zero_i16, div_toward_zero_i32, div_trunc, sat_mul_u8, saturating_mul_u8};
use crate::balance::BalanceConfig;
use crate::car::{Car, Drivetrain, PartCondition, PartDamage};
use crate::job::{Job, Terrain};
use crate::rng::{d100_roll, draw, lcg_next, SeededRng};

verus! {

#[derive(Debug, Clone, Copy, PartialEq, Eq, Structural)]
pub enum PatrolAction {
    BlendIn,
    Detour,
    PushSpeed,
}

#[derive(Debug, Clone, Copy, PartialEq, Eq, Structural)]
pub enum ForkChoice {
    Highway,
    ServiceRoad,
    Backtrack,
}

impl ForkChoice {
    pub open spec fn spec_label(self) -> &'static str {
        match self {
            ForkChoice::Highway => "Take the highway",
            ForkChoice::ServiceRoad => "Take the service road",
            ForkChoice::Backtrack => "Backtrack",
        }
    }

    pub fn label(self) -> (r: &'static str)
        ensures
            r == self.spec_label(),
    {
        match self {
            ForkChoice::Highway => "Take the highway",
            ForkChoice::ServiceRoad => "Take the service road",
            ForkChoice::Backtrack => "Backtrack",
        }
    }
}

impl PatrolAction {
    pub open spec fn spec_label(self) -> &'static str {
        match self {
            PatrolAction::BlendIn => "Blend in",
            PatrolAction::Detour => "Detour through service roads",
            PatrolAction::PushSpeed => "Push speed",
        }
    }

    pub fn label(self) -> (r: &'static str)
        ensures
            r == self.spec_label(),
    {
        match self {
            PatrolAction::BlendIn => "Blend in",
            PatrolAction::Detour => "Detour through service roads",
            PatrolAction::PushSpeed => "Push speed",
        }
    }
}

#[derive(Debug, Clone, PartialEq, Eq)]
pub struct PatrolActionPreview {
    pub action: PatrolAction,
    pub check: &'static str,
    pub chance: u8,
    pub modifiers: Vec<CheckModifier>,
    pub success: &'static str,
    pub failure: &'static str,
}

#[derive(Debug, Clone, Copy, PartialEq, Eq)]
pub struct CheckModifier {
    pub label: &'static str,
    pub value: i16,
}

#[derive(Debug, Clone, Copy, PartialEq, Eq)]
pub struct PatrolResolution {
    pub action: PatrolAction,
    pub chance: u8,
    pub roll: u8,
    pub success: bool,
    pub heat_gained: u8,
    pub damage: PartDamage,
}

#[derive(Debug, Clone, PartialEq, Eq)]
pub struct ForkChoicePreview {
    pub choice: ForkChoice,
    pub check: &'static str,
    pub chance: Option<u8>,
    pub modifiers: Vec<CheckModifier>,
    pub success: String,
    pub failure: &'static str,
}

#[derive(Debug, Clone, Copy, PartialEq, Eq)]
pub struct ForkResolution {
    pub choice: ForkChoice,
    pub chance: Option<u8>,
    pub roll: Option<u8>,
    pub success: bool,
    pub heat_gained: u8,
    pub damage: PartDamage,
    pub payout_multiplier_percent: u8,
}

#[derive(Debug, Clone, Copy, PartialEq, Eq, Structural)]
pub enum RouteEvent {
    SmoothSegment,
    RoughRoad { damage: PartDamage },
    PatrolCloseCall,
    Backtracked,
    CaughtByCops,
    CargoTooLarge,
    Breakdown,
}

#[derive(Debug, Clone, PartialEq, Eq)]
pub struct JobOutcome {
    pub completed: bool,
    pub payout: i32,
    pub heat_gained: u8,
    pub events: Vec<RouteEvent>,
}

/// The sum of a sequence of integers.
pub open spec fn seq_sum(values: Seq<int>) -> int
    decreases values.len(),
{
    if values.len() == 0 {
        0
    } else {
        seq_sum(values.drop_last()) + values.last()
    }
}

/// The values of the modifiers, in order.
pub open spec fn modifier_values(modifiers: Seq<CheckModifier>) -> Seq<int> {
    modifiers.map_values(|m: CheckModifier| m.value as int)
}

/// The labels of the modifiers, in order.
pub open spec fn modifier_labels(modifiers: Seq<CheckModifier>) -> Seq<&'static str> {
    modifiers.map_values(|m: CheckModifier| m.label)
}

/// The odds of a check: the sum of its modifiers, held between the configured bounds.
pub open spec fn check_chance(values: Seq<int>, config: &BalanceConfig) -> u8 {
    clamp_int(seq_sum(values), config.chance_min as int, config.chance_max as int) as u8
}

/// The modifiers of a stealth check (blending in, or taking the highway).
pub open spec fn stealth_terms(
    base: i16,
    stealth_mult: i16,
    job_heat_mult: i16,
    garage_heat_mult: i16,
    cargo_mult: i16,
    car: Car,
    job: Job,
    current_heat: u8,
) -> Seq<int> {
    seq![
        base as int,
        car.spec_effective_stats().stealth * stealth_mult,
        -(job.heat * job_heat_mult),
        -(current_heat * garage_heat_mult),
        -(job.cargo_size * cargo_mult),
    ]
}

/// The modifiers of a drivetrain check (a detour, or the service road).
pub open spec fn drivetrain_terms(
    base: i16,
    terrain_mult: i16,
    condition_divisor: i16,
    garage_heat_mult: i16,
    car: Car,
    job: Job,
    current_heat: u8,
) -> Seq<int> {
    seq![
        base as int,
        car.spec_effective_stats().drivetrain as int,
        -(job.terrain.spec_roughness() * terrain_mult),
        div_trunc(car.condition.spec_average() as int, condition_divisor as int),
        -(current_heat * garage_heat_mult),
    ]
}

/// The modifiers of a check for an action, in preview order.
pub open spec fn patrol_terms(
    action: PatrolAction,
    car: Car,
    job: Job,
    current_heat: u8,
    config: &BalanceConfig,
) -> Seq<int> {
    match action {
        PatrolAction::BlendIn => stealth_terms(
            config.patrol_blend_base,
            config.patrol_blend_stealth_multiplier,
            config.patrol_blend_job_heat_multiplier,
            config.patrol_blend_garage_heat_multiplier,
            config.patrol_blend_cargo_size_multiplier,
            car,
            job,
            current_heat,
        ),
        PatrolAction::Detour => drivetrain_terms(
            config.patrol_detour_base,
            config.patrol_detour_terrain_multiplier,
            config.patrol_detour_condition_divisor,
            config.patrol_detour_garage_heat_multiplier,
            car,
            job,
            current_heat,
        ),
        PatrolAction::PushSpeed => seq![
            config.patrol_push_base as int,
            div_trunc(car.spec.engine.horsepower as i16 as int, config.patrol_push_horsepower_divisor as int),
            div_trunc(car.condition.spec_average() as int, config.patrol_push_condition_divisor as int),
            -(job.terrain.spec_roughness() * config.patrol_push_terrain_multiplier),
            -(job.heat * config.patrol_push_job_heat_multiplier),
            -(current_heat * config.patrol_push_garage_heat_multiplier),
        ],
    }
}

/// The labels of the modifiers of a check for an action.
pub open spec fn patrol_labels(action: PatrolAction) -> Seq<&'static str> {
    match action {
        PatrolAction::BlendIn => seq!["base", "effective stealth", "job heat", "garage heat", "cargo size"],
        PatrolAction::Detour => seq!["base", "effective drivetrain", "terrain", "condition", "garage heat"],
        PatrolAction::PushSpeed => seq!["base", "horsepower", "condition", "terrain", "job heat", "garage heat"],
    }
}

/// The odds, in percent, of a patrol action succeeding.
pub open spec fn patrol_chance(
    action: PatrolAction,
    car: Car,
    job: Job,
    current_heat: u8,
    config: &BalanceConfig,
) -> u8 {
    check_chance(patrol_terms(action, car, job, current_heat, config), config)
}

/// The preview shows the action's check, odds, modifiers and consequences.
pub open spec fn patrol_preview_shows(
    p: PatrolActionPreview,
    action: PatrolAction,
    car: Car,
    job: Job,
    current_heat: u8,
    config: &BalanceConfig,
) -> bool {
    &&& p.action == action
    &&& p.chance == patrol_chance(action, car, job, current_heat, config)
    &&& modifier_values(p.modifiers@) == patrol_terms(action, car, job, current_heat, config)
    &&& modifier_labels(p.modifiers@) == patrol_labels(action)
    &&& match action {
        PatrolAction::BlendIn => {
            &&& p.check == "Stealth"
            &&& p.success == "patrol loses interest"
            &&& p.failure == "+2 heat"
        },
        PatrolAction::Detour => {
            &&& p.check == "Terrain / suspension"
            &&& p.success == "avoid patrol through side roads"
            &&& p.failure == "suspension and tire damage"
        },
        PatrolAction::PushSpeed => {
            &&& p.check == "Power / tires / engine"
            &&& p.success == "escape immediately"
            &&& p.failure == "engine damage, tire damage, +1 heat"
        },
    }
}

/// The modifiers of a check for a fork choice; backtracking has none.
pub open spec fn fork_terms(
    choice: ForkChoice,
    car: Car,
    job: Job,
    current_heat: u8,
    config: &BalanceConfig,
) -> Seq<int> {
    match choice {
        ForkChoice::Highway => stealth_terms(
            config.fork_highway_base,
            config.fork_highway_stealth_multiplier,
            config.fork_highway_job_heat_multiplier,
            config.fork_highway_garage_heat_multiplier,
            config.fork_highway_cargo_size_multiplier,
            car,
            job,
            current_heat,
        ),
        ForkChoice::ServiceRoad => drivetrain_terms(
            config.fork_service_base,
            config.fork_service_terrain_multiplier,
            config.fork_service_condition_divisor,
            config.fork_service_garage_heat_multiplier,
            car,
            job,
            current_heat,
        ),
        ForkChoice::Backtrack => Seq::empty(),
    }
}

/// The labels of the modifiers of a fork choice.
pub open spec fn fork_labels(choice: ForkChoice) -> Seq<&'static str> {
    match choice {
        ForkChoice::Highway => seq!["base", "effective stealth", "job heat", "garage heat", "cargo size"],
        ForkChoice::ServiceRoad => seq!["base", "effective drivetrain", "terrain", "condition", "garage heat"],
        ForkChoice::Backtrack => Seq::empty(),
    }
}

/// The odds of a fork choice; backtracking needs no roll.
pub open spec fn fork_chance(
    choice: ForkChoice,
    car: Car,
    job: Job,
    current_heat: u8,
    config: &BalanceConfig,
) -> Option<u8> {
    match choice {
        ForkChoice::Backtrack => None,
        _ => Some(check_chance(fork_terms(choice, car, job, current_heat, config), config)),
    }
}

/// The preview shows the choice's check, odds, modifiers and consequences.
pub open spec fn fork_preview_shows(
    p: ForkChoicePreview,
    choice: ForkChoice,
    car: Car,
    job: Job,
    current_heat: u8,
    config: &BalanceConfig,
) -> bool {
    &&& p.choice == choice
    &&& p.chance == fork_chance(choice, car, job, current_heat, config)
    &&& modifier_values(p.modifiers@) == fork_terms(choice, car, job, current_heat, config)
    &&& modifier_labels(p.modifiers@) == fork_labels(choice)
    &&& match choice {
        ForkChoice::Highway => {
            &&& p.check == "Stealth / heat"
            &&& p.success@ == "fast route, no extra wear"@
            &&& p.failure == "+2 heat from highway patrol attention"
        },
        ForkChoice::ServiceRoad => {
            &&& p.check == "Drivetrain / terrain"
            &&& p.success@ == "avoid patrol pressure through rougher roads"@
            &&& p.failure == "suspension, tire, and body damage"
        },
        ForkChoice::Backtrack => {
            &&& p.check == "No roll"
            &&& p.success@ == (if config.fork_backtrack_payout_multiplier_percent == 80 {
                "safe route, payout reduced by 20%"
            } else {
                "safe route, payout reduced"
            })@
            &&& p.failure == "none"
        },
    }
}

/// `x` is an `i16`.
pub open spec fn fits_i16(x: int) -> bool {
    i16::MIN <= x <= i16::MAX
}

/// `x` is an `i16` whose negation is one too.
pub open spec fn negatable_i16(x: int) -> bool {
    -i16::MAX <= x <= i16::MAX
}

/// A stealth check can be computed: the car's stats, the scaled stealth and the negated heat
/// and cargo penalties all fit in `i16`.
pub open spec fn stealth_check_defined(
    stealth_mult: i16,
    job_heat_mult: i16,
    garage_heat_mult: i16,
    cargo_mult: i16,
    car: Car,
    job: Job,
    current_heat: u8,
) -> bool {
    &&& car.stats_defined()
    &&& fits_i16(car.spec_effective_stats().stealth * stealth_mult)
    &&& negatable_i16(job.heat * job_heat_mult)
    &&& negatable_i16(current_heat * garage_heat_mult)
    &&& negatable_i16(job.cargo_size * cargo_mult)
}

/// A drivetrain check can be computed: the car's stats, the negated terrain and heat penalties
/// fit in `i16`, and the condition divisor is not zero.
pub open spec fn drivetrain_check_defined(
    terrain_mult: i16,
    condition_divisor: i16,
    garage_heat_mult: i16,
    car: Car,
    job: Job,
    current_heat: u8,
) -> bool {
    &&& car.stats_defined()
    &&& negatable_i16(job.terrain.spec_roughness() * terrain_mult)
    &&& condition_divisor != 0
    &&& negatable_i16(current_heat * garage_heat_mult)
}

/// The check of pushing speed can be computed: both divisions are defined and the negated
/// penalties fit in `i16`. It reads no effective stat.
pub open spec fn push_check_defined(car: Car, job: Job, current_heat: u8, config: &BalanceConfig) -> bool {
    &&& config.patrol_push_horsepower_divisor != 0
    &&& !(car.spec.engine.horsepower as i16 == i16::MIN && config.patrol_push_horsepower_divisor == -1i16)
    &&& config.patrol_push_condition_divisor != 0
    &&& negatable_i16(job.terrain.spec_roughness() * config.patrol_push_terrain_multiplier)
    &&& negatable_i16(job.heat * config.patrol_push_job_heat_multiplier)
    &&& negatable_i16(current_heat * config.patrol_push_garage_heat_multiplier)
}

/// The odds of a patrol action can be computed: the clamp bounds are ordered and the action's
/// check is defined.
pub open spec fn patrol_odds_defined(
    action: PatrolAction,
    car: Car,
    job: Job,
    current_heat: u8,
    config: &BalanceConfig,
) -> bool {
    &&& config.chance_min <= config.chance_max
    &&& match action {
        PatrolAction::BlendIn => stealth_check_defined(
            config.patrol_blend_stealth_multiplier,
            config.patrol_blend_job_heat_multiplier,
            config.patrol_blend_garage_heat_multiplier,
            config.patrol_blend_cargo_size_multiplier,
            car,
            job,
            current_heat,
        ),
        PatrolAction::Detour => drivetrain_check_defined(
            config.patrol_detour_terrain_multiplier,
            config.patrol_detour_condition_divisor,
            config.patrol_detour_garage_heat_multiplier,
            car,
            job,
            current_heat,
        ),
        PatrolAction::PushSpeed => push_check_defined(car, job, current_heat, config),
    }
}

/// All three patrol previews can be computed.
pub open spec fn patrol_previews_defined(car: Car, job: Job, current_heat: u8, config: &BalanceConfig) -> bool {
    &&& patrol_odds_defined(PatrolAction::BlendIn, car, job, current_heat, config)
    &&& patrol_odds_defined(PatrolAction::Detour, car, job, current_heat, config)
    &&& patrol_odds_defined(PatrolAction::PushSpeed, car, job, current_heat, config)
}

/// The odds of a fork choice can be computed; backtracking computes none.
pub open spec fn fork_odds_defined(
    choice: ForkChoice,
    car: Car,
    job: Job,
    current_heat: u8,
    config: &BalanceConfig,
) -> bool {
    match choice {
        ForkChoice::Highway => {
            &&& config.chance_min <= config.chance_max
            &&& stealth_check_defined(
                config.fork_highway_stealth_multiplier,
                config.fork_highway_job_heat_multiplier,
                config.fork_highway_garage_heat_multiplier,
                config.fork_highway_cargo_size_multiplier,
                car,
                job,
                current_heat,
            )
        },
        ForkChoice::ServiceRoad => {
            &&& config.chance_min <= config.chance_max
            &&& drivetrain_check_defined(
                config.fork_service_terrain_multiplier,
                config.fork_service_condition_divisor,
                config.fork_service_garage_heat_multiplier,
                car,
                job,
                current_heat,
            )
        },
        ForkChoice::Backtrack => true,
    }
}

/// All three fork previews can be computed.
pub open spec fn fork_previews_defined(car: Car, job: Job, current_heat: u8, config: &BalanceConfig) -> bool {
    &&& fork_odds_defined(ForkChoice::Highway, car, job, current_heat, config)
    &&& fork_odds_defined(ForkChoice::ServiceRoad, car, job, current_heat, config)
}

fn chance_from(modifiers: &Vec<CheckModifier>, config: &BalanceConfig) -> (r: u8)
    requires
        modifiers@.len() <= 8,
        config.chance_min <= config.chance_max,
    ensures
        r == check_chance(modifier_values(modifiers@), config),
{
    let mut sum: i32 = 0;
    let mut i: usize = 0;
    while i < modifiers.len()
        invariant
            i <= modifiers.len() <= 8,
            sum == seq_sum(modifier_values(modifiers@).take(i as int)),
            -32768 * i <= sum <= 32767 * i,
        decreases modifiers.len() - i,
    {
        assert(modifier_values(modifiers@).take(i + 1).drop_last() == modifier_values(
            modifiers@,
        ).take(i as int));
        sum = sum + modifiers[i].value as i32;
        i += 1;
    }
    assert(modifier_values(modifiers@).take(modifiers.len() as int) == modifier_values(
        modifiers@,
    ));
    if sum < config.chance_min as i32 {
        config.chance_min
    } else if sum > config.chance_max as i32 {
        config.chance_max
    } else {
        sum as u8
    }
}

/// The modifiers of a stealth check, labelled.
fn stealth_modifiers(
    base: i16,
    stealth_mult: i16,
    job_heat_mult: i16,
    garage_heat_mult: i16,
    cargo_mult: i16,
    car: &Car,
    job: &Job,
    current_heat: u8,
) -> (r: Vec<CheckModifier>)
    requires
        stealth_check_defined(stealth_mult, job_heat_mult, garage_heat_mult, cargo_mult, *car, *job, current_heat),
    ensures
        modifier_values(r@) == stealth_terms(
            base,
            stealth_mult,
            job_heat_mult,
            garage_heat_mult,
            cargo_mult,
            *car,
            *job,
            current_heat,
        ),
        modifier_labels(r@) == seq!["base", "effective stealth", "job heat", "garage heat", "cargo size"],
        r@.len() == 5,
{
    let effective = car.effective_stats();
    let job_heat = -(job.heat as i16 * job_heat_mult);
    let garage_heat = -(current_heat as i16 * garage_heat_mult);
    let cargo_size = -(job.cargo_size as i16 * cargo_mult);
    let r = vec![
        CheckModifier { label: "base", value: base },
        CheckModifier { label: "effective stealth", value: effective.stealth as i16 * stealth_mult },
        CheckModifier { label: "job heat", value: job_heat },
        CheckModifier { label: "garage heat", value: garage_heat },
        CheckModifier { label: "cargo size", value: cargo_size },
    ];
    assert(modifier_values(r@) =~= stealth_terms(
        base,
        stealth_mult,
        job_heat_mult,
        garage_heat_mult,
        cargo_mult,
        *car,
        *job,
        current_heat,
    ));
    assert(modifier_labels(r@) =~= seq!["base", "effective stealth", "job heat", "garage heat", "cargo size"]);
    r
}

/// The modifiers of a drivetrain check, labelled.
fn drivetrain_modifiers(
    base: i16,
    terrain_mult: i16,
    condition_divisor: i16,
    garage_heat_mult: i16,
    car: &Car,
    job: &Job,
    current_heat: u8,
) -> (r: Vec<CheckModifier>)
    requires
        drivetrain_check_defined(terrain_mult, condition_divisor, garage_heat_mult, *car, *job, current_heat),
    ensures
        modifier_values(r@) == drivetrain_terms(
            base,
            terrain_mult,
            condition_divisor,
            garage_heat_mult,
            *car,
            *job,
            current_heat,
        ),
        modifier_labels(r@) == seq!["base", "effective drivetrain", "terrain", "condition", "garage heat"],
        r@.len() == 5,
{
    let effective = car.effective_stats();
    let terrain = -(job.terrain.roughness() as i16 * terrain_mult);
    let garage_heat = -(current_heat as i16 * garage_heat_mult);
    let r = vec![
        CheckModifier { label: "base", value: base },
        CheckModifier { label: "effective drivetrain", value: effective.drivetrain },
        CheckModifier { label: "terrain", value: terrain },
        CheckModifier { label: "condition", value: div_toward_zero_i16(car.condition.average() as i16, condition_divisor) },
        CheckModifier { label: "garage heat", value: garage_heat },
    ];
    assert(modifier_values(r@) =~= drivetrain_terms(
        base,
        terrain_mult,
        condition_divisor,
        garage_heat_mult,
        *car,
        *job,
        current_heat,
    ));
    assert(modifier_labels(r@) =~= seq!["base", "effective drivetrain", "terrain", "condition", "garage heat"]);
    r
}

fn preview_blend_in(car: &Car, job: &Job, current_heat: u8, config: &BalanceConfig) -> (r:
    PatrolActionPreview)
    requires
        patrol_odds_defined(PatrolAction::BlendIn, *car, *job, current_heat, config),
    ensures
        patrol_preview_shows(r, PatrolAction::BlendIn, *car, *job, current_heat, config),
{
    let modifiers = stealth_modifiers(
        config.patrol_blend_base,
        config.patrol_blend_stealth_multiplier,
        config.patrol_blend_job_heat_multiplier,
        config.patrol_blend_garage_heat_multiplier,
        config.patrol_blend_cargo_size_multiplier,
        car,
        job,
        current_heat,
    );
    PatrolActionPreview {
        action: PatrolAction::BlendIn,
        check: "Stealth",
        chance: chance_from(&modifiers, config),
        modifiers,
        success: "patrol loses interest",
        failure: "+2 heat",
    }
}

fn preview_detour(car: &Car, job: &Job, current_heat: u8, config: &BalanceConfig) -> (r:
    PatrolActionPreview)
    requires
        patrol_odds_defined(PatrolAction::Detour, *car, *job, current_heat, config),
    ensures
        patrol_preview_shows(r, PatrolAction::Detour, *car, *job, current_heat, config),
{
    let modifiers = drivetrain_modifiers(
        config.patrol_detour_base,
        config.patrol_detour_terrain_multiplier,
        config.patrol_detour_condition_divisor,
        config.patrol_detour_garage_heat_multiplier,
        car,
        job,
        current_heat,
    );
    PatrolActionPreview {
        action: PatrolAction::Detour,
        check: "Terrain / suspension",
        chance: chance_from(&modifiers, config),
        modifiers,
        success: "avoid patrol through side roads",
        failure: "suspension and tire damage",
    }
}

fn preview_push_speed(car: &Car, job: &Job, current_heat: u8, config: &BalanceConfig) -> (r:
    PatrolActionPreview)
    requires
        patrol_odds_defined(PatrolAction::PushSpeed, *car, *job, current_heat, config),
    ensures
        patrol_preview_shows(r, PatrolAction::PushSpeed, *car, *job, current_heat, config),
{
    let terrain = -(job.terrain.roughness() as i16 * config.patrol_push_terrain_multiplier);
    let job_heat = -(job.heat as i16 * config.patrol_push_job_heat_multiplier);
    let garage_heat = -(current_heat as i16 * config.patrol_push_garage_heat_multiplier);
    let modifiers = vec![
        CheckModifier { label: "base", value: config.patrol_push_base },
        CheckModifier {
            label: "horsepower",
            value: div_toward_zero_i16(car.spec.engine.horsepower as i16, config.patrol_push_horsepower_divisor),
        },
        CheckModifier {
            label: "condition",
            value: div_toward_zero_i16(car.condition.average() as i16, config.patrol_push_condition_divisor),
        },
        CheckModifier { label: "terrain", value: terrain },
        CheckModifier { label: "job heat", value: job_heat },
        CheckModifier { label: "garage heat", value: garage_heat },
    ];
    assert(modifier_values(modifiers@) =~= patrol_terms(
        PatrolAction::PushSpeed,
        *car,
        *job,
        current_heat,
        config,
    ));
    assert(modifier_labels(modifiers@) =~= patrol_labels(PatrolAction::PushSpeed));
    PatrolActionPreview {
        action: PatrolAction::PushSpeed,
        check: "Power / tires / engine",
        chance: chance_from(&modifiers, config),
        modifiers,
        success: "escape immediately",
        failure: "engine damage, tire damage, +1 heat",
    }
}

fn preview_highway(car: &Car, job: &Job, current_heat: u8, config: &BalanceConfig) -> (r:
    ForkChoicePreview)
    requires
        fork_odds_defined(ForkChoice::Highway, *car, *job, current_heat, config),
    ensures
        fork_preview_shows(r, ForkChoice::Highway, *car, *job, current_heat, config),
{
    let modifiers = stealth_modifiers(
        config.fork_highway_base,
        config.fork_highway_stealth_multiplier,
        config.fork_highway_job_heat_multiplier,
        config.fork_highway_garage_heat_multiplier,
        config.fork_highway_cargo_size_multiplier,
        car,
        job,
        current_heat,
    );
    ForkChoicePreview {
        choice: ForkChoice::Highway,
        check: "Stealth / heat",
        chance: Some(chance_from(&modifiers, config)),
        modifiers,
        success: "fast route, no extra wear".to_owned(),
        failure: "+2 heat from highway patrol attention",
    }
}

fn preview_service_road(car: &Car, job: &Job, current_heat: u8, config: &BalanceConfig) -> (r:
    ForkChoicePreview)
    requires
        fork_odds_defined(ForkChoice::ServiceRoad, *car, *job, current_heat, config),
    ensures
        fork_preview_shows(r, ForkChoice::ServiceRoad, *car, *job, current_heat, config),
{
    let modifiers = drivetrain_modifiers(
        config.fork_service_base,
        config.fork_service_terrain_multiplier,
        config.fork_service_condition_divisor,
        config.fork_service_garage_heat_multiplier,
        car,
        job,
        current_heat,
    );
    ForkChoicePreview {
        choice: ForkChoice::ServiceRoad,
        check: "Drivetrain / terrain",
        chance: Some(chance_from(&modifiers, config)),
        modifiers,
        success: "avoid patrol pressure through rougher roads".to_owned(),
        failure: "suspension, tire, and body damage",
    }
}

fn preview_backtrack(car: &Car, job: &Job, current_heat: u8, config: &BalanceConfig) -> (r:
    ForkChoicePreview)
    ensures
        fork_preview_shows(r, ForkChoice::Backtrack, *car, *job, current_heat, config),
{
    let modifiers: Vec<CheckModifier> = Vec::new();
    assert(modifier_values(modifiers@) =~= Seq::empty());
    assert(modifier_labels(modifiers@) =~= Seq::empty());
    ForkChoicePreview {
        choice: ForkChoice::Backtrack,
        check: "No roll",
        chance: None,
        modifiers,
        success: if config.fork_backtrack_payout_multiplier_percent == 80 {
            "safe route, payout reduced by 20%".to_owned()
        } else {
            "safe route, payout reduced".to_owned()
        },
        failure: "none",
    }
}

pub fn patrol_action_previews_with_config(
    car: &Car,
    job: &Job,
    current_heat: u8,
    config: &BalanceConfig,
) -> (r: Vec<PatrolActionPreview>)
    requires
        patrol_previews_defined(*car, *job, current_heat, config),
    ensures
        r@.len() == 3,
        patrol_preview_shows(r@[0], PatrolAction::BlendIn, *car, *job, current_heat, config),
        patrol_preview_shows(r@[1], PatrolAction::Detour, *car, *job, current_heat, config),
        patrol_preview_shows(r@[2], PatrolAction::PushSpeed, *car, *job, current_heat, config),
{
    vec![
        preview_blend_in(car, job, current_heat, config),
        preview_detour(car, job, current_heat, config),
        preview_push_speed(car, job, current_heat, config),
    ]
}

pub fn patrol_action_previews(car: &Car, job: &Job, current_heat: u8) -> (r: Vec<
    PatrolActionPreview,
>)
    requires
        car.stats_defined(),
    ensures
        r@.len() == 3,
        patrol_preview_shows(r@[0], PatrolAction::BlendIn, *car, *job, current_heat, &BalanceConfig::spec_default()),
        patrol_preview_shows(r@[1], PatrolAction::Detour, *car, *job, current_heat, &BalanceConfig::spec_default()),
        patrol_preview_shows(r@[2], PatrolAction::PushSpeed, *car, *job, current_heat, &BalanceConfig::spec_default()),
{
    let config = BalanceConfig::default();
    assert(patrol_odds_defined(PatrolAction::BlendIn, *car, *job, current_heat, &config));
    assert(patrol_odds_defined(PatrolAction::Detour, *car, *job, current_heat, &config));
    assert(patrol_odds_defined(PatrolAction::PushSpeed, *car, *job, current_heat, &config));
    patrol_action_previews_with_config(car, job, current_heat, &config)
}

pub fn fork_choice_previews_with_config(
    car: &Car,
    job: &Job,
    current_heat: u8,
    config: &BalanceConfig,
) -> (r: Vec<ForkChoicePreview>)
    requires
        fork_previews_defined(*car, *job, current_heat, config),
    ensures
        r@.len() == 3,
        fork_preview_shows(r@[0], ForkChoice::Highway, *car, *job, current_heat, config),
        fork_preview_shows(r@[1], ForkChoice::ServiceRoad, *car, *job, current_heat, config),
        fork_preview_shows(r@[2], ForkChoice::Backtrack, *car, *job, current_heat, config),
{
    vec![
        preview_highway(car, job, current_heat, config),
        preview_service_road(car, job, current_heat, config),
        preview_backtrack(car, job, current_heat, config),
    ]
}

pub fn fork_choice_previews(car: &Car, job: &Job, current_heat: u8) -> (r: Vec<ForkChoicePreview>)
    requires
        car.stats_defined(),
    ensures
        r@.len() == 3,
        fork_preview_shows(r@[0], ForkChoice::Highway, *car, *job, current_heat, &BalanceConfig::spec_default()),
        fork_preview_shows(r@[1], ForkChoice::ServiceRoad, *car, *job, current_heat, &BalanceConfig::spec_default()),
        fork_preview_shows(r@[2], ForkChoice::Backtrack, *car, *job, current_heat, &BalanceConfig::spec_default()),
{
    fork_choice_previews_with_config(car, job, current_heat, &BalanceConfig::default())
}

/// The heat a failed patrol action draws.
pub open spec fn patrol_failure_heat(action: PatrolAction, config: &BalanceConfig) -> u8 {
    match action {
        PatrolAction::BlendIn => config.patrol_blend_failure_heat,
        PatrolAction::Detour => 0,
        PatrolAction::PushSpeed => config.patrol_push_failure_heat,
    }
}

/// The damage a failed patrol action does.
pub open spec fn patrol_failure_damage(action: PatrolAction, job: Job, config: &BalanceConfig) -> PartDamage {
    match action {
        PatrolAction::BlendIn => PartDamage::spec_none(),
        PatrolAction::Detour => PartDamage {
            suspension: (job.terrain.spec_roughness() + config.patrol_detour_failure_suspension_extra) as u8,
            tires: (job.terrain.spec_roughness() + config.patrol_detour_failure_tires_extra) as u8,
            ..PartDamage::spec_none()
        },
        PatrolAction::PushSpeed => PartDamage {
            engine: config.patrol_push_failure_engine_damage,
            tires: config.patrol_push_failure_tire_damage,
            ..PartDamage::spec_none()
        },
    }
}

/// A patrol action resolved: a d100 roll from the seed against the previewed odds; a failure
/// costs the action's heat and damage, a success costs nothing.
pub open spec fn patrol_resolution(
    action: PatrolAction,
    car: Car,
    job: Job,
    current_heat: u8,
    seed: u64,
    config: &BalanceConfig,
) -> PatrolResolution {
    let chance = patrol_chance(action, car, job, current_heat, config);
    let roll = d100_roll(seed);
    let success = roll <= chance;
    PatrolResolution {
        action,
        chance,
        roll,
        success,
        heat_gained: if success { 0 } else { patrol_failure_heat(action, config) },
        damage: if success { PartDamage::spec_none() } else { patrol_failure_damage(action, job, config) },
    }
}

/// Resolving a patrol action can be computed: its odds, and, when a detour fails, the terrain
/// damage with its extras fits in a byte.
pub open spec fn patrol_resolution_defined(
    action: PatrolAction,
    car: Car,
    job: Job,
    current_heat: u8,
    seed: u64,
    config: &BalanceConfig,
) -> bool {
    &&& patrol_odds_defined(action, car, job, current_heat, config)
    &&& action == PatrolAction::Detour && d100_roll(seed) > patrol_chance(action, car, job, current_heat, config)
        ==> {
        &&& job.terrain.spec_roughness() + config.patrol_detour_failure_suspension_extra <= 255
        &&& job.terrain.spec_roughness() + config.patrol_detour_failure_tires_extra <= 255
    }
}

pub fn resolve_patrol_action_with_config(
    car: &mut Car,
    job: &Job,
    current_heat: u8,
    action: PatrolAction,
    seed: u64,
    config: &BalanceConfig,
) -> (r: PatrolResolution)
    requires
        patrol_resolution_defined(action, *old(car), *job, current_heat, seed, config),
    ensures
        r == patrol_resolution(action, *old(car), *job, current_heat, seed, config),
        final(car).condition == old(car).condition.damaged(r.damage),
        final(car).same_except_condition(*old(car)),
{
    let preview = match action {
        PatrolAction::BlendIn => preview_blend_in(car, job, current_heat, config),
        PatrolAction::Detour => preview_detour(car, job, current_heat, config),
        PatrolAction::PushSpeed => preview_push_speed(car, job, current_heat, config),
    };
    let mut rng = SeededRng::new(seed);
    let roll = rng.d100();
    let success = roll <= preview.chance;
    let mut damage = PartDamage::default();
    let mut heat_gained: u8 = 0;
    if !success {
        match action {
            PatrolAction::BlendIn => {
                heat_gained = config.patrol_blend_failure_heat;
            },
            PatrolAction::Detour => {
                damage = PartDamage {
                    suspension: job.terrain.roughness() + config.patrol_detour_failure_suspension_extra,
                    tires: job.terrain.roughness() + config.patrol_detour_failure_tires_extra,
                    ..PartDamage::default()
                };
            },
            PatrolAction::PushSpeed => {
                heat_gained = config.patrol_push_failure_heat;
                damage = PartDamage {
                    engine: config.patrol_push_failure_engine_damage,
                    tires: config.patrol_push_failure_tire_damage,
                    ..PartDamage::default()
                };
            },
        }
    }
    car.condition.apply_damage(damage);
    PatrolResolution { action, chance: preview.chance, roll, success, heat_gained, damage }
}

/// A byte-sized value times a multiplier of at most 128 in size stays well inside `i16`.
proof fn lemma_scaled_byte(x: int, m: int)
    requires
        0 <= x <= 255,
        -128 <= m <= 128,
    ensures
        -32640 <= x * m <= 32640,
{
    assert(-32640 <= x * m <= 32640) by (nonlinear_arith)
        requires
            0 <= x <= 255,
            -128 <= m <= 128,
    ;
}

/// A valid tuning computes every check of a car whose stats can be computed, and resolves
/// every choice whose damage stays within its bounds.
pub proof fn lemma_valid_tuning_defines_checks(
    car: Car,
    job: Job,
    current_heat: u8,
    seed: u64,
    config: &BalanceConfig,
)
    requires
        config.is_valid(),
        car.stats_defined(),
    ensures
        patrol_previews_defined(car, job, current_heat, config),
        fork_previews_defined(car, job, current_heat, config),
        patrol_resolution_defined(PatrolAction::BlendIn, car, job, current_heat, seed, config),
        patrol_resolution_defined(PatrolAction::Detour, car, job, current_heat, seed, config),
        patrol_resolution_defined(PatrolAction::PushSpeed, car, job, current_heat, seed, config),
        fork_resolution_defined(ForkChoice::Highway, car, job, current_heat, seed, config),
        fork_resolution_defined(ForkChoice::ServiceRoad, car, job, current_heat, seed, config),
        fork_resolution_defined(ForkChoice::Backtrack, car, job, current_heat, seed, config),
{
    let stealth = car.spec_effective_stats().stealth as int;
    let rough = job.terrain.spec_roughness() as int;
    lemma_scaled_byte(stealth, config.patrol_blend_stealth_multiplier as int);
    lemma_scaled_byte(job.heat as int, config.patrol_blend_job_heat_multiplier as int);
    lemma_scaled_byte(current_heat as int, config.patrol_blend_garage_heat_multiplier as int);
    lemma_scaled_byte(job.cargo_size as int, config.patrol_blend_cargo_size_multiplier as int);
    lemma_scaled_byte(rough, config.patrol_detour_terrain_multiplier as int);
    lemma_scaled_byte(current_heat as int, config.patrol_detour_garage_heat_multiplier as int);
    lemma_scaled_byte(rough, config.patrol_push_terrain_multiplier as int);
    lemma_scaled_byte(job.heat as int, config.patrol_push_job_heat_multiplier as int);
    lemma_scaled_byte(current_heat as int, config.patrol_push_garage_heat_multiplier as int);
    lemma_scaled_byte(stealth, config.fork_highway_stealth_multiplier as int);
    lemma_scaled_byte(job.heat as int, config.fork_highway_job_heat_multiplier as int);
    lemma_scaled_byte(current_heat as int, config.fork_highway_garage_heat_multiplier as int);
    lemma_scaled_byte(job.cargo_size as int, config.fork_highway_cargo_size_multiplier as int);
    lemma_scaled_byte(rough, config.fork_service_terrain_multiplier as int);
    lemma_scaled_byte(current_heat as int, config.fork_service_garage_heat_multiplier as int);
    assert(rough <= 8);
}

/// The shipped tuning resolves any patrol action of a car whose stats can be computed; pushing
/// speed needs no stats.
pub proof fn lemma_default_tuning_resolves_patrol(
    action: PatrolAction,
    car: Car,
    job: Job,
    current_heat: u8,
    seed: u64,
)
    requires
        action != PatrolAction::PushSpeed ==> car.stats_defined(),
    ensures
        patrol_resolution_defined(action, car, job, current_heat, seed, &BalanceConfig::spec_default()),
{
    let config = BalanceConfig::spec_default();
    assert(job.terrain.spec_roughness() <= 8);
    assert(patrol_odds_defined(action, car, job, current_heat, &config));
}

pub fn resolve_patrol_action(
    car: &mut Car,
    job: &Job,
    current_heat: u8,
    action: PatrolAction,
    seed: u64,
) -> (r: PatrolResolution)
    requires
        action != PatrolAction::PushSpeed ==> old(car).stats_defined(),
    ensures
        r == patrol_resolution(action, *old(car), *job, current_heat, seed, &BalanceConfig::spec_default()),
        final(car).condition == old(car).condition.damaged(r.damage),
        final(car).same_except_condition(*old(car)),
{
    proof {
        lemma_default_tuning_resolves_patrol(action, *car, *job, current_heat, seed);
    }
    resolve_patrol_action_with_config(car, job, current_heat, action, seed, &BalanceConfig::default())
}

/// The heat a failed fork choice draws.
pub open spec fn fork_failure_heat(choice: ForkChoice, config: &BalanceConfig) -> u8 {
    match choice {
        ForkChoice::Highway => config.fork_highway_failure_heat,
        _ => 0,
    }
}

/// The damage a failed fork choice does.
pub open spec fn fork_failure_damage(choice: ForkChoice, job: Job, config: &BalanceConfig) -> PartDamage {
    match choice {
        ForkChoice::ServiceRoad => PartDamage {
            suspension: (job.terrain.spec_roughness() + config.fork_service_failure_suspension_extra) as u8,
            tires: (job.terrain.spec_roughness() + config.fork_service_failure_tires_extra) as u8,
            body: config.fork_service_failure_body_damage,
            ..PartDamage::spec_none()
        },
        _ => PartDamage::spec_none(),
    }
}

/// A fork choice resolved. Backtracking always succeeds without a roll, heat or damage and
/// carries the configured payout multiplier; the other choices roll a d100 from the seed
/// against the previewed odds, and a failure costs the choice's heat and damage.
pub open spec fn fork_resolution(
    choice: ForkChoice,
    car: Car,
    job: Job,
    current_heat: u8,
    seed: u64,
    config: &BalanceConfig,
) -> ForkResolution {
    if choice == ForkChoice::Backtrack {
        ForkResolution {
            choice,
            chance: None,
            roll: None,
            success: true,
            heat_gained: 0,
            damage: PartDamage::spec_none(),
            payout_multiplier_percent: config.fork_backtrack_payout_multiplier_percent,
        }
    } else {
        let chance = check_chance(fork_terms(choice, car, job, current_heat, config), config);
        let roll = d100_roll(seed);
        let success = roll <= chance;
        ForkResolution {
            choice,
            chance: Some(chance),
            roll: Some(roll),
            success,
            heat_gained: if success { 0 } else { fork_failure_heat(choice, config) },
            damage: if success { PartDamage::spec_none() } else { fork_failure_damage(choice, job, config) },
            payout_multiplier_percent: 100,
        }
    }
}

/// Resolving a fork choice can be computed: backtracking always can; another choice needs its
/// odds, and, when the service road fails, the terrain damage with its extras fits in a byte.
pub open spec fn fork_resolution_defined(
    choice: ForkChoice,
    car: Car,
    job: Job,
    current_heat: u8,
    seed: u64,
    config: &BalanceConfig,
) -> bool {
    &&& fork_odds_defined(choice, car, job, current_heat, config)
    &&& choice == ForkChoice::ServiceRoad && d100_roll(seed) > check_chance(
        fork_terms(choice, car, job, current_heat, config),
        config,
    ) ==> {
        &&& job.terrain.spec_roughness() + config.fork_service_failure_suspension_extra <= 255
        &&& job.terrain.spec_roughness() + config.fork_service_failure_tires_extra <= 255
    }
}

pub fn resolve_fork_choice_with_config(
    car: &mut Car,
    job: &Job,
    current_heat: u8,
    choice: ForkChoice,
    seed: u64,
    config: &BalanceConfig,
) -> (r: ForkResolution)
    requires
        fork_resolution_defined(choice, *old(car), *job, current_heat, seed, config),
    ensures
        r == fork_resolution(choice, *old(car), *job, current_heat, seed, config),
        final(car).condition == old(car).condition.damaged(r.damage),
        final(car).same_except_condition(*old(car)),
{
    if choice == ForkChoice::Backtrack {
        proof {
            assert(old(car).condition.damaged(PartDamage::spec_none()) == old(car).condition);
        }
        return ForkResolution {
            choice,
            chance: None,
            roll: None,
            success: true,
            heat_gained: 0,
            damage: PartDamage::default(),
            payout_multiplier_percent: config.fork_backtrack_payout_multiplier_percent,
        };
    }
    let preview = match choice {
        ForkChoice::Highway => preview_highway(car, job, current_heat, config),
        _ => preview_service_road(car, job, current_heat, config),
    };
    let chance = match preview.chance {
        Some(c) => c,
        None => 0,
    };
    let mut rng = SeededRng::new(seed);
    let roll = rng.d100();
    let success = roll <= chance;
    let mut damage = PartDamage::default();
    let mut heat_gained: u8 = 0;
    if !success {
        match choice {
            ForkChoice::Highway => {
                heat_gained = config.fork_highway_failure_heat;
            },
            ForkChoice::ServiceRoad => {
                damage = PartDamage {
                    suspension: job.terrain.roughness() + config.fork_service_failure_suspension_extra,
                    tires: job.terrain.roughness() + config.fork_service_failure_tires_extra,
                    body: config.fork_service_failure_body_damage,
                    ..PartDamage::default()
                };
            },
            ForkChoice::Backtrack => {},
        }
    }
    car.condition.apply_damage(damage);
    ForkResolution {
        choice,
        chance: Some(chance),
        roll: Some(roll),
        success,
        heat_gained,
        damage,
        payout_multiplier_percent: 100,
    }
}

pub fn resolve_fork_choice(
    car: &mut Car,
    job: &Job,
    current_heat: u8,
    choice: ForkChoice,
    seed: u64,
) -> (r: ForkResolution)
    requires
        choice != ForkChoice::Backtrack ==> old(car).stats_defined(),
    ensures
        r == fork_resolution(choice, *old(car), *job, current_heat, seed, &BalanceConfig::spec_default()),
        final(car).condition == old(car).condition.damaged(r.damage),
        final(car).same_except_condition(*old(car)),
{
    resolve_fork_choice_with_config(car, job, current_heat, choice, seed, &BalanceConfig::default())
}

/// The chance, in percent, that a segment of the job wears the car: terrain stress, plus a
/// penalty for a two-wheel-drive car on rural or mountain roads and one for a worn car, capped.
pub open spec fn job_segment_stress(car: Car, job: Job, config: &BalanceConfig) -> u8 {
    let terrain = job.terrain.spec_roughness() * config.segment_terrain_stress_multiplier;
    let two_wheel = if (job.terrain is Rural || job.terrain is Mountain)
        && !car.drivetrain.spec_handles_rough_terrain() {
        config.segment_rough_terrain_2wd_penalty as int
    } else {
        0
    };
    let worn = if car.condition.spec_average() < config.segment_low_condition_threshold {
        config.segment_low_condition_penalty as int
    } else {
        0
    };
    let stress = terrain + two_wheel + worn;
    if stress <= config.segment_stress_cap {
        stress as u8
    } else {
        config.segment_stress_cap
    }
}

/// The wear a rough segment of the job does: the part hit follows the roll modulo four.
pub open spec fn job_segment_damage(terrain: Terrain, roll: u8, config: &BalanceConfig) -> PartDamage {
    let base = terrain.spec_roughness();
    if roll % 4 == 0 {
        PartDamage { tires: (base + config.damage_tire_extra) as u8, ..PartDamage::spec_none() }
    } else if roll % 4 == 1 {
        PartDamage { suspension: (base + config.damage_suspension_extra) as u8, ..PartDamage::spec_none() }
    } else if roll % 4 == 2 {
        PartDamage { engine: base, ..PartDamage::spec_none() }
    } else {
        PartDamage { body: (base + config.damage_body_extra) as u8, ..PartDamage::spec_none() }
    }
}

/// Where a drive stands after some segments.
pub struct DriveTrace {
    pub condition: PartCondition,
    pub state: u64,
    pub events: Seq<RouteEvent>,
    pub heat: u8,
    pub broken_down: bool,
}

#[verifier::opaque]
/// One segment of a job: a stress roll that may wear the car, then a patrol roll against the
/// job heat less the car's stealth that may add heat, then a breakdown check on the condition.
pub open spec fn drive_step(car: Car, job: Job, config: &BalanceConfig, t: DriveTrace) -> DriveTrace {
    let before = car.with_condition(t.condition);
    let stress = job_segment_stress(before, job, config);
    let roll = draw(t.state, 100);
    let s1 = lcg_next(t.state);
    let damage = job_segment_damage(job.terrain, roll, config);
    let rough = roll < stress;
    let condition = if rough { t.condition.damaged(damage) } else { t.condition };
    let first = if rough { RouteEvent::RoughRoad { damage } } else { RouteEvent::SmoothSegment };
    let patrol_roll = draw(s1, 100);
    let risk = sat_mul_u8(job.heat, config.patrol_detection_job_heat_multiplier).saturating_sub(
        car.with_condition(condition).spec_effective_stats().stealth,
    );
    let close_call = patrol_roll < risk;
    let heat = if close_call { t.heat.saturating_add(config.patrol_close_call_heat) } else { t.heat };
    let events = if close_call {
        t.events.push(first).push(RouteEvent::PatrolCloseCall)
    } else {
        t.events.push(first)
    };
    let broken_down = condition.spec_average() < config.breakdown_condition_threshold;
    DriveTrace {
        condition,
        state: lcg_next(s1),
        events: if broken_down { events.push(RouteEvent::Breakdown) } else { events },
        heat,
        broken_down,
    }
}

/// The drive after `n` segments from the seed; it stops at the first breakdown.
pub open spec fn drive(car: Car, job: Job, seed: u64, config: &BalanceConfig, n: nat) -> DriveTrace
    decreases n,
{
    if n == 0 {
        DriveTrace {
            condition: car.condition,
            state: seed,
            events: Seq::empty(),
            heat: 0,
            broken_down: false,
        }
    } else {
        let prev = drive(car, job, seed, config, (n - 1) as nat);
        if prev.broken_down {
            prev
        } else {
            drive_step(car, job, config, prev)
        }
    }
}

/// A step depends on the car only through its condition in the trace.
proof fn lemma_step_ignores_condition(a: Car, b: Car, job: Job, config: &BalanceConfig, t: DriveTrace)
    requires
        a.same_except_condition(b),
    ensures
        drive_step(a, job, config, t) == drive_step(b, job, config, t),
{
    reveal(drive_step);
    assert(a.with_condition(t.condition) == b.with_condition(t.condition));
}

/// Whether a segment can be driven depends on the car only through its condition in the trace.
proof fn lemma_segment_defined_ignores_condition(a: Car, b: Car, job: Job, config: &BalanceConfig, t: DriveTrace)
    requires
        a.same_except_condition(b),
    ensures
        job_segment_defined(a, job, config, t) == job_segment_defined(b, job, config, t),
{
    assert(a.with_condition(t.condition) == b.with_condition(t.condition));
    let roll = draw(t.state, 100);
    let d = t.condition.damaged(job_segment_damage(job.terrain, roll, config));
    assert(a.with_condition(d) == b.with_condition(d));
}

/// Once a drive breaks down, later segments change nothing.
pub proof fn lemma_drive_stops(car: Car, job: Job, seed: u64, config: &BalanceConfig, k: nat, n: nat)
    requires
        k <= n,
        drive(car, job, seed, config, k).broken_down,
    ensures
        drive(car, job, seed, config, n) == drive(car, job, seed, config, k),
    decreases n - k,
{
    if k < n {
        lemma_drive_stops(car, job, seed, config, k, (n - 1) as nat);
    }
}

/// A job driven from the seed. Cargo that does not fit fails at once. Otherwise the car drives
/// the job's distance; a breakdown ends the job with a fraction of the payout and extra heat.
pub open spec fn job_result(car: Car, job: Job, seed: u64, config: &BalanceConfig) -> (
    bool,
    i32,
    u8,
    Seq<RouteEvent>,
    PartCondition,
) {
    if job.cargo_size > car.cargo_capacity {
        (false, 0, config.cargo_too_large_heat, seq![RouteEvent::CargoTooLarge], car.condition)
    } else {
        let t = drive(car, job, seed, config, job.distance as nat);
        if t.broken_down {
            (
                false,
                div_trunc(job.payout as int, config.breakdown_payout_divisor as int) as i32,
                t.heat.saturating_add(config.breakdown_heat),
                t.events,
                t.condition,
            )
        } else {
            (true, job.payout, t.heat, t.events, t.condition)
        }
    }
}

/// The damage of a rough segment of the job fits in a byte for this roll.
pub open spec fn job_damage_fits(terrain: Terrain, roll: u8, config: &BalanceConfig) -> bool {
    let base = terrain.spec_roughness();
    if roll % 4 == 0 {
        base + config.damage_tire_extra <= 255
    } else if roll % 4 == 1 {
        base + config.damage_suspension_extra <= 255
    } else if roll % 4 == 2 {
        true
    } else {
        base + config.damage_body_extra <= 255
    }
}

/// A segment of the job can be driven from where the drive stands: the stress with its
/// penalties fits in a byte, a rough roll's damage does too, and the car's stats can be
/// computed in the condition the segment leaves it in.
pub open spec fn job_segment_defined(car: Car, job: Job, config: &BalanceConfig, t: DriveTrace) -> bool {
    let before = car.with_condition(t.condition);
    let terrain = job.terrain.spec_roughness() * config.segment_terrain_stress_multiplier;
    let two_wheel = if (job.terrain is Rural || job.terrain is Mountain)
        && !car.drivetrain.spec_handles_rough_terrain() {
        config.segment_rough_terrain_2wd_penalty as int
    } else {
        0
    };
    let worn = if t.condition.spec_average() < config.segment_low_condition_threshold {
        config.segment_low_condition_penalty as int
    } else {
        0
    };
    let roll = draw(t.state, 100);
    let rough = roll < job_segment_stress(before, job, config);
    let condition = if rough {
        t.condition.damaged(job_segment_damage(job.terrain, roll, config))
    } else {
        t.condition
    };
    &&& terrain + two_wheel + worn <= 255
    &&& rough ==> job_damage_fits(job.terrain, roll, config)
    &&& car.with_condition(condition).stats_defined()
}

/// Driving the job can be computed. Cargo that does not fit computes nothing; otherwise every
/// segment the drive reaches can be driven, and a breakdown's share of the payout is a defined
/// division.
pub open spec fn job_defined(car: Car, job: Job, seed: u64, config: &BalanceConfig) -> bool {
    job.cargo_size <= car.cargo_capacity ==> {
        &&& forall|k: nat|
            k < job.distance && !(#[trigger] drive(car, job, seed, config, k)).broken_down
                ==> job_segment_defined(car, job, config, drive(car, job, seed, config, k))
        &&& drive(car, job, seed, config, job.distance as nat).broken_down ==> {
            &&& config.breakdown_payout_divisor != 0
            &&& !(job.payout == i32::MIN && config.breakdown_payout_divisor == -1i32)
        }
    }
}

/// A valid tuning and a car whose stats can be computed in any condition can drive any job.
pub proof fn lemma_valid_tuning_defines_job(car: Car, job: Job, seed: u64, config: &BalanceConfig)
    requires
        config.is_valid(),
        car.stats_defined_under_wear(),
    ensures
        job_defined(car, job, seed, config),
{
    assert forall|k: nat|
        k < job.distance && !(#[trigger] drive(car, job, seed, config, k)).broken_down
            implies job_segment_defined(car, job, config, drive(car, job, seed, config, k)) by {
        let t = drive(car, job, seed, config, k);
        let roll = draw(t.state, 100);
        car.lemma_stats_defined_in_any_condition(t.condition);
        car.lemma_stats_defined_in_any_condition(
            t.condition.damaged(job_segment_damage(job.terrain, roll, config)),
        );
        assert(job.terrain.spec_roughness() * config.segment_terrain_stress_multiplier
            <= 8 * config.segment_terrain_stress_multiplier) by (nonlinear_arith)
            requires
                job.terrain.spec_roughness() <= 8,
        ;
    }
}

pub fn resolve_job_with_config(car: &mut Car, job: &Job, seed: u64, config: &BalanceConfig) -> (r:
    JobOutcome)
    requires
        job_defined(*old(car), *job, seed, config),
    ensures
        ({
            let (completed, payout, heat, events, condition) = job_result(*old(car), *job, seed, config);
            &&& r.completed == completed
            &&& r.payout == payout
            &&& r.heat_gained == heat
            &&& r.events@ == events
            &&& final(car).condition == condition
        }),
        final(car).same_except_condition(*old(car)),
{
    if job.cargo_size > car.cargo_capacity {
        return JobOutcome {
            completed: false,
            payout: 0,
            heat_gained: config.cargo_too_large_heat,
            events: vec![RouteEvent::CargoTooLarge],
        };
    }
    let ghost start = *car;
    let mut rng = SeededRng::new(seed);
    let mut events: Vec<RouteEvent> = Vec::new();
    let mut heat_gained: u8 = 0;
    let mut i: u8 = 0;
    while i < job.distance
        invariant
            i <= job.distance,
            start == *old(car),
            job.cargo_size <= start.cargo_capacity,
            job_defined(start, *job, seed, config),
            car.same_except_condition(start),
            ({
                let t = drive(start, *job, seed, config, i as nat);
                &&& !t.broken_down
                &&& car.condition == t.condition
                &&& rng.state == t.state
                &&& events@ == t.events
                &&& heat_gained == t.heat
            }),
        decreases job.distance - i,
    {
        let ghost t = drive(start, *job, seed, config, i as nat);
        let ghost before = *car;
        assert(t == DriveTrace {
            condition: car.condition,
            state: rng.state,
            events: events@,
            heat: heat_gained,
            broken_down: false,
        });
        proof {
            lemma_step_ignores_condition(start, before, *job, config, t);
            lemma_segment_defined_ignores_condition(start, before, *job, config, t);
            assert(job_segment_defined(start, *job, config, drive(start, *job, seed, config, i as nat)));
        }
        let broken_down = drive_segment(car, job, config, &mut rng, &mut events, &mut heat_gained);
        i += 1;
        assert(drive(start, *job, seed, config, i as nat) == drive_step(start, *job, config, t));
        if broken_down {
            proof {
                lemma_drive_stops(start, *job, seed, config, i as nat, job.distance as nat);
            }
            let ghost fin = drive(start, *job, seed, config, job.distance as nat);
            assert(fin.broken_down);
            assert(car.condition == fin.condition);
            assert(events@ == fin.events);
            assert(car.same_except_condition(start));
            return JobOutcome {
                completed: false,
                payout: div_toward_zero_i32(job.payout, config.breakdown_payout_divisor),
                heat_gained: heat_gained.saturating_add(config.breakdown_heat),
                events,
            };
        }
    }
    JobOutcome { completed: true, payout: job.payout, heat_gained, events }
}

/// Drives one segment of a job, as `drive_step` describes it.
fn drive_segment(
    car: &mut Car,
    job: &Job,
    config: &BalanceConfig,
    rng: &mut SeededRng,
    events: &mut Vec<RouteEvent>,
    heat_gained: &mut u8,
) -> (broken_down: bool)
    requires
        job_segment_defined(
            *old(car),
            *job,
            config,
            DriveTrace {
                condition: old(car).condition,
                state: old(rng).state,
                events: old(events)@,
                heat: *old(heat_gained),
                broken_down: false,
            },
        ),
    ensures
        ({
            let t = DriveTrace {
                condition: old(car).condition,
                state: old(rng).state,
                events: old(events)@,
                heat: *old(heat_gained),
                broken_down: false,
            };
            let n = drive_step(*old(car), *job, config, t);
            &&& final(car).condition == n.condition
            &&& final(rng).state == n.state
            &&& final(events)@ == n.events
            &&& *final(heat_gained) == n.heat
            &&& broken_down == n.broken_down
        }),
        final(car).same_except_condition(*old(car)),
{
    reveal(drive_step);
    assert(old(car).with_condition(old(car).condition) == *old(car));
    let stress = segment_stress(car, job, config);
    let roll = rng.next_u8(100);
    if roll < stress {
        let damage = damage_for(job.terrain, roll, config);
        car.condition.apply_damage(damage);
        events.push(RouteEvent::RoughRoad { damage });
    } else {
        events.push(RouteEvent::SmoothSegment);
    }
    assert(*car == old(car).with_condition(car.condition));
    let patrol_roll = rng.next_u8(100);
    let detection_risk = saturating_mul_u8(job.heat, config.patrol_detection_job_heat_multiplier)
        .saturating_sub(car.effective_stats().stealth);
    if patrol_roll < detection_risk {
        *heat_gained = heat_gained.saturating_add(config.patrol_close_call_heat);
        events.push(RouteEvent::PatrolCloseCall);
    }
    if car.condition.average() < config.breakdown_condition_threshold {
        events.push(RouteEvent::Breakdown);
        true
    } else {
        false
    }
}

pub fn resolve_job(car: &mut Car, job: &Job, seed: u64) -> (r: JobOutcome)
    requires
        job_defined(*old(car), *job, seed, &BalanceConfig::spec_default()),
    ensures
        ({
            let (completed, payout, heat, events, condition) = job_result(
                *old(car),
                *job,
                seed,
                &BalanceConfig::spec_default(),
            );
            &&& r.completed == completed
            &&& r.payout == payout
            &&& r.heat_gained == heat
            &&& r.events@ == events
            &&& final(car).condition == condition
        }),
        final(car).same_except_condition(*old(car)),
{
    resolve_job_with_config(car, job, seed, &BalanceConfig::default())
}

fn segment_stress(car: &Car, job: &Job, config: &BalanceConfig) -> (r: u8)
    requires
        ({
            let terrain = job.terrain.spec_roughness() * config.segment_terrain_stress_multiplier;
            let two_wheel = if (job.terrain is Rural || job.terrain is Mountain)
                && !car.drivetrain.spec_handles_rough_terrain() {
                config.segment_rough_terrain_2wd_penalty as int
            } else {
                0
            };
            let worn = if car.condition.spec_average() < config.segment_low_condition_threshold {
                config.segment_low_condition_penalty as int
            } else {
                0
            };
            terrain + two_wheel + worn <= 255
        }),
    ensures
        r == job_segment_stress(*car, *job, config),
{
    let mut stress = job.terrain.roughness() * config.segment_terrain_stress_multiplier;
    if matches!(job.terrain, Terrain::Rural | Terrain::Mountain)
        && !car.drivetrain.handles_rough_terrain() {
        stress += config.segment_rough_terrain_2wd_penalty;
    }
    if car.condition.average() < config.segment_low_condition_threshold {
        stress += config.segment_low_condition_penalty;
    }
    if stress <= config.segment_stress_cap {
        stress
    } else {
        config.segment_stress_cap
    }
}

fn damage_for(terrain: Terrain, roll: u8, config: &BalanceConfig) -> (r: PartDamage)
    requires
        job_damage_fits(terrain, roll, config),
    ensures
        r == job_segment_damage(terrain, roll, config),
{
    let base = terrain.roughness();
    if roll % 4 == 0 {
        PartDamage { tires: base + config.damage_tire_extra, ..PartDamage::default() }
    } else if roll % 4 == 1 {
        PartDamage { suspension: base + config.damage_suspension_extra, ..PartDamage::default() }
    } else if roll % 4 == 2 {
        PartDamage { engine: base, ..PartDamage::default() }
    } else {
        PartDamage { body: base + config.damage_body_extra, ..PartDamage::default() }
    }
}

} // verus!
