use vstd::prelude::*;

verus! {

/// Every tuning number of the simulation: odds, penalties, multipliers and market rules.
#[derive(Debug, Clone, Copy, PartialEq, Eq, Structural)]
pub struct BalanceConfig {
    pub loot_base_drop_chance: u8,
    pub loot_job_heat_multiplier: u8,
    pub loot_cargo_size_multiplier: u8,
    pub loot_max_drop_chance: u8,
    pub loot_bonus_drop_chance: u8,
    pub black_market_min_parts: u8,
    pub black_market_max_parts: u8,
    pub black_market_common_weight: u8,
    pub black_market_uncommon_weight: u8,
    pub black_market_rare_weight: u8,
    pub black_market_common_markup_percent: u16,
    pub black_market_uncommon_markup_percent: u16,
    pub black_market_rare_markup_percent: u16,
    pub car_market_min_cars: u8,
    pub car_market_max_cars: u8,
    pub car_market_common_weight: u8,
    pub car_market_uncommon_weight: u8,
    pub car_market_rare_weight: u8,
    pub car_market_common_markup_percent: u16,
    pub car_market_uncommon_markup_percent: u16,
    pub car_market_rare_markup_percent: u16,
    pub chance_min: u8,
    pub chance_max: u8,
    pub patrol_blend_base: i16,
    pub patrol_blend_stealth_multiplier: i16,
    pub patrol_blend_job_heat_multiplier: i16,
    pub patrol_blend_garage_heat_multiplier: i16,
    pub patrol_blend_cargo_size_multiplier: i16,
    pub patrol_blend_failure_heat: u8,
    pub patrol_detour_base: i16,
    pub patrol_detour_terrain_multiplier: i16,
    pub patrol_detour_condition_divisor: i16,
    pub patrol_detour_garage_heat_multiplier: i16,
    pub patrol_detour_failure_suspension_extra: u8,
    pub patrol_detour_failure_tires_extra: u8,
    pub patrol_push_base: i16,
    pub patrol_push_horsepower_divisor: i16,
    pub patrol_push_condition_divisor: i16,
    pub patrol_push_terrain_multiplier: i16,
    pub patrol_push_job_heat_multiplier: i16,
    pub patrol_push_garage_heat_multiplier: i16,
    pub patrol_push_failure_heat: u8,
    pub patrol_push_failure_engine_damage: u8,
    pub patrol_push_failure_tire_damage: u8,
    pub fork_highway_base: i16,
    pub fork_highway_stealth_multiplier: i16,
    pub fork_highway_job_heat_multiplier: i16,
    pub fork_highway_garage_heat_multiplier: i16,
    pub fork_highway_cargo_size_multiplier: i16,
    pub fork_highway_failure_heat: u8,
    pub fork_service_base: i16,
    pub fork_service_terrain_multiplier: i16,
    pub fork_service_condition_divisor: i16,
    pub fork_service_garage_heat_multiplier: i16,
    pub fork_service_failure_suspension_extra: u8,
    pub fork_service_failure_tires_extra: u8,
    pub fork_service_failure_body_damage: u8,
    pub fork_backtrack_payout_multiplier_percent: u8,
    pub cargo_too_large_heat: u8,
    pub patrol_detection_job_heat_multiplier: u8,
    pub patrol_close_call_heat: u8,
    pub breakdown_condition_threshold: u8,
    pub breakdown_payout_divisor: i32,
    pub breakdown_heat: u8,
    pub segment_terrain_stress_multiplier: u8,
    pub segment_rough_terrain_2wd_penalty: u8,
    pub segment_low_condition_threshold: u8,
    pub segment_low_condition_penalty: u8,
    pub segment_stress_cap: u8,
    pub damage_tire_extra: u8,
    pub damage_suspension_extra: u8,
    pub damage_body_extra: u8,
}

impl BalanceConfig {
    /// The shipped tuning.
    pub open spec fn spec_default() -> BalanceConfig {
        BalanceConfig {
            loot_base_drop_chance: 25,
            loot_job_heat_multiplier: 5,
            loot_cargo_size_multiplier: 4,
            loot_max_drop_chance: 75,
            loot_bonus_drop_chance: 20,
            black_market_min_parts: 2,
            black_market_max_parts: 3,
            black_market_common_weight: 50,
            black_market_uncommon_weight: 35,
            black_market_rare_weight: 15,
            black_market_common_markup_percent: 140,
            black_market_uncommon_markup_percent: 160,
            black_market_rare_markup_percent: 180,
            car_market_min_cars: 1,
            car_market_max_cars: 3,
            car_market_common_weight: 55,
            car_market_uncommon_weight: 35,
            car_market_rare_weight: 10,
            car_market_common_markup_percent: 115,
            car_market_uncommon_markup_percent: 125,
            car_market_rare_markup_percent: 140,
            chance_min: 10,
            chance_max: 90,
            patrol_blend_base: 55,
            patrol_blend_stealth_multiplier: 3,
            patrol_blend_job_heat_multiplier: 4,
            patrol_blend_garage_heat_multiplier: 3,
            patrol_blend_cargo_size_multiplier: 2,
            patrol_blend_failure_heat: 2,
            patrol_detour_base: 45,
            patrol_detour_terrain_multiplier: 3,
            patrol_detour_condition_divisor: 5,
            patrol_detour_garage_heat_multiplier: 3,
            patrol_detour_failure_suspension_extra: 4,
            patrol_detour_failure_tires_extra: 2,
            patrol_push_base: 30,
            patrol_push_horsepower_divisor: 10,
            patrol_push_condition_divisor: 5,
            patrol_push_terrain_multiplier: 2,
            patrol_push_job_heat_multiplier: 3,
            patrol_push_garage_heat_multiplier: 2,
            patrol_push_failure_heat: 1,
            patrol_push_failure_engine_damage: 10,
            patrol_push_failure_tire_damage: 12,
            fork_highway_base: 50,
            fork_highway_stealth_multiplier: 3,
            fork_highway_job_heat_multiplier: 4,
            fork_highway_garage_heat_multiplier: 3,
            fork_highway_cargo_size_multiplier: 2,
            fork_highway_failure_heat: 2,
            fork_service_base: 45,
            fork_service_terrain_multiplier: 3,
            fork_service_condition_divisor: 5,
            fork_service_garage_heat_multiplier: 3,
            fork_service_failure_suspension_extra: 4,
            fork_service_failure_tires_extra: 3,
            fork_service_failure_body_damage: 5,
            fork_backtrack_payout_multiplier_percent: 80,
            cargo_too_large_heat: 1,
            patrol_detection_job_heat_multiplier: 6,
            patrol_close_call_heat: 1,
            breakdown_condition_threshold: 35,
            breakdown_payout_divisor: 4,
            breakdown_heat: 2,
            segment_terrain_stress_multiplier: 4,
            segment_rough_terrain_2wd_penalty: 15,
            segment_low_condition_threshold: 60,
            segment_low_condition_penalty: 15,
            segment_stress_cap: 65,
            damage_tire_extra: 4,
            damage_suspension_extra: 3,
            damage_body_extra: 2,
        }
    }

    /// The check odds can be computed: the clamp bounds are ordered, every multiplier keeps a
    /// product with a byte-sized stat inside `i16`, and every divisor is positive.
    pub open spec fn odds_valid(&self) -> bool {
        &&& self.chance_min <= self.chance_max
        &&& -128 <= self.patrol_blend_stealth_multiplier <= 128
        &&& -128 <= self.patrol_blend_job_heat_multiplier <= 128
        &&& -128 <= self.patrol_blend_garage_heat_multiplier <= 128
        &&& -128 <= self.patrol_blend_cargo_size_multiplier <= 128
        &&& -128 <= self.patrol_detour_terrain_multiplier <= 128
        &&& -128 <= self.patrol_detour_garage_heat_multiplier <= 128
        &&& self.patrol_detour_condition_divisor > 0
        &&& self.patrol_push_horsepower_divisor > 0
        &&& self.patrol_push_condition_divisor > 0
        &&& -128 <= self.patrol_push_terrain_multiplier <= 128
        &&& -128 <= self.patrol_push_job_heat_multiplier <= 128
        &&& -128 <= self.patrol_push_garage_heat_multiplier <= 128
        &&& -128 <= self.fork_highway_stealth_multiplier <= 128
        &&& -128 <= self.fork_highway_job_heat_multiplier <= 128
        &&& -128 <= self.fork_highway_garage_heat_multiplier <= 128
        &&& -128 <= self.fork_highway_cargo_size_multiplier <= 128
        &&& -128 <= self.fork_service_terrain_multiplier <= 128
        &&& -128 <= self.fork_service_garage_heat_multiplier <= 128
        &&& self.fork_service_condition_divisor > 0
    }

    /// Terrain roughness (at most 8) plus any damage extra stays a byte.
    pub open spec fn damage_valid(&self) -> bool {
        &&& self.patrol_detour_failure_suspension_extra <= 247
        &&& self.patrol_detour_failure_tires_extra <= 247
        &&& self.fork_service_failure_suspension_extra <= 247
        &&& self.fork_service_failure_tires_extra <= 247
        &&& self.damage_tire_extra <= 247
        &&& self.damage_suspension_extra <= 247
        &&& self.damage_body_extra <= 247
    }

    /// A whole job can be driven: the breakdown divisor is positive and the segment stress of
    /// the roughest terrain with every penalty still fits in a byte.
    pub open spec fn job_valid(&self) -> bool {
        &&& self.breakdown_payout_divisor > 0
        &&& 8 * self.segment_terrain_stress_multiplier + self.segment_rough_terrain_2wd_penalty
            + self.segment_low_condition_penalty <= 255
    }

    /// All of the above.
    pub open spec fn is_valid(&self) -> bool {
        &&& self.odds_valid()
        &&& self.damage_valid()
        &&& self.job_valid()
    }

    /// The shipped tuning satisfies every validity condition.
    pub proof fn lemma_default_is_valid()
        ensures
            Self::spec_default().is_valid(),
    {
    }
}

impl Default for BalanceConfig {
    fn default() -> (r: Self)
        ensures
            r == Self::spec_default(),
    {
        BalanceConfig {
            loot_base_drop_chance: 25,
            loot_job_heat_multiplier: 5,
            loot_cargo_size_multiplier: 4,
            loot_max_drop_chance: 75,
            loot_bonus_drop_chance: 20,
            black_market_min_parts: 2,
            black_market_max_parts: 3,
            black_market_common_weight: 50,
            black_market_uncommon_weight: 35,
            black_market_rare_weight: 15,
            black_market_common_markup_percent: 140,
            black_market_uncommon_markup_percent: 160,
            black_market_rare_markup_percent: 180,
            car_market_min_cars: 1,
            car_market_max_cars: 3,
            car_market_common_weight: 55,
            car_market_uncommon_weight: 35,
            car_market_rare_weight: 10,
            car_market_common_markup_percent: 115,
            car_market_uncommon_markup_percent: 125,
            car_market_rare_markup_percent: 140,
            chance_min: 10,
            chance_max: 90,
            patrol_blend_base: 55,
            patrol_blend_stealth_multiplier: 3,
            patrol_blend_job_heat_multiplier: 4,
            patrol_blend_garage_heat_multiplier: 3,
            patrol_blend_cargo_size_multiplier: 2,
            patrol_blend_failure_heat: 2,
            patrol_detour_base: 45,
            patrol_detour_terrain_multiplier: 3,
            patrol_detour_condition_divisor: 5,
            patrol_detour_garage_heat_multiplier: 3,
            patrol_detour_failure_suspension_extra: 4,
            patrol_detour_failure_tires_extra: 2,
            patrol_push_base: 30,
            patrol_push_horsepower_divisor: 10,
            patrol_push_condition_divisor: 5,
            patrol_push_terrain_multiplier: 2,
            patrol_push_job_heat_multiplier: 3,
            patrol_push_garage_heat_multiplier: 2,
            patrol_push_failure_heat: 1,
            patrol_push_failure_engine_damage: 10,
            patrol_push_failure_tire_damage: 12,
            fork_highway_base: 50,
            fork_highway_stealth_multiplier: 3,
            fork_highway_job_heat_multiplier: 4,
            fork_highway_garage_heat_multiplier: 3,
            fork_highway_cargo_size_multiplier: 2,
            fork_highway_failure_heat: 2,
            fork_service_base: 45,
            fork_service_terrain_multiplier: 3,
            fork_service_condition_divisor: 5,
            fork_service_garage_heat_multiplier: 3,
            fork_service_failure_suspension_extra: 4,
            fork_service_failure_tires_extra: 3,
            fork_service_failure_body_damage: 5,
            fork_backtrack_payout_multiplier_percent: 80,
            cargo_too_large_heat: 1,
            patrol_detection_job_heat_multiplier: 6,
            patrol_close_call_heat: 1,
            breakdown_condition_threshold: 35,
            breakdown_payout_divisor: 4,
            breakdown_heat: 2,
            segment_terrain_stress_multiplier: 4,
            segment_rough_terrain_2wd_penalty: 15,
            segment_low_condition_threshold: 60,
            segment_low_condition_penalty: 15,
            segment_stress_cap: 65,
            damage_tire_extra: 4,
            damage_suspension_extra: 3,
            damage_body_extra: 2,
        }
    }
}

} // verus!
