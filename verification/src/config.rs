//! The settings of one device.

use crate::binary32;
use crate::binary32::Binary32;
use vstd::prelude::*;

verus! {

#[derive(Debug, Clone, Copy, PartialEq, Eq, Structural)]
pub enum ControlMode {
    Auto,
    Manual,
}

/// What an operator sets for a device. Levels are in centimetres, doses in millilitres, times in
/// seconds.
#[derive(Debug, Clone)]
pub struct DeviceConfig {
    pub device_id: String,
    pub control_mode: ControlMode,
    pub is_enabled: bool,
    // Targets.
    pub ec_target: Binary32,
    pub ec_tolerance: Binary32,
    pub ph_target: Binary32,
    pub ph_tolerance: Binary32,
    // Water.
    pub water_level_min: Binary32,
    pub water_level_target: Binary32,
    pub water_level_max: Binary32,
    pub water_level_tolerance: Binary32,
    pub auto_refill_enabled: bool,
    pub auto_drain_overflow: bool,
    /// Drain some water where the solution is too rich.
    pub auto_dilute_enabled: bool,
    pub dilute_drain_amount_cm: Binary32,
    /// Change part of the water at regular intervals.
    pub scheduled_water_change_enabled: bool,
    pub water_change_interval_sec: u64,
    pub scheduled_drain_amount_cm: Binary32,
    // Safety.
    pub emergency_shutdown: bool,
    pub min_ec_limit: Binary32,
    pub max_ec_limit: Binary32,
    pub min_ph_limit: Binary32,
    pub max_ph_limit: Binary32,
    pub max_ec_delta: Binary32,
    pub max_ph_delta: Binary32,
    pub max_dose_per_cycle: Binary32,
    pub water_level_critical_min: Binary32,
    pub max_refill_duration_sec: u64,
    pub max_drain_duration_sec: u64,
    // Dosing.
    pub ec_gain_per_ml: Binary32,
    pub ph_shift_up_per_ml: Binary32,
    pub ph_shift_down_per_ml: Binary32,
    pub mixing_delay_sec: u64,
    /// How long the chamber pump mixes after a dose or a refill.
    pub active_mixing_sec: u64,
    /// How long the sensors are left to settle after that.
    pub sensor_stabilize_sec: u64,
    pub ec_step_ratio: Binary32,
    pub ph_step_ratio: Binary32,
    pub pump_capacity_ml_per_sec: Binary32,
    /// What a dosing pump delivers.
    pub dosing_pump_capacity_ml_per_sec: Binary32,
}

impl Default for DeviceConfig {
    fn default() -> (r: Self)
        ensures
            r.device_id@ == "ESP32_PUMP_NODE"@,
            r.control_mode == ControlMode::Auto,
            r.is_enabled,
            r.ec_target == binary32::ratio(12, 10),
            r.ec_tolerance == binary32::ratio(5, 100),
            r.ph_target == binary32::ratio(6, 1),
            r.ph_tolerance == binary32::ratio(1, 10),
            r.water_level_min == binary32::ratio(15, 1),
            r.water_level_target == binary32::ratio(20, 1),
            r.water_level_max == binary32::ratio(24, 1),
            r.water_level_tolerance == binary32::ratio(1, 1),
            r.auto_refill_enabled,
            r.auto_drain_overflow,
            r.auto_dilute_enabled,
            r.dilute_drain_amount_cm == binary32::ratio(2, 1),
            !r.scheduled_water_change_enabled,
            r.water_change_interval_sec == 604800,
            r.scheduled_drain_amount_cm == binary32::ratio(5, 1),
            !r.emergency_shutdown,
            r.min_ec_limit == binary32::ratio(0, 1),
            r.max_ec_limit == binary32::ratio(35, 10),
            r.min_ph_limit == binary32::ratio(4, 1),
            r.max_ph_limit == binary32::ratio(85, 10),
            r.max_ec_delta == binary32::ratio(1, 1),
            r.max_ph_delta == binary32::ratio(15, 10),
            r.max_dose_per_cycle == binary32::ratio(2, 1),
            r.water_level_critical_min == binary32::ratio(5, 1),
            r.max_refill_duration_sec == 120,
            r.max_drain_duration_sec == 120,
            r.ec_gain_per_ml == binary32::ratio(15, 1000),
            r.ph_shift_up_per_ml == binary32::ratio(2, 100),
            r.ph_shift_down_per_ml == binary32::ratio(25, 1000),
            r.mixing_delay_sec == 300,
            r.active_mixing_sec == 300,
            r.sensor_stabilize_sec == 300,
            r.ec_step_ratio == binary32::ratio(4, 10),
            r.ph_step_ratio == binary32::ratio(2, 10),
            r.pump_capacity_ml_per_sec == binary32::ratio(833, 100000),
            r.dosing_pump_capacity_ml_per_sec == binary32::ratio(833, 100000),
    {
        DeviceConfig {
            device_id: "ESP32_PUMP_NODE".to_string(),
            control_mode: ControlMode::Auto,
            is_enabled: true,
            ec_target: Binary32::from_ratio(12, 10),
            ec_tolerance: Binary32::from_ratio(5, 100),
            ph_target: Binary32::from_ratio(6, 1),
            ph_tolerance: Binary32::from_ratio(1, 10),
            water_level_min: Binary32::from_ratio(15, 1),
            water_level_target: Binary32::from_ratio(20, 1),
            water_level_max: Binary32::from_ratio(24, 1),
            water_level_tolerance: Binary32::from_ratio(1, 1),
            auto_refill_enabled: true,
            auto_drain_overflow: true,
            auto_dilute_enabled: true,
            dilute_drain_amount_cm: Binary32::from_ratio(2, 1),
            scheduled_water_change_enabled: false,
            water_change_interval_sec: 604800,
            scheduled_drain_amount_cm: Binary32::from_ratio(5, 1),
            emergency_shutdown: false,
            min_ec_limit: Binary32::from_ratio(0, 1),
            max_ec_limit: Binary32::from_ratio(35, 10),
            min_ph_limit: Binary32::from_ratio(4, 1),
            max_ph_limit: Binary32::from_ratio(85, 10),
            max_ec_delta: Binary32::from_ratio(1, 1),
            max_ph_delta: Binary32::from_ratio(15, 10),
            max_dose_per_cycle: Binary32::from_ratio(2, 1),
            water_level_critical_min: Binary32::from_ratio(5, 1),
            max_refill_duration_sec: 120,
            max_drain_duration_sec: 120,
            ec_gain_per_ml: Binary32::from_ratio(15, 1000),
            ph_shift_up_per_ml: Binary32::from_ratio(2, 100),
            ph_shift_down_per_ml: Binary32::from_ratio(25, 1000),
            mixing_delay_sec: 300,
            active_mixing_sec: 300,
            sensor_stabilize_sec: 300,
            ec_step_ratio: Binary32::from_ratio(4, 10),
            ph_step_ratio: Binary32::from_ratio(2, 10),
            pump_capacity_ml_per_sec: Binary32::from_ratio(833, 100000),
            dosing_pump_capacity_ml_per_sec: Binary32::from_ratio(833, 100000),
        }
    }
}

} // verus!
