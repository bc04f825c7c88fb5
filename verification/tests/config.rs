use agitech_pump::binary32::Binary32;
use agitech_pump::config::{ControlMode, DeviceConfig};
use agitech_pump::mqtt::SensorData;

fn is(a: Binary32, b: f32) -> bool {
    a.to_bits() == b.to_bits()
}

#[test]
fn default_settings() {
    let c = DeviceConfig::default();
    assert_eq!(c.device_id, "ESP32_PUMP_NODE");
    assert_eq!(c.control_mode, ControlMode::Auto);
    assert!(c.is_enabled);
    assert!(is(c.ec_target, 1.2) && is(c.ec_tolerance, 0.05));
    assert!(is(c.ph_target, 6.0) && is(c.ph_tolerance, 0.1));
    assert!(is(c.water_level_min, 15.0) && is(c.water_level_target, 20.0));
    assert!(is(c.water_level_max, 24.0) && is(c.water_level_tolerance, 1.0));
    assert!(c.auto_refill_enabled && c.auto_drain_overflow && c.auto_dilute_enabled);
    assert!(is(c.dilute_drain_amount_cm, 2.0));
    assert!(!c.scheduled_water_change_enabled);
    assert_eq!(c.water_change_interval_sec, 604800);
    assert!(is(c.scheduled_drain_amount_cm, 5.0));
    assert!(!c.emergency_shutdown);
    assert!(is(c.min_ec_limit, 0.0) && is(c.max_ec_limit, 3.5));
    assert!(is(c.min_ph_limit, 4.0) && is(c.max_ph_limit, 8.5));
    assert!(is(c.max_ec_delta, 1.0) && is(c.max_ph_delta, 1.5));
    assert!(is(c.max_dose_per_cycle, 2.0));
    assert!(is(c.water_level_critical_min, 5.0));
    assert_eq!((c.max_refill_duration_sec, c.max_drain_duration_sec), (120, 120));
    assert!(is(c.ec_gain_per_ml, 0.015));
    assert!(is(c.ph_shift_up_per_ml, 0.02) && is(c.ph_shift_down_per_ml, 0.025));
    assert_eq!(c.mixing_delay_sec, 300);
    assert_eq!((c.active_mixing_sec, c.sensor_stabilize_sec), (300, 300));
    assert!(is(c.ec_step_ratio, 0.4) && is(c.ph_step_ratio, 0.2));
    assert!(is(c.pump_capacity_ml_per_sec, 0.00833));
    assert!(is(c.dosing_pump_capacity_ml_per_sec, 0.00833));
}

#[test]
fn default_readings() {
    let s = SensorData::default();
    assert!(is(s.ec_value, 0.0) && is(s.ph_value, 7.0));
    assert!(is(s.temp_value, 25.0) && is(s.water_level, 20.0));
}
