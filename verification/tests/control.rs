use agitech_pump::auto_fsm::{
    auto_is_defined, ec_dosing_time, find_need, ph_dosing_time, run_auto_fsm, Need, MAX_RETRIES,
};
use agitech_pump::binary32::Binary32;
use agitech_pump::config::{ControlMode, DeviceConfig};
use agitech_pump::control_loop::{
    find_alarm_causes, find_manual_command, is_alarm, process_mqtt_commands, AlarmCauses,
    ControlLoop,
};
use agitech_pump::controller::{ControlContext, Effect, SystemState};
use agitech_pump::mqtt::{MqttCommandPayload, SensorData};
use agitech_pump::pump::{PumpCommand, PumpController, PumpType, WaterDirection};

const NOW: u64 = 1_700_000_000;

fn num(x: f32) -> Binary32 {
    Binary32::from_bits(x.to_bits())
}

/// Readings with nothing to do about them under the default settings.
fn calm() -> SensorData {
    SensorData {
        ec_value: num(1.2),
        ph_value: num(6.0),
        temp_value: num(25.0),
        water_level: num(20.0),
    }
}

fn lean() -> SensorData {
    SensorData { ec_value: num(1.0), ..calm() }
}

fn sour() -> SensorData {
    SensorData { ph_value: num(5.5), ..calm() }
}

fn shallow() -> SensorData {
    SensorData { water_level: num(18.5), ..calm() }
}

fn pump(pump: PumpType, on: bool) -> Effect {
    Effect::Pump { command: PumpCommand::SetPump { pump, on } }
}

fn water(direction: WaterDirection) -> Effect {
    Effect::Pump { command: PumpCommand::SetWater { direction } }
}

fn chamber(on: bool) -> Effect {
    Effect::Pump { command: PumpCommand::SetChamber { on } }
}

fn stop_all() -> Effect {
    Effect::Pump { command: PumpCommand::StopAll }
}

fn store(time: u64) -> Effect {
    Effect::StoreWaterChangeTime { time }
}

fn command(action: &str, pump: &str) -> MqttCommandPayload {
    MqttCommandPayload {
        action: action.to_string(),
        pump: pump.to_string(),
        duration_sec: None,
    }
}

fn context(state: SystemState) -> ControlContext {
    ControlContext { current_state: state, last_water_change_time: NOW, ..Default::default() }
}

fn auto(
    now: u64,
    config: &DeviceConfig,
    sensors: &SensorData,
    ctx: &mut ControlContext,
) -> Vec<Effect> {
    assert!(auto_is_defined(now, config, sensors, ctx));
    run_auto_fsm(now, config, sensors, ctx)
}

fn fault(reason: &str) -> SystemState {
    SystemState::SystemFault(reason.to_string())
}

fn carry_out(pumps: &mut PumpController, effects: &[Effect]) {
    for effect in effects {
        if let Effect::Pump { command } = effect {
            for step in pumps.steps_for(*command) {
                pumps.record(step);
            }
        }
    }
}

fn in_step(state: &SystemState, p: &PumpController) -> bool {
    let ec = matches!(state, SystemState::DosingEC { .. });
    let ph = matches!(state, SystemState::DosingPH { .. });
    let mixing = matches!(state, SystemState::ActiveMixing { .. });
    p.pump_a == ec
        && p.pump_b == ec
        && (p.pump_ph_up != p.pump_ph_down) == ph
        && !(p.pump_ph_up && p.pump_ph_down)
        && p.l298n_in1 == matches!(state, SystemState::WaterRefilling { .. })
        && p.l298n_in2 == matches!(state, SystemState::WaterDraining { .. })
        && p.l298n_in3 == (ec || ph || mixing)
        && !p.l298n_in4
}

#[test]
fn states_are_reported_by_name() {
    let named = [
        (SystemState::Monitoring, "Monitoring"),
        (SystemState::EmergencyStop, "EmergencyStop"),
        (fault("EC_DOSING_FAILED"), "SystemFault:EC_DOSING_FAILED"),
        (fault(""), "SystemFault:"),
        (SystemState::WaterRefilling { target_level: num(1.0), start_time: 1 }, "WaterRefilling"),
        (SystemState::WaterDraining { target_level: num(1.0), start_time: 1 }, "WaterDraining"),
        (SystemState::DosingEC { finish_time: 1 }, "DosingEC"),
        (SystemState::DosingPH { finish_time: 1 }, "DosingPH"),
        (SystemState::ActiveMixing { finish_time: 1 }, "ActiveMixing"),
        (SystemState::Stabilizing { finish_time: 1 }, "Stabilizing"),
    ];
    for (i, (state, name)) in named.iter().enumerate() {
        assert_eq!(state.to_payload_string(), *name);
        for (other, _) in &named[i + 1..] {
            assert_ne!(state.to_payload_string(), other.to_payload_string());
        }
    }
}

#[test]
fn a_context_starts_empty() {
    let c = ControlContext::default();
    assert_eq!(c.current_state, SystemState::Monitoring);
    assert_eq!(c.last_water_change_time, 0);
    assert_eq!((c.ec_retry_count, c.ph_retry_count, c.water_refill_retry_count), (0, 0, 0));
    assert!(c.last_ec_before_dosing.is_none() && c.last_ph_before_dosing.is_none());
    assert!(c.last_water_before_refill.is_none());
    assert!(c.previous_ec_value.is_none() && c.previous_ph_value.is_none());
}

#[test]
fn noise_is_a_jump_beyond_the_delta() {
    let config = DeviceConfig::default();
    let mut c = ControlContext::default();
    assert!(!c.check_and_update_noise(&calm(), &config));
    assert_eq!(c.previous_ec_value, Some(num(1.2)));
    assert_eq!(c.previous_ph_value, Some(num(6.0)));
    let rich = SensorData { ec_value: num(2.5), ..calm() };
    assert!(c.check_and_update_noise(&rich, &config));
    assert_eq!(c.previous_ec_value, Some(num(2.5)));
    assert!(!c.check_and_update_noise(&rich, &config));
    let edge = SensorData { ph_value: num(7.5), ..rich };
    assert!(!c.check_and_update_noise(&edge, &config));
    let beyond = SensorData { ph_value: num(9.1), ..rich };
    assert!(c.check_and_update_noise(&beyond, &config));
    assert!(!c.check_and_update_noise(&beyond, &config));
}

#[test]
fn readings_that_are_no_number_are_not_noise() {
    let config = DeviceConfig::default();
    let mut c = ControlContext::default();
    c.check_and_update_noise(&calm(), &config);
    let broken = SensorData { ec_value: num(f32::NAN), ..calm() };
    assert!(!c.check_and_update_noise(&broken, &config));
    assert!(!c.check_and_update_noise(&calm(), &config));
}

#[test]
fn responses_clear_or_count() {
    let mut c = ControlContext::default();
    c.ec_retry_count = 2;
    c.ph_retry_count = 1;
    c.water_refill_retry_count = 1;
    c.verify_sensor_ack(&calm());
    assert_eq!((c.ec_retry_count, c.ph_retry_count, c.water_refill_retry_count), (2, 1, 1));
    c.last_ec_before_dosing = Some(num(1.0));
    c.last_ph_before_dosing = Some(num(5.95));
    c.last_water_before_refill = Some(num(19.5));
    c.verify_sensor_ack(&calm());
    assert_eq!((c.ec_retry_count, c.ph_retry_count, c.water_refill_retry_count), (0, 2, 0));
    assert!(c.last_ec_before_dosing.is_none() && c.last_ph_before_dosing.is_none());
    assert!(c.last_water_before_refill.is_none());
    c.last_ec_before_dosing = Some(num(1.16));
    c.last_ph_before_dosing = Some(num(6.5));
    c.last_water_before_refill = Some(num(20.25));
    c.verify_sensor_ack(&calm());
    assert_eq!((c.ec_retry_count, c.ph_retry_count, c.water_refill_retry_count), (1, 0, 1));
}

#[test]
fn responses_in_the_other_direction_count_as_well() {
    let mut c = ControlContext::default();
    c.ec_retry_count = 2;
    c.last_ec_before_dosing = Some(num(1.5));
    c.verify_sensor_ack(&calm());
    assert_eq!(c.ec_retry_count, 0);
}

#[test]
fn counts_that_would_overflow_are_told() {
    let mut c = ControlContext::default();
    c.ph_retry_count = u8::MAX;
    assert!(c.retries_in_range(&calm()));
    c.last_ph_before_dosing = Some(num(6.0));
    assert!(!c.retries_in_range(&calm()));
    assert!(c.retries_in_range(&sour()));
    c.ph_retry_count = u8::MAX - 1;
    assert!(c.retries_in_range(&calm()));
}

#[test]
fn needs_come_in_order() {
    let mut config = DeviceConfig::default();
    let need = |config: &DeviceConfig, s: &SensorData| find_need(NOW, config, s, NOW);
    assert_eq!(need(&config, &calm()), Need::Nothing);
    assert_eq!(need(&config, &shallow()), Need::Refill);
    assert_eq!(need(&config, &SensorData { water_level: num(19.0), ..calm() }), Need::Nothing);
    let deep = SensorData { water_level: num(24.5), ..calm() };
    assert_eq!(need(&config, &deep), Need::DrainOverflow);
    assert_eq!(need(&config, &SensorData { water_level: num(24.0), ..calm() }), Need::Nothing);
    let rich = SensorData { ec_value: num(1.3), ..calm() };
    assert_eq!(need(&config, &rich), Need::Dilute);
    assert_eq!(need(&config, &lean()), Need::DoseEc);
    assert_eq!(need(&config, &sour()), Need::DosePh);
    assert_eq!(need(&config, &SensorData { ph_value: num(6.5), ..calm() }), Need::DosePh);
    assert_eq!(need(&config, &SensorData { ph_value: num(5.5), ..lean() }), Need::DoseEc);
    assert_eq!(need(&config, &SensorData { ec_value: num(1.0), ..shallow() }), Need::Refill);
    config.auto_refill_enabled = false;
    config.auto_drain_overflow = false;
    config.auto_dilute_enabled = false;
    assert_eq!(need(&config, &shallow()), Need::Nothing);
    assert_eq!(need(&config, &deep), Need::Nothing);
    assert_eq!(need(&config, &rich), Need::Nothing);
}

#[test]
fn a_water_change_is_due_after_its_interval() {
    let mut config = DeviceConfig::default();
    let late = NOW + 604_801;
    assert_eq!(find_need(NOW, &config, &lean(), late), Need::DoseEc);
    config.scheduled_water_change_enabled = true;
    assert_eq!(find_need(NOW, &config, &lean(), late), Need::ChangeWater);
    assert_eq!(find_need(NOW, &config, &lean(), late - 1), Need::DoseEc);
}

#[test]
fn doses_are_measured_and_limited() {
    let mut config = DeviceConfig::default();
    assert_eq!(ec_dosing_time(&config, &lean()), 240);
    assert_eq!(ph_dosing_time(&config, &sour()), 240);
    config.max_dose_per_cycle = num(10.0);
    let by_hand = ((1.2f32 - 1.0) / 0.015 * 0.4).clamp(0.0, 10.0) / 0.00833;
    assert_eq!(ec_dosing_time(&config, &lean()), by_hand as u64);
    assert_eq!(by_hand as u64, 640);
    assert_eq!(ph_dosing_time(&config, &sour()), 600);
    let sharp = SensorData { ph_value: num(6.5), ..calm() };
    assert_eq!(ph_dosing_time(&config, &sharp), 480);
    config.max_dose_per_cycle = num(0.0);
    assert_eq!(ec_dosing_time(&config, &lean()), 0);
    config.max_dose_per_cycle = num(2.0);
    config.ec_gain_per_ml = num(-1.0);
    assert_eq!(ec_dosing_time(&config, &lean()), 0);
    config.ec_gain_per_ml = num(0.0);
    assert_eq!(ec_dosing_time(&config, &lean()), 240);
    config.dosing_pump_capacity_ml_per_sec = num(0.0);
    assert_eq!(ec_dosing_time(&config, &lean()), u64::MAX);
    config.dosing_pump_capacity_ml_per_sec = num(f32::NAN);
    assert_eq!(ec_dosing_time(&config, &lean()), 0);
}

#[test]
fn monitoring_with_nothing_to_do_stops_the_chamber_pump() {
    let mut c = context(SystemState::Monitoring);
    let effects = auto(NOW, &DeviceConfig::default(), &calm(), &mut c);
    assert_eq!(effects, vec![chamber(false)]);
    assert_eq!(c.current_state, SystemState::Monitoring);
}

#[test]
fn low_ec_is_dosed_mixed_and_settled() {
    let config = DeviceConfig::default();
    let mut c = context(SystemState::Monitoring);
    let effects = auto(NOW, &config, &lean(), &mut c);
    assert_eq!(
        effects,
        vec![chamber(true), pump(PumpType::NutrientA, true), pump(PumpType::NutrientB, true)]
    );
    assert_eq!(c.current_state, SystemState::DosingEC { finish_time: NOW + 240 });
    assert_eq!(c.last_ec_before_dosing, Some(num(1.0)));
    assert_eq!(auto(NOW + 239, &config, &lean(), &mut c), vec![]);
    assert_eq!(c.current_state, SystemState::DosingEC { finish_time: NOW + 240 });
    assert_eq!(
        auto(NOW + 240, &config, &lean(), &mut c),
        vec![pump(PumpType::NutrientA, false), pump(PumpType::NutrientB, false)]
    );
    assert_eq!(c.current_state, SystemState::ActiveMixing { finish_time: NOW + 540 });
    assert_eq!(auto(NOW + 539, &config, &lean(), &mut c), vec![]);
    assert_eq!(auto(NOW + 540, &config, &lean(), &mut c), vec![chamber(false)]);
    assert_eq!(c.current_state, SystemState::Stabilizing { finish_time: NOW + 840 });
    assert_eq!(auto(NOW + 839, &config, &calm(), &mut c), vec![]);
    assert_eq!(auto(NOW + 840, &config, &calm(), &mut c), vec![]);
    assert_eq!(c.current_state, SystemState::Monitoring);
    assert_eq!(auto(NOW + 841, &config, &calm(), &mut c), vec![chamber(false)]);
    assert_eq!((c.ec_retry_count, c.last_ec_before_dosing), (0, None));
}

#[test]
fn ph_is_dosed_up_or_down() {
    let config = DeviceConfig::default();
    let mut c = context(SystemState::Monitoring);
    assert_eq!(
        auto(NOW, &config, &sour(), &mut c),
        vec![chamber(true), pump(PumpType::PhUp, true)]
    );
    assert_eq!(c.current_state, SystemState::DosingPH { finish_time: NOW + 240 });
    assert_eq!(c.last_ph_before_dosing, Some(num(5.5)));
    assert_eq!(
        auto(NOW + 240, &config, &sour(), &mut c),
        vec![pump(PumpType::PhUp, false), pump(PumpType::PhDown, false)]
    );
    let mut c = context(SystemState::Monitoring);
    let sharp = SensorData { ph_value: num(6.5), ..calm() };
    assert_eq!(
        auto(NOW, &config, &sharp, &mut c),
        vec![chamber(true), pump(PumpType::PhDown, true)]
    );
}

#[test]
fn a_dose_of_less_than_a_second_is_not_given() {
    let mut config = DeviceConfig::default();
    config.max_dose_per_cycle = num(0.008);
    let mut c = context(SystemState::Monitoring);
    assert_eq!(auto(NOW, &config, &lean(), &mut c), vec![]);
    assert_eq!(c.current_state, SystemState::Monitoring);
    assert_eq!(c.last_ec_before_dosing, Some(num(1.0)));
    assert_eq!(auto(NOW, &config, &lean(), &mut c), vec![]);
    assert_eq!(c.ec_retry_count, 1);
    let mut c = context(SystemState::Monitoring);
    assert_eq!(auto(NOW, &config, &sour(), &mut c), vec![]);
    assert_eq!(c.last_ph_before_dosing, Some(num(5.5)));
}

#[test]
fn the_tank_is_refilled() {
    let config = DeviceConfig::default();
    let mut c = context(SystemState::Monitoring);
    assert_eq!(
        auto(NOW, &config, &shallow(), &mut c),
        vec![water(WaterDirection::In), chamber(false)]
    );
    let filling = SystemState::WaterRefilling { target_level: num(20.0), start_time: NOW };
    assert_eq!(c.current_state, filling);
    assert_eq!(c.last_water_before_refill, Some(num(18.5)));
    assert_eq!(auto(NOW + 120, &config, &shallow(), &mut c), vec![]);
    assert_eq!(c.current_state, filling);
    let mut full = c.clone();
    let over = vec![water(WaterDirection::Stop), chamber(true)];
    assert_eq!(auto(NOW + 60, &config, &calm(), &mut full), over);
    assert_eq!(full.current_state, SystemState::ActiveMixing { finish_time: NOW + 360 });
    assert_eq!(auto(NOW + 121, &config, &shallow(), &mut c), over);
    assert_eq!(c.current_state, SystemState::ActiveMixing { finish_time: NOW + 421 });
}

#[test]
fn the_tank_is_drained_when_it_overflows() {
    let config = DeviceConfig::default();
    let deep = SensorData { water_level: num(25.0), ..calm() };
    let mut c = context(SystemState::Monitoring);
    assert_eq!(
        auto(NOW, &config, &deep, &mut c),
        vec![water(WaterDirection::Out), chamber(false)]
    );
    let draining = SystemState::WaterDraining { target_level: num(20.0), start_time: NOW };
    assert_eq!(c.current_state, draining);
    assert_eq!(auto(NOW + 120, &config, &deep, &mut c), vec![]);
    let mut slow = c.clone();
    let over = vec![water(WaterDirection::Stop), chamber(false)];
    assert_eq!(auto(NOW + 30, &config, &calm(), &mut c), over);
    assert_eq!(c.current_state, SystemState::Stabilizing { finish_time: NOW + 330 });
    assert_eq!(auto(NOW + 121, &config, &deep, &mut slow), over);
    assert_eq!(slow.current_state, SystemState::Stabilizing { finish_time: NOW + 421 });
}

#[test]
fn a_rich_solution_is_diluted_down_to_the_least_level() {
    let config = DeviceConfig::default();
    let rich = SensorData { ec_value: num(2.0), ..calm() };
    let mut c = context(SystemState::Monitoring);
    assert_eq!(
        auto(NOW, &config, &rich, &mut c),
        vec![water(WaterDirection::Out), chamber(false)]
    );
    assert_eq!(
        c.current_state,
        SystemState::WaterDraining { target_level: num(18.0), start_time: NOW }
    );
    let mut config = config;
    config.dilute_drain_amount_cm = num(8.0);
    let mut c = context(SystemState::Monitoring);
    auto(NOW, &config, &rich, &mut c);
    assert_eq!(
        c.current_state,
        SystemState::WaterDraining { target_level: num(15.0), start_time: NOW }
    );
}

#[test]
fn a_scheduled_change_drains_and_is_stored() {
    let mut config = DeviceConfig::default();
    config.scheduled_water_change_enabled = true;
    let now = NOW + 700_000;
    let mut c = context(SystemState::Monitoring);
    assert_eq!(
        auto(now, &config, &calm(), &mut c),
        vec![store(now), water(WaterDirection::Out)]
    );
    assert_eq!(c.last_water_change_time, now);
    assert_eq!(
        c.current_state,
        SystemState::WaterDraining { target_level: num(15.0), start_time: now }
    );
    let (again, effects) = ControlLoop::start(Some(now), now + 5);
    assert_eq!(again.ctx.last_water_change_time, now);
    assert_eq!(effects, vec![]);
}

#[test]
fn three_failures_in_a_row_are_a_fault() {
    let config = DeviceConfig::default();
    for (readings, reason) in [
        (lean(), "EC_DOSING_FAILED"),
        (sour(), "PH_DOSING_FAILED"),
        (shallow(), "WATER_REFILL_FAILED"),
    ] {
        let mut c = context(SystemState::Monitoring);
        let mut now = NOW;
        let mut pumps = PumpController::new().0;
        for _ in 0..MAX_RETRIES {
            let effects = auto(now, &config, &readings, &mut c);
            carry_out(&mut pumps, &effects);
            assert_ne!(c.current_state, SystemState::Monitoring);
            while c.current_state != SystemState::Monitoring {
                now += 1;
                let effects = auto(now, &config, &readings, &mut c);
                carry_out(&mut pumps, &effects);
                assert!(in_step(&c.current_state, &pumps));
            }
        }
        now += 1;
        assert_eq!(auto(now, &config, &readings, &mut c), vec![stop_all()]);
        assert_eq!(c.current_state, fault(reason));
        let counts = [c.ec_retry_count, c.ph_retry_count, c.water_refill_retry_count];
        assert_eq!(counts.iter().sum::<u8>(), 3);
        assert_eq!(auto(now + 1, &config, &calm(), &mut c), vec![]);
        assert_eq!(c.current_state, fault(reason));
    }
}

#[test]
fn a_response_in_between_saves_the_cycle() {
    let config = DeviceConfig::default();
    let mut c = context(SystemState::Monitoring);
    c.ec_retry_count = 2;
    c.last_ec_before_dosing = Some(num(0.9));
    auto(NOW, &config, &lean(), &mut c);
    assert_eq!(c.current_state, SystemState::DosingEC { finish_time: NOW + 240 });
    assert_eq!(c.ec_retry_count, 0);
}

#[test]
fn rounds_that_would_leave_the_range_are_told() {
    let mut config = DeviceConfig::default();
    let c = context(SystemState::Monitoring);
    assert!(auto_is_defined(NOW, &config, &lean(), &c));
    config.max_dose_per_cycle = num(-1.0);
    assert!(!auto_is_defined(NOW, &config, &lean(), &c));
    assert!(!auto_is_defined(NOW, &config, &sour(), &c));
    assert!(auto_is_defined(NOW, &config, &calm(), &c));
    config.max_dose_per_cycle = num(f32::NAN);
    assert!(!auto_is_defined(NOW, &config, &lean(), &c));
    let mut config = DeviceConfig::default();
    config.dosing_pump_capacity_ml_per_sec = num(0.0);
    assert!(!auto_is_defined(NOW, &config, &lean(), &c));
    let mut config = DeviceConfig::default();
    config.scheduled_water_change_enabled = true;
    assert!(!auto_is_defined(NOW - 1, &config, &calm(), &c));
    assert!(auto_is_defined(NOW, &config, &calm(), &c));
    let mut config = DeviceConfig::default();
    config.active_mixing_sec = u64::MAX;
    config.sensor_stabilize_sec = u64::MAX;
    let dosing = context(SystemState::DosingPH { finish_time: NOW });
    assert!(!auto_is_defined(NOW, &config, &calm(), &dosing));
    assert!(auto_is_defined(NOW - 1, &config, &calm(), &dosing));
    let dosing = context(SystemState::DosingEC { finish_time: NOW });
    assert!(!auto_is_defined(NOW, &config, &calm(), &dosing));
    let mixing = context(SystemState::ActiveMixing { finish_time: NOW });
    assert!(!auto_is_defined(NOW, &config, &calm(), &mixing));
    let config = DeviceConfig::default();
    let filling = SystemState::WaterRefilling { target_level: num(20.0), start_time: NOW };
    let filling = context(filling);
    assert!(!auto_is_defined(NOW - 1, &config, &shallow(), &filling));
    assert!(auto_is_defined(NOW - 1, &config, &calm(), &filling));
    let draining = SystemState::WaterDraining { target_level: num(19.0), start_time: NOW };
    let draining = context(draining);
    assert!(!auto_is_defined(NOW - 1, &config, &calm(), &draining));
    assert!(auto_is_defined(NOW, &config, &calm(), &draining));
    let mut counted = context(SystemState::Monitoring);
    counted.ec_retry_count = u8::MAX;
    counted.last_ec_before_dosing = Some(num(1.2));
    assert!(!auto_is_defined(NOW, &config, &calm(), &counted));
    assert!(auto_is_defined(NOW, &config, &lean(), &counted));
}

#[test]
fn pumps_go_by_name() {
    let on = |name: &str| find_manual_command(name, true);
    let off = |name: &str| find_manual_command(name, false);
    let set = |pump: PumpType, on: bool| Some(PumpCommand::SetPump { pump, on });
    assert_eq!(on("A"), set(PumpType::NutrientA, true));
    assert_eq!(off("B"), set(PumpType::NutrientB, false));
    assert_eq!(on("PH_UP"), set(PumpType::PhUp, true));
    assert_eq!(off("PH_DOWN"), set(PumpType::PhDown, false));
    assert_eq!(on("CHAMBER_PUMP"), Some(PumpCommand::SetChamber { on: true }));
    assert_eq!(
        on("WATER_PUMP"),
        Some(PumpCommand::SetWater { direction: WaterDirection::In })
    );
    assert_eq!(
        on("DRAIN_PUMP"),
        Some(PumpCommand::SetWater { direction: WaterDirection::Out })
    );
    let stop = Some(PumpCommand::SetWater { direction: WaterDirection::Stop });
    assert_eq!(off("WATER_PUMP"), stop);
    assert_eq!(off("DRAIN_PUMP"), stop);
    assert_eq!(on("a"), None);
    assert_eq!(on(""), None);
}

#[test]
fn manual_commands_work_in_manual_mode_only() {
    let mut config = DeviceConfig::default();
    let commands = vec![
        command("pump_on", "A"),
        command("pump_off", "B"),
        command("anything", "WATER_PUMP"),
        command("pump_on", "NO_SUCH_PUMP"),
        command("pump_on", "CHAMBER_PUMP"),
    ];
    let mut c = context(SystemState::DosingEC { finish_time: NOW });
    assert_eq!(process_mqtt_commands(&commands, &config, &mut c), vec![]);
    assert_eq!(c.current_state, SystemState::DosingEC { finish_time: NOW });
    config.control_mode = ControlMode::Manual;
    assert_eq!(
        process_mqtt_commands(&commands, &config, &mut c),
        vec![
            pump(PumpType::NutrientA, true),
            pump(PumpType::NutrientB, false),
            water(WaterDirection::Stop),
            chamber(true),
        ]
    );
    assert_eq!(c.current_state, SystemState::DosingEC { finish_time: NOW });
}

#[test]
fn a_reset_works_in_either_mode() {
    for mode in [ControlMode::Auto, ControlMode::Manual] {
        let mut config = DeviceConfig::default();
        config.control_mode = mode;
        let mut c = context(fault("EC_DOSING_FAILED"));
        c.ec_retry_count = 3;
        c.ph_retry_count = 2;
        c.water_refill_retry_count = 1;
        c.last_ph_before_dosing = Some(num(6.0));
        c.previous_ec_value = Some(num(1.0));
        let effects = process_mqtt_commands(&vec![command("reset_fault", "")], &config, &mut c);
        assert_eq!(effects, vec![stop_all()]);
        assert_eq!(c.current_state, SystemState::Monitoring);
        assert_eq!((c.ec_retry_count, c.ph_retry_count, c.water_refill_retry_count), (0, 0, 0));
        assert_eq!(c.last_ph_before_dosing, None);
        assert_eq!(c.previous_ec_value, Some(num(1.0)));
        assert_eq!(c.last_water_change_time, NOW);
    }
    let mut c = context(SystemState::Monitoring);
    assert_eq!(process_mqtt_commands(&vec![], &DeviceConfig::default(), &mut c), vec![]);
}

#[test]
fn every_limit_raises_the_alarm() {
    let mut config = DeviceConfig::default();
    config.min_ec_limit = num(0.5);
    let alarm = |s: SensorData| is_alarm(&config, &s);
    assert!(!alarm(calm()));
    assert!(alarm(SensorData { water_level: num(4.9), ..calm() }));
    assert!(!alarm(SensorData { water_level: num(5.0), ..calm() }));
    assert!(alarm(SensorData { ec_value: num(0.4), ..calm() }));
    assert!(alarm(SensorData { ec_value: num(3.6), ..calm() }));
    assert!(!alarm(SensorData { ec_value: num(3.5), ..calm() }));
    assert!(alarm(SensorData { ph_value: num(3.9), ..calm() }));
    assert!(alarm(SensorData { ph_value: num(8.6), ..calm() }));
    assert!(!alarm(SensorData { ph_value: num(f32::NAN), ..calm() }));
    let mut config = config.clone();
    config.emergency_shutdown = true;
    assert!(is_alarm(&config, &calm()));
}

fn round(
    l: &mut ControlLoop,
    now: u64,
    config: &DeviceConfig,
    s: &SensorData,
) -> (Vec<Effect>, Option<String>) {
    assert!(l.round_is_defined(now, config, s));
    let outcome = l.round(now, config, s);
    (outcome.effects, outcome.report)
}

fn report(state: &str) -> Option<String> {
    Some(format!(r#"{{"current_state": "{}"}}"#, state))
}

#[test]
fn a_start_without_a_stored_time_stores_one() {
    let (l, effects) = ControlLoop::start(None, NOW);
    assert_eq!(effects, vec![store(NOW)]);
    assert_eq!(l.ctx.last_water_change_time, NOW);
    assert_eq!(l.ctx.current_state, SystemState::Monitoring);
    assert_eq!(l.last_reported_state, "");
}

#[test]
fn states_are_reported_when_they_change() {
    let config = DeviceConfig::default();
    let (mut l, _) = ControlLoop::start(Some(NOW), NOW);
    assert_eq!(round(&mut l, NOW, &config, &calm()), (vec![chamber(false)], report("Monitoring")));
    assert_eq!(round(&mut l, NOW + 1, &config, &calm()), (vec![chamber(false)], None));
    let (effects, told) = round(&mut l, NOW + 2, &config, &lean());
    assert_eq!(effects.len(), 3);
    assert_eq!(told, report("DosingEC"));
    assert_eq!(round(&mut l, NOW + 3, &config, &lean()), (vec![], None));
    assert_eq!(l.last_reported_state, "DosingEC");
}

#[test]
fn a_jump_leaves_the_round_out_in_automatic_mode() {
    let mut config = DeviceConfig::default();
    let (mut l, _) = ControlLoop::start(Some(NOW), NOW);
    round(&mut l, NOW, &config, &calm());
    let wild = SensorData { ec_value: num(9.0), ..calm() };
    assert_eq!(round(&mut l, NOW + 1, &config, &wild), (vec![], None));
    assert_eq!(l.ctx.current_state, SystemState::Monitoring);
    assert_eq!(
        round(&mut l, NOW + 2, &config, &wild),
        (vec![stop_all()], report("EmergencyStop"))
    );
    config.control_mode = ControlMode::Manual;
    let (mut l, _) = ControlLoop::start(Some(NOW), NOW);
    round(&mut l, NOW, &config, &calm());
    assert_eq!(
        round(&mut l, NOW + 1, &config, &wild),
        (vec![stop_all()], report("EmergencyStop"))
    );
}

#[test]
fn an_alarm_stops_everything_until_it_is_over() {
    let config = DeviceConfig::default();
    let dry = SensorData { water_level: num(3.0), ..calm() };
    let (mut l, _) = ControlLoop::start(Some(NOW), NOW);
    l.ctx.current_state = SystemState::DosingEC { finish_time: NOW + 100 };
    assert_eq!(round(&mut l, NOW, &config, &dry), (vec![stop_all()], report("EmergencyStop")));
    assert_eq!(round(&mut l, NOW + 1, &config, &dry), (vec![], None));
    assert_eq!(round(&mut l, NOW + 2, &config, &calm()), (vec![], report("Monitoring")));
    assert_eq!(round(&mut l, NOW + 3, &config, &calm()), (vec![chamber(false)], None));
}

#[test]
fn a_device_that_is_switched_off_stops() {
    let mut config = DeviceConfig::default();
    config.is_enabled = false;
    let (mut l, _) = ControlLoop::start(Some(NOW), NOW);
    l.ctx.current_state = SystemState::ActiveMixing { finish_time: NOW + 100 };
    assert_eq!(round(&mut l, NOW, &config, &lean()), (vec![stop_all()], report("Monitoring")));
    assert_eq!(round(&mut l, NOW + 1, &config, &lean()), (vec![], None));
    l.ctx.current_state = fault("X");
    assert_eq!(round(&mut l, NOW + 2, &config, &lean()), (vec![stop_all()], None));
    assert_eq!(l.ctx.current_state, SystemState::Monitoring);
}

#[test]
fn manual_mode_breaks_the_cycle_off() {
    let mut config = DeviceConfig::default();
    config.control_mode = ControlMode::Manual;
    let (mut l, _) = ControlLoop::start(Some(NOW), NOW);
    l.ctx.current_state = SystemState::Stabilizing { finish_time: NOW + 100 };
    assert_eq!(round(&mut l, NOW, &config, &calm()), (vec![stop_all()], report("Monitoring")));
    assert_eq!(round(&mut l, NOW + 1, &config, &lean()), (vec![], None));
}

#[test]
fn a_fault_stays_until_it_is_reset() {
    let mut config = DeviceConfig::default();
    let (mut l, _) = ControlLoop::start(Some(NOW), NOW);
    l.ctx.current_state = fault("PH_DOSING_FAILED");
    let told = report("SystemFault:PH_DOSING_FAILED");
    assert_eq!(round(&mut l, NOW, &config, &calm()), (vec![], told));
    config.control_mode = ControlMode::Manual;
    assert_eq!(round(&mut l, NOW + 1, &config, &calm()), (vec![], None));
    assert_eq!(l.ctx.current_state, fault("PH_DOSING_FAILED"));
    let reset = vec![command("reset_fault", "")];
    assert_eq!(process_mqtt_commands(&reset, &config, &mut l.ctx), vec![stop_all()]);
    assert_eq!(round(&mut l, NOW + 2, &config, &calm()), (vec![], report("Monitoring")));
}

#[test]
fn the_causes_of_an_alarm_are_told() {
    let mut config = DeviceConfig::default();
    let none = AlarmCauses {
        emergency_shutdown: false,
        is_water_critical: false,
        is_ec_out_of_bounds: false,
        is_ph_out_of_bounds: false,
    };
    assert_eq!(find_alarm_causes(&config, &calm()), none);
    let bad = SensorData { water_level: num(1.0), ec_value: num(4.0), ..calm() };
    assert_eq!(
        find_alarm_causes(&config, &bad),
        AlarmCauses { is_water_critical: true, is_ec_out_of_bounds: true, ..none }
    );
    config.emergency_shutdown = true;
    let acid = SensorData { ph_value: num(3.0), ..calm() };
    assert_eq!(
        find_alarm_causes(&config, &acid),
        AlarmCauses { emergency_shutdown: true, is_ph_out_of_bounds: true, ..none }
    );
}

#[test]
fn a_tick_takes_commands_before_the_round() {
    let config = DeviceConfig::default();
    let (mut l, _) = ControlLoop::start(Some(NOW), NOW);
    l.ctx.current_state = fault("EC_DOSING_FAILED");
    l.ctx.ec_retry_count = 3;
    let commands = vec![command("pump_on", "A"), command("reset_fault", "")];
    assert!(l.tick_is_defined(NOW, &config, &lean(), &commands));
    let outcome = l.tick(NOW, &config, &lean(), &commands);
    assert_eq!(
        outcome.effects,
        vec![
            stop_all(),
            chamber(true),
            pump(PumpType::NutrientA, true),
            pump(PumpType::NutrientB, true),
        ]
    );
    assert_eq!(outcome.report, report("DosingEC"));
    assert_eq!(l.ctx.current_state, SystemState::DosingEC { finish_time: NOW + 240 });
    assert_eq!(l.ctx.ec_retry_count, 0);
    assert!(l.tick_is_defined(NOW + 1, &config, &lean(), &vec![]));
    let outcome = l.tick(NOW + 1, &config, &lean(), &vec![]);
    assert_eq!((outcome.effects, outcome.report), (vec![], None));
}

#[test]
fn a_tick_is_in_range_by_what_its_commands_leave() {
    let mut config = DeviceConfig::default();
    config.max_dose_per_cycle = num(-1.0);
    let (mut l, _) = ControlLoop::start(Some(NOW), NOW);
    l.ctx.current_state = fault("EC_DOSING_FAILED");
    let reset = vec![command("reset_fault", "")];
    assert!(l.tick_is_defined(NOW, &config, &lean(), &vec![command("pump_on", "A")]));
    assert!(!l.tick_is_defined(NOW, &config, &lean(), &reset));
    let config = DeviceConfig::default();
    l.ctx.current_state = SystemState::Monitoring;
    l.ctx.ec_retry_count = u8::MAX;
    l.ctx.last_ec_before_dosing = Some(num(1.0));
    assert!(!l.tick_is_defined(NOW, &config, &lean(), &vec![]));
    assert!(l.tick_is_defined(NOW, &config, &lean(), &reset));
}

#[test]
fn pumps_stay_in_step_over_many_rounds() {
    let mut config = DeviceConfig::default();
    config.scheduled_water_change_enabled = true;
    config.water_change_interval_sec = 5_000;
    let (mut l, _) = ControlLoop::start(None, NOW);
    let mut stored = NOW;
    let mut pumps = PumpController::new().0;
    let mut seen: Vec<String> = Vec::new();
    let readings = [
        lean(),
        calm(),
        sour(),
        SensorData { water_level: num(16.0), ..calm() },
        SensorData { water_level: num(25.0), ..calm() },
        SensorData { ec_value: num(2.0), ..calm() },
        SensorData { water_level: num(2.0), ..calm() },
        SensorData { ph_value: num(6.4), ..calm() },
        SensorData { ec_value: num(f32::NAN), ..calm() },
    ];
    for second in 0..60_000u64 {
        let now = NOW + second;
        let s = &readings[(second / 701) as usize % readings.len()];
        if second % 9_001 == 9_000 {
            let reset = vec![command("pump_on", "A"), command("reset_fault", "")];
            let effects = process_mqtt_commands(&reset, &config, &mut l.ctx);
            carry_out(&mut pumps, &effects);
        }
        let (effects, _) = round(&mut l, now, &config, s);
        carry_out(&mut pumps, &effects);
        for effect in effects {
            if let Effect::StoreWaterChangeTime { time } = effect {
                stored = time;
            }
        }
        assert!(in_step(&l.ctx.current_state, &pumps), "{:?} {:?}", l.ctx.current_state, pumps);
        assert_eq!(stored, l.ctx.last_water_change_time);
        assert!(l.ctx.ec_retry_count <= MAX_RETRIES);
        assert!(l.ctx.ph_retry_count <= MAX_RETRIES);
        assert!(l.ctx.water_refill_retry_count <= MAX_RETRIES);
        let name = l.ctx.current_state.to_payload_string();
        if !seen.contains(&name) {
            seen.push(name);
        }
    }
    for name in [
        "Monitoring",
        "EmergencyStop",
        "WaterRefilling",
        "WaterDraining",
        "DosingEC",
        "DosingPH",
        "ActiveMixing",
        "Stabilizing",
    ] {
        assert!(seen.iter().any(|s| s == name), "{name} not seen in {seen:?}");
    }
    assert!(stored > NOW);
}
