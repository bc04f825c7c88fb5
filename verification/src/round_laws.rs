//! What a round and the commands before it do, told in the values of the readings and the settings.

use crate::auto_fsm;
use crate::binary32;
use crate::binary32::Binary32;
use crate::config::{ControlMode, DeviceConfig};
use crate::control_loop;
use crate::controller;
use crate::controller::{ContextView, Effect, StateView};
use crate::laws;
use crate::mqtt::{MqttCommandPayload, SensorData};
use crate::pump::PumpController;
use vstd::prelude::*;

verus! {

/// Both are numbers, and the first is the smaller.
pub open spec fn less(a: Binary32, b: Binary32) -> bool {
    !a.is_nan() && !b.is_nan() && a.value() < b.value()
}

/// The operator has shut the device down, or a reading is beyond one of its limits.
pub open spec fn in_danger(config: DeviceConfig, sensors: SensorData) -> bool {
    ||| config.emergency_shutdown
    ||| less(sensors.water_level, config.water_level_critical_min)
    ||| less(sensors.ec_value, config.min_ec_limit)
    ||| less(config.max_ec_limit, sensors.ec_value)
    ||| less(sensors.ph_value, config.min_ph_limit)
    ||| less(config.max_ph_limit, sensors.ph_value)
}

/// The reading is within `delta` of the one before it, or there was none before it.
pub open spec fn steady(previous: Option<Binary32>, now: Binary32, delta: Binary32) -> bool {
    previous matches Some(before) ==> {
        &&& before.is_finite()
        &&& now.is_finite()
        &&& delta.is_finite()
        &&& binary32::distance(now, before) <= delta.value()
    }
}

/// The round counts: the device is in manual mode, where every round does, or EC and pH are steady.
pub open spec fn counts(c: ContextView, config: DeviceConfig, sensors: SensorData) -> bool {
    config.control_mode == ControlMode::Manual || (steady(
        c.previous_ec_value,
        sensors.ec_value,
        config.max_ec_delta,
    ) && steady(c.previous_ph_value, sensors.ph_value, config.max_ph_delta))
}

/// The memory with the readings taken note of.
pub open spec fn noted(c: ContextView, sensors: SensorData) -> ContextView {
    ContextView {
        previous_ec_value: Some(sensors.ec_value),
        previous_ph_value: Some(sensors.ph_value),
        ..c
    }
}

proof fn lemma_danger(config: DeviceConfig, sensors: SensorData)
    ensures
        control_loop::alarm(config, sensors) <==> in_danger(config, sensors),
{
    lemma_less(sensors.water_level, config.water_level_critical_min);
    lemma_less(sensors.ec_value, config.min_ec_limit);
    lemma_less(config.max_ec_limit, sensors.ec_value);
    lemma_less(sensors.ph_value, config.min_ph_limit);
    lemma_less(config.max_ph_limit, sensors.ph_value);
}

proof fn lemma_less(a: Binary32, b: Binary32)
    ensures
        a.below(b) <==> less(a, b),
{
    if !a.is_nan() && !b.is_nan() {
        binary32::law_order_by_value(a, b);
    }
}

proof fn lemma_steady(previous: Option<Binary32>, now: Binary32, delta: Binary32)
    requires
        steady(previous, now, delta),
    ensures
        !controller::jumped(previous, now, delta),
{
    if let Some(before) = previous {
        binary32::law_distance_bounds(now, before, delta);
        binary32::law_order_by_value(delta, now.difference(before).absolute());
    }
}

proof fn lemma_counts(c: ContextView, config: DeviceConfig, sensors: SensorData)
    requires
        counts(c, config, sensors),
    ensures
        !control_loop::left_out(c, config, sensors),
{
    if config.control_mode == ControlMode::Auto {
        lemma_steady(c.previous_ec_value, sensors.ec_value, config.max_ec_delta);
        lemma_steady(c.previous_ph_value, sensors.ph_value, config.max_ph_delta);
    }
}

/// In either mode, a round that counts ends in an emergency stop exactly where there is danger;
/// then every pump has been stopped, unless the stop was on already, when nothing is done.
pub proof fn law_danger_means_emergency_stop(
    c: ContextView,
    config: DeviceConfig,
    sensors: SensorData,
    now: u64,
    pumps: PumpController,
)
    requires
        counts(c, config, sensors),
    ensures
        ({
            let (after, effects) = control_loop::round_of(c, config, sensors, now);
            &&& after.current_state is EmergencyStop <==> in_danger(config, sensors)
            &&& in_danger(config, sensors) ==> after == (ContextView {
                current_state: StateView::EmergencyStop,
                ..noted(c, sensors)
            })
            &&& in_danger(config, sensors) && !(c.current_state is EmergencyStop)
                ==> laws::all_carried_out(pumps, effects).all_low()
            &&& in_danger(config, sensors) && c.current_state is EmergencyStop ==> effects.len()
                == 0
        }),
{
    lemma_danger(config, sensors);
    lemma_counts(c, config, sensors);
    laws::lemma_stopped(pumps);
}

/// Without danger, what a round that counts does goes by the operator's switch, then by an
/// emergency stop that is over, and then by the mode.
pub proof fn law_round_without_danger(
    c: ContextView,
    config: DeviceConfig,
    sensors: SensorData,
    now: u64,
    pumps: PumpController,
)
    requires
        counts(c, config, sensors),
        !in_danger(config, sensors),
    ensures
        ({
            let (after, effects) = control_loop::round_of(c, config, sensors, now);
            let s = noted(c, sensors);
            let watching = ContextView { current_state: StateView::Monitoring, ..s };
            if !config.is_enabled {
                &&& after == watching
                &&& if c.current_state is Monitoring {
                    effects.len() == 0
                } else {
                    laws::all_carried_out(pumps, effects).all_low()
                }
            } else if c.current_state is EmergencyStop {
                after == watching && effects.len() == 0
            } else if config.control_mode == ControlMode::Auto {
                (after, effects) == auto_fsm::auto_step(s, config, sensors, now)
            } else if c.current_state is Monitoring || c.current_state is SystemFault {
                after == s && effects.len() == 0
            } else {
                after == watching && laws::all_carried_out(pumps, effects).all_low()
            }
        }),
{
    lemma_danger(config, sensors);
    lemma_counts(c, config, sensors);
    laws::lemma_stopped(pumps);
}

/// Every round takes note of the readings, whatever else it does.
pub proof fn law_readings_are_noted(
    c: ContextView,
    config: DeviceConfig,
    sensors: SensorData,
    now: u64,
)
    ensures
        ({
            let after = control_loop::round_of(c, config, sensors, now).0;
            &&& after.previous_ec_value == Some(sensors.ec_value)
            &&& after.previous_ph_value == Some(sensors.ph_value)
        }),
{
}

/// `now` is clearly further than `delta` from `before`: some number `between` lies above `delta`
/// and not above their distance.
pub open spec fn clearly_jumped(
    before: Binary32,
    now: Binary32,
    delta: Binary32,
    between: Binary32,
) -> bool {
    &&& before.is_finite()
    &&& now.is_finite()
    &&& delta.is_finite()
    &&& between.is_finite()
    &&& delta.value() < between.value() <= binary32::distance(now, before)
}

/// A reading of EC or pH that has clearly jumped, up or down, counts as noise; readings that are
/// both steady, or the first ones, do not.
pub proof fn law_noise_is_a_jump(
    c: ContextView,
    config: DeviceConfig,
    sensors: SensorData,
    between: Binary32,
)
    ensures
        c.previous_ec_value matches Some(before) ==> clearly_jumped(
            before,
            sensors.ec_value,
            config.max_ec_delta,
            between,
        ) ==> c.noisy(sensors, config),
        c.previous_ph_value matches Some(before) ==> clearly_jumped(
            before,
            sensors.ph_value,
            config.max_ph_delta,
            between,
        ) ==> c.noisy(sensors, config),
        steady(c.previous_ec_value, sensors.ec_value, config.max_ec_delta) && steady(
            c.previous_ph_value,
            sensors.ph_value,
            config.max_ph_delta,
        ) ==> !c.noisy(sensors, config),
        c.previous_ec_value is None && c.previous_ph_value is None ==> !c.noisy(sensors, config),
{
    if let Some(before) = c.previous_ec_value {
        if clearly_jumped(before, sensors.ec_value, config.max_ec_delta, between) {
            lemma_clear_jump(before, sensors.ec_value, config.max_ec_delta, between);
        }
    }
    if let Some(before) = c.previous_ph_value {
        if clearly_jumped(before, sensors.ph_value, config.max_ph_delta, between) {
            lemma_clear_jump(before, sensors.ph_value, config.max_ph_delta, between);
        }
    }
    if steady(c.previous_ec_value, sensors.ec_value, config.max_ec_delta) && steady(
        c.previous_ph_value,
        sensors.ph_value,
        config.max_ph_delta,
    ) {
        lemma_steady(c.previous_ec_value, sensors.ec_value, config.max_ec_delta);
        lemma_steady(c.previous_ph_value, sensors.ph_value, config.max_ph_delta);
    }
}

proof fn lemma_clear_jump(before: Binary32, now: Binary32, delta: Binary32, between: Binary32)
    requires
        clearly_jumped(before, now, delta, between),
    ensures
        controller::jumped(Some(before), now, delta),
{
    binary32::law_distance_bounds(now, before, between);
    binary32::law_order_by_value(delta, now.difference(before).absolute());
}

/// Noise is the same either way round: where the readings go from one pair of finite values to
/// another, they have jumped exactly where they would have on the way back.
pub proof fn law_noise_is_symmetric(
    c: ContextView,
    back: ContextView,
    config: DeviceConfig,
    sensors: SensorData,
    before: SensorData,
)
    requires
        c.previous_ec_value == Some(before.ec_value),
        c.previous_ph_value == Some(before.ph_value),
        back.previous_ec_value == Some(sensors.ec_value),
        back.previous_ph_value == Some(sensors.ph_value),
        sensors.ec_value.is_finite(),
        sensors.ph_value.is_finite(),
        before.ec_value.is_finite(),
        before.ph_value.is_finite(),
    ensures
        c.noisy(sensors, config) <==> back.noisy(before, config),
{
    binary32::law_distance_is_symmetric(sensors.ec_value, before.ec_value);
    binary32::law_distance_is_symmetric(sensors.ph_value, before.ph_value);
}

/// In automatic mode, a round whose EC or pH has clearly jumped does nothing but take note of the
/// readings.
pub proof fn law_clear_jump_is_left_out(
    c: ContextView,
    config: DeviceConfig,
    sensors: SensorData,
    now: u64,
    before: Binary32,
    between: Binary32,
)
    requires
        config.control_mode == ControlMode::Auto,
        (c.previous_ec_value == Some(before) && clearly_jumped(
            before,
            sensors.ec_value,
            config.max_ec_delta,
            between,
        )) || (c.previous_ph_value == Some(before) && clearly_jumped(
            before,
            sensors.ph_value,
            config.max_ph_delta,
            between,
        )),
    ensures
        control_loop::round_of(c, config, sensors, now) == (
            noted(c, sensors),
            Seq::<Effect>::empty(),
        ),
{
    law_noise_is_a_jump(c, config, sensors, between);
}

/// In manual mode a pump that is named is switched on by `pump_on` and off by any other action but
/// a reset, and no other pump is touched; an unknown name does nothing.
pub proof fn law_manual_commands_switch_pumps(
    c: ContextView,
    action: Seq<char>,
    name: Seq<char>,
    pumps: PumpController,
)
    requires
        action != "reset_fault"@,
    ensures
        ({
            let (after, effects) = control_loop::obey(c, ControlMode::Manual, action, name);
            let left = laws::all_carried_out(pumps, effects);
            let on = action == "pump_on"@;
            &&& after == c
            &&& name == "A"@ ==> left == (PumpController { pump_a: on, ..pumps })
            &&& name == "B"@ ==> left == (PumpController { pump_b: on, ..pumps })
            &&& name == "PH_UP"@ ==> left == (PumpController { pump_ph_up: on, ..pumps })
            &&& name == "PH_DOWN"@ ==> left == (PumpController { pump_ph_down: on, ..pumps })
            &&& name == "CHAMBER_PUMP"@ ==> left == (PumpController {
                l298n_in3: on,
                l298n_in4: false,
                ..pumps
            })
            &&& name == "WATER_PUMP"@ ==> left == (PumpController {
                l298n_in1: on,
                l298n_in2: false,
                ..pumps
            })
            &&& name == "DRAIN_PUMP"@ ==> left == (PumpController {
                l298n_in1: false,
                l298n_in2: on,
                ..pumps
            })
            &&& name != "A"@ && name != "B"@ && name != "PH_UP"@ && name != "PH_DOWN"@ && name
                != "CHAMBER_PUMP"@ && name != "WATER_PUMP"@ && name != "DRAIN_PUMP"@
                ==> effects.len() == 0
        }),
{
    lemma_names_differ();
    laws::lemma_outcome(
        pumps,
        control_loop::obey(c, ControlMode::Manual, action, name).1,
    );
}

proof fn lemma_names_differ()
    ensures
        "A"@ != "B"@,
        "A"@.len() == 1,
        "B"@.len() == 1,
        "PH_UP"@.len() == 5,
        "PH_DOWN"@.len() == 7,
        "CHAMBER_PUMP"@.len() == 12,
        "WATER_PUMP"@.len() == 10,
        "DRAIN_PUMP"@.len() == 10,
        "WATER_PUMP"@ != "DRAIN_PUMP"@,
{
    reveal_strlit("A");
    reveal_strlit("B");
    reveal_strlit("PH_UP");
    reveal_strlit("PH_DOWN");
    reveal_strlit("CHAMBER_PUMP");
    reveal_strlit("WATER_PUMP");
    reveal_strlit("DRAIN_PUMP");
    assert("A"@[0] == 'A' && "B"@[0] == 'B');
    assert("WATER_PUMP"@[0] == 'W' && "DRAIN_PUMP"@[0] == 'D');
}

/// Commands are carried out one after the other: those of two batches in turn are those of both
/// batches at once, and a single one is carried out as it is.
pub proof fn law_commands_in_turn(
    c: ContextView,
    mode: ControlMode,
    first: Seq<MqttCommandPayload>,
    second: Seq<MqttCommandPayload>,
)
    ensures
        ({
            let (middle, done) = control_loop::obey_all(c, mode, first);
            let (end, more) = control_loop::obey_all(middle, mode, second);
            control_loop::obey_all(c, mode, first + second) == (end, done + more)
        }),
        second.len() == 1 ==> control_loop::obey_all(c, mode, second) == control_loop::obey(
            c,
            mode,
            second[0].action@,
            second[0].pump@,
        ),
    decreases second.len(),
{
    let (middle, done) = control_loop::obey_all(c, mode, first);
    if second.len() == 0 {
        assert(first + second =~= first);
        assert(done + Seq::<Effect>::empty() =~= done);
    } else {
        let start = second.drop_last();
        law_commands_in_turn(c, mode, first, start);
        assert((first + second).drop_last() =~= first + start);
        assert((first + second).last() == second.last());
        let (before, more) = control_loop::obey_all(middle, mode, start);
        let last = control_loop::obey(before, mode, second.last().action@, second.last().pump@).1;
        assert((done + more) + last =~= done + (more + last));
    }
    if second.len() == 1 {
        let none = second.drop_last();
        assert(control_loop::obey_all(c, mode, none) == (c, Seq::<Effect>::empty()));
        let told = control_loop::obey(c, mode, second[0].action@, second[0].pump@).1;
        assert(Seq::<Effect>::empty() + told =~= told);
    }
}

/// A tick is its commands and then a round: what a round would do after them, it does.
pub proof fn law_tick_is_commands_then_round(
    c: ContextView,
    config: DeviceConfig,
    sensors: SensorData,
    now: u64,
    commands: Seq<MqttCommandPayload>,
    pumps: PumpController,
)
    ensures
        ({
            let (told, first) = control_loop::obey_all(c, config.control_mode, commands);
            let (ended, second) = control_loop::round_of(told, config, sensors, now);
            let (after, effects) = control_loop::tick_of(c, config, sensors, now, commands);
            &&& after == ended
            &&& laws::all_carried_out(pumps, effects) == laws::all_carried_out(
                laws::all_carried_out(pumps, first),
                second,
            )
        }),
{
    let (told, first) = control_loop::obey_all(c, config.control_mode, commands);
    let second = control_loop::round_of(told, config, sensors, now).1;
    laws::lemma_more_effects(pumps, first, second);
}

/// A round that counts reports its state exactly where that was not the last one reported, in the
/// form of a JSON object with the one key `current_state`; it is then the last one reported. A
/// round that is left out reports nothing.
pub proof fn law_reports_follow_the_state(
    skipped: bool,
    last: Seq<char>,
    state: Seq<char>,
    report: Option<String>,
    new_last: Seq<char>,
)
    requires
        control_loop::reported_rightly(skipped, last, state, report, new_last),
    ensures
        skipped ==> report is None && new_last == last,
        !skipped ==> new_last == state,
        !skipped ==> (report is Some <==> state != last),
        report is Some ==> report->0@ == "{\"current_state\": \""@ + state + "\"}"@,
{
}

/// The largest dose is valid where it is a number that is not negative.
pub proof fn law_valid_dose_limit(config: DeviceConfig)
    ensures
        auto_fsm::dose_limit_valid(config) <==> !config.max_dose_per_cycle.is_nan()
            && config.max_dose_per_cycle.value() >= 0,
{
    let zero = binary32::signed(false, 0);
    binary32::law_zero_value(zero);
    if !config.max_dose_per_cycle.is_nan() {
        binary32::law_order_by_value(zero, config.max_dose_per_cycle);
    }
}

/// Nothing can be told of a reading that is not a number.
proof fn lemma_broken(config: DeviceConfig, sensors: SensorData)
    ensures
        sensors.ec_value.is_nan() ==> !auto_fsm::too_lean(config, sensors) && !auto_fsm::too_rich(
            config,
            sensors,
        ),
        sensors.ph_value.is_nan() ==> !auto_fsm::ph_is_off(config, sensors),
        sensors.water_level.is_nan() ==> !auto_fsm::water_is_low(config, sensors)
            && !auto_fsm::water_is_high(config, sensors),
{
}

/// A sensor whose reading is not a number starts nothing in the cycle.
pub proof fn law_broken_sensors_start_nothing(
    c: ContextView,
    config: DeviceConfig,
    sensors: SensorData,
    now: u64,
)
    requires
        c.current_state is Monitoring,
    ensures
        ({
            let after = auto_fsm::auto_step(c, config, sensors, now).0;
            &&& sensors.ec_value.is_nan() ==> !(after.current_state is DosingEC)
                && after.last_ec_before_dosing is None
            &&& sensors.ph_value.is_nan() ==> !(after.current_state is DosingPH)
                && after.last_ph_before_dosing is None
            &&& sensors.water_level.is_nan() ==> !(after.current_state is WaterRefilling)
                && after.last_water_before_refill is None
        }),
{
    lemma_broken(config, sensors);
}

/// A reading that is not a number is no response.
pub proof fn law_broken_sensors_give_no_response(c: ContextView, sensors: SensorData)
    requires
        c.retries_fit(sensors),
    ensures
        ({
            let after = c.acknowledged(sensors);
            &&& sensors.ec_value.is_nan() && c.last_ec_before_dosing is Some
                ==> after.ec_retry_count == c.ec_retry_count + 1
            &&& sensors.ph_value.is_nan() && c.last_ph_before_dosing is Some
                ==> after.ph_retry_count == c.ph_retry_count + 1
            &&& sensors.water_level.is_nan() && c.last_water_before_refill is Some
                ==> after.water_refill_retry_count == c.water_refill_retry_count + 1
        }),
{
}

/// A reading that is not a number is no jump, nor is the one after it.
pub proof fn law_broken_sensors_do_not_jump(
    c: ContextView,
    config: DeviceConfig,
    sensors: SensorData,
)
    requires
        sensors.ec_value.is_nan() || (c.previous_ec_value matches Some(before) && before.is_nan())
            || steady(c.previous_ec_value, sensors.ec_value, config.max_ec_delta),
        sensors.ph_value.is_nan() || (c.previous_ph_value matches Some(before) && before.is_nan())
            || steady(c.previous_ph_value, sensors.ph_value, config.max_ph_delta),
    ensures
        !c.noisy(sensors, config),
{
    if steady(c.previous_ec_value, sensors.ec_value, config.max_ec_delta) {
        lemma_steady(c.previous_ec_value, sensors.ec_value, config.max_ec_delta);
    }
    if steady(c.previous_ph_value, sensors.ph_value, config.max_ph_delta) {
        lemma_steady(c.previous_ph_value, sensors.ph_value, config.max_ph_delta);
    }
}

/// A reading that runs off to infinity, either way, is a jump.
pub proof fn law_infinite_readings_jump(c: ContextView, config: DeviceConfig, sensors: SensorData)
    requires
        (c.previous_ec_value matches Some(before) && before.is_finite()
            && sensors.ec_value.is_infinite() && config.max_ec_delta.is_finite()) || (
        c.previous_ph_value matches Some(before) && before.is_finite()
            && sensors.ph_value.is_infinite() && config.max_ph_delta.is_finite()),
    ensures
        c.noisy(sensors, config),
{
}

} // verus!
