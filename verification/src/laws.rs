//! What holds of the control loop as a whole.

use crate::auto_fsm;
use crate::auto_fsm::Need;
use crate::binary32;
use crate::binary32::Binary32;
use crate::config::{ControlMode, DeviceConfig};
use crate::control_loop;
use crate::controller;
use crate::controller::{ContextView, Effect, StateView};
use crate::mqtt::{MqttCommandPayload, SensorData};
use crate::pump;
use crate::pump::{Pin, PumpController};
use crate::rounding;
use vstd::prelude::*;

verus! {

/// The pins once an effect has been carried out.
pub open spec fn carried_out(pumps: PumpController, effect: Effect) -> PumpController {
    match effect {
        Effect::Pump { command } => pumps.obeyed(command),
        Effect::StoreWaterChangeTime { time } => pumps,
    }
}

/// The pins once all effects have been carried out in turn.
pub open spec fn all_carried_out(pumps: PumpController, effects: Seq<Effect>) -> PumpController
    decreases effects.len(),
{
    if effects.len() == 0 {
        pumps
    } else {
        carried_out(all_carried_out(pumps, effects.drop_last()), effects.last())
    }
}

/// The pumps that run are those that the state has running: the nutrient pumps while EC is dosed,
/// one of the pH pumps while pH is, the water pump inwards while the tank is refilled and outwards
/// while it is drained, the chamber pump while doses are given and mixed. No other pump runs.
pub open spec fn in_step(state: StateView, pumps: PumpController) -> bool {
    &&& pumps.pump_a == (state is DosingEC)
    &&& pumps.pump_b == (state is DosingEC)
    &&& state is DosingPH ==> pumps.pump_ph_up != pumps.pump_ph_down
    &&& !(state is DosingPH) ==> !pumps.pump_ph_up && !pumps.pump_ph_down
    &&& pumps.l298n_in1 == (state is WaterRefilling)
    &&& pumps.l298n_in2 == (state is WaterDraining)
    &&& pumps.l298n_in3 == (state is DosingEC || state is DosingPH || state is ActiveMixing)
    &&& !pumps.l298n_in4
}

proof fn lemma_no_effect(pumps: PumpController)
    ensures
        all_carried_out(pumps, Seq::empty()) == pumps,
{
}

proof fn lemma_one_more(pumps: PumpController, effects: Seq<Effect>, effect: Effect)
    ensures
        all_carried_out(pumps, effects.push(effect)) == carried_out(
            all_carried_out(pumps, effects),
            effect,
        ),
{
    assert(effects.push(effect).drop_last() =~= effects);
}

proof fn lemma_one_effect(pumps: PumpController, a: Effect)
    ensures
        all_carried_out(pumps, seq![a]) == carried_out(pumps, a),
{
    lemma_no_effect(pumps);
    lemma_one_more(pumps, Seq::empty(), a);
    assert(Seq::empty().push(a) =~= seq![a]);
}

proof fn lemma_two_effects(pumps: PumpController, a: Effect, b: Effect)
    ensures
        all_carried_out(pumps, seq![a, b]) == carried_out(carried_out(pumps, a), b),
{
    lemma_one_effect(pumps, a);
    lemma_one_more(pumps, seq![a], b);
    assert(seq![a].push(b) =~= seq![a, b]);
}

proof fn lemma_three_effects(pumps: PumpController, a: Effect, b: Effect, c: Effect)
    ensures
        all_carried_out(pumps, seq![a, b, c]) == carried_out(
            carried_out(carried_out(pumps, a), b),
            c,
        ),
{
    lemma_two_effects(pumps, a, b);
    lemma_one_more(pumps, seq![a, b], c);
    assert(seq![a, b].push(c) =~= seq![a, b, c]);
}

pub(crate) proof fn lemma_more_effects(pumps: PumpController, first: Seq<Effect>, then: Seq<Effect>)
    ensures
        all_carried_out(pumps, first + then) == all_carried_out(
            all_carried_out(pumps, first),
            then,
        ),
    decreases then.len(),
{
    if then.len() == 0 {
        assert(first + then =~= first);
    } else {
        lemma_more_effects(pumps, first, then.drop_last());
        lemma_one_more(pumps, first + then.drop_last(), then.last());
        assert((first + then.drop_last()).push(then.last()) =~= first + then);
    }
}

/// The effects of a list of at most three, one by one.
proof fn lemma_short_list(pumps: PumpController, effects: Seq<Effect>)
    requires
        effects.len() <= 3,
    ensures
        effects.len() == 0 ==> all_carried_out(pumps, effects) == pumps,
        effects.len() == 1 ==> all_carried_out(pumps, effects) == carried_out(pumps, effects[0]),
        effects.len() == 2 ==> all_carried_out(pumps, effects) == carried_out(
            carried_out(pumps, effects[0]),
            effects[1],
        ),
        effects.len() == 3 ==> all_carried_out(pumps, effects) == carried_out(
            carried_out(carried_out(pumps, effects[0]), effects[1]),
            effects[2],
        ),
{
    if effects.len() == 1 {
        lemma_one_effect(pumps, effects[0]);
        assert(effects =~= seq![effects[0]]);
    } else if effects.len() == 2 {
        lemma_two_effects(pumps, effects[0], effects[1]);
        assert(effects =~= seq![effects[0], effects[1]]);
    } else if effects.len() == 3 {
        lemma_three_effects(pumps, effects[0], effects[1], effects[2]);
        assert(effects =~= seq![effects[0], effects[1], effects[2]]);
    }
}

/// What an effect leaves the pins at, pin by pin.
pub(crate) open spec fn settled(pumps: PumpController, effect: Effect) -> PumpController {
    match effect {
        Effect::Pump { command } => pumps.left_at(command),
        Effect::StoreWaterChangeTime { time } => pumps,
    }
}

proof fn lemma_carried_out(pumps: PumpController, effect: Effect)
    ensures
        carried_out(pumps, effect) == settled(pumps, effect),
{
    match effect {
        Effect::Pump { command } => {
            pump::law_command_outcome(pumps, command);
        },
        Effect::StoreWaterChangeTime { time } => {},
    }
}

/// What at most three effects leave the pins at.
pub(crate) proof fn lemma_outcome(pumps: PumpController, effects: Seq<Effect>)
    requires
        effects.len() <= 3,
    ensures
        all_carried_out(pumps, effects) == (if effects.len() == 0 {
            pumps
        } else if effects.len() == 1 {
            settled(pumps, effects[0])
        } else if effects.len() == 2 {
            settled(settled(pumps, effects[0]), effects[1])
        } else {
            settled(settled(settled(pumps, effects[0]), effects[1]), effects[2])
        }),
{
    lemma_short_list(pumps, effects);
    if effects.len() > 0 {
        lemma_carried_out(pumps, effects[0]);
    }
    if effects.len() > 1 {
        lemma_carried_out(carried_out(pumps, effects[0]), effects[1]);
    }
    if effects.len() > 2 {
        lemma_carried_out(
            carried_out(carried_out(pumps, effects[0]), effects[1]),
            effects[2],
        );
    }
}

/// What monitoring does about a need keeps the pumps in step.
proof fn lemma_meeting_keeps_pumps_in_step(
    need: Need,
    c: ContextView,
    config: DeviceConfig,
    sensors: SensorData,
    now: u64,
    pumps: PumpController,
)
    requires
        c.current_state is Monitoring,
        in_step(c.current_state, pumps),
    ensures
        ({
            let (after, effects) = auto_fsm::meet(need, c, config, sensors, now);
            in_step(after.current_state, all_carried_out(pumps, effects))
        }),
{
    lemma_outcome(pumps, auto_fsm::meet(need, c, config, sensors, now).1);
}

/// The automatic cycle keeps the pumps in step with its state.
pub proof fn law_cycle_keeps_pumps_in_step(
    c: ContextView,
    config: DeviceConfig,
    sensors: SensorData,
    now: u64,
    pumps: PumpController,
)
    requires
        in_step(c.current_state, pumps),
    ensures
        ({
            let (after, effects) = auto_fsm::auto_step(c, config, sensors, now);
            in_step(after.current_state, all_carried_out(pumps, effects))
        }),
{
    if c.current_state is Monitoring {
        lemma_meeting_keeps_pumps_in_step(
            auto_fsm::need_of(c.last_water_change_time, config, sensors, now),
            c.acknowledged(sensors),
            config,
            sensors,
            now,
            pumps,
        );
    } else {
        lemma_outcome(pumps, auto_fsm::auto_step(c, config, sensors, now).1);
    }
}

/// A round keeps the pumps in step with the state, whatever the settings and the readings are.
pub proof fn law_round_keeps_pumps_in_step(
    c: ContextView,
    config: DeviceConfig,
    sensors: SensorData,
    now: u64,
    pumps: PumpController,
)
    requires
        in_step(c.current_state, pumps),
    ensures
        ({
            let (after, effects) = control_loop::round_of(c, config, sensors, now);
            in_step(after.current_state, all_carried_out(pumps, effects))
        }),
{
    let (after, effects) = control_loop::round_of(c, config, sensors, now);
    if control_loop::runs_auto(c, config, sensors) {
        law_cycle_keeps_pumps_in_step(c.sampled(sensors), config, sensors, now, pumps);
    } else {
        lemma_outcome(pumps, effects);
    }
}

/// In automatic mode commands keep the pumps in step with the state.
pub proof fn law_commands_keep_pumps_in_step(
    c: ContextView,
    commands: Seq<MqttCommandPayload>,
    pumps: PumpController,
)
    requires
        in_step(c.current_state, pumps),
    ensures
        ({
            let (after, effects) = control_loop::obey_all(c, ControlMode::Auto, commands);
            in_step(after.current_state, all_carried_out(pumps, effects))
        }),
    decreases commands.len(),
{
    if commands.len() > 0 {
        let last = commands.last();
        law_commands_keep_pumps_in_step(c, commands.drop_last(), pumps);
        let (before, effects) = control_loop::obey_all(c, ControlMode::Auto, commands.drop_last());
        let (after, more) = control_loop::obey(
            before,
            ControlMode::Auto,
            last.action@,
            last.pump@,
        );
        lemma_more_effects(pumps, effects, more);
        lemma_outcome(all_carried_out(pumps, effects), more);
    }
}

/// In automatic mode a tick keeps the pumps in step with the state, whatever commands come in.
pub proof fn law_tick_keeps_pumps_in_step(
    c: ContextView,
    config: DeviceConfig,
    sensors: SensorData,
    now: u64,
    commands: Seq<MqttCommandPayload>,
    pumps: PumpController,
)
    requires
        config.control_mode == ControlMode::Auto,
        in_step(c.current_state, pumps),
    ensures
        ({
            let (after, effects) = control_loop::tick_of(c, config, sensors, now, commands);
            in_step(after.current_state, all_carried_out(pumps, effects))
        }),
{
    let (told, first) = control_loop::obey_all(c, config.control_mode, commands);
    let then_done = control_loop::round_of(told, config, sensors, now).1;
    law_commands_keep_pumps_in_step(c, commands, pumps);
    law_round_keeps_pumps_in_step(told, config, sensors, now, all_carried_out(pumps, first));
    lemma_more_effects(pumps, first, then_done);
}

/// While nothing is dosed, moved or mixed, being in step means that every pin is low.
pub proof fn law_idle_means_all_low(state: StateView, pumps: PumpController)
    requires
        state is Monitoring || state is EmergencyStop || state is SystemFault
            || state is Stabilizing,
    ensures
        in_step(state, pumps) <==> pumps.all_low(),
{
    if pumps.all_low() {
        assert(!pumps.level(Pin::PumpA) && !pumps.level(Pin::PumpB));
        assert(!pumps.level(Pin::PumpPhUp) && !pumps.level(Pin::PumpPhDown));
        assert(!pumps.level(Pin::In1) && !pumps.level(Pin::In2));
        assert(!pumps.level(Pin::In3) && !pumps.level(Pin::In4));
    }
}

/// Carrying out effects leaves no motor bridge with both of its sides high.
pub proof fn law_effects_keep_bridges_safe(pumps: PumpController, effects: Seq<Effect>)
    requires
        pumps.bridges_safe(),
    ensures
        all_carried_out(pumps, effects).bridges_safe(),
    decreases effects.len(),
{
    if effects.len() > 0 {
        law_effects_keep_bridges_safe(pumps, effects.drop_last());
        lemma_carried_out(all_carried_out(pumps, effects.drop_last()), effects.last());
    }
}

pub(crate) proof fn lemma_stopped(pumps: PumpController)
    ensures
        all_carried_out(pumps, seq![auto_fsm::stop_all()]).all_low(),
{
    lemma_one_effect(pumps, auto_fsm::stop_all());
    pump::law_stop_all(pumps);
}

/// An alarm leads to an emergency stop, whatever went on before: all pumps are stopped when it
/// comes, and nothing more is done while it lasts.
pub proof fn law_alarm_stops_everything(
    c: ContextView,
    config: DeviceConfig,
    sensors: SensorData,
    now: u64,
    pumps: PumpController,
)
    requires
        control_loop::alarm(config, sensors),
        !control_loop::left_out(c, config, sensors),
    ensures
        ({
            let (after, effects) = control_loop::round_of(c, config, sensors, now);
            &&& after.current_state is EmergencyStop
            &&& !(c.current_state is EmergencyStop) ==> all_carried_out(pumps, effects).all_low()
            &&& c.current_state is EmergencyStop ==> effects.len() == 0
        }),
{
    lemma_stopped(pumps);
}

/// Once the alarm is over, an emergency stop gives way to monitoring, with the pumps left off.
pub proof fn law_alarm_over(
    c: ContextView,
    config: DeviceConfig,
    sensors: SensorData,
    now: u64,
    pumps: PumpController,
)
    requires
        c.current_state is EmergencyStop,
        !control_loop::alarm(config, sensors),
        !control_loop::left_out(c, config, sensors),
        pumps.all_low(),
    ensures
        ({
            let (after, effects) = control_loop::round_of(c, config, sensors, now);
            &&& after.current_state is Monitoring
            &&& all_carried_out(pumps, effects).all_low()
        }),
{
    lemma_stopped(pumps);
}

/// A device that is switched off goes to monitoring, and stops its pumps on the way there.
pub proof fn law_switched_off(
    c: ContextView,
    config: DeviceConfig,
    sensors: SensorData,
    now: u64,
    pumps: PumpController,
)
    requires
        !config.is_enabled,
        !control_loop::alarm(config, sensors),
        !control_loop::left_out(c, config, sensors),
    ensures
        ({
            let (after, effects) = control_loop::round_of(c, config, sensors, now);
            &&& after.current_state is Monitoring
            &&& !(c.current_state is Monitoring) ==> all_carried_out(pumps, effects).all_low()
            &&& c.current_state is Monitoring ==> effects.len() == 0
        }),
{
    lemma_stopped(pumps);
}

/// Manual mode breaks off whatever the automatic cycle was about, and stops its pumps.
pub proof fn law_manual_mode_ends_cycle(
    c: ContextView,
    config: DeviceConfig,
    sensors: SensorData,
    now: u64,
    pumps: PumpController,
)
    requires
        config.control_mode == ControlMode::Manual,
        config.is_enabled,
        !control_loop::alarm(config, sensors),
        !(c.current_state is Monitoring),
        !(c.current_state is SystemFault),
        !(c.current_state is EmergencyStop),
    ensures
        ({
            let (after, effects) = control_loop::round_of(c, config, sensors, now);
            &&& after.current_state is Monitoring
            &&& all_carried_out(pumps, effects).all_low()
        }),
{
    lemma_stopped(pumps);
}

/// A fault stays, in either mode, for as long as there is no alarm, the device is switched on and
/// no reset comes.
pub proof fn law_fault_stays(c: ContextView, config: DeviceConfig, sensors: SensorData, now: u64)
    requires
        c.current_state is SystemFault,
        config.is_enabled,
        !control_loop::alarm(config, sensors),
    ensures
        control_loop::round_of(c, config, sensors, now) == (
            c.sampled(sensors),
            Seq::<Effect>::empty(),
        ),
{
}

/// A reset works in either mode: all pumps are stopped, no failed action is remembered, and the
/// loop is back to monitoring.
pub proof fn law_reset(c: ContextView, mode: ControlMode, pump: Seq<char>, pumps: PumpController)
    ensures
        ({
            let (after, effects) = control_loop::obey(c, mode, "reset_fault"@, pump);
            &&& after.current_state is Monitoring
            &&& after.ec_retry_count == 0
            &&& after.ph_retry_count == 0
            &&& after.water_refill_retry_count == 0
            &&& after.last_ec_before_dosing is None
            &&& after.last_ph_before_dosing is None
            &&& after.last_water_before_refill is None
            &&& after.last_water_change_time == c.last_water_change_time
            &&& after.previous_ec_value == c.previous_ec_value
            &&& after.previous_ph_value == c.previous_ph_value
            &&& all_carried_out(pumps, effects).all_low()
        }),
{
    lemma_stopped(pumps);
}

/// Commands other than a reset never touch what the loop remembers, and in automatic mode they do
/// nothing at all.
pub proof fn law_commands_without_reset(
    c: ContextView,
    mode: ControlMode,
    commands: Seq<MqttCommandPayload>,
)
    requires
        forall|i: int|
            0 <= i < commands.len() ==> (#[trigger] commands[i]).action@ != "reset_fault"@,
    ensures
        control_loop::obey_all(c, mode, commands).0 == c,
        mode == ControlMode::Auto ==> control_loop::obey_all(c, mode, commands).1.len() == 0,
    decreases commands.len(),
{
    if commands.len() > 0 {
        let before = commands.drop_last();
        assert forall|i: int| 0 <= i < before.len() implies (#[trigger] before[i]).action@
            != "reset_fault"@ by {
            assert(before[i] == commands[i]);
        }
        law_commands_without_reset(c, mode, before);
        assert(commands[commands.len() - 1].action@ != "reset_fault"@);
    }
}

/// A round with readings that have jumped, in automatic mode, only takes note of the readings.
pub proof fn law_jump_is_left_out(
    c: ContextView,
    config: DeviceConfig,
    sensors: SensorData,
    now: u64,
)
    requires
        config.control_mode == ControlMode::Auto,
        c.noisy(sensors, config),
    ensures
        control_loop::round_of(c, config, sensors, now) == (
            c.sampled(sensors),
            Seq::<Effect>::empty(),
        ),
{
}

/// Finite readings that stay what they were do not count as a jump.
pub proof fn law_steady_readings_do_not_jump(
    c: ContextView,
    config: DeviceConfig,
    sensors: SensorData,
)
    requires
        sensors.ec_value.mag() < rounding::INFINITE,
        sensors.ph_value.mag() < rounding::INFINITE,
        !config.max_ec_delta.below(binary32::signed(false, 0)),
        !config.max_ph_delta.below(binary32::signed(false, 0)),
    ensures
        !c.sampled(sensors).noisy(sensors, config),
{
    lemma_no_difference(sensors.ec_value);
    lemma_no_difference(sensors.ph_value);
}

proof fn lemma_no_difference(x: Binary32)
    requires
        x.mag() < rounding::INFINITE,
    ensures
        x.difference(x).absolute() == binary32::signed(false, 0),
{
    let y = x.negated();
    assert(y.mag() == x.mag());
    assert(y.negative() == !x.negative());
    assert(x.value() + y.value() == 0);
}

/// No more failures than the limit are counted, and none more are awaited once it is reached.
pub open spec fn retry_bounded(count: u8, before: Option<Binary32>) -> bool {
    count <= auto_fsm::MAX_RETRIES && (before is Some ==> count < auto_fsm::MAX_RETRIES)
}

pub open spec fn retries_bounded(c: ContextView) -> bool {
    &&& retry_bounded(c.ec_retry_count, c.last_ec_before_dosing)
    &&& retry_bounded(c.ph_retry_count, c.last_ph_before_dosing)
    &&& retry_bounded(c.water_refill_retry_count, c.last_water_before_refill)
}

/// A loop that has just started watches, has failed at nothing, awaits nothing, knows no previous
/// readings, and has every pump off.
pub proof fn law_fresh_start(last_water_change_time: u64, pumps: PumpController)
    requires
        pumps.all_low(),
    ensures
        ({
            let c = controller::fresh(last_water_change_time);
            &&& c.current_state is Monitoring
            &&& c.last_water_change_time == last_water_change_time
            &&& c.ec_retry_count == 0
            &&& c.ph_retry_count == 0
            &&& c.water_refill_retry_count == 0
            &&& c.last_ec_before_dosing is None
            &&& c.last_ph_before_dosing is None
            &&& c.last_water_before_refill is None
            &&& c.previous_ec_value is None
            &&& c.previous_ph_value is None
            &&& in_step(c.current_state, pumps)
        }),
{
    law_idle_means_all_low(StateView::Monitoring, pumps);
}

/// The counts of failed actions start within the limit.
pub proof fn law_retries_bounded_at_start(last_water_change_time: u64)
    ensures
        retries_bounded(controller::fresh(last_water_change_time)),
{
}

/// Within the limit the counts of failed actions can take in any readings.
pub proof fn law_bounded_retries_fit(c: ContextView, sensors: SensorData)
    requires
        retries_bounded(c),
    ensures
        c.retries_fit(sensors),
{
}

/// Every round keeps the counts of failed actions within the limit.
pub proof fn law_round_keeps_retries_bounded(
    c: ContextView,
    config: DeviceConfig,
    sensors: SensorData,
    now: u64,
)
    requires
        retries_bounded(c),
    ensures
        retries_bounded(control_loop::round_of(c, config, sensors, now).0),
{
}

/// All commands keep the counts of failed actions within the limit.
pub proof fn law_commands_keep_retries_bounded(
    c: ContextView,
    mode: ControlMode,
    commands: Seq<MqttCommandPayload>,
)
    requires
        retries_bounded(c),
    ensures
        retries_bounded(control_loop::obey_all(c, mode, commands).0),
    decreases commands.len(),
{
    if commands.len() > 0 {
        law_commands_keep_retries_bounded(c, mode, commands.drop_last());
    }
}

/// An action starts only while fewer than the limit of them in a row have failed; after that the
/// cycle gives up, stops all pumps and names what failed.
pub proof fn law_gives_up_at_limit(
    c: ContextView,
    config: DeviceConfig,
    sensors: SensorData,
    now: u64,
    pumps: PumpController,
)
    requires
        c.current_state is Monitoring,
        c.retries_fit(sensors),
    ensures
        ({
            let (after, effects) = auto_fsm::auto_step(c, config, sensors, now);
            let need = auto_fsm::need_of(c.last_water_change_time, config, sensors, now);
            let limit = auto_fsm::MAX_RETRIES;
            &&& after.current_state is WaterRefilling ==> c.water_retries(sensors) < limit
            &&& after.current_state is DosingEC ==> c.ec_retries(sensors) < limit
            &&& after.current_state is DosingPH ==> c.ph_retries(sensors) < limit
            &&& need == Need::Refill && c.water_retries(sensors) >= limit ==> after.current_state
                == StateView::SystemFault("WATER_REFILL_FAILED"@)
            &&& need == Need::DoseEc && c.ec_retries(sensors) >= limit ==> after.current_state
                == StateView::SystemFault("EC_DOSING_FAILED"@)
            &&& need == Need::DosePh && c.ph_retries(sensors) >= limit ==> after.current_state
                == StateView::SystemFault("PH_DOSING_FAILED"@)
            &&& after.current_state is SystemFault ==> all_carried_out(pumps, effects).all_low()
        }),
{
    lemma_stopped(pumps);
}

/// The states that the automatic cycle can go to.
pub open spec fn may_follow(state: StateView, next: StateView) -> bool {
    ||| next == state
    ||| match state {
        StateView::Monitoring => next is WaterDraining || next is WaterRefilling || next is DosingEC
            || next is DosingPH || next is SystemFault,
        StateView::WaterRefilling { .. } => next is ActiveMixing,
        StateView::WaterDraining { .. } => next is Stabilizing,
        StateView::DosingEC { .. } => next is ActiveMixing,
        StateView::DosingPH { .. } => next is ActiveMixing,
        StateView::ActiveMixing { .. } => next is Stabilizing,
        StateView::Stabilizing { .. } => next is Monitoring,
        StateView::SystemFault(_) => false,
        StateView::EmergencyStop => false,
    }
}

/// The automatic cycle goes through its states in order: doses and refills are mixed and then left
/// to settle, drains are left to settle, and only then are the readings acted on again.
pub proof fn law_cycle_order(c: ContextView, config: DeviceConfig, sensors: SensorData, now: u64)
    ensures
        may_follow(
            c.current_state,
            auto_fsm::auto_step(c, config, sensors, now).0.current_state,
        ),
{
}

/// A timed state lasts until its time is over and no longer, and does nothing in the meantime.
pub proof fn law_timed_states_last(
    c: ContextView,
    config: DeviceConfig,
    sensors: SensorData,
    now: u64,
    finish_time: u64,
)
    requires
        c.current_state == (StateView::DosingEC { finish_time }) || c.current_state
            == (StateView::DosingPH { finish_time }) || c.current_state
            == (StateView::ActiveMixing { finish_time }) || c.current_state
            == (StateView::Stabilizing { finish_time }),
    ensures
        ({
            let (after, effects) = auto_fsm::auto_step(c, config, sensors, now);
            &&& now < finish_time ==> after == c && effects.len() == 0
            &&& now >= finish_time ==> after.current_state != c.current_state
        }),
{
}

/// A refill or a drain goes on no longer than it may: it is over at the first round after its
/// longest duration, whatever the readings are.
pub proof fn law_water_moves_end(
    c: ContextView,
    config: DeviceConfig,
    sensors: SensorData,
    now: u64,
)
    ensures
        ({
            let next = auto_fsm::auto_step(c, config, sensors, now).0.current_state;
            &&& c.current_state matches StateView::WaterRefilling { start_time, .. } ==> now
                - start_time > config.max_refill_duration_sec ==> next is ActiveMixing
            &&& c.current_state matches StateView::WaterDraining { start_time, .. } ==> now
                - start_time > config.max_drain_duration_sec ==> next is Stabilizing
        }),
{
}

/// A dose that is a number is never negative and never more than the largest dose.
pub proof fn law_dose_within_limits(
    config: DeviceConfig,
    gap: Binary32,
    effect: Binary32,
    ratio: Binary32,
)
    requires
        auto_fsm::dose_limit_valid(config),
    ensures
        ({
            let amount = auto_fsm::dose(config, gap, effect, ratio);
            !amount.is_nan() ==> binary32::signed(false, 0).at_most(amount) && amount.at_most(
                config.max_dose_per_cycle,
            )
        }),
{
}

/// No dose keeps a pump running for longer than the largest dose would.
pub proof fn law_dosing_time_limited(
    c: ContextView,
    config: DeviceConfig,
    sensors: SensorData,
    now: u64,
)
    requires
        c.current_state is Monitoring,
        auto_fsm::dose_limit_valid(config),
        binary32::signed(false, 0).below(config.dosing_pump_capacity_ml_per_sec),
        !config.max_dose_per_cycle.is_infinite(),
        timers_fit(config, sensors, now),
    ensures
        ({
            let longest = auto_fsm::dosing_time(config, config.max_dose_per_cycle);
            let next = auto_fsm::auto_step(c, config, sensors, now).0.current_state;
            &&& next matches StateView::DosingEC { finish_time } ==> now < finish_time <= now
                + longest
            &&& next matches StateView::DosingPH { finish_time } ==> now < finish_time <= now
                + longest
        }),
{
    lemma_dosing_time_limited(config, auto_fsm::ec_dose(config, sensors));
    lemma_dosing_time_limited(config, auto_fsm::ph_dose(config, sensors));
}

proof fn lemma_dosing_time_limited(config: DeviceConfig, amount: Binary32)
    requires
        !amount.is_nan() ==> binary32::signed(false, 0).at_most(amount) && amount.at_most(
            config.max_dose_per_cycle,
        ),
        binary32::signed(false, 0).below(config.dosing_pump_capacity_ml_per_sec),
        !config.max_dose_per_cycle.is_infinite(),
    ensures
        auto_fsm::dosing_time(config, amount) <= auto_fsm::dosing_time(
            config,
            config.max_dose_per_cycle,
        ),
{
    if !amount.is_nan() {
        binary32::law_whole_quotient_keeps_order(
            amount,
            config.max_dose_per_cycle,
            config.dosing_pump_capacity_ml_per_sec,
        );
    }
}

/// Draining off an amount never aims below the least water level.
pub proof fn law_drain_not_below_minimum(
    config: DeviceConfig,
    sensors: SensorData,
    amount: Binary32,
)
    requires
        !config.water_level_min.is_nan(),
    ensures
        config.water_level_min.at_most(auto_fsm::drain_target(config, sensors, amount)),
{
}

/// What is stored is the time of the last water change, and it is stored whenever it changes.
pub open spec fn stores_rightly(c: ContextView, after: ContextView, effects: Seq<Effect>) -> bool {
    let stored = Effect::StoreWaterChangeTime { time: after.last_water_change_time };
    &&& after.last_water_change_time != c.last_water_change_time ==> effects.contains(stored)
    &&& forall|i: int|
        0 <= i < effects.len() && (#[trigger] effects[i]) is StoreWaterChangeTime ==> effects[i]
            == stored
}

proof fn lemma_meeting_stores_rightly(
    need: Need,
    c: ContextView,
    config: DeviceConfig,
    sensors: SensorData,
    now: u64,
)
    ensures
        ({
            let (after, effects) = auto_fsm::meet(need, c, config, sensors, now);
            stores_rightly(c, after, effects)
        }),
{
    let (after, effects) = auto_fsm::meet(need, c, config, sensors, now);
    if need == Need::ChangeWater {
        assert(effects[0] == Effect::StoreWaterChangeTime { time: now });
    }
}

/// A round that changes the time of the last water change has it stored, and nothing else is ever
/// stored.
pub proof fn law_water_change_time_is_stored(
    c: ContextView,
    config: DeviceConfig,
    sensors: SensorData,
    now: u64,
)
    ensures
        ({
            let (after, effects) = control_loop::round_of(c, config, sensors, now);
            stores_rightly(c, after, effects)
        }),
{
    let s = c.sampled(sensors);
    if control_loop::runs_auto(c, config, sensors) && c.current_state is Monitoring {
        lemma_meeting_stores_rightly(
            auto_fsm::need_of(s.last_water_change_time, config, sensors, now),
            s.acknowledged(sensors),
            config,
            sensors,
            now,
        );
    }
}

/// No time that is taken to be past lies in the future.
pub open spec fn times_past(c: ContextView, now: u64) -> bool {
    &&& c.last_water_change_time <= now
    &&& c.current_state matches StateView::WaterRefilling { start_time, .. } ==> start_time <= now
    &&& c.current_state matches StateView::WaterDraining { start_time, .. } ==> start_time <= now
}

/// With a clock that does not go back, times that are past stay so.
pub proof fn law_times_stay_past(
    c: ContextView,
    config: DeviceConfig,
    sensors: SensorData,
    now: u64,
    later: u64,
)
    requires
        times_past(c, now),
        now <= later,
    ensures
        times_past(control_loop::round_of(c, config, sensors, now).0, later),
{
}

/// Commands leave past times past.
pub proof fn law_commands_keep_times_past(
    c: ContextView,
    mode: ControlMode,
    commands: Seq<MqttCommandPayload>,
    now: u64,
)
    requires
        times_past(c, now),
    ensures
        times_past(control_loop::obey_all(c, mode, commands).0, now),
    decreases commands.len(),
{
    if commands.len() > 0 {
        law_commands_keep_times_past(c, mode, commands.drop_last(), now);
    }
}

/// There is room on the clock for every timer that could be started now.
pub open spec fn timers_fit(config: DeviceConfig, sensors: SensorData, now: u64) -> bool {
    &&& now + config.active_mixing_sec <= u64::MAX
    &&& now + config.sensor_stabilize_sec <= u64::MAX
    &&& now + auto_fsm::dosing_time(config, auto_fsm::ec_dose(config, sensors)) <= u64::MAX
    &&& now + auto_fsm::dosing_time(config, auto_fsm::ph_dose(config, sensors)) <= u64::MAX
}

/// A round stays in range where past times are past, the counts of failed actions are within their
/// limit, timers have room and the largest dose is valid.
pub proof fn law_round_stays_in_range(
    c: ContextView,
    config: DeviceConfig,
    sensors: SensorData,
    now: u64,
)
    requires
        retries_bounded(c),
        times_past(c, now),
        timers_fit(config, sensors, now),
        auto_fsm::dose_limit_valid(config),
    ensures
        control_loop::round_defined(c, config, sensors, now),
{
}

} // verus!
