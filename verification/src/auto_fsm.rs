//! The automatic cycle: from monitoring through water changes, refills and doses, over mixing and
//! settling, back to monitoring.

use crate::binary32;
use crate::binary32::Binary32;
use crate::config::DeviceConfig;
use crate::controller::{ContextView, ControlContext, Effect, StateView, SystemState};
use crate::mqtt::SensorData;
use crate::pump::{PumpCommand, PumpType, WaterDirection};
use vstd::prelude::*;

verus! {

/// Failed actions in a row after which an action is given up.
pub const MAX_RETRIES: u8 = 3;

/// What the readings call for.
#[derive(Debug, Clone, Copy, PartialEq, Eq, Structural)]
pub enum Need {
    ChangeWater,
    Refill,
    DrainOverflow,
    Dilute,
    DoseEc,
    DosePh,
    Nothing,
}

pub open spec fn water_change_due(last_change: u64, config: DeviceConfig, now: u64) -> bool {
    config.scheduled_water_change_enabled && now - last_change > config.water_change_interval_sec
}

pub open spec fn water_is_low(config: DeviceConfig, sensors: SensorData) -> bool {
    config.auto_refill_enabled && sensors.water_level.below(
        config.water_level_target.difference(config.water_level_tolerance),
    )
}

pub open spec fn water_is_high(config: DeviceConfig, sensors: SensorData) -> bool {
    config.auto_drain_overflow && config.water_level_max.below(sensors.water_level)
}

pub open spec fn too_rich(config: DeviceConfig, sensors: SensorData) -> bool {
    config.auto_dilute_enabled && config.ec_target.sum(config.ec_tolerance).below(sensors.ec_value)
}

pub open spec fn too_lean(config: DeviceConfig, sensors: SensorData) -> bool {
    sensors.ec_value.below(config.ec_target.difference(config.ec_tolerance))
}

pub open spec fn ph_is_off(config: DeviceConfig, sensors: SensorData) -> bool {
    config.ph_tolerance.below(sensors.ph_value.difference(config.ph_target).absolute())
}

/// The most pressing need: water comes before EC, and EC before pH.
pub open spec fn need_of(
    last_change: u64,
    config: DeviceConfig,
    sensors: SensorData,
    now: u64,
) -> Need {
    if water_change_due(last_change, config, now) {
        Need::ChangeWater
    } else if water_is_low(config, sensors) {
        Need::Refill
    } else if water_is_high(config, sensors) {
        Need::DrainOverflow
    } else if too_rich(config, sensors) {
        Need::Dilute
    } else if too_lean(config, sensors) {
        Need::DoseEc
    } else if ph_is_off(config, sensors) {
        Need::DosePh
    } else {
        Need::Nothing
    }
}

/// The level to drain to: `amount` below the present one, but not below the least level.
pub open spec fn drain_target(
    config: DeviceConfig,
    sensors: SensorData,
    amount: Binary32,
) -> Binary32 {
    sensors.water_level.difference(amount).larger(config.water_level_min)
}

/// A dose that makes up `ratio` of `gap`, where a millilitre makes up `effect`: never negative and
/// at most the largest dose.
pub open spec fn dose(
    config: DeviceConfig,
    gap: Binary32,
    effect: Binary32,
    ratio: Binary32,
) -> Binary32 {
    gap.quotient(effect).product(ratio).held_between(
        binary32::signed(false, 0),
        config.max_dose_per_cycle,
    )
}

pub open spec fn ec_dose(config: DeviceConfig, sensors: SensorData) -> Binary32 {
    dose(
        config,
        config.ec_target.difference(sensors.ec_value),
        config.ec_gain_per_ml,
        config.ec_step_ratio,
    )
}

pub open spec fn ph_goes_up(config: DeviceConfig, sensors: SensorData) -> bool {
    sensors.ph_value.below(config.ph_target)
}

pub open spec fn ph_dose(config: DeviceConfig, sensors: SensorData) -> Binary32 {
    dose(
        config,
        sensors.ph_value.difference(config.ph_target).absolute(),
        if ph_goes_up(config, sensors) {
            config.ph_shift_up_per_ml
        } else {
            config.ph_shift_down_per_ml
        },
        config.ph_step_ratio,
    )
}

/// The whole seconds that a dosing pump runs for a dose.
pub open spec fn dosing_time(config: DeviceConfig, amount: Binary32) -> u64 {
    amount.quotient(config.dosing_pump_capacity_ml_per_sec).truncated()
}

pub open spec fn pump(pump: PumpType, on: bool) -> Effect {
    Effect::Pump { command: PumpCommand::SetPump { pump, on } }
}

pub open spec fn water(direction: WaterDirection) -> Effect {
    Effect::Pump { command: PumpCommand::SetWater { direction } }
}

pub open spec fn chamber(on: bool) -> Effect {
    Effect::Pump { command: PumpCommand::SetChamber { on } }
}

pub open spec fn stop_all() -> Effect {
    Effect::Pump { command: PumpCommand::StopAll }
}

/// A state entered and what it has done.
pub open spec fn enter(c: ContextView, state: StateView, effects: Seq<Effect>) -> (
    ContextView,
    Seq<Effect>,
) {
    (c.entered(state), effects)
}

/// An action that was given up.
pub open spec fn fail(c: ContextView, reason: Seq<char>) -> (ContextView, Seq<Effect>) {
    enter(c, StateView::SystemFault(reason), seq![stop_all()])
}

/// What monitoring does about a need, once the responses of the last actions have been looked for.
pub open spec fn meet(
    need: Need,
    c: ContextView,
    config: DeviceConfig,
    sensors: SensorData,
    now: u64,
) -> (ContextView, Seq<Effect>) {
    match need {
        Need::ChangeWater => enter(
            ContextView { last_water_change_time: now, ..c },
            StateView::WaterDraining {
                target_level: drain_target(config, sensors, config.scheduled_drain_amount_cm),
                start_time: now,
            },
            seq![Effect::StoreWaterChangeTime { time: now }, water(WaterDirection::Out)],
        ),
        Need::Refill => if c.water_refill_retry_count >= MAX_RETRIES {
            fail(c, "WATER_REFILL_FAILED"@)
        } else {
            enter(
                ContextView { last_water_before_refill: Some(sensors.water_level), ..c },
                StateView::WaterRefilling {
                    target_level: config.water_level_target,
                    start_time: now,
                },
                seq![water(WaterDirection::In), chamber(false)],
            )
        },
        Need::DrainOverflow => enter(
            c,
            StateView::WaterDraining { target_level: config.water_level_target, start_time: now },
            seq![water(WaterDirection::Out), chamber(false)],
        ),
        Need::Dilute => enter(
            c,
            StateView::WaterDraining {
                target_level: drain_target(config, sensors, config.dilute_drain_amount_cm),
                start_time: now,
            },
            seq![water(WaterDirection::Out), chamber(false)],
        ),
        Need::DoseEc => if c.ec_retry_count >= MAX_RETRIES {
            fail(c, "EC_DOSING_FAILED"@)
        } else {
            let started = ContextView { last_ec_before_dosing: Some(sensors.ec_value), ..c };
            let seconds = dosing_time(config, ec_dose(config, sensors));
            if seconds > 0 {
                enter(
                    started,
                    StateView::DosingEC { finish_time: (now + seconds) as u64 },
                    seq![
                        chamber(true),
                        pump(PumpType::NutrientA, true),
                        pump(PumpType::NutrientB, true),
                    ],
                )
            } else {
                (started, seq![])
            }
        },
        Need::DosePh => if c.ph_retry_count >= MAX_RETRIES {
            fail(c, "PH_DOSING_FAILED"@)
        } else {
            let started = ContextView { last_ph_before_dosing: Some(sensors.ph_value), ..c };
            let seconds = dosing_time(config, ph_dose(config, sensors));
            let direction = if ph_goes_up(config, sensors) {
                PumpType::PhUp
            } else {
                PumpType::PhDown
            };
            if seconds > 0 {
                enter(
                    started,
                    StateView::DosingPH { finish_time: (now + seconds) as u64 },
                    seq![chamber(true), pump(direction, true)],
                )
            } else {
                (started, seq![])
            }
        },
        Need::Nothing => (c, seq![chamber(false)]),
    }
}

pub open spec fn refill_over(
    config: DeviceConfig,
    sensors: SensorData,
    target: Binary32,
    start: u64,
    now: u64,
) -> bool {
    target.at_most(sensors.water_level) || now - start > config.max_refill_duration_sec
}

pub open spec fn drain_over(
    config: DeviceConfig,
    sensors: SensorData,
    target: Binary32,
    start: u64,
    now: u64,
) -> bool {
    sensors.water_level.at_most(target) || now - start > config.max_drain_duration_sec
}

/// One round of the automatic cycle.
pub open spec fn auto_step(c: ContextView, config: DeviceConfig, sensors: SensorData, now: u64) -> (
    ContextView,
    Seq<Effect>,
) {
    let mixing = StateView::ActiveMixing { finish_time: (now + config.active_mixing_sec) as u64 };
    let settling = StateView::Stabilizing {
        finish_time: (now + config.sensor_stabilize_sec) as u64,
    };
    match c.current_state {
        StateView::Monitoring => meet(
            need_of(c.last_water_change_time, config, sensors, now),
            c.acknowledged(sensors),
            config,
            sensors,
            now,
        ),
        StateView::WaterRefilling { target_level, start_time } => if refill_over(
            config,
            sensors,
            target_level,
            start_time,
            now,
        ) {
            enter(c, mixing, seq![water(WaterDirection::Stop), chamber(true)])
        } else {
            (c, seq![])
        },
        StateView::WaterDraining { target_level, start_time } => if drain_over(
            config,
            sensors,
            target_level,
            start_time,
            now,
        ) {
            enter(c, settling, seq![water(WaterDirection::Stop), chamber(false)])
        } else {
            (c, seq![])
        },
        StateView::DosingEC { finish_time } => if now >= finish_time {
            enter(
                c,
                mixing,
                seq![pump(PumpType::NutrientA, false), pump(PumpType::NutrientB, false)],
            )
        } else {
            (c, seq![])
        },
        StateView::DosingPH { finish_time } => if now >= finish_time {
            enter(c, mixing, seq![pump(PumpType::PhUp, false), pump(PumpType::PhDown, false)])
        } else {
            (c, seq![])
        },
        StateView::ActiveMixing { finish_time } => if now >= finish_time {
            enter(c, settling, seq![chamber(false)])
        } else {
            (c, seq![])
        },
        StateView::Stabilizing { finish_time } => if now >= finish_time {
            enter(c, StateView::Monitoring, seq![])
        } else {
            (c, seq![])
        },
        StateView::SystemFault(_) => (c, seq![]),
        StateView::EmergencyStop => (c, seq![]),
    }
}

/// The largest dose is a number that is not negative.
pub open spec fn dose_limit_valid(config: DeviceConfig) -> bool {
    binary32::signed(false, 0).at_most(config.max_dose_per_cycle)
}

/// What a round computes with stays in range: no count of failed actions overflows, no time lies in
/// the future that is taken to be past, no timer ends beyond the end of time, and a dose that is
/// due has a valid limit.
pub open spec fn auto_defined(
    c: ContextView,
    config: DeviceConfig,
    sensors: SensorData,
    now: u64,
) -> bool {
    let mixing_fits = now + config.active_mixing_sec <= u64::MAX;
    let settling_fits = now + config.sensor_stabilize_sec <= u64::MAX;
    match c.current_state {
        StateView::Monitoring => {
            &&& c.retries_fit(sensors)
            &&& config.scheduled_water_change_enabled ==> c.last_water_change_time <= now
            &&& match need_of(c.last_water_change_time, config, sensors, now) {
                Need::DoseEc => c.ec_retries(sensors) >= MAX_RETRIES || (dose_limit_valid(config)
                    && now + dosing_time(config, ec_dose(config, sensors)) <= u64::MAX),
                Need::DosePh => c.ph_retries(sensors) >= MAX_RETRIES || (dose_limit_valid(config)
                    && now + dosing_time(config, ph_dose(config, sensors)) <= u64::MAX),
                _ => true,
            }
        },
        StateView::WaterRefilling { target_level, start_time } => {
            &&& target_level.at_most(sensors.water_level) || start_time <= now
            &&& refill_over(config, sensors, target_level, start_time, now) ==> mixing_fits
        },
        StateView::WaterDraining { target_level, start_time } => {
            &&& sensors.water_level.at_most(target_level) || start_time <= now
            &&& drain_over(config, sensors, target_level, start_time, now) ==> settling_fits
        },
        StateView::DosingEC { finish_time } => now >= finish_time ==> mixing_fits,
        StateView::DosingPH { finish_time } => now >= finish_time ==> mixing_fits,
        StateView::ActiveMixing { finish_time } => now >= finish_time ==> settling_fits,
        StateView::Stabilizing { finish_time } => true,
        StateView::SystemFault(_) => true,
        StateView::EmergencyStop => true,
    }
}

/// What the readings call for.
pub fn find_need(last_change: u64, config: &DeviceConfig, sensors: &SensorData, now: u64) -> (need:
    Need)
    requires
        config.scheduled_water_change_enabled ==> last_change <= now,
    ensures
        need == need_of(last_change, *config, *sensors, now),
{
    if config.scheduled_water_change_enabled && now - last_change
        > config.water_change_interval_sec {
        Need::ChangeWater
    } else if config.auto_refill_enabled && sensors.water_level.is_below(
        config.water_level_target.minus(config.water_level_tolerance),
    ) {
        Need::Refill
    } else if config.auto_drain_overflow && config.water_level_max.is_below(sensors.water_level) {
        Need::DrainOverflow
    } else if config.auto_dilute_enabled && config.ec_target.plus(config.ec_tolerance).is_below(
        sensors.ec_value,
    ) {
        Need::Dilute
    } else if sensors.ec_value.is_below(config.ec_target.minus(config.ec_tolerance)) {
        Need::DoseEc
    } else if config.ph_tolerance.is_below(sensors.ph_value.minus(config.ph_target).abs()) {
        Need::DosePh
    } else {
        Need::Nothing
    }
}

/// The seconds of a dose against low EC.
pub fn ec_dosing_time(config: &DeviceConfig, sensors: &SensorData) -> (seconds: u64)
    requires
        dose_limit_valid(*config),
    ensures
        seconds == dosing_time(*config, ec_dose(*config, *sensors)),
{
    let gap = config.ec_target.minus(sensors.ec_value);
    let amount = gap.over(config.ec_gain_per_ml).times(config.ec_step_ratio).clamp(
        Binary32::zero(),
        config.max_dose_per_cycle,
    );
    amount.over(config.dosing_pump_capacity_ml_per_sec).trunc_u64()
}

/// The seconds of a dose against a pH that is off.
pub fn ph_dosing_time(config: &DeviceConfig, sensors: &SensorData) -> (seconds: u64)
    requires
        dose_limit_valid(*config),
    ensures
        seconds == dosing_time(*config, ph_dose(*config, *sensors)),
{
    let gap = sensors.ph_value.minus(config.ph_target).abs();
    let effect = if sensors.ph_value.is_below(config.ph_target) {
        config.ph_shift_up_per_ml
    } else {
        config.ph_shift_down_per_ml
    };
    let amount = gap.over(effect).times(config.ph_step_ratio).clamp(
        Binary32::zero(),
        config.max_dose_per_cycle,
    );
    amount.over(config.dosing_pump_capacity_ml_per_sec).trunc_u64()
}

fn push_pump(effects: &mut Vec<Effect>, command: PumpCommand)
    ensures
        final(effects)@ == old(effects)@.push(Effect::Pump { command }),
{
    effects.push(Effect::Pump { command });
}

/// Gives an action up.
fn give_up(ctx: &mut ControlContext, reason: &str) -> (effects: Vec<Effect>)
    ensures
        (final(ctx)@, effects@) == fail(old(ctx)@, reason@),
{
    let mut effects: Vec<Effect> = Vec::new();
    push_pump(&mut effects, PumpCommand::StopAll);
    ctx.current_state = SystemState::SystemFault(reason.to_string());
    assert(effects@ =~= seq![stop_all()]);
    effects
}

/// Drains towards `target`, after what is in `effects` already.
fn start_draining(ctx: &mut ControlContext, target: Binary32, now: u64, effects: &mut Vec<Effect>)
    ensures
        final(ctx)@ == old(ctx)@.entered(
            StateView::WaterDraining { target_level: target, start_time: now },
        ),
        final(effects)@ == old(effects)@.push(water(WaterDirection::Out)),
{
    ctx.current_state = SystemState::WaterDraining { target_level: target, start_time: now };
    push_pump(effects, PumpCommand::SetWater { direction: WaterDirection::Out });
}

fn start_refill(
    current_time: u64,
    config: &DeviceConfig,
    sensors: &SensorData,
    ctx: &mut ControlContext,
) -> (effects: Vec<Effect>)
    ensures
        (final(ctx)@, effects@) == meet(
            Need::Refill,
            old(ctx)@,
            *config,
            *sensors,
            current_time,
        ),
{
    if ctx.water_refill_retry_count >= MAX_RETRIES {
        return give_up(ctx, "WATER_REFILL_FAILED");
    }
    let mut effects: Vec<Effect> = Vec::new();
    ctx.last_water_before_refill = Some(sensors.water_level);
    ctx.current_state = SystemState::WaterRefilling {
        target_level: config.water_level_target,
        start_time: current_time,
    };
    push_pump(&mut effects, PumpCommand::SetWater { direction: WaterDirection::In });
    push_pump(&mut effects, PumpCommand::SetChamber { on: false });
    assert(effects@ =~= seq![water(WaterDirection::In), chamber(false)]);
    effects
}

fn start_ec_dose(
    current_time: u64,
    config: &DeviceConfig,
    sensors: &SensorData,
    ctx: &mut ControlContext,
) -> (effects: Vec<Effect>)
    requires
        old(ctx)@.ec_retry_count >= MAX_RETRIES || (dose_limit_valid(*config) && current_time
            + dosing_time(*config, ec_dose(*config, *sensors)) <= u64::MAX),
    ensures
        (final(ctx)@, effects@) == meet(
            Need::DoseEc,
            old(ctx)@,
            *config,
            *sensors,
            current_time,
        ),
{
    if ctx.ec_retry_count >= MAX_RETRIES {
        return give_up(ctx, "EC_DOSING_FAILED");
    }
    let mut effects: Vec<Effect> = Vec::new();
    ctx.last_ec_before_dosing = Some(sensors.ec_value);
    let seconds = ec_dosing_time(config, sensors);
    if seconds > 0 {
        ctx.current_state = SystemState::DosingEC { finish_time: current_time + seconds };
        push_pump(&mut effects, PumpCommand::SetChamber { on: true });
        push_pump(&mut effects, PumpCommand::SetPump { pump: PumpType::NutrientA, on: true });
        push_pump(&mut effects, PumpCommand::SetPump { pump: PumpType::NutrientB, on: true });
        assert(effects@ =~= seq![
            chamber(true),
            pump(PumpType::NutrientA, true),
            pump(PumpType::NutrientB, true),
        ]);
    }
    effects
}

fn start_ph_dose(
    current_time: u64,
    config: &DeviceConfig,
    sensors: &SensorData,
    ctx: &mut ControlContext,
) -> (effects: Vec<Effect>)
    requires
        old(ctx)@.ph_retry_count >= MAX_RETRIES || (dose_limit_valid(*config) && current_time
            + dosing_time(*config, ph_dose(*config, *sensors)) <= u64::MAX),
    ensures
        (final(ctx)@, effects@) == meet(
            Need::DosePh,
            old(ctx)@,
            *config,
            *sensors,
            current_time,
        ),
{
    if ctx.ph_retry_count >= MAX_RETRIES {
        return give_up(ctx, "PH_DOSING_FAILED");
    }
    let mut effects: Vec<Effect> = Vec::new();
    ctx.last_ph_before_dosing = Some(sensors.ph_value);
    let seconds = ph_dosing_time(config, sensors);
    if seconds > 0 {
        ctx.current_state = SystemState::DosingPH { finish_time: current_time + seconds };
        let direction = if sensors.ph_value.is_below(config.ph_target) {
            PumpType::PhUp
        } else {
            PumpType::PhDown
        };
        push_pump(&mut effects, PumpCommand::SetChamber { on: true });
        push_pump(&mut effects, PumpCommand::SetPump { pump: direction, on: true });
        assert(effects@ =~= seq![chamber(true), pump(direction, true)]);
    }
    effects
}

/// Does what monitoring does about the readings.
fn monitor(
    current_time: u64,
    config: &DeviceConfig,
    sensors: &SensorData,
    ctx: &mut ControlContext,
) -> (effects: Vec<Effect>)
    requires
        old(ctx)@.current_state is Monitoring,
        auto_defined(old(ctx)@, *config, *sensors, current_time),
    ensures
        (final(ctx)@, effects@) == auto_step(old(ctx)@, *config, *sensors, current_time),
{
    ctx.verify_sensor_ack(sensors);
    let ghost acked = ctx@;
    let mut effects: Vec<Effect> = Vec::new();
    let need = find_need(ctx.last_water_change_time, config, sensors, current_time);
    match need {
        Need::ChangeWater => {
            let target = sensors.water_level.minus(config.scheduled_drain_amount_cm).max(
                config.water_level_min,
            );
            ctx.last_water_change_time = current_time;
            effects.push(Effect::StoreWaterChangeTime { time: current_time });
            start_draining(ctx, target, current_time, &mut effects);
        },
        Need::Refill => {
            return start_refill(current_time, config, sensors, ctx);
        },
        Need::DrainOverflow => {
            start_draining(ctx, config.water_level_target, current_time, &mut effects);
            push_pump(&mut effects, PumpCommand::SetChamber { on: false });
        },
        Need::Dilute => {
            let target = sensors.water_level.minus(config.dilute_drain_amount_cm).max(
                config.water_level_min,
            );
            start_draining(ctx, target, current_time, &mut effects);
            push_pump(&mut effects, PumpCommand::SetChamber { on: false });
        },
        Need::DoseEc => {
            return start_ec_dose(current_time, config, sensors, ctx);
        },
        Need::DosePh => {
            return start_ph_dose(current_time, config, sensors, ctx);
        },
        Need::Nothing => {
            push_pump(&mut effects, PumpCommand::SetChamber { on: false });
        },
    }
    assert(effects@ =~= meet(need, acked, *config, *sensors, current_time).1);
    effects
}

/// One round of the automatic cycle. The effects are to be carried out in their order.
pub fn run_auto_fsm(
    current_time: u64,
    config: &DeviceConfig,
    sensors: &SensorData,
    ctx: &mut ControlContext,
) -> (effects: Vec<Effect>)
    requires
        auto_defined(old(ctx)@, *config, *sensors, current_time),
    ensures
        (final(ctx)@, effects@) == auto_step(old(ctx)@, *config, *sensors, current_time),
{
    let mut effects: Vec<Effect> = Vec::new();
    match ctx.current_state {
        SystemState::Monitoring => {
            return monitor(current_time, config, sensors, ctx);
        },
        SystemState::WaterRefilling { target_level, start_time } => {
            if target_level.is_at_most(sensors.water_level) || current_time - start_time
                > config.max_refill_duration_sec {
                push_pump(&mut effects, PumpCommand::SetWater { direction: WaterDirection::Stop });
                push_pump(&mut effects, PumpCommand::SetChamber { on: true });
                ctx.current_state = SystemState::ActiveMixing {
                    finish_time: current_time + config.active_mixing_sec,
                };
            }
        },
        SystemState::WaterDraining { target_level, start_time } => {
            if sensors.water_level.is_at_most(target_level) || current_time - start_time
                > config.max_drain_duration_sec {
                push_pump(&mut effects, PumpCommand::SetWater { direction: WaterDirection::Stop });
                push_pump(&mut effects, PumpCommand::SetChamber { on: false });
                ctx.current_state = SystemState::Stabilizing {
                    finish_time: current_time + config.sensor_stabilize_sec,
                };
            }
        },
        SystemState::DosingEC { finish_time } => {
            if current_time >= finish_time {
                push_pump(
                    &mut effects,
                    PumpCommand::SetPump { pump: PumpType::NutrientA, on: false },
                );
                push_pump(
                    &mut effects,
                    PumpCommand::SetPump { pump: PumpType::NutrientB, on: false },
                );
                ctx.current_state = SystemState::ActiveMixing {
                    finish_time: current_time + config.active_mixing_sec,
                };
            }
        },
        SystemState::DosingPH { finish_time } => {
            if current_time >= finish_time {
                push_pump(&mut effects, PumpCommand::SetPump { pump: PumpType::PhUp, on: false });
                push_pump(&mut effects, PumpCommand::SetPump { pump: PumpType::PhDown, on: false });
                ctx.current_state = SystemState::ActiveMixing {
                    finish_time: current_time + config.active_mixing_sec,
                };
            }
        },
        SystemState::ActiveMixing { finish_time } => {
            if current_time >= finish_time {
                push_pump(&mut effects, PumpCommand::SetChamber { on: false });
                ctx.current_state = SystemState::Stabilizing {
                    finish_time: current_time + config.sensor_stabilize_sec,
                };
            }
        },
        SystemState::Stabilizing { finish_time } => {
            if current_time >= finish_time {
                ctx.current_state = SystemState::Monitoring;
            }
        },
        SystemState::SystemFault(_) => {},
        SystemState::EmergencyStop => {},
    }
    assert(effects@ =~= auto_step(old(ctx)@, *config, *sensors, current_time).1);
    effects
}

/// Whether a round of the automatic cycle stays in range.
pub fn auto_is_defined(
    current_time: u64,
    config: &DeviceConfig,
    sensors: &SensorData,
    ctx: &ControlContext,
) -> (r: bool)
    ensures
        r == auto_defined(ctx@, *config, *sensors, current_time),
{
    let mixing_fits = config.active_mixing_sec <= u64::MAX - current_time;
    let settling_fits = config.sensor_stabilize_sec <= u64::MAX - current_time;
    match ctx.current_state {
        SystemState::Monitoring => {
            if !ctx.retries_in_range(sensors) || (config.scheduled_water_change_enabled
                && ctx.last_water_change_time > current_time) {
                return false;
            }
            let limit_valid = Binary32::zero().is_at_most(config.max_dose_per_cycle);
            match find_need(ctx.last_water_change_time, config, sensors, current_time) {
                Need::DoseEc => ctx.count_ec_retries(sensors) >= MAX_RETRIES || (limit_valid
                    && ec_dosing_time(config, sensors) <= u64::MAX - current_time),
                Need::DosePh => ctx.count_ph_retries(sensors) >= MAX_RETRIES || (limit_valid
                    && ph_dosing_time(config, sensors) <= u64::MAX - current_time),
                _ => true,
            }
        },
        SystemState::WaterRefilling { target_level, start_time } => {
            let full = target_level.is_at_most(sensors.water_level);
            if !full && start_time > current_time {
                return false;
            }
            mixing_fits || !(full || current_time - start_time > config.max_refill_duration_sec)
        },
        SystemState::WaterDraining { target_level, start_time } => {
            let drained = sensors.water_level.is_at_most(target_level);
            if !drained && start_time > current_time {
                return false;
            }
            settling_fits || !(drained || current_time - start_time
                > config.max_drain_duration_sec)
        },
        SystemState::DosingEC { finish_time } => current_time < finish_time || mixing_fits,
        SystemState::DosingPH { finish_time } => current_time < finish_time || mixing_fits,
        SystemState::ActiveMixing { finish_time } => current_time < finish_time || settling_fits,
        SystemState::Stabilizing { .. } => true,
        SystemState::SystemFault(_) => true,
        SystemState::EmergencyStop => true,
    }
}

} // verus!
