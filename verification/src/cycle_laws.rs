//! What the automatic cycle does, told in the values of the readings and the settings.
//!
//! Thresholds are sums and differences of settings, which are rounded. A reading beyond a threshold
//! counts as such wherever some number lies between the two, or on the exact threshold: that number
//! is the `between` of the laws here.

use crate::auto_fsm;
use crate::binary32;
use crate::binary32::Binary32;
use crate::config::DeviceConfig;
use crate::controller;
use crate::controller::{ContextView, StateView};
use crate::laws;
use crate::mqtt::SensorData;
use crate::pump::PumpController;
use vstd::prelude::*;

verus! {

/// The readings, and the settings that they are held against, are finite.
pub open spec fn all_finite(config: DeviceConfig, sensors: SensorData) -> bool {
    &&& sensors.ec_value.is_finite()
    &&& sensors.ph_value.is_finite()
    &&& sensors.water_level.is_finite()
    &&& config.ec_target.is_finite()
    &&& config.ec_tolerance.is_finite()
    &&& config.ph_target.is_finite()
    &&& config.ph_tolerance.is_finite()
    &&& config.water_level_min.is_finite()
    &&& config.water_level_target.is_finite()
    &&& config.water_level_max.is_finite()
    &&& config.water_level_tolerance.is_finite()
    &&& config.dilute_drain_amount_cm.is_finite()
    &&& config.scheduled_drain_amount_cm.is_finite()
}

/// The interval since the last water change is over.
pub open spec fn change_is_due(c: ContextView, config: DeviceConfig, now: u64) -> bool {
    config.scheduled_water_change_enabled && now > c.last_water_change_time
        + config.water_change_interval_sec
}

/// The least water level that needs no refill, as it is meant before rounding.
pub open spec fn refill_below(config: DeviceConfig) -> int {
    config.water_level_target.value() - config.water_level_tolerance.value()
}

/// The largest EC that needs no dilution, as it is meant before rounding.
pub open spec fn dilute_above(config: DeviceConfig) -> int {
    config.ec_target.value() + config.ec_tolerance.value()
}

/// The least EC that needs no dose, as it is meant before rounding.
pub open spec fn dose_below(config: DeviceConfig) -> int {
    config.ec_target.value() - config.ec_tolerance.value()
}

/// Water is not in need of a change, a refill or an overflow drain.
pub open spec fn water_is_fine(
    c: ContextView,
    config: DeviceConfig,
    sensors: SensorData,
    now: u64,
) -> bool {
    &&& !change_is_due(c, config, now)
    &&& config.auto_refill_enabled ==> sensors.water_level.value() >= refill_below(config)
    &&& config.auto_drain_overflow ==> sensors.water_level.value()
        <= config.water_level_max.value()
}

/// EC is not in need of a dilution or a dose.
pub open spec fn ec_is_fine(config: DeviceConfig, sensors: SensorData) -> bool {
    &&& config.auto_dilute_enabled ==> sensors.ec_value.value() <= dilute_above(config)
    &&& sensors.ec_value.value() >= dose_below(config)
}

/// What the thresholds come to in exact values.
proof fn lemma_thresholds(config: DeviceConfig, sensors: SensorData, between: Binary32)
    requires
        all_finite(config, sensors),
        between.is_finite(),
    ensures
        auto_fsm::water_is_low(config, sensors) ==> config.auto_refill_enabled
            && sensors.water_level.value() < refill_below(config),
        config.auto_refill_enabled && sensors.water_level.value() < between.value()
            <= refill_below(config) ==> auto_fsm::water_is_low(config, sensors),
        auto_fsm::water_is_high(config, sensors) <==> config.auto_drain_overflow
            && sensors.water_level.value() > config.water_level_max.value(),
        auto_fsm::too_rich(config, sensors) ==> config.auto_dilute_enabled
            && sensors.ec_value.value() > dilute_above(config),
        config.auto_dilute_enabled && dilute_above(config) <= between.value()
            < sensors.ec_value.value() ==> auto_fsm::too_rich(config, sensors),
        auto_fsm::too_lean(config, sensors) ==> sensors.ec_value.value() < dose_below(config),
        sensors.ec_value.value() < between.value() <= dose_below(config) ==> auto_fsm::too_lean(
            config,
            sensors,
        ),
{
    let level = sensors.water_level;
    let ec = sensors.ec_value;
    let low = config.water_level_target.difference(config.water_level_tolerance);
    let rich = config.ec_target.sum(config.ec_tolerance);
    let lean = config.ec_target.difference(config.ec_tolerance);
    assert(!low.is_nan() && (level.below(low) <==> level.value() < low.value()) && (
    level.value() >= refill_below(config) ==> level.value() >= low.value()) && (between.value()
        <= refill_below(config) ==> between.value() <= low.value())) by {
        binary32::law_difference_bounds(
            config.water_level_target,
            config.water_level_tolerance,
            level,
        );
        binary32::law_difference_bounds(
            config.water_level_target,
            config.water_level_tolerance,
            between,
        );
        binary32::law_order_by_value(level, low);
    }
    assert(config.water_level_max.below(level) <==> config.water_level_max.value()
        < level.value()) by {
        binary32::law_order_by_value(config.water_level_max, level);
    }
    assert(!rich.is_nan() && (rich.below(ec) <==> rich.value() < ec.value()) && (ec.value()
        <= dilute_above(config) ==> ec.value() <= rich.value()) && (dilute_above(config)
        <= between.value() ==> rich.value() <= between.value())) by {
        binary32::law_sum_bounds(config.ec_target, config.ec_tolerance, ec);
        binary32::law_sum_bounds(config.ec_target, config.ec_tolerance, between);
        binary32::law_order_by_value(rich, ec);
    }
    assert(!lean.is_nan() && (ec.below(lean) <==> ec.value() < lean.value()) && (ec.value()
        >= dose_below(config) ==> ec.value() >= lean.value()) && (between.value() <= dose_below(
        config,
    ) ==> between.value() <= lean.value())) by {
        binary32::law_difference_bounds(config.ec_target, config.ec_tolerance, ec);
        binary32::law_difference_bounds(config.ec_target, config.ec_tolerance, between);
        binary32::law_order_by_value(ec, lean);
    }
}

/// What the pH threshold comes to in exact values.
proof fn lemma_ph_threshold(config: DeviceConfig, sensors: SensorData, between: Binary32)
    requires
        all_finite(config, sensors),
        between.is_finite(),
    ensures
        auto_fsm::ph_is_off(config, sensors) ==> binary32::distance(
            sensors.ph_value,
            config.ph_target,
        ) > config.ph_tolerance.value(),
        config.ph_tolerance.value() < between.value() <= binary32::distance(
            sensors.ph_value,
            config.ph_target,
        ) ==> auto_fsm::ph_is_off(config, sensors),
{
    let off = sensors.ph_value.difference(config.ph_target).absolute();
    binary32::law_distance_bounds(sensors.ph_value, config.ph_target, config.ph_tolerance);
    binary32::law_distance_bounds(sensors.ph_value, config.ph_target, between);
    binary32::law_order_by_value(config.ph_tolerance, off);
}

/// `target` is `amount` below the present level, or the least level where that is higher.
pub open spec fn drains_down_to(
    config: DeviceConfig,
    sensors: SensorData,
    amount: Binary32,
    target: Binary32,
    bound: Binary32,
) -> bool {
    let exact = sensors.water_level.value() - amount.value();
    &&& !target.is_nan()
    &&& config.water_level_min.value() <= target.value()
    &&& bound.value() <= exact ==> bound.value() <= target.value()
    &&& exact <= bound.value() && config.water_level_min.value() <= bound.value()
        ==> target.value() <= bound.value()
}

proof fn lemma_drain_target(
    config: DeviceConfig,
    sensors: SensorData,
    amount: Binary32,
    bound: Binary32,
)
    requires
        all_finite(config, sensors),
        amount.is_finite(),
        bound.is_finite(),
    ensures
        drains_down_to(
            config,
            sensors,
            amount,
            auto_fsm::drain_target(config, sensors, amount),
            bound,
        ),
{
    let lower = sensors.water_level.difference(amount);
    binary32::law_difference_bounds(sensors.water_level, amount, bound);
    binary32::law_order_by_value(lower, config.water_level_min);
}

/// A water change that is due starts, whatever else there is to do: the tank is drained by the
/// scheduled amount, and the time is noted. None starts before it is due.
pub proof fn law_water_change_when_due(
    c: ContextView,
    config: DeviceConfig,
    sensors: SensorData,
    now: u64,
    bound: Binary32,
)
    requires
        c.current_state is Monitoring,
        all_finite(config, sensors),
        bound.is_finite(),
    ensures
        ({
            let after = auto_fsm::auto_step(c, config, sensors, now).0;
            if change_is_due(c, config, now) {
                &&& after.last_water_change_time == now
                &&& after.current_state matches StateView::WaterDraining {
                    target_level,
                    start_time,
                } && start_time == now && drains_down_to(
                    config,
                    sensors,
                    config.scheduled_drain_amount_cm,
                    target_level,
                    bound,
                )
            } else {
                after.last_water_change_time == c.last_water_change_time
            }
        }),
{
    lemma_drain_target(config, sensors, config.scheduled_drain_amount_cm, bound);
}

/// Where no water change is due, a tank that is clearly low is refilled to its target, unless three
/// refills in a row have failed.
pub proof fn law_low_water_is_refilled(
    c: ContextView,
    config: DeviceConfig,
    sensors: SensorData,
    now: u64,
    between: Binary32,
)
    requires
        c.current_state is Monitoring,
        all_finite(config, sensors),
        between.is_finite(),
        !change_is_due(c, config, now),
        config.auto_refill_enabled,
        sensors.water_level.value() < between.value() <= refill_below(config),
    ensures
        ({
            let after = auto_fsm::auto_step(c, config, sensors, now).0;
            if after.water_refill_retry_count < 3 {
                &&& after.current_state == (StateView::WaterRefilling {
                    target_level: config.water_level_target,
                    start_time: now,
                })
                &&& after.last_water_before_refill == Some(sensors.water_level)
            } else {
                after.current_state == StateView::SystemFault("WATER_REFILL_FAILED"@)
            }
        }),
{
    lemma_thresholds(config, sensors, between);
}

/// Where no water change is due and the tank is not low, a tank above its largest level is drained
/// to its target.
pub proof fn law_overflow_is_drained(
    c: ContextView,
    config: DeviceConfig,
    sensors: SensorData,
    now: u64,
)
    requires
        c.current_state is Monitoring,
        all_finite(config, sensors),
        !change_is_due(c, config, now),
        config.auto_refill_enabled ==> sensors.water_level.value() >= refill_below(config),
        config.auto_drain_overflow,
        sensors.water_level.value() > config.water_level_max.value(),
    ensures
        auto_fsm::auto_step(c, config, sensors, now).0.current_state == (StateView::WaterDraining {
            target_level: config.water_level_target,
            start_time: now,
        }),
{
    lemma_thresholds(config, sensors, sensors.water_level);
}

/// Where the water is fine, a solution that is clearly too rich is diluted: the tank is drained by
/// the amount for that.
pub proof fn law_rich_solution_is_diluted(
    c: ContextView,
    config: DeviceConfig,
    sensors: SensorData,
    now: u64,
    between: Binary32,
    bound: Binary32,
)
    requires
        c.current_state is Monitoring,
        all_finite(config, sensors),
        between.is_finite(),
        bound.is_finite(),
        water_is_fine(c, config, sensors, now),
        config.auto_dilute_enabled,
        dilute_above(config) <= between.value() < sensors.ec_value.value(),
    ensures
        ({
            let after = auto_fsm::auto_step(c, config, sensors, now).0;
            after.current_state matches StateView::WaterDraining { target_level, start_time }
                && start_time == now && drains_down_to(
                config,
                sensors,
                config.dilute_drain_amount_cm,
                target_level,
                bound,
            )
        }),
{
    lemma_thresholds(config, sensors, between);
    lemma_drain_target(config, sensors, config.dilute_drain_amount_cm, bound);
}

/// Where the water is fine, a solution that is not too rich and clearly too lean is dosed with
/// nutrients, unless three doses in a row have failed: for as long as the dose takes, and not at
/// all where that is less than a second.
pub proof fn law_lean_solution_is_dosed(
    c: ContextView,
    config: DeviceConfig,
    sensors: SensorData,
    now: u64,
    between: Binary32,
)
    requires
        c.current_state is Monitoring,
        all_finite(config, sensors),
        between.is_finite(),
        laws::timers_fit(config, sensors, now),
        water_is_fine(c, config, sensors, now),
        config.auto_dilute_enabled ==> sensors.ec_value.value() <= dilute_above(config),
        sensors.ec_value.value() < between.value() <= dose_below(config),
    ensures
        ({
            let after = auto_fsm::auto_step(c, config, sensors, now).0;
            let seconds = auto_fsm::dosing_time(config, auto_fsm::ec_dose(config, sensors));
            if after.ec_retry_count >= 3 {
                after.current_state == StateView::SystemFault("EC_DOSING_FAILED"@)
            } else if seconds > 0 {
                &&& after.current_state matches StateView::DosingEC { finish_time } && finish_time
                    == now + seconds
                &&& after.last_ec_before_dosing == Some(sensors.ec_value)
            } else {
                &&& after.current_state is Monitoring
                &&& after.last_ec_before_dosing == Some(sensors.ec_value)
            }
        }),
{
    lemma_thresholds(config, sensors, between);
}

/// Where water and EC are fine, a pH that is clearly off is corrected, unless three doses in a row
/// have failed: for as long as the dose takes, and not at all where that is less than a second.
pub proof fn law_ph_is_corrected(
    c: ContextView,
    config: DeviceConfig,
    sensors: SensorData,
    now: u64,
    between: Binary32,
)
    requires
        c.current_state is Monitoring,
        all_finite(config, sensors),
        between.is_finite(),
        laws::timers_fit(config, sensors, now),
        water_is_fine(c, config, sensors, now),
        ec_is_fine(config, sensors),
        config.ph_tolerance.value() < between.value() <= binary32::distance(
            sensors.ph_value,
            config.ph_target,
        ),
    ensures
        ({
            let after = auto_fsm::auto_step(c, config, sensors, now).0;
            let seconds = auto_fsm::dosing_time(config, auto_fsm::ph_dose(config, sensors));
            if after.ph_retry_count >= 3 {
                after.current_state == StateView::SystemFault("PH_DOSING_FAILED"@)
            } else if seconds > 0 {
                &&& after.current_state matches StateView::DosingPH { finish_time } && finish_time
                    == now + seconds
                &&& after.last_ph_before_dosing == Some(sensors.ph_value)
            } else {
                &&& after.current_state is Monitoring
                &&& after.last_ph_before_dosing == Some(sensors.ph_value)
            }
        }),
{
    lemma_thresholds(config, sensors, sensors.ec_value);
    lemma_ph_threshold(config, sensors, between);
}

/// Where water, EC and pH are fine, nothing is started and nothing is awaited.
pub proof fn law_fine_tank_is_left_alone(
    c: ContextView,
    config: DeviceConfig,
    sensors: SensorData,
    now: u64,
)
    requires
        c.current_state is Monitoring,
        all_finite(config, sensors),
        water_is_fine(c, config, sensors, now),
        ec_is_fine(config, sensors),
        binary32::distance(sensors.ph_value, config.ph_target) <= config.ph_tolerance.value(),
    ensures
        ({
            let after = auto_fsm::auto_step(c, config, sensors, now).0;
            &&& after.current_state is Monitoring
            &&& after.last_ec_before_dosing is None
            &&& after.last_ph_before_dosing is None
            &&& after.last_water_before_refill is None
        }),
{
    lemma_thresholds(config, sensors, sensors.ec_value);
    lemma_ph_threshold(config, sensors, sensors.ph_value);
}

/// Nothing is started without its reason: no drain without a change that is due, an overflow or a
/// rich solution, no refill of a tank that is not low, no dose where EC or pH is within its
/// tolerance, and no fault but after three failures of what was needed.
pub proof fn law_nothing_starts_without_reason(
    c: ContextView,
    config: DeviceConfig,
    sensors: SensorData,
    now: u64,
)
    requires
        c.current_state is Monitoring,
        all_finite(config, sensors),
    ensures
        ({
            let after = auto_fsm::auto_step(c, config, sensors, now).0;
            let low = config.auto_refill_enabled && sensors.water_level.value() < refill_below(
                config,
            );
            let lean = sensors.ec_value.value() < dose_below(config);
            let off = binary32::distance(sensors.ph_value, config.ph_target)
                > config.ph_tolerance.value();
            &&& after.current_state is WaterDraining ==> change_is_due(c, config, now) || (
            config.auto_drain_overflow && sensors.water_level.value()
                > config.water_level_max.value()) || (config.auto_dilute_enabled
                && sensors.ec_value.value() > dilute_above(config))
            &&& after.current_state is WaterRefilling ==> low && after.water_refill_retry_count < 3
            &&& after.current_state is DosingEC ==> lean && after.ec_retry_count < 3
            &&& after.current_state is DosingPH ==> off && after.ph_retry_count < 3
            &&& after.current_state matches StateView::SystemFault(reason) ==> {
                ||| reason == "WATER_REFILL_FAILED"@ && low && after.water_refill_retry_count >= 3
                ||| reason == "EC_DOSING_FAILED"@ && lean && after.ec_retry_count >= 3
                ||| reason == "PH_DOSING_FAILED"@ && off && after.ph_retry_count >= 3
            }
            &&& after.last_water_before_refill is Some ==> after.current_state is WaterRefilling
            &&& after.last_ec_before_dosing is Some ==> lean
            &&& after.last_ph_before_dosing is Some ==> off
        }),
{
    lemma_thresholds(config, sensors, sensors.ec_value);
    lemma_ph_threshold(config, sensors, sensors.ph_value);
}

/// After monitoring, a response is awaited of at most the one action that it has just begun, and is
/// awaited from the present reading on.
pub proof fn law_awaits_only_what_was_begun(
    c: ContextView,
    config: DeviceConfig,
    sensors: SensorData,
    now: u64,
)
    requires
        c.current_state is Monitoring,
    ensures
        ({
            let after = auto_fsm::auto_step(c, config, sensors, now).0;
            let state = after.current_state;
            let ec = after.last_ec_before_dosing;
            let ph = after.last_ph_before_dosing;
            let level = after.last_water_before_refill;
            &&& ec is Some ==> ec == Some(sensors.ec_value) && ph is None && level is None && (
            state is DosingEC || state is Monitoring)
            &&& ph is Some ==> ph == Some(sensors.ph_value) && ec is None && level is None && (
            state is DosingPH || state is Monitoring)
            &&& level is Some ==> level == Some(sensors.water_level) && ec is None && ph is None
                && state is WaterRefilling
            &&& state is DosingEC ==> ec is Some
            &&& state is DosingPH ==> ph is Some
            &&& state is WaterRefilling ==> level is Some
        }),
{
}

/// A pH dose drives the pH towards its target: afterwards the pump that raises it runs exactly
/// where the reading is below the target, and the one that lowers it exactly where it is above.
pub proof fn law_ph_dose_drives_towards_target(
    c: ContextView,
    config: DeviceConfig,
    sensors: SensorData,
    now: u64,
    pumps: PumpController,
)
    requires
        c.current_state is Monitoring,
        laws::in_step(c.current_state, pumps),
        sensors.ph_value.is_finite(),
        config.ph_target.is_finite(),
        !config.max_dose_per_cycle.is_nan(),
        config.max_dose_per_cycle.value() >= 0,
        auto_fsm::auto_step(c, config, sensors, now).0.current_state is DosingPH,
    ensures
        ({
            let after = laws::all_carried_out(
                pumps,
                auto_fsm::auto_step(c, config, sensors, now).1,
            );
            &&& after.pump_ph_up <==> sensors.ph_value.value() < config.ph_target.value()
            &&& after.pump_ph_down <==> sensors.ph_value.value() > config.ph_target.value()
        }),
{
    let effects = auto_fsm::auto_step(c, config, sensors, now).1;
    laws::lemma_outcome(pumps, effects);
    assert(sensors.ph_value.below(config.ph_target) <==> sensors.ph_value.value()
        < config.ph_target.value()) by {
        binary32::law_order_by_value(sensors.ph_value, config.ph_target);
    }
    if sensors.ph_value.value() == config.ph_target.value() {
        lemma_no_distance_no_dose(config, sensors);
    }
}

/// Nothing is dosed where the pH is on its target.
proof fn lemma_no_distance_no_dose(config: DeviceConfig, sensors: SensorData)
    requires
        sensors.ph_value.is_finite(),
        config.ph_target.is_finite(),
        !config.max_dose_per_cycle.is_nan(),
        config.max_dose_per_cycle.value() >= 0,
        sensors.ph_value.value() == config.ph_target.value(),
    ensures
        auto_fsm::dosing_time(config, auto_fsm::ph_dose(config, sensors)) == 0,
{
    let zero = binary32::signed(false, 0);
    let gap = sensors.ph_value.difference(config.ph_target).absolute();
    let effect = if auto_fsm::ph_goes_up(config, sensors) {
        config.ph_shift_up_per_ml
    } else {
        config.ph_shift_down_per_ml
    };
    let part = gap.quotient(effect).product(config.ph_step_ratio);
    binary32::law_zero_value(zero);
    binary32::law_zero_value(gap);
    assert(gap.is_zero()) by {
        binary32::law_distance_bounds(sensors.ph_value, config.ph_target, zero);
    }
    binary32::law_zero_stays_zero(gap, effect);
    if gap.quotient(effect).is_zero() {
        binary32::law_zero_stays_zero(gap.quotient(effect), config.ph_step_ratio);
    }
    let held = part.held_between(zero, config.max_dose_per_cycle);
    if !part.is_nan() {
        binary32::law_zero_value(part);
        binary32::law_order_by_value(part, zero);
        binary32::law_order_by_value(config.max_dose_per_cycle, part);
        binary32::law_zero_holds_nothing(held, config.dosing_pump_capacity_ml_per_sec);
    }
}

pub open spec fn mixes_until(state: StateView, end: int) -> bool {
    state matches StateView::ActiveMixing { finish_time } && finish_time == end
}

pub open spec fn settles_until(state: StateView, end: int) -> bool {
    state matches StateView::Stabilizing { finish_time } && finish_time == end
}

/// A refill goes on, and does nothing else, while the level is below its target and its time is not
/// over; it ends at the target or when its time is over, and what was let in is mixed for its time.
pub proof fn law_refill_runs_to_target(
    c: ContextView,
    config: DeviceConfig,
    sensors: SensorData,
    now: u64,
    target_level: Binary32,
    start_time: u64,
)
    requires
        c.current_state == (StateView::WaterRefilling { target_level, start_time }),
        !sensors.water_level.is_nan(),
        !target_level.is_nan(),
        laws::timers_fit(config, sensors, now),
    ensures
        ({
            let (after, effects) = auto_fsm::auto_step(c, config, sensors, now);
            if sensors.water_level.value() < target_level.value() && now <= start_time
                + config.max_refill_duration_sec {
                after == c && effects.len() == 0
            } else {
                mixes_until(after.current_state, now + config.active_mixing_sec)
            }
        }),
{
    binary32::law_order_by_value(target_level, sensors.water_level);
}

/// A drain goes on, and does nothing else, while the level is above its target and its time is not
/// over; it ends at the target or when its time is over, and the tank is left to settle.
pub proof fn law_drain_runs_to_target(
    c: ContextView,
    config: DeviceConfig,
    sensors: SensorData,
    now: u64,
    target_level: Binary32,
    start_time: u64,
)
    requires
        c.current_state == (StateView::WaterDraining { target_level, start_time }),
        !sensors.water_level.is_nan(),
        !target_level.is_nan(),
        laws::timers_fit(config, sensors, now),
    ensures
        ({
            let (after, effects) = auto_fsm::auto_step(c, config, sensors, now);
            if sensors.water_level.value() > target_level.value() && now <= start_time
                + config.max_drain_duration_sec {
                after == c && effects.len() == 0
            } else {
                settles_until(after.current_state, now + config.sensor_stabilize_sec)
            }
        }),
{
    binary32::law_order_by_value(sensors.water_level, target_level);
}

/// A refill or a drain goes on where the level is not a number, until its time is over.
pub proof fn law_unknown_level_waits_for_time(
    c: ContextView,
    config: DeviceConfig,
    sensors: SensorData,
    now: u64,
)
    requires
        sensors.water_level.is_nan(),
    ensures
        ({
            let (after, effects) = auto_fsm::auto_step(c, config, sensors, now);
            &&& c.current_state matches StateView::WaterRefilling { start_time, .. } ==> now
                <= start_time + config.max_refill_duration_sec ==> after == c && effects.len() == 0
            &&& c.current_state matches StateView::WaterDraining { start_time, .. } ==> now
                <= start_time + config.max_drain_duration_sec ==> after == c && effects.len() == 0
        }),
{
}

/// A dose that is over is mixed for the mixing time, what is mixed is left to settle for the
/// settling time, and after that the readings are watched again.
pub proof fn law_doses_are_mixed_and_settled(
    c: ContextView,
    config: DeviceConfig,
    sensors: SensorData,
    now: u64,
)
    requires
        laws::timers_fit(config, sensors, now),
    ensures
        ({
            let next = auto_fsm::auto_step(c, config, sensors, now).0.current_state;
            &&& c.current_state matches StateView::DosingEC { finish_time } ==> now >= finish_time
                ==> mixes_until(next, now + config.active_mixing_sec)
            &&& c.current_state matches StateView::DosingPH { finish_time } ==> now >= finish_time
                ==> mixes_until(next, now + config.active_mixing_sec)
            &&& c.current_state matches StateView::ActiveMixing { finish_time } ==> now
                >= finish_time ==> settles_until(next, now + config.sensor_stabilize_sec)
            &&& c.current_state matches StateView::Stabilizing { finish_time } ==> now
                >= finish_time ==> next is Monitoring
        }),
{
}

/// The cycle forgets nothing but on purpose: it never touches the previous readings, and outside
/// monitoring it changes nothing but its state.
pub proof fn law_cycle_leaves_the_rest(
    c: ContextView,
    config: DeviceConfig,
    sensors: SensorData,
    now: u64,
)
    ensures
        ({
            let after = auto_fsm::auto_step(c, config, sensors, now).0;
            &&& after.previous_ec_value == c.previous_ec_value
            &&& after.previous_ph_value == c.previous_ph_value
            &&& !(c.current_state is Monitoring) ==> after == (ContextView {
                current_state: after.current_state,
                ..c
            })
        }),
{
}

/// A response of the sensor counts where the reading has moved by the least response or more, in
/// either direction, and does not count where it has clearly moved by less: by no more than
/// `moved`, which is below `least`, which is no more than the least response of `part` parts in
/// `whole`.
proof fn lemma_response(
    before: Binary32,
    now: Binary32,
    part: nat,
    whole: nat,
    moved: Binary32,
    least: Binary32,
)
    requires
        before.is_finite(),
        now.is_finite(),
        moved.is_finite(),
        least.is_finite(),
        whole > 0,
        0 <= moved.value() < least.value(),
        least.value() * whole <= part * binary32::one_in_units(),
        binary32::ratio(part, whole).is_finite(),
    ensures
        part * binary32::one_in_units() <= binary32::distance(now, before) * whole
            ==> controller::responded(before, now, binary32::ratio(part, whole)),
        binary32::distance(now, before) <= moved.value() ==> !controller::responded(
            before,
            now,
            binary32::ratio(part, whole),
        ),
{
    let change = binary32::ratio(part, whole);
    let d = now.difference(before).absolute();
    binary32::law_distance_bounds(now, before, moved);
    binary32::law_order_by_value(change, d);
    binary32::law_ratio_bounds(part, whole, least);
    if part * binary32::one_in_units() <= binary32::distance(now, before) * whole {
        binary32::law_distance_reaches_ratio(now, before, part, whole);
    }
}

/// Monitoring looks for the response to the last dose against low EC. A change of the EC by a
/// twentieth or more, up or down, starts the count of failed doses anew; a change that is clearly
/// less adds one to it; where no dose awaits a response the count stays.
pub proof fn law_ec_response(
    c: ContextView,
    config: DeviceConfig,
    sensors: SensorData,
    now: u64,
    moved: Binary32,
    least: Binary32,
)
    requires
        c.current_state is Monitoring,
        c.retries_fit(sensors),
        sensors.ec_value.is_finite(),
        c.last_ec_before_dosing matches Some(before) ==> before.is_finite(),
        moved.is_finite(),
        least.is_finite(),
        0 <= moved.value() < least.value(),
        least.value() * 20 <= binary32::one_in_units(),
    ensures
        ({
            let count = auto_fsm::auto_step(c, config, sensors, now).0.ec_retry_count;
            match c.last_ec_before_dosing {
                Some(before) => {
                    let change = binary32::distance(sensors.ec_value, before);
                    &&& change * 20 >= binary32::one_in_units() ==> count == 0
                    &&& change <= moved.value() ==> count == c.ec_retry_count + 1
                    &&& count == 0 || count == c.ec_retry_count + 1
                },
                None => count == c.ec_retry_count,
            }
        }),
{
    if let Some(before) = c.last_ec_before_dosing {
        binary32::law_small_ratios_are_finite(5, 100);
        assert(least.value() * 100 <= 5 * binary32::one_in_units());
        lemma_response(before, sensors.ec_value, 5, 100, moved, least);
    }
}

/// Monitoring looks for the response to the last pH dose. A change of the pH by a tenth or more, up
/// or down, starts the count of failed doses anew; a change that is clearly less adds one to it;
/// where no dose awaits a response the count stays.
pub proof fn law_ph_response(
    c: ContextView,
    config: DeviceConfig,
    sensors: SensorData,
    now: u64,
    moved: Binary32,
    least: Binary32,
)
    requires
        c.current_state is Monitoring,
        c.retries_fit(sensors),
        sensors.ph_value.is_finite(),
        c.last_ph_before_dosing matches Some(before) ==> before.is_finite(),
        moved.is_finite(),
        least.is_finite(),
        0 <= moved.value() < least.value(),
        least.value() * 10 <= binary32::one_in_units(),
    ensures
        ({
            let count = auto_fsm::auto_step(c, config, sensors, now).0.ph_retry_count;
            match c.last_ph_before_dosing {
                Some(before) => {
                    let change = binary32::distance(sensors.ph_value, before);
                    &&& change * 10 >= binary32::one_in_units() ==> count == 0
                    &&& change <= moved.value() ==> count == c.ph_retry_count + 1
                    &&& count == 0 || count == c.ph_retry_count + 1
                },
                None => count == c.ph_retry_count,
            }
        }),
{
    if let Some(before) = c.last_ph_before_dosing {
        binary32::law_small_ratios_are_finite(1, 10);
        lemma_response(before, sensors.ph_value, 1, 10, moved, least);
    }
}

/// Monitoring looks for the response to the last refill. A change of the level by half a centimetre
/// or more, up or down, starts the count of failed refills anew; a change that is clearly less adds
/// one to it; where no refill awaits a response the count stays.
pub proof fn law_water_response(
    c: ContextView,
    config: DeviceConfig,
    sensors: SensorData,
    now: u64,
    moved: Binary32,
    least: Binary32,
)
    requires
        c.current_state is Monitoring,
        c.retries_fit(sensors),
        sensors.water_level.is_finite(),
        c.last_water_before_refill matches Some(before) ==> before.is_finite(),
        moved.is_finite(),
        least.is_finite(),
        0 <= moved.value() < least.value(),
        least.value() * 2 <= binary32::one_in_units(),
    ensures
        ({
            let count = auto_fsm::auto_step(c, config, sensors, now).0.water_refill_retry_count;
            match c.last_water_before_refill {
                Some(before) => {
                    let change = binary32::distance(sensors.water_level, before);
                    &&& change * 2 >= binary32::one_in_units() ==> count == 0
                    &&& change <= moved.value() ==> count == c.water_refill_retry_count + 1
                    &&& count == 0 || count == c.water_refill_retry_count + 1
                },
                None => count == c.water_refill_retry_count,
            }
        }),
{
    if let Some(before) = c.last_water_before_refill {
        binary32::law_small_ratios_are_finite(5, 10);
        assert(least.value() * 10 <= 5 * binary32::one_in_units());
        lemma_response(before, sensors.water_level, 5, 10, moved, least);
    }
}

} // verus!
