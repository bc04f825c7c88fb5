//! How long a dose takes, told in the values of the readings and the settings.

use crate::auto_fsm;
use crate::binary32;
use crate::binary32::Binary32;
use crate::config::DeviceConfig;
use crate::mqtt::SensorData;
use vstd::prelude::*;

verus! {

/// Settings that a dose can be worked out with: what a millilitre makes up, the part of the gap to
/// make up at once and the capacity of the pump are positive, and the largest dose is not negative.
pub open spec fn can_dose(config: DeviceConfig, effect: Binary32, ratio: Binary32) -> bool {
    &&& effect.is_finite() && effect.value() > 0
    &&& ratio.is_finite() && ratio.value() > 0
    &&& config.dosing_pump_capacity_ml_per_sec.is_finite()
    &&& config.dosing_pump_capacity_ml_per_sec.value() > 0
    &&& !config.max_dose_per_cycle.is_nan() && config.max_dose_per_cycle.value() >= 0
}

/// Numbers along the way from a gap to a time: the gap, the millilitres that make up all of it, the
/// part of them that is given, and the seconds that takes.
pub struct Chain {
    pub gap: Binary32,
    pub volume: Binary32,
    pub part: Binary32,
    pub time: Binary32,
}

impl Chain {
    pub open spec fn well_formed(self) -> bool {
        &&& self.gap.is_finite() && self.gap.value() >= 0
        &&& self.volume.is_finite() && self.volume.value() >= 0
        &&& self.part.is_finite() && self.part.value() >= 0
        &&& self.time.is_finite() && self.time.value() >= 0
    }

    /// Each number is at most what exact arithmetic makes of the one before it, and what is given
    /// is at most the largest dose: `seconds` or more are owed for `exact_gap`.
    pub open spec fn stays_below(
        self,
        exact_gap: int,
        effect: Binary32,
        ratio: Binary32,
        config: DeviceConfig,
        seconds: u64,
    ) -> bool {
        let one = binary32::one_in_units();
        let capacity = config.dosing_pump_capacity_ml_per_sec;
        &&& self.well_formed()
        &&& self.gap.value() <= exact_gap
        &&& self.volume.value() * effect.value() <= self.gap.value() * one
        &&& self.part.value() * one <= self.volume.value() * ratio.value()
        &&& self.part.value() <= config.max_dose_per_cycle.value()
        &&& self.time.value() * capacity.value() <= self.part.value() * one
        &&& seconds * one <= self.time.value()
    }

    /// Each number is at least what exact arithmetic makes of the one before it: `seconds` or fewer
    /// are owed for `exact_gap`.
    pub open spec fn stays_above(
        self,
        exact_gap: int,
        effect: Binary32,
        ratio: Binary32,
        config: DeviceConfig,
        seconds: u64,
    ) -> bool {
        let one = binary32::one_in_units();
        let capacity = config.dosing_pump_capacity_ml_per_sec;
        &&& self.well_formed()
        &&& exact_gap <= self.gap.value()
        &&& self.gap.value() * one <= self.volume.value() * effect.value()
        &&& self.volume.value() * ratio.value() <= self.part.value() * one
        &&& self.part.value() * one <= self.time.value() * capacity.value()
        &&& self.time.value() < (seconds + 1) * one
    }
}

#[verifier::opaque]
spec fn seconds_for(config: DeviceConfig, gap: Binary32, effect: Binary32, ratio: Binary32) -> u64 {
    auto_fsm::dosing_time(config, auto_fsm::dose(config, gap, effect, ratio))
}

/// What is held between zero and the largest dose keeps its order.
proof fn lemma_held(config: DeviceConfig, x: Binary32)
    requires
        !x.is_nan(),
        x.value() >= 0,
        !config.max_dose_per_cycle.is_nan(),
        config.max_dose_per_cycle.value() >= 0,
    ensures
        ({
            let held = x.held_between(binary32::signed(false, 0), config.max_dose_per_cycle);
            &&& !held.is_nan()
            &&& held.value() == if config.max_dose_per_cycle.value() < x.value() {
                config.max_dose_per_cycle.value()
            } else {
                x.value()
            }
        }),
{
    let zero = binary32::signed(false, 0);
    binary32::law_zero_value(zero);
    binary32::law_order_by_value(x, zero);
    binary32::law_order_by_value(config.max_dose_per_cycle, x);
}

/// Nothing is given where there is no gap.
proof fn lemma_no_gap(config: DeviceConfig, gap: Binary32, effect: Binary32, ratio: Binary32)
    requires
        can_dose(config, effect, ratio),
        !gap.is_nan(),
        gap.value() <= 0,
    ensures
        seconds_for(config, gap, effect, ratio) == 0,
{
    reveal(seconds_for);
    let zero = binary32::signed(false, 0);
    let volume = gap.quotient(effect);
    let part = volume.product(ratio);
    binary32::law_quotient_of_nonpositive(gap, effect);
    binary32::law_product_of_nonpositive(volume, ratio);
    binary32::law_zero_value(zero);
    binary32::law_zero_value(part);
    binary32::law_order_by_value(part, zero);
    binary32::law_order_by_value(config.max_dose_per_cycle, part);
    let held = part.held_between(zero, config.max_dose_per_cycle);
    assert(held.is_zero());
    binary32::law_zero_holds_nothing(held, config.dosing_pump_capacity_ml_per_sec);
}

/// A wider gap never takes less time.
proof fn lemma_wider_gap(
    config: DeviceConfig,
    gap: Binary32,
    wider: Binary32,
    effect: Binary32,
    ratio: Binary32,
)
    requires
        can_dose(config, effect, ratio),
        !gap.is_nan(),
        !wider.is_nan(),
        gap.value() <= wider.value(),
    ensures
        seconds_for(config, gap, effect, ratio) <= seconds_for(config, wider, effect, ratio),
{
    reveal(seconds_for);
    if gap.value() <= 0 {
        lemma_no_gap(config, gap, effect, ratio);
    } else {
        let zero = binary32::signed(false, 0);
        let x = gap.quotient(effect).product(ratio);
        let y = wider.quotient(effect).product(ratio);
        binary32::law_quotient_keeps_order(gap, wider, effect);
        binary32::law_product_keeps_order(gap.quotient(effect), wider.quotient(effect), ratio);
        lemma_held(config, x);
        lemma_held(config, y);
        let held_x = x.held_between(zero, config.max_dose_per_cycle);
        let held_y = y.held_between(zero, config.max_dose_per_cycle);
        binary32::law_zero_value(zero);
        binary32::law_order_by_value(zero, held_x);
        binary32::law_order_by_value(held_x, held_y);
        binary32::law_order_by_value(zero, config.dosing_pump_capacity_ml_per_sec);
        binary32::law_whole_quotient_keeps_order(
            held_x,
            held_y,
            config.dosing_pump_capacity_ml_per_sec,
        );
    }
}

proof fn lemma_at_least(
    config: DeviceConfig,
    gap: Binary32,
    effect: Binary32,
    ratio: Binary32,
    exact_gap: int,
    chain: Chain,
    seconds: u64,
)
    requires
        can_dose(config, effect, ratio),
        !gap.is_nan(),
        chain.gap.value() <= exact_gap ==> chain.gap.value() <= gap.value(),
        chain.stays_below(exact_gap, effect, ratio, config, seconds),
    ensures
        seconds <= seconds_for(config, gap, effect, ratio),
{
    reveal(seconds_for);
    let zero = binary32::signed(false, 0);
    let capacity = config.dosing_pump_capacity_ml_per_sec;
    let volume = gap.quotient(effect);
    let part = volume.product(ratio);
    binary32::law_quotient_keeps_order(chain.gap, gap, effect);
    binary32::law_quotient_bounds(chain.gap, effect, chain.volume);
    binary32::law_product_keeps_order(chain.volume, volume, ratio);
    binary32::law_product_bounds(chain.volume, ratio, chain.part);
    lemma_held(config, part);
    let held = part.held_between(zero, config.max_dose_per_cycle);
    binary32::law_quotient_keeps_order(chain.part, held, capacity);
    binary32::law_quotient_bounds(chain.part, capacity, chain.time);
    binary32::law_whole_part(held.quotient(capacity), seconds);
}

proof fn lemma_at_most(
    config: DeviceConfig,
    gap: Binary32,
    effect: Binary32,
    ratio: Binary32,
    exact_gap: int,
    chain: Chain,
    seconds: u64,
)
    requires
        can_dose(config, effect, ratio),
        !gap.is_nan(),
        exact_gap <= chain.gap.value() ==> gap.value() <= chain.gap.value(),
        chain.stays_above(exact_gap, effect, ratio, config, seconds),
    ensures
        seconds_for(config, gap, effect, ratio) <= seconds,
{
    reveal(seconds_for);
    if gap.value() <= 0 {
        lemma_no_gap(config, gap, effect, ratio);
    } else {
        let zero = binary32::signed(false, 0);
        let capacity = config.dosing_pump_capacity_ml_per_sec;
        let volume = gap.quotient(effect);
        let part = volume.product(ratio);
        binary32::law_quotient_keeps_order(gap, chain.gap, effect);
        binary32::law_quotient_bounds(chain.gap, effect, chain.volume);
        binary32::law_product_keeps_order(volume, chain.volume, ratio);
        binary32::law_product_bounds(chain.volume, ratio, chain.part);
        lemma_held(config, part);
        let held = part.held_between(zero, config.max_dose_per_cycle);
        binary32::law_quotient_keeps_order(held, chain.part, capacity);
        binary32::law_quotient_bounds(chain.part, capacity, chain.time);
        let time = held.quotient(capacity);
        binary32::law_below_finite(time, chain.time);
        binary32::law_whole_part(time, seconds);
    }
}

proof fn lemma_ec_seconds(config: DeviceConfig, sensors: SensorData)
    ensures
        auto_fsm::dosing_time(config, auto_fsm::ec_dose(config, sensors)) == seconds_for(
            config,
            config.ec_target.difference(sensors.ec_value),
            config.ec_gain_per_ml,
            config.ec_step_ratio,
        ),
{
    reveal(seconds_for);
}

/// Settings and a reading that a dose against low EC can be worked out from.
pub open spec fn can_dose_ec(config: DeviceConfig, sensors: SensorData) -> bool {
    &&& can_dose(config, config.ec_gain_per_ml, config.ec_step_ratio)
    &&& config.ec_target.is_finite()
    &&& sensors.ec_value.is_finite()
}

/// The time of a dose against low EC. It is the gap to the target over the gain of a millilitre,
/// times the step ratio, over the capacity of the pump, in whole seconds: no less than what numbers
/// below the exact ones make of it, as far as the largest dose allows.
pub proof fn law_ec_time_at_least(
    config: DeviceConfig,
    sensors: SensorData,
    chain: Chain,
    seconds: u64,
)
    requires
        can_dose_ec(config, sensors),
        chain.stays_below(
            config.ec_target.value() - sensors.ec_value.value(),
            config.ec_gain_per_ml,
            config.ec_step_ratio,
            config,
            seconds,
        ),
    ensures
        seconds <= auto_fsm::dosing_time(config, auto_fsm::ec_dose(config, sensors)),
{
    lemma_ec_seconds(config, sensors);
    let gap = config.ec_target.difference(sensors.ec_value);
    binary32::law_difference_bounds(config.ec_target, sensors.ec_value, chain.gap);
    lemma_at_least(
        config,
        gap,
        config.ec_gain_per_ml,
        config.ec_step_ratio,
        config.ec_target.value() - sensors.ec_value.value(),
        chain,
        seconds,
    );
}

/// The time of a dose against low EC is no more than what numbers above the exact ones make of it.
pub proof fn law_ec_time_at_most(
    config: DeviceConfig,
    sensors: SensorData,
    chain: Chain,
    seconds: u64,
)
    requires
        can_dose_ec(config, sensors),
        chain.stays_above(
            config.ec_target.value() - sensors.ec_value.value(),
            config.ec_gain_per_ml,
            config.ec_step_ratio,
            config,
            seconds,
        ),
    ensures
        auto_fsm::dosing_time(config, auto_fsm::ec_dose(config, sensors)) <= seconds,
{
    lemma_ec_seconds(config, sensors);
    let gap = config.ec_target.difference(sensors.ec_value);
    binary32::law_difference_bounds(config.ec_target, sensors.ec_value, chain.gap);
    lemma_at_most(
        config,
        gap,
        config.ec_gain_per_ml,
        config.ec_step_ratio,
        config.ec_target.value() - sensors.ec_value.value(),
        chain,
        seconds,
    );
}

/// Doses against low EC depend on the reading and the target through the gap between them alone.
pub proof fn law_ec_equal_gaps_take_equal_times(
    config: DeviceConfig,
    sensors: SensorData,
    other: DeviceConfig,
    others: SensorData,
)
    requires
        can_dose_ec(config, sensors),
        can_dose_ec(other, others),
        other.ec_gain_per_ml == config.ec_gain_per_ml,
        other.ec_step_ratio == config.ec_step_ratio,
        other.max_dose_per_cycle == config.max_dose_per_cycle,
        other.dosing_pump_capacity_ml_per_sec == config.dosing_pump_capacity_ml_per_sec,
        config.ec_target.value() - sensors.ec_value.value() == other.ec_target.value()
            - others.ec_value.value(),
    ensures
        auto_fsm::dosing_time(config, auto_fsm::ec_dose(config, sensors)) == auto_fsm::dosing_time(
            other,
            auto_fsm::ec_dose(other, others),
        ),
{
    lemma_ec_seconds(config, sensors);
    lemma_ec_seconds(other, others);
    let zero = binary32::signed(false, 0);
    let gap = config.ec_target.difference(sensors.ec_value);
    let same = other.ec_target.difference(others.ec_value);
    binary32::law_zero_value(zero);
    binary32::law_difference_bounds(config.ec_target, sensors.ec_value, zero);
    binary32::law_difference_bounds(other.ec_target, others.ec_value, zero);
    if config.ec_target.value() == sensors.ec_value.value() {
        lemma_no_gap(config, gap, config.ec_gain_per_ml, config.ec_step_ratio);
        lemma_no_gap(other, same, other.ec_gain_per_ml, other.ec_step_ratio);
    } else {
        lemma_same_limits(config, other, gap, config.ec_gain_per_ml, config.ec_step_ratio);
        binary32::law_difference_by_value(
            config.ec_target,
            sensors.ec_value,
            other.ec_target,
            others.ec_value,
        );
    }
}

/// A lower EC reading never takes less time, and one at the target or above it takes none.
pub proof fn law_ec_lower_reading_takes_no_less(
    config: DeviceConfig,
    sensors: SensorData,
    lower: SensorData,
)
    requires
        can_dose_ec(config, sensors),
        can_dose_ec(config, lower),
        lower.ec_value.value() <= sensors.ec_value.value(),
    ensures
        auto_fsm::dosing_time(config, auto_fsm::ec_dose(config, sensors)) <= auto_fsm::dosing_time(
            config,
            auto_fsm::ec_dose(config, lower),
        ),
        sensors.ec_value.value() >= config.ec_target.value() ==> auto_fsm::dosing_time(
            config,
            auto_fsm::ec_dose(config, sensors),
        ) == 0,
{
    lemma_ec_seconds(config, sensors);
    lemma_ec_seconds(config, lower);
    let zero = binary32::signed(false, 0);
    let gap = config.ec_target.difference(sensors.ec_value);
    let wider = config.ec_target.difference(lower.ec_value);
    binary32::law_zero_value(zero);
    binary32::law_difference_keeps_order(
        config.ec_target,
        sensors.ec_value,
        config.ec_target,
        lower.ec_value,
    );
    binary32::law_difference_bounds(config.ec_target, sensors.ec_value, zero);
    lemma_wider_gap(config, gap, wider, config.ec_gain_per_ml, config.ec_step_ratio);
    if gap.value() <= 0 {
        lemma_no_gap(config, gap, config.ec_gain_per_ml, config.ec_step_ratio);
    }
}

/// What a millilitre against the pH does: that of the corrector that raises it where it is below
/// its target, and that of the one that lowers it otherwise.
pub open spec fn ph_effect(config: DeviceConfig, sensors: SensorData) -> Binary32 {
    if sensors.ph_value.value() < config.ph_target.value() {
        config.ph_shift_up_per_ml
    } else {
        config.ph_shift_down_per_ml
    }
}

/// How far the pH is from its target.
pub open spec fn ph_distance(config: DeviceConfig, sensors: SensorData) -> int {
    if sensors.ph_value.value() < config.ph_target.value() {
        config.ph_target.value() - sensors.ph_value.value()
    } else {
        sensors.ph_value.value() - config.ph_target.value()
    }
}

/// Settings and a reading that a dose against a pH that is off can be worked out from.
pub open spec fn can_dose_ph(config: DeviceConfig, sensors: SensorData) -> bool {
    &&& can_dose(config, ph_effect(config, sensors), config.ph_step_ratio)
    &&& config.ph_target.is_finite()
    &&& sensors.ph_value.is_finite()
}

proof fn lemma_ph_seconds(config: DeviceConfig, sensors: SensorData)
    requires
        config.ph_target.is_finite(),
        sensors.ph_value.is_finite(),
    ensures
        auto_fsm::dosing_time(config, auto_fsm::ph_dose(config, sensors)) == seconds_for(
            config,
            sensors.ph_value.difference(config.ph_target).absolute(),
            ph_effect(config, sensors),
            config.ph_step_ratio,
        ),
{
    reveal(seconds_for);
    binary32::law_order_by_value(sensors.ph_value, config.ph_target);
}

/// Doses are worked out from the largest dose and the capacity of the pump, and from no other
/// setting.
proof fn lemma_same_limits(
    config: DeviceConfig,
    other: DeviceConfig,
    gap: Binary32,
    effect: Binary32,
    ratio: Binary32,
)
    requires
        other.max_dose_per_cycle == config.max_dose_per_cycle,
        other.dosing_pump_capacity_ml_per_sec == config.dosing_pump_capacity_ml_per_sec,
    ensures
        seconds_for(other, gap, effect, ratio) == seconds_for(config, gap, effect, ratio),
{
    reveal(seconds_for);
}

/// The time of a dose against a pH that is off. It is the distance from the target over the effect
/// of a millilitre of the corrector for that side, times the step ratio, over the capacity of the
/// pump, in whole seconds: no less than what numbers below the exact ones make of it, as far as the
/// largest dose allows.
pub proof fn law_ph_time_at_least(
    config: DeviceConfig,
    sensors: SensorData,
    chain: Chain,
    seconds: u64,
)
    requires
        can_dose_ph(config, sensors),
        chain.stays_below(
            ph_distance(config, sensors),
            ph_effect(config, sensors),
            config.ph_step_ratio,
            config,
            seconds,
        ),
    ensures
        seconds <= auto_fsm::dosing_time(config, auto_fsm::ph_dose(config, sensors)),
{
    lemma_ph_seconds(config, sensors);
    let gap = sensors.ph_value.difference(config.ph_target).absolute();
    binary32::law_distance_bounds(sensors.ph_value, config.ph_target, chain.gap);
    lemma_at_least(
        config,
        gap,
        ph_effect(config, sensors),
        config.ph_step_ratio,
        ph_distance(config, sensors),
        chain,
        seconds,
    );
}

/// The time of a dose against a pH that is off is no more than what numbers above the exact ones
/// make of it.
pub proof fn law_ph_time_at_most(
    config: DeviceConfig,
    sensors: SensorData,
    chain: Chain,
    seconds: u64,
)
    requires
        can_dose_ph(config, sensors),
        chain.stays_above(
            ph_distance(config, sensors),
            ph_effect(config, sensors),
            config.ph_step_ratio,
            config,
            seconds,
        ),
    ensures
        auto_fsm::dosing_time(config, auto_fsm::ph_dose(config, sensors)) <= seconds,
{
    lemma_ph_seconds(config, sensors);
    let gap = sensors.ph_value.difference(config.ph_target).absolute();
    binary32::law_distance_bounds(sensors.ph_value, config.ph_target, chain.gap);
    lemma_at_most(
        config,
        gap,
        ph_effect(config, sensors),
        config.ph_step_ratio,
        ph_distance(config, sensors),
        chain,
        seconds,
    );
}

/// The seconds of a dose against a pH that is off, kept folded.
#[verifier::opaque]
spec fn ph_seconds(config: DeviceConfig, sensors: SensorData) -> u64 {
    auto_fsm::dosing_time(config, auto_fsm::ph_dose(config, sensors))
}

proof fn lemma_ph_further(
    config: DeviceConfig,
    sensors: SensorData,
    other: DeviceConfig,
    others: SensorData,
)
    requires
        can_dose_ph(config, sensors),
        can_dose_ph(other, others),
        ph_effect(other, others) == ph_effect(config, sensors),
        other.ph_step_ratio == config.ph_step_ratio,
        other.max_dose_per_cycle == config.max_dose_per_cycle,
        other.dosing_pump_capacity_ml_per_sec == config.dosing_pump_capacity_ml_per_sec,
        ph_distance(config, sensors) <= ph_distance(other, others),
    ensures
        ph_seconds(config, sensors) <= ph_seconds(other, others),
{
    let gap = sensors.ph_value.difference(config.ph_target).absolute();
    let wider = others.ph_value.difference(other.ph_target).absolute();
    let effect = ph_effect(config, sensors);
    assert(!gap.is_nan() && !wider.is_nan() && gap.value() <= wider.value()) by {
        binary32::law_distance_keeps_order(
            sensors.ph_value,
            config.ph_target,
            others.ph_value,
            other.ph_target,
        );
    }
    assert(ph_seconds(config, sensors) == seconds_for(config, gap, effect, config.ph_step_ratio))
        by {
        reveal(ph_seconds);
        lemma_ph_seconds(config, sensors);
    }
    assert(ph_seconds(other, others) == seconds_for(other, wider, effect, config.ph_step_ratio))
        by {
        reveal(ph_seconds);
        lemma_ph_seconds(other, others);
    }
    lemma_same_limits(config, other, wider, effect, config.ph_step_ratio);
    lemma_wider_gap(config, gap, wider, effect, config.ph_step_ratio);
}

/// Doses against a pH that is off depend on the reading and the target through their distance, and
/// the side that it lies on, alone; on one side, a reading further off never takes less time.
pub proof fn law_ph_further_reading_takes_no_less(
    config: DeviceConfig,
    sensors: SensorData,
    other: DeviceConfig,
    others: SensorData,
)
    requires
        can_dose_ph(config, sensors),
        can_dose_ph(other, others),
        ph_effect(other, others) == ph_effect(config, sensors),
        other.ph_step_ratio == config.ph_step_ratio,
        other.max_dose_per_cycle == config.max_dose_per_cycle,
        other.dosing_pump_capacity_ml_per_sec == config.dosing_pump_capacity_ml_per_sec,
        ph_distance(config, sensors) <= ph_distance(other, others),
    ensures
        ({
            let near = auto_fsm::dosing_time(config, auto_fsm::ph_dose(config, sensors));
            let far = auto_fsm::dosing_time(other, auto_fsm::ph_dose(other, others));
            &&& near <= far
            &&& ph_distance(config, sensors) == ph_distance(other, others) ==> near == far
        }),
{
    reveal(ph_seconds);
    lemma_ph_further(config, sensors, other, others);
    if ph_distance(config, sensors) == ph_distance(other, others) {
        lemma_ph_further(other, others, config, sensors);
    }
}

/// Where a millilitre is set to work against what it is given for, nothing is given.
proof fn lemma_adverse_effect(
    config: DeviceConfig,
    gap: Binary32,
    effect: Binary32,
    ratio: Binary32,
)
    requires
        gap.is_finite(),
        gap.value() >= 0,
        effect.is_finite(),
        effect.value() < 0,
        ratio.is_finite(),
        ratio.value() > 0,
        !config.max_dose_per_cycle.is_nan(),
        config.max_dose_per_cycle.value() >= 0,
    ensures
        seconds_for(config, gap, effect, ratio) == 0,
{
    reveal(seconds_for);
    let zero = binary32::signed(false, 0);
    let volume = gap.quotient(effect);
    let part = volume.product(ratio);
    binary32::law_quotient_signs(gap, effect);
    binary32::law_product_of_nonpositive(volume, ratio);
    binary32::law_zero_value(zero);
    binary32::law_zero_value(part);
    binary32::law_order_by_value(part, zero);
    binary32::law_order_by_value(config.max_dose_per_cycle, part);
    let held = part.held_between(zero, config.max_dose_per_cycle);
    assert(held.is_zero());
    binary32::law_zero_holds_nothing(held, config.dosing_pump_capacity_ml_per_sec);
}

/// A negative gain of the nutrients, or a negative effect of the pH corrector, has nothing dosed.
pub proof fn law_adverse_effects_dose_nothing(config: DeviceConfig, sensors: SensorData)
    requires
        !config.max_dose_per_cycle.is_nan(),
        config.max_dose_per_cycle.value() >= 0,
    ensures
        ({
            let gap = config.ec_target.difference(sensors.ec_value);
            gap.is_finite() && gap.value() >= 0 && config.ec_gain_per_ml.is_finite()
                && config.ec_gain_per_ml.value() < 0 && config.ec_step_ratio.is_finite()
                && config.ec_step_ratio.value() > 0
        }) ==> auto_fsm::dosing_time(config, auto_fsm::ec_dose(config, sensors)) == 0,
        ({
            let gap = sensors.ph_value.difference(config.ph_target).absolute();
            sensors.ph_value.is_finite() && config.ph_target.is_finite() && gap.is_finite()
                && ph_effect(config, sensors).is_finite() && ph_effect(config, sensors).value() < 0
                && config.ph_step_ratio.is_finite() && config.ph_step_ratio.value() > 0
        }) ==> auto_fsm::dosing_time(config, auto_fsm::ph_dose(config, sensors)) == 0,
{
    let gap = config.ec_target.difference(sensors.ec_value);
    lemma_ec_seconds(config, sensors);
    if gap.is_finite() && gap.value() >= 0 && config.ec_gain_per_ml.is_finite()
        && config.ec_gain_per_ml.value() < 0 && config.ec_step_ratio.is_finite()
        && config.ec_step_ratio.value() > 0 {
        lemma_adverse_effect(config, gap, config.ec_gain_per_ml, config.ec_step_ratio);
    }
    let off = sensors.ph_value.difference(config.ph_target).absolute();
    if sensors.ph_value.is_finite() && config.ph_target.is_finite() && off.is_finite()
        && ph_effect(config, sensors).is_finite() && ph_effect(config, sensors).value() < 0
        && config.ph_step_ratio.is_finite() && config.ph_step_ratio.value() > 0 {
        binary32::law_distance_bounds(sensors.ph_value, config.ph_target, config.ph_target);
        lemma_ph_seconds(config, sensors);
        lemma_adverse_effect(config, off, ph_effect(config, sensors), config.ph_step_ratio);
    }
}

} // verus!
