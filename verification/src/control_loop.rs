//! The rounds of the control loop.

use crate::auto_fsm;
use crate::config::{ControlMode, DeviceConfig};
use crate::controller;
use crate::controller::{ContextView, ControlContext, Effect, StateView, SystemState};
use crate::mqtt::{MqttCommandPayload, SensorData};
use crate::pump::{PumpCommand, PumpType, WaterDirection};
use crate::text;
use vstd::prelude::*;

verus! {

/// What a pump that is named in a command is told.
pub open spec fn manual_command(name: Seq<char>, on: bool) -> Option<PumpCommand> {
    if name == "A"@ {
        Some(PumpCommand::SetPump { pump: PumpType::NutrientA, on })
    } else if name == "B"@ {
        Some(PumpCommand::SetPump { pump: PumpType::NutrientB, on })
    } else if name == "PH_UP"@ {
        Some(PumpCommand::SetPump { pump: PumpType::PhUp, on })
    } else if name == "PH_DOWN"@ {
        Some(PumpCommand::SetPump { pump: PumpType::PhDown, on })
    } else if name == "CHAMBER_PUMP"@ {
        Some(PumpCommand::SetChamber { on })
    } else if name == "WATER_PUMP"@ {
        Some(
            PumpCommand::SetWater {
                direction: if on { WaterDirection::In } else { WaterDirection::Stop },
            },
        )
    } else if name == "DRAIN_PUMP"@ {
        Some(
            PumpCommand::SetWater {
                direction: if on { WaterDirection::Out } else { WaterDirection::Stop },
            },
        )
    } else {
        None
    }
}

/// What a command does: a reset always works; pumps are switched in manual mode only, off by any
/// action but `pump_on`.
pub open spec fn obey(c: ContextView, mode: ControlMode, action: Seq<char>, pump: Seq<char>) -> (
    ContextView,
    Seq<Effect>,
) {
    if action == "reset_fault"@ {
        (c.cleared(), seq![auto_fsm::stop_all()])
    } else if mode == ControlMode::Auto {
        (c, seq![])
    } else {
        match manual_command(pump, action == "pump_on"@) {
            Some(command) => (c, seq![Effect::Pump { command }]),
            None => (c, seq![]),
        }
    }
}

/// What commands do one after the other.
pub open spec fn obey_all(c: ContextView, mode: ControlMode, commands: Seq<MqttCommandPayload>) -> (
    ContextView,
    Seq<Effect>,
)
    decreases commands.len(),
{
    if commands.len() == 0 {
        (c, seq![])
    } else {
        let (before, effects) = obey_all(c, mode, commands.drop_last());
        let (after, more) = obey(before, mode, commands.last().action@, commands.last().pump@);
        (after, effects + more)
    }
}

/// What a pump that is named in a command is told.
pub fn find_manual_command(name: &str, on: bool) -> (command: Option<PumpCommand>)
    ensures
        command == manual_command(name@, on),
{
    if text::same_text(name, "A") {
        Some(PumpCommand::SetPump { pump: PumpType::NutrientA, on })
    } else if text::same_text(name, "B") {
        Some(PumpCommand::SetPump { pump: PumpType::NutrientB, on })
    } else if text::same_text(name, "PH_UP") {
        Some(PumpCommand::SetPump { pump: PumpType::PhUp, on })
    } else if text::same_text(name, "PH_DOWN") {
        Some(PumpCommand::SetPump { pump: PumpType::PhDown, on })
    } else if text::same_text(name, "CHAMBER_PUMP") {
        Some(PumpCommand::SetChamber { on })
    } else if text::same_text(name, "WATER_PUMP") {
        Some(
            PumpCommand::SetWater {
                direction: if on {
                    WaterDirection::In
                } else {
                    WaterDirection::Stop
                },
            },
        )
    } else if text::same_text(name, "DRAIN_PUMP") {
        Some(
            PumpCommand::SetWater {
                direction: if on {
                    WaterDirection::Out
                } else {
                    WaterDirection::Stop
                },
            },
        )
    } else {
        None
    }
}

/// Carries out commands in turn. The effects are to be carried out in their order.
pub fn process_mqtt_commands(
    commands: &Vec<MqttCommandPayload>,
    config: &DeviceConfig,
    ctx: &mut ControlContext,
) -> (effects: Vec<Effect>)
    ensures
        (final(ctx)@, effects@) == obey_all(old(ctx)@, config.control_mode, commands@),
{
    let mut effects: Vec<Effect> = Vec::new();
    let mut i: usize = 0;
    let ghost start = ctx@;
    assert(commands@.take(0) =~= Seq::<MqttCommandPayload>::empty());
    while i < commands.len()
        invariant
            i <= commands@.len(),
            (ctx@, effects@) == obey_all(start, config.control_mode, commands@.take(i as int)),
        decreases commands@.len() - i,
    {
        let command = &commands[i];
        let ghost before = ctx@;
        let ghost done = effects@;
        assert(commands@.take(i + 1).drop_last() =~= commands@.take(i as int));
        if text::same_text(command.action.as_str(), "reset_fault") {
            ctx.reset_faults();
            effects.push(Effect::Pump { command: PumpCommand::StopAll });
        } else if config.control_mode == ControlMode::Manual {
            let on = text::same_text(command.action.as_str(), "pump_on");
            match find_manual_command(command.pump.as_str(), on) {
                Some(told) => {
                    effects.push(Effect::Pump { command: told });
                },
                None => {},
            }
        }
        assert(effects@ =~= done + obey(
            before,
            config.control_mode,
            command.action@,
            command.pump@,
        ).1);
        i = i + 1;
    }
    assert(commands@.take(i as int) =~= commands@);
    effects
}

/// What demands an emergency stop: the operator, the water level, EC or pH.
#[derive(Debug, Clone, Copy, PartialEq, Eq, Structural)]
pub struct AlarmCauses {
    pub emergency_shutdown: bool,
    pub is_water_critical: bool,
    pub is_ec_out_of_bounds: bool,
    pub is_ph_out_of_bounds: bool,
}

pub open spec fn alarm_causes(config: DeviceConfig, sensors: SensorData) -> AlarmCauses {
    AlarmCauses {
        emergency_shutdown: config.emergency_shutdown,
        is_water_critical: sensors.water_level.below(config.water_level_critical_min),
        is_ec_out_of_bounds: sensors.ec_value.below(config.min_ec_limit)
            || config.max_ec_limit.below(sensors.ec_value),
        is_ph_out_of_bounds: sensors.ph_value.below(config.min_ph_limit)
            || config.max_ph_limit.below(sensors.ph_value),
    }
}

/// The readings or the operator demand an emergency stop.
pub open spec fn alarm(config: DeviceConfig, sensors: SensorData) -> bool {
    let causes = alarm_causes(config, sensors);
    ||| causes.emergency_shutdown
    ||| causes.is_water_critical
    ||| causes.is_ec_out_of_bounds
    ||| causes.is_ph_out_of_bounds
}

/// What demands an emergency stop.
pub fn find_alarm_causes(config: &DeviceConfig, sensors: &SensorData) -> (causes: AlarmCauses)
    ensures
        causes == alarm_causes(*config, *sensors),
{
    AlarmCauses {
        emergency_shutdown: config.emergency_shutdown,
        is_water_critical: sensors.water_level.is_below(config.water_level_critical_min),
        is_ec_out_of_bounds: sensors.ec_value.is_below(config.min_ec_limit)
            || config.max_ec_limit.is_below(sensors.ec_value),
        is_ph_out_of_bounds: sensors.ph_value.is_below(config.min_ph_limit)
            || config.max_ph_limit.is_below(sensors.ph_value),
    }
}

/// Whether the readings demand an emergency stop, or the operator does.
pub fn is_alarm(config: &DeviceConfig, sensors: &SensorData) -> (r: bool)
    ensures
        r == alarm(*config, *sensors),
{
    let causes = find_alarm_causes(config, sensors);
    causes.emergency_shutdown || causes.is_water_critical || causes.is_ec_out_of_bounds
        || causes.is_ph_out_of_bounds
}

/// A round is left out where the readings have jumped in automatic mode.
pub open spec fn left_out(c: ContextView, config: DeviceConfig, sensors: SensorData) -> bool {
    c.noisy(sensors, config) && config.control_mode == ControlMode::Auto
}

/// Stop all pumps on the way to `state`.
pub open spec fn halt(c: ContextView, state: StateView) -> (ContextView, Seq<Effect>) {
    auto_fsm::enter(c, state, seq![auto_fsm::stop_all()])
}

/// One round, commands apart. Safety comes first, then the operator's switch, then the cycle.
pub open spec fn round_of(c: ContextView, config: DeviceConfig, sensors: SensorData, now: u64) -> (
    ContextView,
    Seq<Effect>,
) {
    let s = c.sampled(sensors);
    if left_out(c, config, sensors) {
        (s, seq![])
    } else if alarm(config, sensors) {
        if s.current_state is EmergencyStop {
            (s, seq![])
        } else {
            halt(s, StateView::EmergencyStop)
        }
    } else if !config.is_enabled {
        if s.current_state is Monitoring {
            (s, seq![])
        } else {
            halt(s, StateView::Monitoring)
        }
    } else if s.current_state is EmergencyStop {
        (s.entered(StateView::Monitoring), seq![])
    } else if config.control_mode == ControlMode::Auto {
        auto_fsm::auto_step(s, config, sensors, now)
    } else if s.current_state is Monitoring || s.current_state is SystemFault {
        (s, seq![])
    } else {
        halt(s, StateView::Monitoring)
    }
}

/// The round runs the automatic cycle.
pub open spec fn runs_auto(c: ContextView, config: DeviceConfig, sensors: SensorData) -> bool {
    &&& !left_out(c, config, sensors)
    &&& !alarm(config, sensors)
    &&& config.is_enabled
    &&& !(c.current_state is EmergencyStop)
    &&& config.control_mode == ControlMode::Auto
}

/// What a round computes with stays in range.
pub open spec fn round_defined(
    c: ContextView,
    config: DeviceConfig,
    sensors: SensorData,
    now: u64,
) -> bool {
    runs_auto(c, config, sensors) ==> auto_fsm::auto_defined(c, config, sensors, now)
}

/// The report of a state.
pub open spec fn report_of(state: Seq<char>) -> Seq<char> {
    "{\"current_state\": \""@ + state + "\"}"@
}

/// A state is reported exactly where the round is not left out and the state differs from the last
/// one reported, which it then becomes.
pub open spec fn reported_rightly(
    skipped: bool,
    last: Seq<char>,
    state: Seq<char>,
    report: Option<String>,
    new_last: Seq<char>,
) -> bool {
    let reports = !skipped && state != last;
    &&& report is Some <==> reports
    &&& reports ==> report->0@ == report_of(state)
    &&& new_last == if reports {
        state
    } else {
        last
    }
}

/// One tick: the commands that have come in, then a round.
pub open spec fn tick_of(
    c: ContextView,
    config: DeviceConfig,
    sensors: SensorData,
    now: u64,
    commands: Seq<MqttCommandPayload>,
) -> (ContextView, Seq<Effect>) {
    let (told, first) = obey_all(c, config.control_mode, commands);
    let (after, then_done) = round_of(told, config, sensors, now);
    (after, first + then_done)
}

pub open spec fn has_reset(commands: Seq<MqttCommandPayload>) -> bool {
    exists|i: int| 0 <= i < commands.len() && (#[trigger] commands[i]).action@ == "reset_fault"@
}

/// All that commands can do to the memory of the loop is to clear it: they do so where there is a
/// reset among them, and leave it as it is where there is none.
pub proof fn law_only_resets_touch_memory(
    c: ContextView,
    mode: ControlMode,
    commands: Seq<MqttCommandPayload>,
)
    ensures
        obey_all(c, mode, commands).0 == if has_reset(commands) {
            c.cleared()
        } else {
            c
        },
    decreases commands.len(),
{
    if commands.len() > 0 {
        let before = commands.drop_last();
        law_only_resets_touch_memory(c, mode, before);
        let end = commands.len() - 1;
        if has_reset(before) {
            let i = choose|i: int|
                0 <= i < before.len() && (#[trigger] before[i]).action@ == "reset_fault"@;
            assert(commands[i].action@ == "reset_fault"@);
        }
        if has_reset(commands) && commands[end].action@ != "reset_fault"@ {
            let i = choose|i: int|
                0 <= i < commands.len() && (#[trigger] commands[i]).action@ == "reset_fault"@;
            assert(before[i].action@ == "reset_fault"@);
        }
    }
}

fn contains_reset(commands: &Vec<MqttCommandPayload>) -> (r: bool)
    ensures
        r == has_reset(commands@),
{
    let mut i: usize = 0;
    while i < commands.len()
        invariant
            i <= commands@.len(),
            forall|j: int| 0 <= j < i ==> (#[trigger] commands@[j]).action@ != "reset_fault"@,
        decreases commands@.len() - i,
    {
        if text::same_text(commands[i].action.as_str(), "reset_fault") {
            assert(commands@[i as int].action@ == "reset_fault"@);
            return true;
        }
        i = i + 1;
    }
    false
}

/// Whether a round from `ctx` stays in range.
fn round_fits(
    ctx: &ControlContext,
    now: u64,
    config: &DeviceConfig,
    sensors: &SensorData,
) -> (r: bool)
    ensures
        r == round_defined(ctx@, *config, *sensors, now),
{
    let runs_auto = config.is_enabled && config.control_mode == ControlMode::Auto
        && !ctx.current_state.is_emergency_stop() && !is_alarm(config, sensors) && !ctx.is_noisy(
        sensors,
        config,
    );
    !runs_auto || auto_fsm::auto_is_defined(now, config, sensors, ctx)
}

/// What a round has done outside, and what it reports.
#[derive(Debug)]
pub struct RoundOutcome {
    pub effects: Vec<Effect>,
    pub report: Option<String>,
}

/// The control loop between two rounds.
#[derive(Debug)]
pub struct ControlLoop {
    pub ctx: ControlContext,
    pub last_reported_state: String,
}

impl ControlLoop {
    /// The loop at a restart. The time of the last water change is the one that was stored; where
    /// none was, it is now, and is stored.
    pub fn start(stored: Option<u64>, now: u64) -> (r: (Self, Vec<Effect>))
        ensures
            r.0.ctx@ == controller::fresh(
                match stored {
                    Some(time) => time,
                    None => now,
                },
            ),
            r.0.last_reported_state@ == ""@,
            r.1@ == (match stored {
                Some(_) => seq![],
                None => seq![Effect::StoreWaterChangeTime { time: now }],
            }),
    {
        let mut ctx = ControlContext::default();
        let mut effects: Vec<Effect> = Vec::new();
        match stored {
            Some(time) => {
                ctx.last_water_change_time = time;
            },
            None => {
                effects.push(Effect::StoreWaterChangeTime { time: now });
                ctx.last_water_change_time = now;
            },
        }
        assert(stored is None ==> effects@ =~= seq![Effect::StoreWaterChangeTime { time: now }]);
        (ControlLoop { ctx, last_reported_state: "".to_string() }, effects)
    }

    /// Whether a round stays in range.
    pub fn round_is_defined(&self, now: u64, config: &DeviceConfig, sensors: &SensorData) -> (r:
        bool)
        ensures
            r == round_defined(self.ctx@, *config, *sensors, now),
    {
        round_fits(&self.ctx, now, config, sensors)
    }

    /// Whether a tick stays in range.
    pub fn tick_is_defined(
        &self,
        now: u64,
        config: &DeviceConfig,
        sensors: &SensorData,
        commands: &Vec<MqttCommandPayload>,
    ) -> (r: bool)
        ensures
            r == round_defined(
                obey_all(self.ctx@, config.control_mode, commands@).0,
                *config,
                *sensors,
                now,
            ),
    {
        proof {
            law_only_resets_touch_memory(self.ctx@, config.control_mode, commands@);
        }
        if contains_reset(commands) {
            let mut cleared = ControlContext::default();
            cleared.last_water_change_time = self.ctx.last_water_change_time;
            cleared.previous_ec_value = self.ctx.previous_ec_value;
            cleared.previous_ph_value = self.ctx.previous_ph_value;
            round_fits(&cleared, now, config, sensors)
        } else {
            round_fits(&self.ctx, now, config, sensors)
        }
    }

    /// One tick: carries out the commands that have come in, and then a round. The effects are to
    /// be carried out in their order.
    pub fn tick(
        &mut self,
        now: u64,
        config: &DeviceConfig,
        sensors: &SensorData,
        commands: &Vec<MqttCommandPayload>,
    ) -> (outcome: RoundOutcome)
        requires
            round_defined(
                obey_all(old(self).ctx@, config.control_mode, commands@).0,
                *config,
                *sensors,
                now,
            ),
        ensures
            (final(self).ctx@, outcome.effects@) == tick_of(
                old(self).ctx@,
                *config,
                *sensors,
                now,
                commands@,
            ),
            reported_rightly(
                left_out(
                    obey_all(old(self).ctx@, config.control_mode, commands@).0,
                    *config,
                    *sensors,
                ),
                old(self).last_reported_state@,
                final(self).ctx@.current_state.payload(),
                outcome.report,
                final(self).last_reported_state@,
            ),
    {
        let mut effects = process_mqtt_commands(commands, config, &mut self.ctx);
        let mut outcome = self.round(now, config, sensors);
        effects.append(&mut outcome.effects);
        RoundOutcome { effects, report: outcome.report }
    }

    /// One round, commands apart. The effects are to be carried out in their order. A state that
    /// differs from the last one reported is reported.
    pub fn round(&mut self, now: u64, config: &DeviceConfig, sensors: &SensorData) -> (outcome:
        RoundOutcome)
        requires
            round_defined(old(self).ctx@, *config, *sensors, now),
        ensures
            (final(self).ctx@, outcome.effects@) == round_of(
                old(self).ctx@,
                *config,
                *sensors,
                now,
            ),
            reported_rightly(
                left_out(old(self).ctx@, *config, *sensors),
                old(self).last_reported_state@,
                final(self).ctx@.current_state.payload(),
                outcome.report,
                final(self).last_reported_state@,
            ),
    {
        let mut effects: Vec<Effect> = Vec::new();
        let noisy = self.ctx.check_and_update_noise(sensors, config);
        if noisy && config.control_mode == ControlMode::Auto {
            return RoundOutcome { effects, report: None };
        }
        if is_alarm(config, sensors) {
            if !self.ctx.current_state.is_emergency_stop() {
                effects.push(Effect::Pump { command: PumpCommand::StopAll });
                self.ctx.current_state = SystemState::EmergencyStop;
            }
        } else if !config.is_enabled {
            if !self.ctx.current_state.is_monitoring() {
                effects.push(Effect::Pump { command: PumpCommand::StopAll });
                self.ctx.current_state = SystemState::Monitoring;
            }
        } else if self.ctx.current_state.is_emergency_stop() {
            self.ctx.current_state = SystemState::Monitoring;
        } else if config.control_mode == ControlMode::Auto {
            effects = auto_fsm::run_auto_fsm(now, config, sensors, &mut self.ctx);
        } else if !self.ctx.current_state.is_monitoring() && !self.ctx.current_state.is_fault() {
            effects.push(Effect::Pump { command: PumpCommand::StopAll });
            self.ctx.current_state = SystemState::Monitoring;
        }
        assert(effects@ =~= round_of(old(self).ctx@, *config, *sensors, now).1);
        let state = self.ctx.current_state.to_payload_string();
        let report = if state == self.last_reported_state {
            None
        } else {
            let payload = "{\"current_state\": \"".to_string().concat(state.as_str()).concat("\"}");
            self.last_reported_state = state;
            Some(payload)
        };
        RoundOutcome { effects, report }
    }
}

} // verus!
