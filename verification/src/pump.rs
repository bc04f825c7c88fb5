//! The pumps and the output pins that drive them.

use vstd::prelude::*;

verus! {

#[derive(Debug, Clone, Copy, PartialEq, Eq, Structural)]
pub enum PumpType {
    NutrientA,
    NutrientB,
    PhUp,
    PhDown,
}

#[derive(Debug, Clone, Copy, PartialEq, Eq, Structural)]
pub enum WaterDirection {
    In,
    Out,
    Stop,
}

/// An output pin. `In1` and `In2` are the two sides of the reversible water pump's bridge, `In3`
/// and `In4` those of the chamber pump's.
#[derive(Debug, Clone, Copy, PartialEq, Eq, Structural)]
pub enum Pin {
    PumpA,
    PumpB,
    PumpPhUp,
    PumpPhDown,
    In1,
    In2,
    In3,
    In4,
}

/// One thing to do to the pins.
#[derive(Debug, Clone, Copy, PartialEq, Eq, Structural)]
pub enum PinStep {
    Low(Pin),
    High(Pin),
    Pause { millis: u64 },
}

/// What the pumps can be told to do.
#[derive(Debug, Clone, Copy, PartialEq, Eq, Structural)]
pub enum PumpCommand {
    SetPump { pump: PumpType, on: bool },
    SetWater { direction: WaterDirection },
    SetChamber { on: bool },
    StopAll,
}

/// The level that each pin was last driven to, `true` for high.
#[derive(Debug, Clone, Copy, PartialEq, Eq, Structural)]
pub struct PumpController {
    pub pump_a: bool,
    pub pump_b: bool,
    pub pump_ph_up: bool,
    pub pump_ph_down: bool,
    pub l298n_in1: bool,
    pub l298n_in2: bool,
    pub l298n_in3: bool,
    pub l298n_in4: bool,
}

/// The pin of a dosing pump.
pub open spec fn pin_of(pump: PumpType) -> Pin {
    match pump {
        PumpType::NutrientA => Pin::PumpA,
        PumpType::NutrientB => Pin::PumpB,
        PumpType::PhUp => Pin::PumpPhUp,
        PumpType::PhDown => Pin::PumpPhDown,
    }
}

pub open spec fn all_low_steps() -> Seq<PinStep> {
    seq![
        PinStep::Low(Pin::PumpA),
        PinStep::Low(Pin::PumpB),
        PinStep::Low(Pin::PumpPhUp),
        PinStep::Low(Pin::PumpPhDown),
        PinStep::Low(Pin::In1),
        PinStep::Low(Pin::In2),
        PinStep::Low(Pin::In3),
        PinStep::Low(Pin::In4),
    ]
}

pub open spec fn pump_steps(pump: PumpType, on: bool) -> Seq<PinStep> {
    if on {
        seq![PinStep::High(pin_of(pump))]
    } else {
        seq![PinStep::Low(pin_of(pump))]
    }
}

/// Both sides go low first; a side goes high only after a pause.
pub open spec fn water_steps(direction: WaterDirection) -> Seq<PinStep> {
    let low = seq![PinStep::Low(Pin::In1), PinStep::Low(Pin::In2)];
    match direction {
        WaterDirection::In => low + seq![PinStep::Pause { millis: 100 }, PinStep::High(Pin::In1)],
        WaterDirection::Out => low + seq![PinStep::Pause { millis: 100 }, PinStep::High(Pin::In2)],
        WaterDirection::Stop => low,
    }
}

pub open spec fn chamber_steps(on: bool) -> Seq<PinStep> {
    if on {
        seq![PinStep::Low(Pin::In4), PinStep::High(Pin::In3)]
    } else {
        seq![PinStep::Low(Pin::In3), PinStep::Low(Pin::In4)]
    }
}

/// The steps that carry out a command.
pub open spec fn command_steps(command: PumpCommand) -> Seq<PinStep> {
    match command {
        PumpCommand::SetPump { pump, on } => pump_steps(pump, on),
        PumpCommand::SetWater { direction } => water_steps(direction),
        PumpCommand::SetChamber { on } => chamber_steps(on),
        PumpCommand::StopAll => all_low_steps(),
    }
}

impl PumpController {
    pub open spec fn level(self, pin: Pin) -> bool {
        match pin {
            Pin::PumpA => self.pump_a,
            Pin::PumpB => self.pump_b,
            Pin::PumpPhUp => self.pump_ph_up,
            Pin::PumpPhDown => self.pump_ph_down,
            Pin::In1 => self.l298n_in1,
            Pin::In2 => self.l298n_in2,
            Pin::In3 => self.l298n_in3,
            Pin::In4 => self.l298n_in4,
        }
    }

    /// Every pin is low.
    pub open spec fn all_low(self) -> bool {
        forall|pin: Pin| !self.level(pin)
    }

    pub open spec fn with_level(self, pin: Pin, high: bool) -> Self {
        match pin {
            Pin::PumpA => PumpController { pump_a: high, ..self },
            Pin::PumpB => PumpController { pump_b: high, ..self },
            Pin::PumpPhUp => PumpController { pump_ph_up: high, ..self },
            Pin::PumpPhDown => PumpController { pump_ph_down: high, ..self },
            Pin::In1 => PumpController { l298n_in1: high, ..self },
            Pin::In2 => PumpController { l298n_in2: high, ..self },
            Pin::In3 => PumpController { l298n_in3: high, ..self },
            Pin::In4 => PumpController { l298n_in4: high, ..self },
        }
    }

    /// The levels once a step has been taken.
    pub open spec fn took(self, step: PinStep) -> Self {
        match step {
            PinStep::Low(pin) => self.with_level(pin, false),
            PinStep::High(pin) => self.with_level(pin, true),
            PinStep::Pause { millis } => self,
        }
    }

    /// The levels once all of `steps` have been taken in turn.
    pub open spec fn after(self, steps: Seq<PinStep>) -> Self
        decreases steps.len(),
    {
        if steps.len() == 0 {
            self
        } else {
            self.took(steps[0]).after(steps.drop_first())
        }
    }

    /// The levels once a command has been carried out.
    #[verifier::opaque]
    pub open spec fn obeyed(self, command: PumpCommand) -> Self {
        self.after(command_steps(command))
    }

    /// What a command is meant to leave the pins at: a dosing pump has its own pin, the water pump
    /// and the chamber pump have their bridges, and `StopAll` has them all.
    pub open spec fn left_at(self, command: PumpCommand) -> Self {
        match command {
            PumpCommand::SetPump { pump, on } => self.with_level(pin_of(pump), on),
            PumpCommand::SetWater { direction } => PumpController {
                l298n_in1: direction == WaterDirection::In,
                l298n_in2: direction == WaterDirection::Out,
                ..self
            },
            PumpCommand::SetChamber { on } => PumpController {
                l298n_in3: on,
                l298n_in4: false,
                ..self
            },
            PumpCommand::StopAll => PumpController {
                pump_a: false,
                pump_b: false,
                pump_ph_up: false,
                pump_ph_down: false,
                l298n_in1: false,
                l298n_in2: false,
                l298n_in3: false,
                l298n_in4: false,
            },
        }
    }

    /// No motor bridge has both of its sides high.
    pub open spec fn bridges_safe(self) -> bool {
        !(self.l298n_in1 && self.l298n_in2) && !(self.l298n_in3 && self.l298n_in4)
    }

    /// The controller of pins that are all low, and the steps that make them so.
    pub fn new() -> (r: (Self, Vec<PinStep>))
        ensures
            r.0.all_low(),
            r.1@ == all_low_steps(),
    {
        let low = PumpController {
            pump_a: false,
            pump_b: false,
            pump_ph_up: false,
            pump_ph_down: false,
            l298n_in1: false,
            l298n_in2: false,
            l298n_in3: false,
            l298n_in4: false,
        };
        let steps = low.stop_all();
        (low, steps)
    }

    /// The steps that switch a dosing pump.
    pub fn set_pump_state(&self, pump: PumpType, state: bool) -> (steps: Vec<PinStep>)
        ensures
            steps@ == pump_steps(pump, state),
    {
        let pin = match pump {
            PumpType::NutrientA => Pin::PumpA,
            PumpType::NutrientB => Pin::PumpB,
            PumpType::PhUp => Pin::PumpPhUp,
            PumpType::PhDown => Pin::PumpPhDown,
        };
        let mut steps: Vec<PinStep> = Vec::new();
        if state {
            steps.push(PinStep::High(pin));
        } else {
            steps.push(PinStep::Low(pin));
        }
        assert(steps@ =~= pump_steps(pump, state));
        steps
    }

    /// The steps that run the water pump in a direction or stop it.
    pub fn set_water_pump(&self, direction: WaterDirection) -> (steps: Vec<PinStep>)
        ensures
            steps@ == water_steps(direction),
    {
        let mut steps: Vec<PinStep> = Vec::new();
        steps.push(PinStep::Low(Pin::In1));
        steps.push(PinStep::Low(Pin::In2));
        match direction {
            WaterDirection::In => {
                steps.push(PinStep::Pause { millis: 100 });
                steps.push(PinStep::High(Pin::In1));
            },
            WaterDirection::Out => {
                steps.push(PinStep::Pause { millis: 100 });
                steps.push(PinStep::High(Pin::In2));
            },
            WaterDirection::Stop => {},
        }
        assert(steps@ =~= water_steps(direction));
        steps
    }

    /// The steps that switch the chamber pump.
    pub fn set_chamber_pump(&self, state: bool) -> (steps: Vec<PinStep>)
        ensures
            steps@ == chamber_steps(state),
    {
        let mut steps: Vec<PinStep> = Vec::new();
        if state {
            steps.push(PinStep::Low(Pin::In4));
            steps.push(PinStep::High(Pin::In3));
        } else {
            steps.push(PinStep::Low(Pin::In3));
            steps.push(PinStep::Low(Pin::In4));
        }
        assert(steps@ =~= chamber_steps(state));
        steps
    }

    /// The steps that stop every pump.
    pub fn stop_all(&self) -> (steps: Vec<PinStep>)
        ensures
            steps@ == all_low_steps(),
    {
        let mut steps: Vec<PinStep> = Vec::new();
        steps.push(PinStep::Low(Pin::PumpA));
        steps.push(PinStep::Low(Pin::PumpB));
        steps.push(PinStep::Low(Pin::PumpPhUp));
        steps.push(PinStep::Low(Pin::PumpPhDown));
        steps.push(PinStep::Low(Pin::In1));
        steps.push(PinStep::Low(Pin::In2));
        steps.push(PinStep::Low(Pin::In3));
        steps.push(PinStep::Low(Pin::In4));
        assert(steps@ =~= all_low_steps());
        steps
    }

    /// The steps that carry out a command.
    pub fn steps_for(&self, command: PumpCommand) -> (steps: Vec<PinStep>)
        ensures
            steps@ == command_steps(command),
    {
        match command {
            PumpCommand::SetPump { pump, on } => self.set_pump_state(pump, on),
            PumpCommand::SetWater { direction } => self.set_water_pump(direction),
            PumpCommand::SetChamber { on } => self.set_chamber_pump(on),
            PumpCommand::StopAll => self.stop_all(),
        }
    }

    /// Notes that the pins have taken a step.
    pub fn record(&mut self, step: PinStep)
        ensures
            *final(self) == old(self).took(step),
    {
        match step {
            PinStep::Low(pin) => self.set_level(pin, false),
            PinStep::High(pin) => self.set_level(pin, true),
            PinStep::Pause { millis: _ } => {},
        }
    }

    fn set_level(&mut self, pin: Pin, high: bool)
        ensures
            *final(self) == old(self).with_level(pin, high),
    {
        match pin {
            Pin::PumpA => {
                self.pump_a = high;
            },
            Pin::PumpB => {
                self.pump_b = high;
            },
            Pin::PumpPhUp => {
                self.pump_ph_up = high;
            },
            Pin::PumpPhDown => {
                self.pump_ph_down = high;
            },
            Pin::In1 => {
                self.l298n_in1 = high;
            },
            Pin::In2 => {
                self.l298n_in2 = high;
            },
            Pin::In3 => {
                self.l298n_in3 = high;
            },
            Pin::In4 => {
                self.l298n_in4 = high;
            },
        }
    }
}

/// Steps that only lower pins lower just the pins that they name.
pub proof fn lemma_lowering(pumps: PumpController, steps: Seq<PinStep>, pin: Pin)
    requires
        forall|i: int| 0 <= i < steps.len() ==> steps[i] is Low,
    ensures
        pumps.after(steps).level(pin) == (pumps.level(pin) && !steps.contains(PinStep::Low(pin))),
    decreases steps.len(),
{
    if steps.len() > 0 {
        let rest = steps.drop_first();
        assert(steps[0] is Low);
        assert forall|i: int| 0 <= i < rest.len() implies rest[i] is Low by {
            assert(rest[i] == steps[i + 1]);
        }
        lemma_lowering(pumps.took(steps[0]), rest, pin);
        let low = PinStep::Low(pin);
        if rest.contains(low) {
            let i = choose|i: int| 0 <= i < rest.len() && rest[i] == low;
            assert(steps[i + 1] == low);
        }
        if steps.contains(low) && steps[0] != low {
            let i = choose|i: int| 0 <= i < steps.len() && steps[i] == low;
            assert(rest[i - 1] == low);
        }
    }
}

/// Stopping all pumps leaves every pin low, whatever the pins were at.
pub proof fn law_stop_all(pumps: PumpController)
    ensures
        pumps.obeyed(PumpCommand::StopAll).all_low(),
{
    reveal(PumpController::obeyed);
    let steps = all_low_steps();
    assert forall|pin: Pin| !pumps.after(steps).level(pin) by {
        lemma_lowering(pumps, steps, pin);
        let i: int = match pin {
            Pin::PumpA => 0,
            Pin::PumpB => 1,
            Pin::PumpPhUp => 2,
            Pin::PumpPhDown => 3,
            Pin::In1 => 4,
            Pin::In2 => 5,
            Pin::In3 => 6,
            Pin::In4 => 7,
        };
        assert(steps[i] == PinStep::Low(pin));
    }
}

/// The steps of each command leave the pins at what they are meant to, and touch no other pin.
pub proof fn law_command_outcome(pumps: PumpController, command: PumpCommand)
    ensures
        pumps.obeyed(command) == pumps.left_at(command),
{
    reveal(PumpController::obeyed);
    if command is StopAll {
        law_stop_all(pumps);
        let stopped = pumps.obeyed(command);
        assert(!stopped.level(Pin::PumpA) && !stopped.level(Pin::PumpB));
        assert(!stopped.level(Pin::PumpPhUp) && !stopped.level(Pin::PumpPhDown));
        assert(!stopped.level(Pin::In1) && !stopped.level(Pin::In2));
        assert(!stopped.level(Pin::In3) && !stopped.level(Pin::In4));
    } else {
        reveal_with_fuel(PumpController::after, 5);
    }
}

/// Taking one step more.
pub proof fn lemma_after_next(pumps: PumpController, steps: Seq<PinStep>, i: int)
    requires
        0 <= i < steps.len(),
    ensures
        pumps.after(steps.take(i + 1)) == pumps.after(steps.take(i)).took(steps[i]),
    decreases i,
{
    if i == 0 {
        assert(steps.take(1).drop_first() =~= Seq::<PinStep>::empty());
        reveal_with_fuel(PumpController::after, 2);
    } else {
        let rest = steps.drop_first();
        lemma_after_next(pumps.took(steps[0]), rest, i - 1);
        assert(steps.take(i + 1).drop_first() =~= rest.take(i));
        assert(steps.take(i).drop_first() =~= rest.take(i - 1));
        assert(rest[i - 1] == steps[i]);
    }
}

/// No bridge ever has both sides high, however many of a command's steps have been taken: not in
/// the midst of a command, and not where a pin fails and the rest of the steps are left out.
pub proof fn law_bridges_stay_safe(pumps: PumpController, command: PumpCommand, taken: nat)
    requires
        pumps.bridges_safe(),
        taken <= command_steps(command).len(),
    ensures
        pumps.after(command_steps(command).take(taken as int)).bridges_safe(),
{
    let steps = command_steps(command).take(taken as int);
    if command is StopAll {
        lemma_lowering(pumps, steps, Pin::In1);
        lemma_lowering(pumps, steps, Pin::In2);
        lemma_lowering(pumps, steps, Pin::In3);
        lemma_lowering(pumps, steps, Pin::In4);
    } else {
        let all = command_steps(command);
        assert(pumps.after(all.take(0)) == pumps);
        if taken > 0 {
            lemma_after_next(pumps, all, 0);
        }
        if taken > 1 {
            lemma_after_next(pumps, all, 1);
        }
        if taken > 2 {
            lemma_after_next(pumps, all, 2);
        }
        if taken > 3 {
            lemma_after_next(pumps, all, 3);
        }
    }
}

} // verus!
