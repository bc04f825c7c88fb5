//! Carrying out steps on pins that may fail.

use crate::pump;
use crate::pump::{Pin, PinStep, PumpCommand, PumpController, WaterDirection};
use vstd::prelude::*;

verus! {

/// Steps in the course of being taken.
#[derive(Debug)]
pub struct PinRun {
    pub steps: Vec<PinStep>,
    /// How many of the steps have been taken.
    pub taken: usize,
    /// The step after those failed.
    pub failed: bool,
}

#[verifier::ext_equal]
pub struct RunView {
    pub steps: Seq<PinStep>,
    pub taken: nat,
    pub failed: bool,
}

impl View for PinRun {
    type V = RunView;

    open spec fn view(&self) -> RunView {
        RunView { steps: self.steps@, taken: self.taken as nat, failed: self.failed }
    }
}

impl RunView {
    pub open spec fn well_formed(self) -> bool {
        self.taken <= self.steps.len() && (self.failed ==> self.taken < self.steps.len())
    }

    /// The step to take next: none after the last one, and none after one that failed.
    pub open spec fn upcoming(self) -> Option<PinStep> {
        if self.failed || self.taken >= self.steps.len() {
            None
        } else {
            Some(self.steps[self.taken as int])
        }
    }

    /// The run once the next step has gone through or failed.
    pub open spec fn advanced(self, went_through: bool) -> Self {
        if went_through {
            RunView { taken: self.taken + 1, ..self }
        } else {
            RunView { failed: true, ..self }
        }
    }

    /// Where the pins are that were at `start` before the run.
    pub open spec fn levels(self, start: PumpController) -> PumpController {
        start.after(self.steps.take(self.taken as int))
    }
}

/// A run from its beginning to its end, where `works` tells of each step whether it goes through.
pub open spec fn finished(run: RunView, works: spec_fn(int) -> bool) -> RunView
    decreases
            run.steps.len() - run.taken,
            if run.failed {
                0int
            } else {
                1int
            },
{
    if run.upcoming() is None {
        run
    } else {
        finished(run.advanced(works(run.taken as int)), works)
    }
}

impl PinRun {
    pub fn new(steps: Vec<PinStep>) -> (r: Self)
        ensures
            r@ == (RunView { steps: steps@, taken: 0, failed: false }),
            r@.well_formed(),
    {
        PinRun { steps, taken: 0, failed: false }
    }

    /// The step to take next.
    pub fn next_step(&self) -> (step: Option<PinStep>)
        ensures
            step == self@.upcoming(),
    {
        if self.failed || self.taken >= self.steps.len() {
            None
        } else {
            Some(self.steps[self.taken])
        }
    }

    /// Notes whether the next step went through. One that did is noted of the pins; one that
    /// failed leaves them as they were.
    pub fn report(&mut self, went_through: bool, pumps: &mut PumpController)
        requires
            old(self)@.upcoming() is Some,
        ensures
            final(self)@ == old(self)@.advanced(went_through),
            old(self)@.well_formed() ==> final(self)@.well_formed(),
            *final(pumps) == if went_through {
                old(pumps).took(old(self)@.upcoming()->0)
            } else {
                *old(pumps)
            },
    {
        if went_through {
            pumps.record(self.steps[self.taken]);
            assert(self.taken < self.steps.len());
            self.taken = self.taken + 1;
        } else {
            self.failed = true;
        }
    }

    /// Whether every step was taken.
    pub fn is_complete(&self) -> (r: bool)
        ensures
            r == (!self@.failed && self@.taken >= self@.steps.len()),
    {
        !self.failed && self.taken >= self.steps.len()
    }
}

/// The noted levels of the pins are those that the steps taken so far lead to.
pub proof fn law_run_tracks_levels(
    run: RunView,
    start: PumpController,
    pumps: PumpController,
    went_through: bool,
)
    requires
        run.upcoming() is Some,
        pumps == run.levels(start),
    ensures
        run.advanced(went_through).levels(start) == if went_through {
            pumps.took(run.upcoming()->0)
        } else {
            pumps
        },
{
    pump::lemma_after_next(start, run.steps, run.taken as int);
}

/// A step that fails ends the run: there is nothing more to take, the run is not complete, and the
/// pins stay where the steps before it left them.
pub proof fn law_failure_ends_run(run: RunView, start: PumpController)
    requires
        run.upcoming() is Some,
    ensures
        run.advanced(false).upcoming() is None,
        run.advanced(false).failed,
        run.advanced(false).levels(start) == run.levels(start),
{
}

/// A run takes the steps up to the first that fails, and none after it; it fails exactly where one
/// of them does.
pub proof fn law_run_stops_at_first_failure(run: RunView, works: spec_fn(int) -> bool)
    requires
        run.well_formed(),
        !run.failed,
    ensures
        ({
            let end = finished(run, works);
            &&& end.steps == run.steps
            &&& run.taken <= end.taken <= run.steps.len()
            &&& forall|i: int| run.taken <= i < end.taken ==> #[trigger] works(i)
            &&& end.failed <==> end.taken < run.steps.len()
            &&& end.failed ==> !works(end.taken as int)
        }),
    decreases run.steps.len() - run.taken,
{
    if run.upcoming() is Some {
        let next = run.advanced(works(run.taken as int));
        if works(run.taken as int) {
            law_run_stops_at_first_failure(next, works);
        } else {
            assert(finished(next, works) == next);
        }
    }
}

/// Whichever writes fail, no motor bridge has both of its sides high at any point of a command, nor
/// when it has ended or been broken off.
pub proof fn law_failing_writes_keep_bridges_safe(
    start: PumpController,
    command: PumpCommand,
    run: RunView,
)
    requires
        start.bridges_safe(),
        run.steps == pump::command_steps(command),
        run.well_formed(),
    ensures
        run.levels(start).bridges_safe(),
{
    pump::law_bridges_stay_safe(start, command, run.taken);
}

/// The water pump is driven only after both of its sides were made low and then 100 milliseconds
/// have passed.
pub proof fn law_water_pump_pauses_first(
    direction: WaterDirection,
    run: RunView,
    start: PumpController,
)
    requires
        run.steps == pump::water_steps(direction),
        run.upcoming() matches Some(PinStep::High(_)),
    ensures
        run.steps.take(run.taken as int) == seq![
            PinStep::Low(Pin::In1),
            PinStep::Low(Pin::In2),
            PinStep::Pause { millis: 100 },
        ],
        !run.levels(start).l298n_in1,
        !run.levels(start).l298n_in2,
{
    let steps = run.steps;
    assert(run.taken == 3);
    assert(steps.take(0) =~= Seq::<PinStep>::empty());
    pump::lemma_after_next(start, steps, 0);
    pump::lemma_after_next(start, steps, 1);
    pump::lemma_after_next(start, steps, 2);
    assert(steps.take(3) =~= seq![
        PinStep::Low(Pin::In1),
        PinStep::Low(Pin::In2),
        PinStep::Pause { millis: 100 },
    ]);
}

/// Stopping all pumps that is broken off has lowered the pins up to there, in their order, and
/// leaves the others as they were.
pub proof fn law_broken_off_stop(pumps: PumpController, run: RunView, pin: Pin)
    requires
        run.steps == pump::all_low_steps(),
        run.well_formed(),
    ensures
        run.levels(pumps).level(pin) == (pumps.level(pin) && run.taken <= place(pin)),
{
    let all = pump::all_low_steps();
    let taken = all.take(run.taken as int);
    pump::lemma_lowering(pumps, taken, pin);
    let low = PinStep::Low(pin);
    assert(all[place(pin) as int] == low);
    if run.taken > place(pin) {
        assert(taken[place(pin) as int] == low);
    } else if taken.contains(low) {
        let i = choose|i: int| 0 <= i < taken.len() && taken[i] == low;
        assert(all[i] == low);
    }
}

/// The place of a pin in the order in which all are lowered.
pub open spec fn place(pin: Pin) -> nat {
    match pin {
        Pin::PumpA => 0,
        Pin::PumpB => 1,
        Pin::PumpPhUp => 2,
        Pin::PumpPhDown => 3,
        Pin::In1 => 4,
        Pin::In2 => 5,
        Pin::In3 => 6,
        Pin::In4 => 7,
    }
}

} // verus!
