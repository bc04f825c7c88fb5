use agitech_pump::pin_run::PinRun;
use agitech_pump::pump::{Pin, PinStep, PumpController, WaterDirection};

fn low() -> PumpController {
    PumpController::new().0
}

fn all_high() -> PumpController {
    PumpController {
        pump_a: true,
        pump_b: true,
        pump_ph_up: true,
        pump_ph_down: true,
        l298n_in1: true,
        l298n_in2: true,
        l298n_in3: true,
        l298n_in4: true,
    }
}

/// Takes steps until the one at `failing`, and gives what was tried.
fn run_until(pumps: &mut PumpController, steps: Vec<PinStep>, failing: usize) -> (PinRun, usize) {
    let mut run = PinRun::new(steps);
    let mut tried = 0;
    while let Some(step) = run.next_step() {
        assert_eq!(step, run.steps[tried]);
        run.report(tried != failing, pumps);
        tried += 1;
    }
    (run, tried)
}

#[test]
fn steps_that_work_are_all_taken() {
    let mut pumps = low();
    let steps = pumps.set_water_pump(WaterDirection::In);
    let (run, tried) = run_until(&mut pumps, steps, usize::MAX);
    assert_eq!((tried, run.taken, run.failed), (4, 4, false));
    assert!(run.is_complete());
    assert_eq!(pumps, PumpController { l298n_in1: true, ..low() });
}

#[test]
fn nothing_to_do_is_complete() {
    let mut pumps = low();
    let (run, tried) = run_until(&mut pumps, vec![], 0);
    assert_eq!(tried, 0);
    assert!(run.is_complete());
}

#[test]
fn a_failed_write_ends_a_stop() {
    let order = [
        PumpController { ..all_high() },
        PumpController { pump_a: false, ..all_high() },
        PumpController { pump_a: false, pump_b: false, ..all_high() },
    ];
    for (failing, expected) in order.into_iter().enumerate() {
        let mut pumps = all_high();
        let steps = pumps.stop_all();
        let (run, tried) = run_until(&mut pumps, steps, failing);
        assert_eq!(tried, failing + 1);
        assert_eq!((run.taken, run.failed), (failing, true));
        assert_eq!(run.next_step(), None);
        assert!(!run.is_complete());
        assert_eq!(pumps, expected);
    }
}

#[test]
fn a_failed_write_never_bridges_the_water_pump() {
    for before in [WaterDirection::In, WaterDirection::Out, WaterDirection::Stop] {
        for direction in [WaterDirection::In, WaterDirection::Out, WaterDirection::Stop] {
            for failing in 0..4 {
                let mut pumps = low();
                let steps = pumps.set_water_pump(before);
                run_until(&mut pumps, steps, usize::MAX);
                let steps = pumps.set_water_pump(direction);
                let (run, _) = run_until(&mut pumps, steps, failing);
                assert!(!(pumps.l298n_in1 && pumps.l298n_in2));
                assert_eq!(run.is_complete(), failing >= run.steps.len());
            }
        }
    }
    let mut pumps = low();
    let steps = pumps.set_water_pump(WaterDirection::Out);
    let (run, _) = run_until(&mut pumps, steps, 3);
    assert_eq!(
        run.steps[..run.taken],
        [PinStep::Low(Pin::In1), PinStep::Low(Pin::In2), PinStep::Pause { millis: 100 }]
    );
    assert_eq!(pumps, low());
}
