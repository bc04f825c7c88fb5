use agitech_pump::pump::{Pin, PinStep, PumpCommand, PumpController, PumpType, WaterDirection};

fn run(pumps: &mut PumpController, command: PumpCommand) {
    for step in pumps.steps_for(command) {
        pumps.record(step);
        assert!(!(pumps.l298n_in1 && pumps.l298n_in2));
        assert!(!(pumps.l298n_in3 && pumps.l298n_in4));
    }
}

fn low() -> PumpController {
    PumpController::new().0
}

fn all_high() -> PumpController {
    PumpController {
        pump_a: true,
        pump_b: true,
        pump_ph_up: true,
        pump_ph_down: true,
        l298n_in1: true,
        l298n_in2: true,
        l298n_in3: true,
        l298n_in4: true,
    }
}

const ALL: [Pin; 8] = [
    Pin::PumpA,
    Pin::PumpB,
    Pin::PumpPhUp,
    Pin::PumpPhDown,
    Pin::In1,
    Pin::In2,
    Pin::In3,
    Pin::In4,
];

#[test]
fn a_new_controller_lowers_every_pin() {
    let (pumps, steps) = PumpController::new();
    assert_eq!(steps, ALL.map(PinStep::Low).to_vec());
    let mut driven = all_high();
    for step in steps {
        driven.record(step);
    }
    assert_eq!(driven, pumps);
    assert!(!pumps.pump_a && !pumps.pump_b && !pumps.pump_ph_up && !pumps.pump_ph_down);
    assert!(!pumps.l298n_in1 && !pumps.l298n_in2 && !pumps.l298n_in3 && !pumps.l298n_in4);
}

#[test]
fn stopping_all_lowers_every_pin_in_order() {
    assert_eq!(low().stop_all(), ALL.map(PinStep::Low).to_vec());
    let mut pumps = all_high();
    for step in pumps.steps_for(PumpCommand::StopAll) {
        pumps.record(step);
    }
    assert_eq!(pumps, low());
}

#[test]
fn each_dosing_pump_has_its_pin() {
    let cases = [
        (PumpType::NutrientA, Pin::PumpA),
        (PumpType::NutrientB, Pin::PumpB),
        (PumpType::PhUp, Pin::PumpPhUp),
        (PumpType::PhDown, Pin::PumpPhDown),
    ];
    for (pump, pin) in cases {
        assert_eq!(low().set_pump_state(pump, true), vec![PinStep::High(pin)]);
        assert_eq!(low().set_pump_state(pump, false), vec![PinStep::Low(pin)]);
    }
}

#[test]
fn the_water_pump_pauses_before_it_runs() {
    let pause = PinStep::Pause { millis: 100 };
    let stop = vec![PinStep::Low(Pin::In1), PinStep::Low(Pin::In2)];
    let mut inwards = stop.clone();
    inwards.extend([pause, PinStep::High(Pin::In1)]);
    let mut outwards = stop.clone();
    outwards.extend([pause, PinStep::High(Pin::In2)]);
    assert_eq!(low().set_water_pump(WaterDirection::In), inwards);
    assert_eq!(low().set_water_pump(WaterDirection::Out), outwards);
    assert_eq!(low().set_water_pump(WaterDirection::Stop), stop);
}

#[test]
fn the_chamber_pump_runs_one_way() {
    assert_eq!(
        low().set_chamber_pump(true),
        vec![PinStep::Low(Pin::In4), PinStep::High(Pin::In3)]
    );
    assert_eq!(
        low().set_chamber_pump(false),
        vec![PinStep::Low(Pin::In3), PinStep::Low(Pin::In4)]
    );
}

#[test]
fn commands_touch_only_their_pins() {
    let mut pumps = low();
    run(&mut pumps, PumpCommand::SetPump { pump: PumpType::PhUp, on: true });
    run(&mut pumps, PumpCommand::SetChamber { on: true });
    run(&mut pumps, PumpCommand::SetWater { direction: WaterDirection::In });
    assert_eq!(
        pumps,
        PumpController { pump_ph_up: true, l298n_in3: true, l298n_in1: true, ..low() }
    );
    run(&mut pumps, PumpCommand::SetWater { direction: WaterDirection::Out });
    assert_eq!(
        pumps,
        PumpController { pump_ph_up: true, l298n_in3: true, l298n_in2: true, ..low() }
    );
    run(&mut pumps, PumpCommand::SetPump { pump: PumpType::PhUp, on: false });
    run(&mut pumps, PumpCommand::SetChamber { on: false });
    run(&mut pumps, PumpCommand::SetWater { direction: WaterDirection::Stop });
    assert_eq!(pumps, low());
}

#[test]
fn turning_the_water_round_never_bridges() {
    let directions = [WaterDirection::In, WaterDirection::Out, WaterDirection::Stop];
    for first in directions {
        for second in directions {
            let mut pumps = low();
            run(&mut pumps, PumpCommand::SetWater { direction: first });
            run(&mut pumps, PumpCommand::SetWater { direction: second });
            assert_eq!(pumps.l298n_in1, second == WaterDirection::In);
            assert_eq!(pumps.l298n_in2, second == WaterDirection::Out);
        }
    }
}
