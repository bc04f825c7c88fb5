//! The state of the control loop and what it remembers from one round to the next.

use crate::binary32;
use crate::binary32::Binary32;
use crate::config::DeviceConfig;
use crate::mqtt::SensorData;
use crate::pump::PumpCommand;
use vstd::prelude::*;

verus! {

#[derive(Debug, Clone, PartialEq, Eq)]
pub enum SystemState {
    Monitoring,
    EmergencyStop,
    SystemFault(String),
    WaterRefilling { target_level: Binary32, start_time: u64 },
    WaterDraining { target_level: Binary32, start_time: u64 },
    DosingEC { finish_time: u64 },
    DosingPH { finish_time: u64 },
    ActiveMixing { finish_time: u64 },
    Stabilizing { finish_time: u64 },
}

/// A system state, with the reason of a fault as its characters.
#[verifier::ext_equal]
pub enum StateView {
    Monitoring,
    EmergencyStop,
    SystemFault(Seq<char>),
    WaterRefilling { target_level: Binary32, start_time: u64 },
    WaterDraining { target_level: Binary32, start_time: u64 },
    DosingEC { finish_time: u64 },
    DosingPH { finish_time: u64 },
    ActiveMixing { finish_time: u64 },
    Stabilizing { finish_time: u64 },
}

impl View for SystemState {
    type V = StateView;

    open spec fn view(&self) -> StateView {
        match *self {
            SystemState::Monitoring => StateView::Monitoring,
            SystemState::EmergencyStop => StateView::EmergencyStop,
            SystemState::SystemFault(reason) => StateView::SystemFault(reason@),
            SystemState::WaterRefilling { target_level, start_time } => StateView::WaterRefilling {
                target_level,
                start_time,
            },
            SystemState::WaterDraining { target_level, start_time } => StateView::WaterDraining {
                target_level,
                start_time,
            },
            SystemState::DosingEC { finish_time } => StateView::DosingEC { finish_time },
            SystemState::DosingPH { finish_time } => StateView::DosingPH { finish_time },
            SystemState::ActiveMixing { finish_time } => StateView::ActiveMixing { finish_time },
            SystemState::Stabilizing { finish_time } => StateView::Stabilizing { finish_time },
        }
    }
}

impl StateView {
    /// The name under which the state is reported.
    pub open spec fn payload(self) -> Seq<char> {
        match self {
            StateView::Monitoring => "Monitoring"@,
            StateView::EmergencyStop => "EmergencyStop"@,
            StateView::SystemFault(reason) => "SystemFault:"@ + reason,
            StateView::WaterRefilling { .. } => "WaterRefilling"@,
            StateView::WaterDraining { .. } => "WaterDraining"@,
            StateView::DosingEC { .. } => "DosingEC"@,
            StateView::DosingPH { .. } => "DosingPH"@,
            StateView::ActiveMixing { .. } => "ActiveMixing"@,
            StateView::Stabilizing { .. } => "Stabilizing"@,
        }
    }
}

impl SystemState {
    /// The name under which the state is reported.
    pub fn to_payload_string(&self) -> (r: String)
        ensures
            r@ == self@.payload(),
    {
        match self {
            SystemState::Monitoring => "Monitoring".to_string(),
            SystemState::EmergencyStop => "EmergencyStop".to_string(),
            SystemState::SystemFault(reason) => "SystemFault:".to_string().concat(reason.as_str()),
            SystemState::WaterRefilling { .. } => "WaterRefilling".to_string(),
            SystemState::WaterDraining { .. } => "WaterDraining".to_string(),
            SystemState::DosingEC { .. } => "DosingEC".to_string(),
            SystemState::DosingPH { .. } => "DosingPH".to_string(),
            SystemState::ActiveMixing { .. } => "ActiveMixing".to_string(),
            SystemState::Stabilizing { .. } => "Stabilizing".to_string(),
        }
    }

    pub(crate) fn is_emergency_stop(&self) -> (r: bool)
        ensures
            r == (self@ is EmergencyStop),
    {
        match self {
            SystemState::EmergencyStop => true,
            _ => false,
        }
    }

    pub(crate) fn is_monitoring(&self) -> (r: bool)
        ensures
            r == (self@ is Monitoring),
    {
        match self {
            SystemState::Monitoring => true,
            _ => false,
        }
    }

    pub(crate) fn is_fault(&self) -> (r: bool)
        ensures
            r == (self@ is SystemFault),
    {
        match self {
            SystemState::SystemFault(_) => true,
            _ => false,
        }
    }
}

/// What the control loop remembers from one round to the next.
#[derive(Debug, Clone)]
pub struct ControlContext {
    pub current_state: SystemState,
    pub last_water_change_time: u64,
    pub ec_retry_count: u8,
    pub ph_retry_count: u8,
    pub water_refill_retry_count: u8,
    pub last_ec_before_dosing: Option<Binary32>,
    pub last_ph_before_dosing: Option<Binary32>,
    pub last_water_before_refill: Option<Binary32>,
    pub previous_ec_value: Option<Binary32>,
    pub previous_ph_value: Option<Binary32>,
}

#[verifier::ext_equal]
pub struct ContextView {
    pub current_state: StateView,
    pub last_water_change_time: u64,
    pub ec_retry_count: u8,
    pub ph_retry_count: u8,
    pub water_refill_retry_count: u8,
    pub last_ec_before_dosing: Option<Binary32>,
    pub last_ph_before_dosing: Option<Binary32>,
    pub last_water_before_refill: Option<Binary32>,
    pub previous_ec_value: Option<Binary32>,
    pub previous_ph_value: Option<Binary32>,
}

impl View for ControlContext {
    type V = ContextView;

    open spec fn view(&self) -> ContextView {
        ContextView {
            current_state: self.current_state@,
            last_water_change_time: self.last_water_change_time,
            ec_retry_count: self.ec_retry_count,
            ph_retry_count: self.ph_retry_count,
            water_refill_retry_count: self.water_refill_retry_count,
            last_ec_before_dosing: self.last_ec_before_dosing,
            last_ph_before_dosing: self.last_ph_before_dosing,
            last_water_before_refill: self.last_water_before_refill,
            previous_ec_value: self.previous_ec_value,
            previous_ph_value: self.previous_ph_value,
        }
    }
}

/// Something that a decision has done outside.
#[derive(Debug, Clone, Copy, PartialEq, Eq, Structural)]
pub enum Effect {
    Pump { command: PumpCommand },
    /// Keep the time of the last water change over a restart.
    StoreWaterChangeTime { time: u64 },
}

/// The memory of a loop that has just started, with the time of the last water change.
pub open spec fn fresh(last_water_change_time: u64) -> ContextView {
    ContextView {
        current_state: StateView::Monitoring,
        last_water_change_time,
        ec_retry_count: 0,
        ph_retry_count: 0,
        water_refill_retry_count: 0,
        last_ec_before_dosing: None,
        last_ph_before_dosing: None,
        last_water_before_refill: None,
        previous_ec_value: None,
        previous_ph_value: None,
    }
}

/// Whether `now` differs from the previous reading by more than `max_delta`.
pub open spec fn jumped(previous: Option<Binary32>, now: Binary32, max_delta: Binary32) -> bool {
    match previous {
        Some(before) => max_delta.below(now.difference(before).absolute()),
        None => false,
    }
}

/// Whether a reading differs from the one before the action by at least `change`.
pub open spec fn responded(before: Binary32, now: Binary32, change: Binary32) -> bool {
    change.at_most(now.difference(before).absolute())
}

/// The count of actions in a row that the sensor did not respond to. It stays as it is where no
/// action awaits a response.
pub open spec fn retries(
    count: u8,
    before: Option<Binary32>,
    now: Binary32,
    change: Binary32,
) -> int {
    match before {
        Some(b) => if responded(b, now, change) {
            0
        } else {
            count + 1
        },
        None => count as int,
    }
}

/// The least responses that count: in EC, in pH and in the water level.
pub open spec fn ec_response() -> Binary32 {
    binary32::ratio(5, 100)
}

pub open spec fn ph_response() -> Binary32 {
    binary32::ratio(1, 10)
}

pub open spec fn water_response() -> Binary32 {
    binary32::ratio(5, 10)
}

impl ContextView {
    pub open spec fn entered(self, state: StateView) -> Self {
        ContextView { current_state: state, ..self }
    }

    /// No faults counted, nothing awaited, and back to monitoring.
    pub open spec fn cleared(self) -> Self {
        ContextView {
            current_state: StateView::Monitoring,
            ec_retry_count: 0,
            ph_retry_count: 0,
            water_refill_retry_count: 0,
            last_ec_before_dosing: None,
            last_ph_before_dosing: None,
            last_water_before_refill: None,
            ..self
        }
    }

    /// Whether EC or pH has jumped since the previous reading.
    pub open spec fn noisy(self, sensors: SensorData, config: DeviceConfig) -> bool {
        jumped(self.previous_ec_value, sensors.ec_value, config.max_ec_delta) || jumped(
            self.previous_ph_value,
            sensors.ph_value,
            config.max_ph_delta,
        )
    }

    /// The readings become the previous ones.
    pub open spec fn sampled(self, sensors: SensorData) -> Self {
        ContextView {
            previous_ec_value: Some(sensors.ec_value),
            previous_ph_value: Some(sensors.ph_value),
            ..self
        }
    }

    pub open spec fn ec_retries(self, sensors: SensorData) -> int {
        retries(self.ec_retry_count, self.last_ec_before_dosing, sensors.ec_value, ec_response())
    }

    pub open spec fn ph_retries(self, sensors: SensorData) -> int {
        retries(self.ph_retry_count, self.last_ph_before_dosing, sensors.ph_value, ph_response())
    }

    pub open spec fn water_retries(self, sensors: SensorData) -> int {
        retries(
            self.water_refill_retry_count,
            self.last_water_before_refill,
            sensors.water_level,
            water_response(),
        )
    }

    /// The counts of failed actions can take in the readings.
    pub open spec fn retries_fit(self, sensors: SensorData) -> bool {
        &&& self.ec_retries(sensors) <= u8::MAX
        &&& self.ph_retries(sensors) <= u8::MAX
        &&& self.water_retries(sensors) <= u8::MAX
    }

    /// Every awaited response has been looked for.
    pub open spec fn acknowledged(self, sensors: SensorData) -> Self {
        ContextView {
            ec_retry_count: self.ec_retries(sensors) as u8,
            ph_retry_count: self.ph_retries(sensors) as u8,
            water_refill_retry_count: self.water_retries(sensors) as u8,
            last_ec_before_dosing: None,
            last_ph_before_dosing: None,
            last_water_before_refill: None,
            ..self
        }
    }
}

impl Default for ControlContext {
    fn default() -> (r: Self)
        ensures
            r@ == fresh(0),
    {
        ControlContext {
            current_state: SystemState::Monitoring,
            last_water_change_time: 0,
            ec_retry_count: 0,
            ph_retry_count: 0,
            water_refill_retry_count: 0,
            last_ec_before_dosing: None,
            last_ph_before_dosing: None,
            last_water_before_refill: None,
            previous_ec_value: None,
            previous_ph_value: None,
        }
    }
}

fn has_jumped(previous: Option<Binary32>, now: Binary32, max_delta: Binary32) -> (r: bool)
    ensures
        r == jumped(previous, now, max_delta),
{
    match previous {
        Some(before) => max_delta.is_below(now.minus(before).abs()),
        None => false,
    }
}

fn count_retry(count: u8, before: Option<Binary32>, now: Binary32, change: Binary32) -> (r: u8)
    requires
        retries(count, before, now, change) <= u8::MAX,
    ensures
        r == retries(count, before, now, change),
{
    match before {
        Some(b) => if change.is_at_most(now.minus(b).abs()) {
            0
        } else {
            count + 1
        },
        None => count,
    }
}

/// Whether a count of failed actions can take in a reading.
fn retry_fits(count: u8, before: Option<Binary32>, now: Binary32, change: Binary32) -> (r: bool)
    ensures
        r == (retries(count, before, now, change) <= u8::MAX),
{
    match before {
        Some(b) => count < u8::MAX || change.is_at_most(now.minus(b).abs()),
        None => true,
    }
}

impl ControlContext {
    /// Whether the counts of failed actions can take in the readings.
    pub fn retries_in_range(&self, sensors: &SensorData) -> (r: bool)
        ensures
            r == self@.retries_fit(*sensors),
    {
        retry_fits(
            self.ec_retry_count,
            self.last_ec_before_dosing,
            sensors.ec_value,
            Binary32::from_ratio(5, 100),
        ) && retry_fits(
            self.ph_retry_count,
            self.last_ph_before_dosing,
            sensors.ph_value,
            Binary32::from_ratio(1, 10),
        ) && retry_fits(
            self.water_refill_retry_count,
            self.last_water_before_refill,
            sensors.water_level,
            Binary32::from_ratio(5, 10),
        )
    }

    /// The count of doses against low EC that had no response, with these readings.
    pub(crate) fn count_ec_retries(&self, sensors: &SensorData) -> (r: u8)
        requires
            self@.retries_fit(*sensors),
        ensures
            r == self@.ec_retries(*sensors),
    {
        count_retry(
            self.ec_retry_count,
            self.last_ec_before_dosing,
            sensors.ec_value,
            Binary32::from_ratio(5, 100),
        )
    }

    /// The count of doses against a pH that is off that had no response, with these readings.
    pub(crate) fn count_ph_retries(&self, sensors: &SensorData) -> (r: u8)
        requires
            self@.retries_fit(*sensors),
        ensures
            r == self@.ph_retries(*sensors),
    {
        count_retry(
            self.ph_retry_count,
            self.last_ph_before_dosing,
            sensors.ph_value,
            Binary32::from_ratio(1, 10),
        )
    }

    /// The count of refills that had no response, with these readings.
    fn count_water_retries(&self, sensors: &SensorData) -> (r: u8)
        requires
            self@.retries_fit(*sensors),
        ensures
            r == self@.water_retries(*sensors),
    {
        count_retry(
            self.water_refill_retry_count,
            self.last_water_before_refill,
            sensors.water_level,
            Binary32::from_ratio(5, 10),
        )
    }

    /// Forgets all faults and goes back to monitoring.
    pub fn reset_faults(&mut self)
        ensures
            final(self)@ == old(self)@.cleared(),
    {
        self.ec_retry_count = 0;
        self.ph_retry_count = 0;
        self.water_refill_retry_count = 0;
        self.last_ec_before_dosing = None;
        self.last_ph_before_dosing = None;
        self.last_water_before_refill = None;
        self.current_state = SystemState::Monitoring;
    }

    /// Tells whether the readings have jumped, and keeps them to compare the next ones with.
    pub fn check_and_update_noise(&mut self, sensors: &SensorData, config: &DeviceConfig) -> (noisy:
        bool)
        ensures
            noisy == old(self)@.noisy(*sensors, *config),
            final(self)@ == old(self)@.sampled(*sensors),
    {
        let noisy = self.is_noisy(sensors, config);
        self.previous_ec_value = Some(sensors.ec_value);
        self.previous_ph_value = Some(sensors.ph_value);
        noisy
    }

    /// Tells whether the readings have jumped.
    pub fn is_noisy(&self, sensors: &SensorData, config: &DeviceConfig) -> (noisy: bool)
        ensures
            noisy == self@.noisy(*sensors, *config),
    {
        has_jumped(self.previous_ec_value, sensors.ec_value, config.max_ec_delta) || has_jumped(
            self.previous_ph_value,
            sensors.ph_value,
            config.max_ph_delta,
        )
    }

    /// Looks for the responses that the last actions should have had.
    pub fn verify_sensor_ack(&mut self, sensors: &SensorData)
        requires
            old(self)@.retries_fit(*sensors),
        ensures
            final(self)@ == old(self)@.acknowledged(*sensors),
    {
        self.ec_retry_count = self.count_ec_retries(sensors);
        self.last_ec_before_dosing = None;
        self.ph_retry_count = self.count_ph_retries(sensors);
        self.last_ph_before_dosing = None;
        self.water_refill_retry_count = self.count_water_retries(sensors);
        self.last_water_before_refill = None;
    }
}

/// States are reported under the same name only where they are of the same kind, and faults only
/// where their reasons are the same.
pub proof fn law_names_tell_states_apart(a: StateView, b: StateView)
    requires
        a.payload() == b.payload(),
    ensures
        a is Monitoring <==> b is Monitoring,
        a is EmergencyStop <==> b is EmergencyStop,
        a is SystemFault <==> b is SystemFault,
        a matches StateView::SystemFault(reason) ==> b == StateView::SystemFault(reason),
        a is WaterRefilling <==> b is WaterRefilling,
        a is WaterDraining <==> b is WaterDraining,
        a is DosingEC <==> b is DosingEC,
        a is DosingPH <==> b is DosingPH,
        a is ActiveMixing <==> b is ActiveMixing,
        a is Stabilizing <==> b is Stabilizing,
{
    reveal_strlit("Monitoring");
    reveal_strlit("EmergencyStop");
    reveal_strlit("SystemFault:");
    reveal_strlit("WaterRefilling");
    reveal_strlit("WaterDraining");
    reveal_strlit("DosingEC");
    reveal_strlit("DosingPH");
    reveal_strlit("ActiveMixing");
    reveal_strlit("Stabilizing");
    let x = a.payload();
    let y = b.payload();
    assert(x.len() == y.len());
    assert(x[0] == y[0]);
    assert(x[1] == y[1]);
    assert(x[5] == y[5]);
    assert(x[7] == y[7]);
    if a is SystemFault && b is SystemFault {
        let head = "SystemFault:"@;
        assert(x.subrange(head.len() as int, x.len() as int) =~= a->SystemFault_0);
        assert(y.subrange(head.len() as int, y.len() as int) =~= b->SystemFault_0);
    }
}

} // verus!
