//! What comes in over MQTT: topics, readings and commands.

use crate::binary32;
use crate::binary32::Binary32;
use crate::text;
use vstd::prelude::*;

verus! {

#[derive(Debug, Clone, Copy, PartialEq, Eq, Structural)]
pub enum ConnectionState {
    WifiConnected,
    WifiDisconnected,
    MqttConnected,
    MqttDisconnected,
}

/// One reading as a sensor sends it.
#[derive(Debug, Clone)]
pub struct IncomingSensorPayload {
    pub value: Binary32,
    pub unit: String,
    pub timestamp: u64,
}

/// The last reading of each sensor.
#[derive(Debug, Clone, Copy, PartialEq, Eq, Structural)]
pub struct SensorData {
    pub ec_value: Binary32,
    pub ph_value: Binary32,
    pub temp_value: Binary32,
    pub water_level: Binary32,
}

/// A command of the operator.
#[derive(Debug, Clone)]
pub struct MqttCommandPayload {
    pub action: String,
    pub pump: String,
    pub duration_sec: Option<u64>,
}

#[derive(Debug, Clone, Copy, PartialEq, Eq, Structural)]
pub enum SensorKind {
    Ec,
    Ph,
    Temp,
    WaterLevel,
}

/// What a message is about, by its topic.
#[derive(Debug, Clone, Copy, PartialEq, Eq, Structural)]
pub enum Subject {
    Config,
    Command,
    Sensor,
    Unknown,
}

pub open spec fn device_topic(device_id: Seq<char>, leaf: Seq<char>) -> Seq<char> {
    "AGITECH/"@ + device_id + leaf
}

pub open spec fn subject_of(topic: Seq<char>, device_id: Seq<char>) -> Subject {
    if topic == device_topic(device_id, "/config"@) {
        Subject::Config
    } else if topic == device_topic(device_id, "/command"@) {
        Subject::Command
    } else if text::starts_with_text(topic, "AGITECH/sensor/"@) {
        Subject::Sensor
    } else {
        Subject::Unknown
    }
}

/// The sensor with the given name, in whatever case it is written.
pub open spec fn sensor_named(name: Seq<char>) -> Option<SensorKind> {
    let lowered = text::lowered(name);
    if lowered == "ec"@ {
        Some(SensorKind::Ec)
    } else if lowered == "ph"@ {
        Some(SensorKind::Ph)
    } else if lowered == "temp"@ {
        Some(SensorKind::Temp)
    } else if lowered == "water"@ || lowered == "water_level"@ {
        Some(SensorKind::WaterLevel)
    } else {
        None
    }
}

/// The sensor that a topic is about: its third part names it, and a fourth part must follow.
pub open spec fn sensor_of(topic: Seq<char>) -> Option<SensorKind> {
    let parts = text::split(topic, '/');
    if parts.len() >= 4 {
        sensor_named(parts[2])
    } else {
        None
    }
}

fn topic_with(device_id: &str, leaf: &str) -> (topic: String)
    ensures
        topic@ == device_topic(device_id@, leaf@),
{
    "AGITECH/".to_string().concat(device_id).concat(leaf)
}

/// Where a device gets its settings.
pub fn config_topic(device_id: &str) -> (topic: String)
    ensures
        topic@ == device_topic(device_id@, "/config"@),
{
    topic_with(device_id, "/config")
}

/// Where a device gets its commands.
pub fn command_topic(device_id: &str) -> (topic: String)
    ensures
        topic@ == device_topic(device_id@, "/command"@),
{
    topic_with(device_id, "/command")
}

/// Where a device reports the state of its control loop.
pub fn fsm_topic(device_id: &str) -> (topic: String)
    ensures
        topic@ == device_topic(device_id@, "/fsm"@),
{
    topic_with(device_id, "/fsm")
}

/// Where all sensors send their readings.
pub fn sensors_topic() -> (topic: String)
    ensures
        topic@ == "AGITECH/sensor/+/data"@,
{
    "AGITECH/sensor/+/data".to_string()
}

/// What a message is about.
pub fn classify(topic: &str, device_id: &str) -> (subject: Subject)
    ensures
        subject == subject_of(topic@, device_id@),
{
    if text::same_text(topic, config_topic(device_id).as_str()) {
        Subject::Config
    } else if text::same_text(topic, command_topic(device_id).as_str()) {
        Subject::Command
    } else if text::starts_with(topic, "AGITECH/sensor/") {
        Subject::Sensor
    } else {
        Subject::Unknown
    }
}

/// The sensor that a topic is about.
pub fn sensor_kind(topic: &str) -> (kind: Option<SensorKind>)
    ensures
        kind == sensor_of(topic@),
{
    let parts = text::split_text(topic, '/');
    if parts.len() < 4 {
        return None;
    }
    let name = &parts[2];
    if text::lower_is(name, "ec") {
        Some(SensorKind::Ec)
    } else if text::lower_is(name, "ph") {
        Some(SensorKind::Ph)
    } else if text::lower_is(name, "temp") {
        Some(SensorKind::Temp)
    } else if text::lower_is(name, "water") || text::lower_is(name, "water_level") {
        Some(SensorKind::WaterLevel)
    } else {
        None
    }
}

impl SensorData {
    /// The readings with the one of `kind` replaced.
    pub open spec fn updated(self, kind: Option<SensorKind>, value: Binary32) -> Self {
        match kind {
            Some(SensorKind::Ec) => SensorData { ec_value: value, ..self },
            Some(SensorKind::Ph) => SensorData { ph_value: value, ..self },
            Some(SensorKind::Temp) => SensorData { temp_value: value, ..self },
            Some(SensorKind::WaterLevel) => SensorData { water_level: value, ..self },
            None => self,
        }
    }

    /// Takes in a reading that came under `topic`. Nothing changes where no known sensor is named.
    pub fn receive(&mut self, topic: &str, payload: &IncomingSensorPayload) -> (kind: Option<
        SensorKind,
    >)
        ensures
            kind == sensor_of(topic@),
            *final(self) == old(self).updated(kind, payload.value),
    {
        let kind = sensor_kind(topic);
        match kind {
            Some(SensorKind::Ec) => {
                self.ec_value = payload.value;
            },
            Some(SensorKind::Ph) => {
                self.ph_value = payload.value;
            },
            Some(SensorKind::Temp) => {
                self.temp_value = payload.value;
            },
            Some(SensorKind::WaterLevel) => {
                self.water_level = payload.value;
            },
            None => {},
        }
        kind
    }
}

impl Default for SensorData {
    fn default() -> (r: Self)
        ensures
            r.ec_value == binary32::ratio(0, 1),
            r.ph_value == binary32::ratio(7, 1),
            r.temp_value == binary32::ratio(25, 1),
            r.water_level == binary32::ratio(20, 1),
    {
        SensorData {
            ec_value: Binary32::from_ratio(0, 1),
            ph_value: Binary32::from_ratio(7, 1),
            temp_value: Binary32::from_ratio(25, 1),
            water_level: Binary32::from_ratio(20, 1),
        }
    }
}

/// A device takes what comes under its own topics for what it is.
pub proof fn law_own_topics(device_id: Seq<char>)
    ensures
        subject_of(device_topic(device_id, "/config"@), device_id) == Subject::Config,
        subject_of(device_topic(device_id, "/command"@), device_id) == Subject::Command,
{
    reveal_strlit("/config");
    reveal_strlit("/command");
    assert(device_topic(device_id, "/config"@).len() != device_topic(device_id, "/command"@).len());
}

/// What comes under a topic of another device is neither settings nor a command for this one.
pub proof fn law_topics_of_others(device_id: Seq<char>, other: Seq<char>)
    requires
        device_id != other,
    ensures
        device_topic(other, "/config"@) != device_topic(device_id, "/config"@),
        device_topic(other, "/command"@) != device_topic(device_id, "/command"@),
        device_topic(other, "/config"@) != device_topic(device_id, "/command"@),
        device_topic(other, "/command"@) != device_topic(device_id, "/config"@),
{
    reveal_strlit("/config");
    reveal_strlit("/command");
    lemma_topics_differ(device_id, other, "/config"@);
    lemma_topics_differ(device_id, other, "/command"@);
    let config = "/config"@;
    let command = "/command"@;
    let a = device_topic(other, config);
    let b = device_topic(device_id, command);
    assert(a.last() == 'g' && b.last() == 'd');
    let c = device_topic(other, command);
    let d = device_topic(device_id, config);
    assert(c.last() == 'd' && d.last() == 'g');
}

/// A reading sent under the name of a sensor, between `AGITECH/sensor/` and `/data`, is taken for a
/// reading of that sensor.
pub proof fn law_sensor_topics(name: Seq<char>, device_id: Seq<char>)
    requires
        !name.contains('/'),
    ensures
        ({
            let topic = "AGITECH/sensor/"@ + name + "/data"@;
            &&& subject_of(topic, device_id) == Subject::Sensor
            &&& sensor_of(topic) == sensor_named(name)
        }),
{
    reveal_strlit("AGITECH/sensor/");
    reveal_strlit("/data");
    reveal_strlit("/config");
    reveal_strlit("/command");
    let root = "AGITECH/sensor/"@;
    let topic = root + name + "/data"@;
    assert(topic.last() == 'a');
    assert(device_topic(device_id, "/config"@).last() == 'g');
    assert(device_topic(device_id, "/command"@).last() == 'd');
    assert(topic.take(root.len() as int) =~= root);
    let agitech = root.take(7);
    let sensor = root.subrange(8, 14);
    let data = "/data"@.skip(1);
    text::law_split_plain(agitech, '/');
    text::law_split_plain(sensor, '/');
    text::law_split_plain(name, '/');
    text::law_split_plain(data, '/');
    text::law_split_at_separator(agitech, sensor, '/');
    text::law_split_at_separator(agitech.push('/') + sensor, name, '/');
    text::law_split_at_separator((agitech.push('/') + sensor).push('/') + name, data, '/');
    assert(topic =~= ((agitech.push('/') + sensor).push('/') + name).push('/') + data);
    assert(text::split(topic, '/') =~= seq![agitech, sensor, name, data]);
}

proof fn lemma_topics_differ(a: Seq<char>, b: Seq<char>, leaf: Seq<char>)
    requires
        a != b,
    ensures
        device_topic(a, leaf) != device_topic(b, leaf),
{
    let x = device_topic(a, leaf);
    let y = device_topic(b, leaf);
    let root = "AGITECH/"@;
    if x == y {
        assert(x.len() == y.len());
        assert(a =~= x.subrange(root.len() as int, (root.len() + a.len()) as int));
        assert(b =~= y.subrange(root.len() as int, (root.len() + b.len()) as int));
    }
}

/// What a message is about goes by its topic: settings and commands have each one topic of the
/// device, and readings all those that begin with `AGITECH/sensor/` and are neither.
pub proof fn law_subjects(topic: Seq<char>, device_id: Seq<char>, rest: Seq<char>)
    ensures
        ({
            let subject = subject_of(topic, device_id);
            let config = "AGITECH/"@ + device_id + "/config"@;
            let command = "AGITECH/"@ + device_id + "/command"@;
            &&& subject == Subject::Config <==> topic == config
            &&& subject == Subject::Command <==> topic == command
            &&& topic == "AGITECH/sensor/"@ + rest && topic != config && topic != command
                ==> subject == Subject::Sensor
            &&& subject == Subject::Sensor ==> topic == "AGITECH/sensor/"@ + topic.skip(15)
        }),
{
    law_own_topics(device_id);
    reveal_strlit("AGITECH/sensor/");
    let root = "AGITECH/sensor/"@;
    if topic == root + rest {
        assert(topic.take(root.len() as int) =~= root);
    }
    if text::starts_with_text(topic, root) {
        assert(topic =~= root + topic.skip(15));
    }
}

/// A topic in parts is about the sensor that its third part names, if it has four parts or more,
/// and about none otherwise.
pub proof fn law_third_part_names_sensor(parts: Seq<Seq<char>>)
    requires
        parts.len() > 0,
        forall|i: int| 0 <= i < parts.len() ==> !(#[trigger] parts[i]).contains('/'),
    ensures
        sensor_of(text::joined(parts, '/')) == if parts.len() < 4 {
            None
        } else {
            sensor_named(parts[2])
        },
{
    text::law_join_splits(parts, '/');
}

/// Sensors go by their names, in whatever case these are written; no other name is one.
pub proof fn law_sensor_names(name: Seq<char>)
    ensures
        ({
            let small = text::lowered(name);
            &&& sensor_named(name) == Some(SensorKind::Ec) <==> small == "ec"@
            &&& sensor_named(name) == Some(SensorKind::Ph) <==> small == "ph"@
            &&& sensor_named(name) == Some(SensorKind::Temp) <==> small == "temp"@
            &&& sensor_named(name) == Some(SensorKind::WaterLevel) <==> small == "water"@ || small
                == "water_level"@
            &&& sensor_named(small) == sensor_named(name)
        }),
{
    reveal_strlit("ec");
    reveal_strlit("ph");
    reveal_strlit("temp");
    reveal_strlit("water");
    reveal_strlit("water_level");
    assert("ec"@[0] == 'e' && "ph"@[0] == 'p');
    let small = text::lowered(name);
    assert(text::lowered(small) =~= small);
}

/// A reading replaces the last one of its own sensor and of no other; one of no known sensor
/// replaces nothing.
pub proof fn law_reading_replaces_its_own(
    readings: SensorData,
    kind: Option<SensorKind>,
    value: Binary32,
)
    ensures
        ({
            let after = readings.updated(kind, value);
            &&& after.ec_value == if kind == Some(SensorKind::Ec) {
                value
            } else {
                readings.ec_value
            }
            &&& after.ph_value == if kind == Some(SensorKind::Ph) {
                value
            } else {
                readings.ph_value
            }
            &&& after.temp_value == if kind == Some(SensorKind::Temp) {
                value
            } else {
                readings.temp_value
            }
            &&& after.water_level == if kind == Some(SensorKind::WaterLevel) {
                value
            } else {
                readings.water_level
            }
        }),
{
}

} // verus!
