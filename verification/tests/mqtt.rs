use agitech_pump::binary32::Binary32;
use agitech_pump::link::{subscriptions, Link, LinkAction, WifiNews, WifiWatch};
use agitech_pump::mqtt::{
    classify, command_topic, config_topic, fsm_topic, sensor_kind, sensors_topic, ConnectionState,
    IncomingSensorPayload, SensorData, SensorKind, Subject,
};

fn num(x: f32) -> Binary32 {
    Binary32::from_bits(x.to_bits())
}

fn reading(x: f32) -> IncomingSensorPayload {
    IncomingSensorPayload { value: num(x), unit: "u".to_string(), timestamp: 7 }
}

#[test]
fn topics_of_a_device() {
    assert_eq!(config_topic("device_001"), "AGITECH/device_001/config");
    assert_eq!(command_topic("device_001"), "AGITECH/device_001/command");
    assert_eq!(fsm_topic("device_001"), "AGITECH/device_001/fsm");
    assert_eq!(sensors_topic(), "AGITECH/sensor/+/data");
}

#[test]
fn messages_are_told_apart_by_topic() {
    let id = "device_001";
    assert_eq!(classify("AGITECH/device_001/config", id), Subject::Config);
    assert_eq!(classify("AGITECH/device_001/command", id), Subject::Command);
    assert_eq!(classify("AGITECH/sensor/ec/data", id), Subject::Sensor);
    assert_eq!(classify("AGITECH/sensor/", id), Subject::Sensor);
    assert_eq!(classify("AGITECH/sensor", id), Subject::Unknown);
    assert_eq!(classify("AGITECH/device_001/fsm", id), Subject::Unknown);
    assert_eq!(classify("AGITECH/device_001/config/", id), Subject::Unknown);
    assert_eq!(classify("agitech/sensor/ec/data", id), Subject::Unknown);
    assert_eq!(classify("", id), Subject::Unknown);
}

#[test]
fn messages_for_others_are_not_taken() {
    assert_eq!(classify(&config_topic("device_002"), "device_001"), Subject::Unknown);
    assert_eq!(classify(&command_topic("device_002"), "device_001"), Subject::Unknown);
    assert_eq!(classify(&config_topic("sensor"), "sensor"), Subject::Config);
    assert_eq!(classify(&config_topic("sensor"), "device_001"), Subject::Sensor);
}

#[test]
fn sensors_are_named_in_any_case() {
    assert_eq!(sensor_kind("AGITECH/sensor/ec/data"), Some(SensorKind::Ec));
    assert_eq!(sensor_kind("AGITECH/sensor/EC/data"), Some(SensorKind::Ec));
    assert_eq!(sensor_kind("AGITECH/sensor/pH/data"), Some(SensorKind::Ph));
    assert_eq!(sensor_kind("AGITECH/sensor/Temp/data"), Some(SensorKind::Temp));
    assert_eq!(sensor_kind("AGITECH/sensor/water/data"), Some(SensorKind::WaterLevel));
    assert_eq!(sensor_kind("AGITECH/sensor/WATER_LEVEL/data"), Some(SensorKind::WaterLevel));
    assert_eq!(sensor_kind("AGITECH/sensor/light/data"), None);
    assert_eq!(sensor_kind("AGITECH/sensor//data"), None);
    assert_eq!(sensor_kind("AGITECH/sensor/\u{212a}ec/data"), None);
}

#[test]
fn a_sensor_topic_needs_four_parts() {
    assert_eq!(sensor_kind("AGITECH/sensor/ec"), None);
    assert_eq!(sensor_kind("AGITECH/sensor/ec/"), Some(SensorKind::Ec));
    assert_eq!(sensor_kind("AGITECH/sensor/ec/data/more"), Some(SensorKind::Ec));
    assert_eq!(sensor_kind(""), None);
    assert_eq!(sensor_kind("a/b/ph/c"), Some(SensorKind::Ph));
}

#[test]
fn a_reading_replaces_only_its_own() {
    let start = SensorData::default();
    let mut s = start;
    assert_eq!(s.receive("AGITECH/sensor/ec/data", &reading(1.5)), Some(SensorKind::Ec));
    assert_eq!(s, SensorData { ec_value: num(1.5), ..start });
    let mut s = start;
    assert_eq!(s.receive("AGITECH/sensor/ph/data", &reading(5.5)), Some(SensorKind::Ph));
    assert_eq!(s, SensorData { ph_value: num(5.5), ..start });
    let mut s = start;
    assert_eq!(s.receive("AGITECH/sensor/temp/data", &reading(21.0)), Some(SensorKind::Temp));
    assert_eq!(s, SensorData { temp_value: num(21.0), ..start });
    let mut s = start;
    assert_eq!(s.receive("AGITECH/sensor/water/data", &reading(9.0)), Some(SensorKind::WaterLevel));
    assert_eq!(s, SensorData { water_level: num(9.0), ..start });
    let mut s = start;
    assert_eq!(s.receive("AGITECH/sensor/light/data", &reading(9.0)), None);
    assert_eq!(s, start);
}

#[test]
fn the_network_is_reported_when_it_comes_and_goes() {
    let quiet = WifiNews { event: None, reconnect: false };
    let mut watch = WifiWatch::new();
    assert_eq!(watch.observe(false, false), quiet);
    assert_eq!(watch.observe(true, false), quiet);
    assert_eq!(
        watch.observe(true, true),
        WifiNews { event: Some(ConnectionState::WifiConnected), reconnect: false }
    );
    assert_eq!(watch.observe(true, true), quiet);
    assert_eq!(
        watch.observe(true, false),
        WifiNews { event: Some(ConnectionState::WifiDisconnected), reconnect: false }
    );
    assert_eq!(watch.observe(false, true), quiet);
    watch.observe(true, true);
    assert_eq!(
        watch.observe(false, false),
        WifiNews { event: Some(ConnectionState::WifiDisconnected), reconnect: true }
    );
    assert_eq!(watch.observe(false, false), quiet);
}

#[test]
fn one_client_is_created_and_subscribes_at_every_connection() {
    let mut link = Link::new();
    assert_eq!(link.on_event(ConnectionState::MqttConnected), LinkAction::Nothing);
    assert!(link.is_mqtt_connected);
    let mut link = Link::new();
    assert_eq!(link.on_event(ConnectionState::WifiConnected), LinkAction::CreateClient);
    assert_eq!(link.on_event(ConnectionState::WifiConnected), LinkAction::CreateClient);
    link.client_created();
    assert_eq!(link.on_event(ConnectionState::WifiConnected), LinkAction::Nothing);
    assert_eq!(link.on_event(ConnectionState::MqttConnected), LinkAction::Subscribe);
    assert_eq!(link.on_event(ConnectionState::MqttDisconnected), LinkAction::Nothing);
    assert_eq!(link.on_event(ConnectionState::MqttConnected), LinkAction::Subscribe);
    assert!(link.has_client);
}

#[test]
fn reports_are_dropped_while_the_broker_is_out_of_reach() {
    let mut link = Link::new();
    assert_eq!(link.publish_topic("device_001"), None);
    link.client_created();
    assert_eq!(link.publish_topic("device_001"), None);
    link.on_event(ConnectionState::MqttConnected);
    assert_eq!(link.publish_topic("device_001"), Some("AGITECH/device_001/fsm".to_string()));
    link.on_event(ConnectionState::WifiDisconnected);
    assert_eq!(link.publish_topic("device_001"), None);
    link.on_event(ConnectionState::WifiConnected);
    assert_eq!(link.publish_topic("device_001"), None);
    link.on_event(ConnectionState::MqttConnected);
    link.on_event(ConnectionState::MqttDisconnected);
    assert_eq!(link.publish_topic("device_001"), None);
}

#[test]
fn a_device_subscribes_to_its_topics_and_all_sensors() {
    let list = subscriptions("device_001");
    let plain: Vec<(&str, bool)> =
        list.iter().map(|s| (s.topic.as_str(), s.at_least_once)).collect();
    assert_eq!(
        plain,
        vec![
            ("AGITECH/device_001/config", true),
            ("AGITECH/device_001/command", true),
            ("AGITECH/sensor/+/data", false),
        ]
    );
}
