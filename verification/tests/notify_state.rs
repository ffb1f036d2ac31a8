use gv2mqtt::hass_mqtt::binary_sensor::{state_payload, AlarmEventSensor};
use gv2mqtt::hass_mqtt::instance::Publication;
use gv2mqtt::platform_api::DeviceCapability;
use gv2mqtt::service::state::StateStore;
use serde_json::Value;

fn json(text: &str) -> Value {
    serde_json::from_str(text).unwrap()
}

fn store_with(instance: &str, raw_state: &str) -> StateStore {
    let mut store = StateStore::new("homeassistant");
    store.upsert_capability("AA:BB", instance, json(raw_state));
    store
}

fn sensor_for(store: &StateStore, instance: &str) -> AlarmEventSensor {
    let device = store.device_by_id("AA:BB").unwrap();
    let capability = device.get_state_capability_by_instance(instance).unwrap();
    AlarmEventSensor::new(&device, capability)
}

fn reported(instance: &str, raw_state: &str) -> Option<Publication> {
    let store = store_with(instance, raw_state);
    sensor_for(&store, instance).notify_state(&store)
}

fn state(payload: &str) -> Option<Publication> {
    Some(Publication::State {
        topic: "gv2mqtt/binary_sensor/binary-sensor-AA_00003aBB-lowBatteryEvent/state".to_string(),
        payload: payload.to_string(),
    })
}

#[test]
fn nonzero_value_is_reported_as_on() {
    assert_eq!(reported("lowBatteryEvent", "{\"value\": 1}"), state("ON"));
}

#[test]
fn zero_value_is_reported_as_off() {
    assert_eq!(reported("lowBatteryEvent", "{\"value\": 0}"), state("OFF"));
}

#[test]
fn missing_value_is_reported_as_off() {
    assert_eq!(reported("lowBatteryEvent", "{}"), state("OFF"));
}

#[test]
fn other_integers_are_reported_as_on() {
    assert_eq!(reported("lowBatteryEvent", "{\"value\": -1}"), state("ON"));
    assert_eq!(reported("lowBatteryEvent", "{\"value\": 2}"), state("ON"));
    assert_eq!(reported("lowBatteryEvent", "{\"value\": 9223372036854775807}"), state("ON"));
    assert_eq!(reported("lowBatteryEvent", "{\"value\": -9223372036854775808}"), state("ON"));
}

#[test]
fn values_that_are_no_i64_are_reported_as_off() {
    assert_eq!(reported("lowBatteryEvent", "{\"value\": 1.5}"), state("OFF"));
    assert_eq!(reported("lowBatteryEvent", "{\"value\": 1.0}"), state("OFF"));
    assert_eq!(reported("lowBatteryEvent", "{\"value\": \"1\"}"), state("OFF"));
    assert_eq!(reported("lowBatteryEvent", "{\"value\": true}"), state("OFF"));
    assert_eq!(reported("lowBatteryEvent", "{\"value\": null}"), state("OFF"));
    assert_eq!(reported("lowBatteryEvent", "{\"value\": [1]}"), state("OFF"));
    assert_eq!(reported("lowBatteryEvent", "{\"value\": {\"value\": 1}}"), state("OFF"));
    assert_eq!(reported("lowBatteryEvent", "{\"value\": 9223372036854775808}"), state("OFF"));
}

#[test]
fn states_of_another_shape_are_reported_as_off() {
    assert_eq!(reported("lowBatteryEvent", "null"), state("OFF"));
    assert_eq!(reported("lowBatteryEvent", "1"), state("OFF"));
    assert_eq!(reported("lowBatteryEvent", "[1]"), state("OFF"));
    assert_eq!(reported("lowBatteryEvent", "\"value\""), state("OFF"));
    assert_eq!(reported("lowBatteryEvent", "{\"Value\": 1}"), state("OFF"));
    assert_eq!(reported("lowBatteryEvent", "{\"other\": {\"value\": 1}}"), state("OFF"));
}

#[test]
fn state_payload_tells_zero_from_the_rest() {
    assert_eq!(state_payload(Some(1)), "ON");
    assert_eq!(state_payload(Some(-1)), "ON");
    assert_eq!(state_payload(Some(i64::MAX)), "ON");
    assert_eq!(state_payload(Some(i64::MIN)), "ON");
    assert_eq!(state_payload(Some(0)), "OFF");
    assert_eq!(state_payload(None), "OFF");
}

#[test]
fn integer_at_follows_json_pointers() {
    let capability = DeviceCapability::new(
        "x",
        json("{\"value\": 3, \"a\": {\"b\": [10, 20, -30]}, \"s\": \"7\", \"a/b\": 4, \"\": 5}"),
    );
    assert_eq!(capability.integer_at("/value"), Some(3));
    assert_eq!(capability.integer_at("/a/b/0"), Some(10));
    assert_eq!(capability.integer_at("/a/b/2"), Some(-30));
    assert_eq!(capability.integer_at("/a~1b"), Some(4));
    assert_eq!(capability.integer_at("/"), Some(5));
    assert_eq!(capability.integer_at("/a/b/3"), None);
    assert_eq!(capability.integer_at("/a/b/01"), None);
    assert_eq!(capability.integer_at("/a/b"), None);
    assert_eq!(capability.integer_at("/s"), None);
    assert_eq!(capability.integer_at("/missing"), None);
    assert_eq!(capability.integer_at("value"), None);
    assert_eq!(capability.integer_at(""), None);
    assert_eq!(DeviceCapability::new("x", json("12")).integer_at(""), Some(12));
}

#[test]
fn sensor_reads_the_state_when_it_reports() {
    let mut store = store_with("lowBatteryEvent", "{\"value\": 0}");
    let sensor = sensor_for(&store, "lowBatteryEvent");
    assert_eq!(sensor.notify_state(&store), state("OFF"));
    store.upsert_capability("AA:BB", "lowBatteryEvent", json("{\"value\": 1}"));
    assert_eq!(sensor.notify_state(&store), state("ON"));
    store.upsert_capability("AA:BB", "lowBatteryEvent", json("{}"));
    assert_eq!(sensor.notify_state(&store), state("OFF"));
}

#[test]
fn removed_device_is_not_reported() {
    let mut store = store_with("lowBatteryEvent", "{\"value\": 1}");
    let sensor = sensor_for(&store, "lowBatteryEvent");
    assert!(store.remove_device("AA:BB"));
    assert_eq!(sensor.notify_state(&store), None);
}

#[test]
fn missing_capability_is_not_reported() {
    let store = store_with("lowBatteryEvent", "{\"value\": 1}");
    let sensor = sensor_for(&store, "lowBatteryEvent");
    let mut other = StateStore::new("homeassistant");
    other.upsert_capability("AA:BB", "tempAlarmEvent", json("{\"value\": 1}"));
    assert_eq!(sensor.notify_state(&other), None);
    other.upsert_capability("AA:BC", "lowBatteryEvent", json("{\"value\": 1}"));
    assert_eq!(sensor.notify_state(&other), None);
}

#[test]
fn sensor_keeps_the_keys_of_its_capability() {
    let store = store_with("lowBatteryEvent", "{\"value\": 1}");
    let sensor = sensor_for(&store, "lowBatteryEvent");
    assert_eq!(sensor.device_id(), "AA:BB");
    assert_eq!(sensor.instance_name(), "lowBatteryEvent");
    let copy = sensor.clone();
    assert_eq!(copy.device_id(), "AA:BB");
    assert_eq!(copy.instance_name(), "lowBatteryEvent");
    assert_eq!(copy.config(), sensor.config());
}

#[test]
fn binary_sensor_reports_on_its_state_topic() {
    let store = store_with("lowBatteryEvent", "{}");
    let sensor = sensor_for(&store, "lowBatteryEvent");
    assert_eq!(sensor.config().notify_state("ON"), state("ON").unwrap());
    assert_eq!(sensor.config().notify_state("anything"), state("anything").unwrap());
}
