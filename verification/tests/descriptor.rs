use gv2mqtt::hass_mqtt::base::{Device as DeviceLink, EntityConfig, Origin};
use gv2mqtt::hass_mqtt::binary_sensor::{AlarmEventSensor, BinarySensorConfig};
use gv2mqtt::hass_mqtt::instance::{publish_entity_config, Publication};
use gv2mqtt::platform_api::DeviceCapability;
use gv2mqtt::service::device::Device;
use gv2mqtt::service::state::StateStore;
use serde_json::Value;

fn sensor(id: &str, instance: &str) -> AlarmEventSensor {
    let device = Device::new(id, "Kitchen sensor", "H5179");
    AlarmEventSensor::new(&device, &DeviceCapability::new(instance, Value::Null))
}

fn expected_config(
    unique_id: &str,
    name: &str,
    device_class: Option<&'static str>,
) -> BinarySensorConfig {
    BinarySensorConfig {
        base: EntityConfig {
            availability_topic: "gv2mqtt/availability".to_string(),
            name: Some(name.to_string()),
            entity_category: Some("diagnostic".to_string()),
            origin: Origin { name: "gv2mqtt".to_string(), sw_version: "0.1.0".to_string() },
            device: DeviceLink {
                name: "Kitchen sensor".to_string(),
                model: "H5179".to_string(),
                identifiers: vec!["gv2mqtt-AA_00003aBB".to_string()],
                via_device: Some("gv2mqtt".to_string()),
            },
            unique_id: unique_id.to_string(),
            device_class: device_class.map(|class| class.to_string()),
            icon: None,
        },
        state_topic: format!("gv2mqtt/binary_sensor/{unique_id}/state"),
        device_class,
        payload_on: Some("ON".to_string()),
        payload_off: Some("OFF".to_string()),
    }
}

#[test]
fn low_battery_descriptor_has_all_its_fields() {
    assert_eq!(
        *sensor("AA:BB", "lowBatteryEvent").config(),
        expected_config("binary-sensor-AA_00003aBB-lowBatteryEvent", "Low Battery", Some("battery"))
    );
}

#[test]
fn fallback_descriptors_follow_the_classification() {
    assert_eq!(
        *sensor("AA:BB", "customVendorAlarmEvent").config(),
        expected_config("binary-sensor-AA_00003aBB-customVendorAlarmEvent", "Alarm", Some("problem"))
    );
    assert_eq!(
        *sensor("AA:BB", "weirdXEvent").config(),
        expected_config("binary-sensor-AA_00003aBB-weirdXEvent", "Alert", None)
    );
    assert_eq!(
        *sensor("AA:BB", "unknownThing").config(),
        expected_config("binary-sensor-AA_00003aBB-unknownThing", "Event", None)
    );
}

#[test]
fn descriptor_does_not_depend_on_the_raw_state() {
    let device = Device::new("AA:BB", "Kitchen sensor", "H5179");
    let on = DeviceCapability::new("lowBatteryEvent", serde_json::from_str("{\"value\": 1}").unwrap());
    let off = DeviceCapability::new("lowBatteryEvent", serde_json::from_str("{\"value\": 0}").unwrap());
    assert_eq!(
        AlarmEventSensor::new(&device, &on).config(),
        AlarmEventSensor::new(&device, &off).config()
    );
}

#[test]
fn origin_default_names_the_bridge() {
    assert_eq!(
        Origin::default(),
        Origin { name: "gv2mqtt".to_string(), sw_version: "0.1.0".to_string() }
    );
    assert_eq!(Origin::default().clone(), Origin::default());
}

#[test]
fn device_link_is_made_from_the_device() {
    let link = DeviceLink::for_device(&Device::new("AA:BB", "Kitchen sensor", "H5179"));
    assert_eq!(
        link,
        DeviceLink {
            name: "Kitchen sensor".to_string(),
            model: "H5179".to_string(),
            identifiers: vec!["gv2mqtt-AA_00003aBB".to_string()],
            via_device: Some("gv2mqtt".to_string()),
        }
    );
    assert_eq!(link.clone(), link);
}

#[test]
fn config_is_published_on_the_discovery_topic() {
    let store = StateStore::new("homeassistant");
    let sensor = sensor("AA:BB", "lowBatteryEvent");
    let expected = Publication::Config {
        topic: "homeassistant/binary_sensor/binary-sensor-AA_00003aBB-lowBatteryEvent/config"
            .to_string(),
        config: expected_config(
            "binary-sensor-AA_00003aBB-lowBatteryEvent",
            "Low Battery",
            Some("battery"),
        ),
    };
    assert_eq!(sensor.publish_config(&store), expected);
    assert_eq!(sensor.config().publish(&store), expected);
    assert_eq!(publish_entity_config("binary_sensor", &store, sensor.config()), expected);
    assert_eq!(expected.topic(), "homeassistant/binary_sensor/binary-sensor-AA_00003aBB-lowBatteryEvent/config");
}

#[test]
fn discovery_topic_follows_the_prefix_of_the_hub() {
    let store = StateStore::new("custom/prefix");
    let publication = sensor("d1", "x").publish_config(&store);
    assert_eq!(publication.topic(), "custom/prefix/binary_sensor/binary-sensor-d1-x/config");
}

#[test]
fn publishing_an_unchanged_descriptor_twice_gives_the_same_publication() {
    let store = StateStore::new("homeassistant");
    let sensor = sensor("AA:BB", "tempAlarmEvent");
    assert_eq!(sensor.publish_config(&store), sensor.publish_config(&store));
    assert_eq!(sensor.clone().publish_config(&store), sensor.publish_config(&store));
}

#[test]
fn config_clone_is_an_equal_copy() {
    let sensor = sensor("AA:BB", "weirdXEvent");
    assert_eq!(sensor.config().clone(), *sensor.config());
    assert_eq!(sensor.config().base.clone(), sensor.config().base);
}
