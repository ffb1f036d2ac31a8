use gv2mqtt::platform_api::DeviceCapability;
use gv2mqtt::service::device::Device;
use gv2mqtt::service::state::StateStore;
use serde_json::Value;

fn json(text: &str) -> Value {
    serde_json::from_str(text).unwrap()
}

fn instances(device: &Device) -> Vec<String> {
    device.capabilities().iter().map(|capability| capability.instance.clone()).collect()
}

fn ids(store: &StateStore) -> Vec<String> {
    store.devices().iter().map(|device| device.id().to_string()).collect()
}

#[test]
fn new_device_has_its_metadata_and_no_capabilities() {
    let device = Device::new("AA:BB", "Kitchen", "H5179");
    assert_eq!(device.id(), "AA:BB");
    assert_eq!(device.name(), "Kitchen");
    assert_eq!(device.sku(), "H5179");
    assert!(device.capabilities().is_empty());
    assert!(device.get_state_capability_by_instance("lowBatteryEvent").is_none());
}

#[test]
fn capability_holds_its_name_and_state() {
    let capability = DeviceCapability::new("lowBatteryEvent", json("{\"value\": 1}"));
    assert_eq!(capability.instance, "lowBatteryEvent");
    assert_eq!(capability.state, json("{\"value\": 1}"));
    assert_eq!(capability.clone(), capability);
}

#[test]
fn set_capability_appends_new_names_in_order() {
    let mut device = Device::new("d", "n", "s");
    device.set_capability("b", json("1"));
    device.set_capability("a", json("2"));
    device.set_capability("c", json("3"));
    assert_eq!(instances(&device), ["b", "a", "c"]);
    assert_eq!(device.get_state_capability_by_instance("a").unwrap().state, json("2"));
}

#[test]
fn set_capability_replaces_a_known_name_in_place() {
    let mut device = Device::new("d", "n", "s");
    device.set_capability("b", json("1"));
    device.set_capability("a", json("2"));
    device.set_capability("b", json("{\"value\": 7}"));
    assert_eq!(instances(&device), ["b", "a"]);
    assert_eq!(
        device.get_state_capability_by_instance("b").unwrap().state,
        json("{\"value\": 7}")
    );
    assert_eq!(device.get_state_capability_by_instance("a").unwrap().state, json("2"));
}

#[test]
fn capability_names_are_matched_exactly() {
    let mut device = Device::new("d", "n", "s");
    device.set_capability("lowBatteryEvent", json("1"));
    assert!(device.get_state_capability_by_instance("lowBatteryEvent").is_some());
    assert!(device.get_state_capability_by_instance("lowbatteryevent").is_none());
    assert!(device.get_state_capability_by_instance("lowBatteryEven").is_none());
    assert!(device.get_state_capability_by_instance("").is_none());
}

#[test]
fn device_clone_is_an_equal_copy() {
    let mut device = Device::new("d", "n", "s");
    device.set_capability("a", json("{\"value\": [1, 2.5, \"x\", null]}"));
    let copy = device.clone();
    assert_eq!(copy.id(), "d");
    assert_eq!(copy.name(), "n");
    assert_eq!(copy.sku(), "s");
    assert_eq!(copy.capabilities(), device.capabilities());
}

#[test]
fn empty_store_knows_no_device() {
    let store = StateStore::new("homeassistant");
    assert_eq!(store.get_hass_disco_prefix(), "homeassistant");
    assert!(store.devices().is_empty());
    assert!(store.device_by_id("AA:BB").is_none());
}

#[test]
fn upsert_capability_creates_the_device_on_first_sighting() {
    let mut store = StateStore::new("homeassistant");
    store.upsert_capability("AA:BB", "lowBatteryEvent", json("{\"value\": 0}"));
    let device = store.device_by_id("AA:BB").unwrap();
    assert_eq!(device.id(), "AA:BB");
    assert_eq!(device.name(), "AA:BB");
    assert_eq!(device.sku(), "");
    assert_eq!(instances(&device), ["lowBatteryEvent"]);
}

#[test]
fn upsert_capability_updates_a_known_device_in_place() {
    let mut store = StateStore::new("homeassistant");
    store.upsert_device(Device::new("d1", "One", "S1"));
    store.upsert_device(Device::new("d2", "Two", "S2"));
    store.upsert_capability("d1", "a", json("1"));
    store.upsert_capability("d1", "b", json("2"));
    store.upsert_capability("d1", "a", json("3"));
    assert_eq!(ids(&store), ["d1", "d2"]);
    let device = store.device_by_id("d1").unwrap();
    assert_eq!(device.name(), "One");
    assert_eq!(instances(&device), ["a", "b"]);
    assert_eq!(device.get_state_capability_by_instance("a").unwrap().state, json("3"));
    assert!(store.device_by_id("d2").unwrap().capabilities().is_empty());
}

#[test]
fn upsert_device_replaces_the_device_of_the_same_id() {
    let mut store = StateStore::new("homeassistant");
    store.upsert_device(Device::new("d1", "One", "S1"));
    store.upsert_device(Device::new("d2", "Two", "S2"));
    store.upsert_device(Device::new("d1", "Uno", "S9"));
    assert_eq!(ids(&store), ["d1", "d2"]);
    assert_eq!(store.device_by_id("d1").unwrap().name(), "Uno");
    assert_eq!(store.device_by_id("d1").unwrap().sku(), "S9");
}

#[test]
fn snapshot_does_not_follow_later_writes() {
    let mut store = StateStore::new("homeassistant");
    store.upsert_capability("d1", "a", json("{\"value\": 1}"));
    let snapshot = store.device_by_id("d1").unwrap();
    store.upsert_capability("d1", "a", json("{\"value\": 0}"));
    store.upsert_capability("d1", "b", json("5"));
    assert_eq!(instances(&snapshot), ["a"]);
    assert_eq!(
        snapshot.get_state_capability_by_instance("a").unwrap().state,
        json("{\"value\": 1}")
    );
    let current = store.device_by_id("d1").unwrap();
    assert_eq!(
        current.get_state_capability_by_instance("a").unwrap().state,
        json("{\"value\": 0}")
    );
}

#[test]
fn remove_device_forgets_only_that_device() {
    let mut store = StateStore::new("homeassistant");
    store.upsert_device(Device::new("d1", "One", "S1"));
    store.upsert_device(Device::new("d2", "Two", "S2"));
    store.upsert_device(Device::new("d3", "Three", "S3"));
    assert!(store.remove_device("d2"));
    assert_eq!(ids(&store), ["d1", "d3"]);
    assert!(store.device_by_id("d2").is_none());
    assert!(!store.remove_device("d2"));
    assert!(!store.remove_device("unknown"));
    assert_eq!(ids(&store), ["d1", "d3"]);
}

#[test]
fn device_ids_are_matched_exactly() {
    let mut store = StateStore::new("homeassistant");
    store.upsert_device(Device::new("AA:BB", "One", "S1"));
    assert!(store.device_by_id("AA:BB").is_some());
    assert!(store.device_by_id("aa:bb").is_none());
    assert!(store.device_by_id("AA:B").is_none());
    assert!(store.device_by_id("AA:BB ").is_none());
}
