//! Binary sensors, and the alarm events of a device that are shown as such.

use crate::hass_mqtt::base::{
    bridge_origin, device_link, Device, EntityConfig, EntityConfigView, Origin,
};
use crate::hass_mqtt::instance::{
    config_topic_text, option_publication_view, publish_entity_config, Publication,
    PublicationView,
};
use crate::platform_api::{integer_at, DeviceCapability};
use crate::service::device::{Device as ServiceDevice, DeviceView as ServiceDeviceView};
use crate::service::state::{
    distinct_ids, lemma_without_device_forgets, StateStore, StateStoreView,
};
use crate::service::hass::{
    availability_topic, availability_topic_text, is_topic_safe, lemma_topic_safe_alphabet,
    lemma_topic_safe_injective, topic_safe_id, topic_safe_string, topic_safe_text,
};
use crate::text::{
    chars_of, clone_option_text, ends_with, ends_with_text, option_str_text, option_text, spells,
};
use vstd::prelude::*;

verus! {

/// What an alarm event stands for, as far as its instance name tells.
#[derive(Clone, Copy, Debug, PartialEq, Eq, Structural)]
pub enum AlarmEventKind {
    /// `lowBatteryEvent`.
    LowBattery,
    /// `lackWaterEvent`.
    LackWater,
    /// `temperatureAlarmEvent` or `tempAlarmEvent`.
    TemperatureAlarm,
    /// `humidityAlarmEvent` or `humAlarmEvent`.
    HumidityAlarm,
    /// Any other name that ends in `AlarmEvent`.
    Alarm,
    /// Any other name that ends in `Event`.
    Alert,
    /// Every other name.
    Event,
}

impl AlarmEventKind {
    /// The pattern of this kind, taken alone: whether `instance` has the
    /// shape that the kind is named after.
    pub open spec fn pattern(self, instance: Seq<char>) -> bool {
        match self {
            AlarmEventKind::LowBattery => instance == "lowBatteryEvent"@,
            AlarmEventKind::LackWater => instance == "lackWaterEvent"@,
            AlarmEventKind::TemperatureAlarm => instance == "temperatureAlarmEvent"@ || instance
                == "tempAlarmEvent"@,
            AlarmEventKind::HumidityAlarm => instance == "humidityAlarmEvent"@ || instance
                == "humAlarmEvent"@,
            AlarmEventKind::Alarm => ends_with_text(instance, "AlarmEvent"@),
            AlarmEventKind::Alert => ends_with_text(instance, "Event"@),
            AlarmEventKind::Event => true,
        }
    }

    /// The rank of this kind: patterns of lower rank are tried first.
    pub open spec fn rank(self) -> nat {
        match self {
            AlarmEventKind::LowBattery => 0,
            AlarmEventKind::LackWater => 1,
            AlarmEventKind::TemperatureAlarm => 2,
            AlarmEventKind::HumidityAlarm => 3,
            AlarmEventKind::Alarm => 4,
            AlarmEventKind::Alert => 5,
            AlarmEventKind::Event => 6,
        }
    }

    /// Whether this kind is the outcome for `instance`: its pattern matches
    /// and no pattern of lower rank does.
    pub open spec fn applies(self, instance: Seq<char>) -> bool {
        &&& self.pattern(instance)
        &&& forall|other: AlarmEventKind|
            other.rank() < self.rank() ==> !#[trigger] other.pattern(instance)
    }

    /// The device class that the hub is told, if any.
    pub open spec fn device_class_text(self) -> Option<Seq<char>> {
        match self {
            AlarmEventKind::LowBattery => Some("battery"@),
            AlarmEventKind::LackWater => Some("problem"@),
            AlarmEventKind::TemperatureAlarm => Some("problem"@),
            AlarmEventKind::HumidityAlarm => Some("problem"@),
            AlarmEventKind::Alarm => Some("problem"@),
            AlarmEventKind::Alert => None,
            AlarmEventKind::Event => None,
        }
    }

    /// The name under which the hub shows the entity.
    pub open spec fn display_name_text(self) -> Seq<char> {
        match self {
            AlarmEventKind::LowBattery => "Low Battery"@,
            AlarmEventKind::LackWater => "Water Level Alert"@,
            AlarmEventKind::TemperatureAlarm => "Temperature Alarm"@,
            AlarmEventKind::HumidityAlarm => "Humidity Alarm"@,
            AlarmEventKind::Alarm => "Alarm"@,
            AlarmEventKind::Alert => "Alert"@,
            AlarmEventKind::Event => "Event"@,
        }
    }

    /// The device class that the hub is told, if any.
    pub fn device_class(self) -> (class: Option<&'static str>)
        ensures
            option_str_text(class) == self.device_class_text(),
    {
        match self {
            AlarmEventKind::LowBattery => Some("battery"),
            AlarmEventKind::LackWater => Some("problem"),
            AlarmEventKind::TemperatureAlarm => Some("problem"),
            AlarmEventKind::HumidityAlarm => Some("problem"),
            AlarmEventKind::Alarm => Some("problem"),
            AlarmEventKind::Alert => None,
            AlarmEventKind::Event => None,
        }
    }

    /// The name under which the hub shows the entity.
    pub fn display_name(self) -> (name: &'static str)
        ensures
            name@ == self.display_name_text(),
    {
        match self {
            AlarmEventKind::LowBattery => "Low Battery",
            AlarmEventKind::LackWater => "Water Level Alert",
            AlarmEventKind::TemperatureAlarm => "Temperature Alarm",
            AlarmEventKind::HumidityAlarm => "Humidity Alarm",
            AlarmEventKind::Alarm => "Alarm",
            AlarmEventKind::Alert => "Alert",
            AlarmEventKind::Event => "Event",
        }
    }
}

/// The kind of the alarm event named `instance`: the first of the exact
/// names that it equals, else the longest of the suffixes that it ends in,
/// else the plain event.
pub open spec fn classify_text(instance: Seq<char>) -> AlarmEventKind {
    if instance == "lowBatteryEvent"@ {
        AlarmEventKind::LowBattery
    } else if instance == "lackWaterEvent"@ {
        AlarmEventKind::LackWater
    } else if instance == "temperatureAlarmEvent"@ || instance == "tempAlarmEvent"@ {
        AlarmEventKind::TemperatureAlarm
    } else if instance == "humidityAlarmEvent"@ || instance == "humAlarmEvent"@ {
        AlarmEventKind::HumidityAlarm
    } else if ends_with_text(instance, "AlarmEvent"@) {
        AlarmEventKind::Alarm
    } else if ends_with_text(instance, "Event"@) {
        AlarmEventKind::Alert
    } else {
        AlarmEventKind::Event
    }
}

/// Every instance name has exactly one outcome: the kind that `classify`
/// returns applies to it, and no other kind does.
pub proof fn lemma_classification_total(instance: Seq<char>)
    ensures
        classify_text(instance).applies(instance),
        forall|kind: AlarmEventKind| #[trigger]
            kind.applies(instance) ==> kind == classify_text(instance),
{
    let outcome = classify_text(instance);
    assert forall|kind: AlarmEventKind| #[trigger] kind.applies(instance) implies kind
        == outcome by {
        if kind.rank() < outcome.rank() {
            assert(!kind.pattern(instance));
        } else if outcome.rank() < kind.rank() {
            assert(!outcome.pattern(instance));
        }
    }
}

/// Classifies the alarm event named `instance`. Every name is classified;
/// one that matches nothing more specific is a plain event.
pub fn classify(instance: &str) -> (kind: AlarmEventKind)
    ensures
        kind == classify_text(instance@),
{
    let name = chars_of(instance);
    if spells(&name, "lowBatteryEvent") {
        AlarmEventKind::LowBattery
    } else if spells(&name, "lackWaterEvent") {
        AlarmEventKind::LackWater
    } else if spells(&name, "temperatureAlarmEvent") || spells(&name, "tempAlarmEvent") {
        AlarmEventKind::TemperatureAlarm
    } else if spells(&name, "humidityAlarmEvent") || spells(&name, "humAlarmEvent") {
        AlarmEventKind::HumidityAlarm
    } else if ends_with(&name, "AlarmEvent") {
        AlarmEventKind::Alarm
    } else if ends_with(&name, "Event") {
        AlarmEventKind::Alert
    } else {
        AlarmEventKind::Event
    }
}

/// The unique id of the binary sensor that shows capability `instance` of
/// device `device_id`.
pub open spec fn unique_id_text(device_id: Seq<char>, instance: Seq<char>) -> Seq<char> {
    "binary-sensor-"@ + topic_safe_text(device_id) + "-"@ + topic_safe_text(instance)
}

/// The unique id is the same whenever it is made for the same device id and
/// instance name, and unique ids never collide: two of them are equal exactly
/// when they were made for the same device id and the same instance name.
pub proof fn lemma_unique_id_injective(
    device_a: Seq<char>,
    instance_a: Seq<char>,
    device_b: Seq<char>,
    instance_b: Seq<char>,
)
    ensures
        unique_id_text(device_a, instance_a) == unique_id_text(device_b, instance_b) <==> (
        device_a == device_b && instance_a == instance_b),
{
    if unique_id_text(device_a, instance_a) == unique_id_text(device_b, instance_b) {
        lemma_unique_id_parts(device_a, instance_a, device_b, instance_b);
    }
}

proof fn lemma_unique_id_parts(
    device_a: Seq<char>,
    instance_a: Seq<char>,
    device_b: Seq<char>,
    instance_b: Seq<char>,
)
    requires
        unique_id_text(device_a, instance_a) == unique_id_text(device_b, instance_b),
    ensures
        device_a == device_b,
        instance_a == instance_b,
{
    reveal_strlit("-");
    let prefix = "binary-sensor-"@;
    let dash = "-"@;
    let da = topic_safe_text(device_a);
    let db = topic_safe_text(device_b);
    let ia = topic_safe_text(instance_a);
    let ib = topic_safe_text(instance_b);
    let whole = unique_id_text(device_a, instance_a);
    lemma_topic_safe_alphabet(device_a);
    lemma_topic_safe_alphabet(device_b);
    let start = prefix.len() as int;
    assert(dash.len() == 1 && dash[0] == '-');
    assert(whole == prefix + da + dash + ia);
    assert(whole == prefix + db + dash + ib);
    assert(whole.len() == prefix.len() + da.len() + 1 + ia.len());
    assert(whole.len() == prefix.len() + db.len() + 1 + ib.len());
    if da.len() < db.len() {
        assert(whole[start + da.len()] == '-');
        assert(whole[start + da.len()] == db[da.len() as int]);
        assert(is_topic_safe(db));
    }
    if db.len() < da.len() {
        assert(whole[start + db.len()] == '-');
        assert(whole[start + db.len()] == da[db.len() as int]);
        assert(is_topic_safe(da));
    }
    assert(da.len() == db.len());
    assert(da =~= whole.subrange(start, start + da.len()));
    assert(db =~= whole.subrange(start, start + db.len()));
    assert(ia =~= whole.subrange(start + da.len() + 1, whole.len() as int));
    assert(ib =~= whole.subrange(start + db.len() + 1, whole.len() as int));
    lemma_topic_safe_injective(device_a, device_b);
    lemma_topic_safe_injective(instance_a, instance_b);
}

/// The topic on which the state of the binary sensor `unique_id` is reported.
pub open spec fn state_topic_text(unique_id: Seq<char>) -> Seq<char> {
    "gv2mqtt/binary_sensor/"@ + unique_id + "/state"@
}

/// State topics never collide either: two of them are equal only if they
/// belong to the same unique id.
pub proof fn lemma_state_topic_injective(first: Seq<char>, second: Seq<char>)
    requires
        state_topic_text(first) == state_topic_text(second),
    ensures
        first == second,
{
    let prefix = "gv2mqtt/binary_sensor/"@;
    let suffix = "/state"@;
    let whole = state_topic_text(first);
    let start = prefix.len() as int;
    assert(whole.len() == prefix.len() + first.len() + suffix.len());
    assert(whole.len() == prefix.len() + second.len() + suffix.len());
    assert(first =~= whole.subrange(start, start + first.len()));
    assert(second =~= whole.subrange(start, start + second.len()));
}

/// The unique id of the binary sensor that shows capability `instance` of
/// `device`.
pub fn unique_id(device: &ServiceDevice, instance: &str) -> (id: String)
    ensures
        id@ == unique_id_text(device@.id, instance@),
{
    let mut id = String::from_str("binary-sensor-");
    id.append(topic_safe_id(device).as_str());
    id.append("-");
    id.append(topic_safe_string(instance).as_str());
    id
}

/// The topic on which the state of the binary sensor `unique_id` is reported.
pub fn state_topic(unique_id: &str) -> (topic: String)
    ensures
        topic@ == state_topic_text(unique_id@),
{
    let mut topic = String::from_str("gv2mqtt/binary_sensor/");
    topic.append(unique_id);
    topic.append("/state");
    topic
}

/// The discovery descriptor of a binary sensor.
#[derive(Debug, PartialEq, Eq)]
pub struct BinarySensorConfig {
    pub base: EntityConfig,
    pub state_topic: String,
    pub device_class: Option<&'static str>,
    pub payload_on: Option<String>,
    pub payload_off: Option<String>,
}

/// The mathematical model of a [`BinarySensorConfig`].
pub struct BinarySensorConfigView {
    pub base: EntityConfigView,
    pub state_topic: Seq<char>,
    pub device_class: Option<Seq<char>>,
    pub payload_on: Option<Seq<char>>,
    pub payload_off: Option<Seq<char>>,
}

impl View for BinarySensorConfig {
    type V = BinarySensorConfigView;

    open spec fn view(&self) -> BinarySensorConfigView {
        BinarySensorConfigView {
            base: self.base@,
            state_topic: self.state_topic@,
            device_class: option_str_text(self.device_class),
            payload_on: option_text(self.payload_on),
            payload_off: option_text(self.payload_off),
        }
    }
}

impl Clone for BinarySensorConfig {
    fn clone(&self) -> (copy: Self)
        ensures
            copy@ == self@,
    {
        BinarySensorConfig {
            base: self.base.clone(),
            state_topic: self.state_topic.clone(),
            device_class: self.device_class,
            payload_on: clone_option_text(&self.payload_on),
            payload_off: clone_option_text(&self.payload_off),
        }
    }
}

impl BinarySensorConfig {
    /// The publication that announces this sensor to the hub. It depends on
    /// the descriptor and the hub's discovery prefix alone, so announcing
    /// an unchanged descriptor again repeats the same publication.
    pub fn publish(&self, state: &StateStore) -> (publication: Publication)
        ensures
            publication@ == config_publication(self@, state@.hass_disco_prefix),
    {
        publish_entity_config("binary_sensor", state, self)
    }

    /// The publication that reports `value` as the state of this sensor.
    pub fn notify_state(&self, value: &str) -> (publication: Publication)
        ensures
            publication@ == (PublicationView::State {
                topic: self@.state_topic,
                payload: value@,
            }),
    {
        Publication::State { topic: self.state_topic.clone(), payload: String::from_str(value) }
    }
}

/// Whether an alarm is active, given the integer read from its raw state:
/// any integer but zero means active; zero, or no integer at all, inactive.
pub open spec fn is_active(value: Option<i64>) -> bool {
    match value {
        Some(value) => value != 0,
        None => false,
    }
}

/// The state token for an alarm whose raw state holds `value`.
pub open spec fn state_payload_text(value: Option<i64>) -> Seq<char> {
    if is_active(value) {
        "ON"@
    } else {
        "OFF"@
    }
}

/// The state token for an alarm whose raw state holds `value`: `ON` for an
/// integer other than zero, `OFF` for zero and for a state without one.
pub fn state_payload(value: Option<i64>) -> (payload: &'static str)
    ensures
        payload@ == state_payload_text(value),
{
    let active = match value {
        Some(value) => value != 0,
        None => false,
    };
    if active {
        "ON"
    } else {
        "OFF"
    }
}

/// What `sensor` reports when `store` is the state of the fleet: nothing if
/// the device or the capability is not there, else the token for the integer
/// under `/value` of the capability's raw state.
pub open spec fn alarm_notification(
    sensor: AlarmEventSensorView,
    store: StateStoreView,
) -> Option<PublicationView> {
    match store.device(sensor.device_id) {
        None => None,
        Some(device) => match device.capability(sensor.instance_name) {
            None => None,
            Some(capability) => Some(
                PublicationView::State {
                    topic: sensor.sensor.state_topic,
                    payload: state_payload_text(integer_at(capability.state, "/value"@)),
                },
            ),
        },
    }
}

/// A sensor whose device was removed from the store reports nothing.
pub proof fn lemma_removed_device_is_silent(sensor: AlarmEventSensorView, store: StateStoreView)
    requires
        distinct_ids(store.devices),
    ensures
        alarm_notification(sensor, store.without_device(sensor.device_id)) is None,
{
    lemma_without_device_forgets(store, sensor.device_id);
}

/// The publication that announces `config` to a hub that listens under
/// `disco_prefix`.
pub open spec fn config_publication(
    config: BinarySensorConfigView,
    disco_prefix: Seq<char>,
) -> PublicationView {
    PublicationView::Config {
        topic: config_topic_text(disco_prefix, "binary_sensor"@, config.base.unique_id),
        config,
    }
}

/// Announcing is repeatable: descriptors with the same contents, announced
/// to the same hub, give the same publication, topic and descriptor alike.
pub proof fn lemma_publish_repeatable(
    first: BinarySensorConfigView,
    second: BinarySensorConfigView,
    disco_prefix: Seq<char>,
)
    requires
        first == second,
    ensures
        config_publication(first, disco_prefix) == config_publication(second, disco_prefix),
{
}

/// The descriptor of the binary sensor that shows the alarm event `instance`
/// of `device`.
pub open spec fn alarm_event_config(
    device: ServiceDeviceView,
    instance: Seq<char>,
) -> BinarySensorConfigView {
    let kind = classify_text(instance);
    let unique_id = unique_id_text(device.id, instance);
    BinarySensorConfigView {
        base: EntityConfigView {
            availability_topic: availability_topic_text(),
            name: Some(kind.display_name_text()),
            entity_category: Some("diagnostic"@),
            origin: bridge_origin(),
            device: device_link(device),
            unique_id,
            device_class: kind.device_class_text(),
            icon: None,
        },
        state_topic: state_topic_text(unique_id),
        device_class: kind.device_class_text(),
        payload_on: Some("ON"@),
        payload_off: Some("OFF"@),
    }
}

/// The mathematical model of an [`AlarmEventSensor`].
pub struct AlarmEventSensorView {
    pub sensor: BinarySensorConfigView,
    pub device_id: Seq<char>,
    pub instance_name: Seq<char>,
}

/// The sensor for the alarm event `instance` of `device`.
pub open spec fn alarm_event_sensor(
    device: ServiceDeviceView,
    instance: Seq<char>,
) -> AlarmEventSensorView {
    AlarmEventSensorView {
        sensor: alarm_event_config(device, instance),
        device_id: device.id,
        instance_name: instance,
    }
}

/// A binary sensor that is on while an alarm event of a device is active.
///
/// It holds the descriptor and the keys of the capability it shows, never
/// the capability's state: the state is read when it is reported.
#[derive(Debug)]
pub struct AlarmEventSensor {
    sensor: BinarySensorConfig,
    device_id: String,
    instance_name: String,
}

impl View for AlarmEventSensor {
    type V = AlarmEventSensorView;

    closed spec fn view(&self) -> AlarmEventSensorView {
        AlarmEventSensorView {
            sensor: self.sensor@,
            device_id: self.device_id@,
            instance_name: self.instance_name@,
        }
    }
}

impl Clone for AlarmEventSensor {
    fn clone(&self) -> (copy: Self)
        ensures
            copy@ == self@,
    {
        AlarmEventSensor {
            sensor: self.sensor.clone(),
            device_id: self.device_id.clone(),
            instance_name: self.instance_name.clone(),
        }
    }
}

impl AlarmEventSensor {
    /// The sensor for capability `instance` of `device`.
    pub fn new(device: &ServiceDevice, instance: &DeviceCapability) -> (sensor: Self)
        ensures
            sensor@ == alarm_event_sensor(device@, instance@.instance),
    {
        let unique_id = unique_id(device, instance.instance.as_str());
        let kind = classify(instance.instance.as_str());
        let device_class = kind.device_class();
        let name = String::from_str(kind.display_name());
        let base_device_class = match device_class {
            Some(class) => Some(String::from_str(class)),
            None => None,
        };
        AlarmEventSensor {
            sensor: BinarySensorConfig {
                base: EntityConfig {
                    availability_topic: availability_topic(),
                    name: Some(name),
                    entity_category: Some(String::from_str("diagnostic")),
                    origin: Origin::default(),
                    device: Device::for_device(device),
                    unique_id: unique_id.clone(),
                    device_class: base_device_class,
                    icon: None,
                },
                state_topic: state_topic(unique_id.as_str()),
                device_class,
                payload_on: Some(String::from_str("ON")),
                payload_off: Some(String::from_str("OFF")),
            },
            device_id: String::from_str(device.id()),
            instance_name: instance.instance.clone(),
        }
    }

    /// The publication that announces the sensor to the hub.
    pub fn publish_config(&self, state: &StateStore) -> (publication: Publication)
        ensures
            publication@ == config_publication(self@.sensor, state@.hass_disco_prefix),
    {
        self.sensor.publish(state)
    }

    /// The publication that reports the current state of the alarm, read
    /// from `state` at this moment. If the device or its capability is no
    /// longer there, there is nothing to report and nothing is published.
    pub fn notify_state(&self, state: &StateStore) -> (publication: Option<Publication>)
        ensures
            option_publication_view(publication) == alarm_notification(self@, state@),
            state@.device(self@.device_id) is None ==> publication is None,
    {
        let device = match state.device_by_id(self.device_id.as_str()) {
            Some(device) => device,
            None => {
                return None;
            },
        };
        match device.get_state_capability_by_instance(self.instance_name.as_str()) {
            Some(capability) => {
                let value = capability.integer_at("/value");
                Some(self.sensor.notify_state(state_payload(value)))
            },
            None => None,
        }
    }

    /// The descriptor of the sensor.
    pub fn config(&self) -> (config: &BinarySensorConfig)
        ensures
            config@ == self@.sensor,
    {
        &self.sensor
    }

    /// The id of the device whose capability the sensor shows.
    pub fn device_id(&self) -> (id: &str)
        ensures
            id@ == self@.device_id,
    {
        self.device_id.as_str()
    }

    /// The instance name of the capability that the sensor shows.
    pub fn instance_name(&self) -> (name: &str)
        ensures
            name@ == self@.instance_name,
    {
        self.instance_name.as_str()
    }
}

} // verus!
