//! Which entities exist, and what is published for them: everything when the
//! bridge starts, and the affected entity whenever a capability changes.
//!
//! The functions here decide what to write and in which order; sending the
//! writes is left to the caller.

use crate::hass_mqtt::binary_sensor::{
    alarm_event_sensor, alarm_notification, config_publication, lemma_unique_id_injective,
    unique_id_text, AlarmEventSensor, AlarmEventSensorView,
};
use crate::hass_mqtt::instance::{publication_views, Publication, PublicationView};
use crate::platform_api::DeviceCapabilityView;
use crate::service::device::{capability_views, distinct_instances, Device, DeviceView};
use crate::service::state::{
    device_views, distinct_ids, lemma_device_position, lemma_with_capability_reads_back,
    StateStore, StateStoreView,
};
use vstd::prelude::*;

verus! {

/// The models of a list of sensors, in order.
pub open spec fn sensor_views(sensors: Seq<AlarmEventSensor>) -> Seq<AlarmEventSensorView> {
    Seq::new(sensors.len(), |i: int| sensors[i]@)
}

/// The entities of one device: one sensor for each of its capabilities, in
/// the order of the capabilities.
pub open spec fn device_entities(device: DeviceView) -> Seq<AlarmEventSensorView> {
    Seq::new(
        device.capabilities.len(),
        |i: int| alarm_event_sensor(device, device.capabilities[i].instance),
    )
}

/// The entities of a list of devices: those of the first device, then those
/// of the second, and so on.
pub open spec fn all_entities(devices: Seq<DeviceView>) -> Seq<AlarmEventSensorView>
    decreases devices.len(),
{
    if devices.len() == 0 {
        Seq::empty()
    } else {
        all_entities(devices.drop_last()) + device_entities(devices.last())
    }
}

/// No two of `entities` share a unique id.
pub open spec fn distinct_unique_ids(entities: Seq<AlarmEventSensorView>) -> bool {
    forall|m: int, n: int|
        0 <= m < n < entities.len() ==> entities[m].sensor.base.unique_id
            != entities[n].sensor.base.unique_id
}

proof fn lemma_entity_source(devices: Seq<DeviceView>, m: int) -> (k: int)
    requires
        0 <= m < all_entities(devices).len(),
    ensures
        0 <= k < devices.len(),
        all_entities(devices)[m].device_id == devices[k].id,
        all_entities(devices)[m].sensor.base.unique_id == unique_id_text(
            all_entities(devices)[m].device_id,
            all_entities(devices)[m].instance_name,
        ),
    decreases devices.len(),
{
    let earlier = all_entities(devices.drop_last());
    if m < earlier.len() {
        lemma_entity_source(devices.drop_last(), m)
    } else {
        devices.len() - 1
    }
}

/// Among the entities of a fleet in which no two devices share an id and no
/// device has two capabilities of one name, no two entities share a unique
/// id.
pub proof fn lemma_entities_have_distinct_ids(devices: Seq<DeviceView>)
    requires
        distinct_ids(devices),
        forall|k: int| 0 <= k < devices.len() ==> distinct_instances(#[trigger] devices[k].capabilities),
    ensures
        distinct_unique_ids(all_entities(devices)),
    decreases devices.len(),
{
    if devices.len() > 0 {
        let rest = devices.drop_last();
        let last = devices.last();
        let earlier = all_entities(rest);
        let block = device_entities(last);
        let entities = all_entities(devices);
        assert forall|k: int| 0 <= k < rest.len() implies distinct_instances(
            #[trigger] rest[k].capabilities,
        ) by {
            assert(rest[k] == devices[k]);
        }
        lemma_entities_have_distinct_ids(rest);
        assert forall|m: int, n: int| 0 <= m < n < entities.len() implies entities[m].sensor.base.unique_id
            != entities[n].sensor.base.unique_id by {
            if n < earlier.len() {
                assert(entities[m] == earlier[m] && entities[n] == earlier[n]);
            } else {
                let second = block[n - earlier.len()];
                assert(entities[n] == second);
                assert(distinct_instances(devices[devices.len() - 1].capabilities));
                if m < earlier.len() {
                    let k = lemma_entity_source(rest, m);
                    assert(entities[m] == earlier[m]);
                    assert(rest[k] == devices[k]);
                    if entities[m].sensor.base.unique_id == second.sensor.base.unique_id {
                        lemma_unique_id_injective(
                            entities[m].device_id,
                            entities[m].instance_name,
                            second.device_id,
                            second.instance_name,
                        );
                    }
                } else {
                    let first = block[m - earlier.len()];
                    assert(entities[m] == first);
                    if first.sensor.base.unique_id == second.sensor.base.unique_id {
                        lemma_unique_id_injective(
                            first.device_id,
                            first.instance_name,
                            second.device_id,
                            second.instance_name,
                        );
                    }
                }
            }
        }
    }
}

/// The announcements of `entities`, in order.
pub open spec fn config_publications(
    entities: Seq<AlarmEventSensorView>,
    disco_prefix: Seq<char>,
) -> Seq<PublicationView> {
    Seq::new(entities.len(), |i: int| config_publication(entities[i].sensor, disco_prefix))
}

/// The state reports of `entities`, in order; an entity whose device or
/// capability `store` does not know reports nothing.
pub open spec fn state_publications(
    entities: Seq<AlarmEventSensorView>,
    store: StateStoreView,
) -> Seq<PublicationView>
    decreases entities.len(),
{
    if entities.len() == 0 {
        Seq::empty()
    } else {
        let earlier = state_publications(entities.drop_last(), store);
        match alarm_notification(entities.last(), store) {
            Some(publication) => earlier.push(publication),
            None => earlier,
        }
    }
}

/// What is published when the bridge starts: the announcements of all
/// entities, then their state reports.
pub open spec fn startup_plan(store: StateStoreView) -> Seq<PublicationView> {
    let entities = all_entities(store.devices);
    config_publications(entities, store.hass_disco_prefix) + state_publications(entities, store)
}

/// Whether `announcement` is the descriptor of the entity that `report`
/// reports the state of.
pub open spec fn announces(announcement: PublicationView, report: PublicationView) -> bool {
    match (announcement, report) {
        (PublicationView::Config { config, .. }, PublicationView::State { topic, .. }) => {
            config.state_topic == topic
        },
        _ => false,
    }
}

proof fn lemma_state_publication_source(
    entities: Seq<AlarmEventSensorView>,
    store: StateStoreView,
    k: int,
) -> (m: int)
    requires
        0 <= k < state_publications(entities, store).len(),
    ensures
        0 <= m < entities.len(),
        alarm_notification(entities[m], store) == Some(state_publications(entities, store)[k]),
    decreases entities.len(),
{
    let earlier = state_publications(entities.drop_last(), store);
    if k < earlier.len() {
        lemma_state_publication_source(entities.drop_last(), store, k)
    } else {
        entities.len() - 1
    }
}

/// When the bridge starts, every state report comes after the announcement
/// of the entity that it reports for.
pub proof fn lemma_config_precedes_state(store: StateStoreView, j: int)
    requires
        0 <= j < startup_plan(store).len(),
        startup_plan(store)[j] is State,
    ensures
        exists|i: int| 0 <= i < j && announces(#[trigger] startup_plan(store)[i], startup_plan(store)[j]),
{
    let entities = all_entities(store.devices);
    let configs = config_publications(entities, store.hass_disco_prefix);
    let reports = state_publications(entities, store);
    let plan = startup_plan(store);
    if j < configs.len() {
        assert(plan[j] == configs[j]);
    } else {
        assert(plan[j] == reports[j - configs.len()]);
        let m = lemma_state_publication_source(entities, store, j - configs.len());
        assert(plan[m] == configs[m]);
        assert(announces(plan[m], plan[j]));
    }
}

/// Whether `store` holds a capability `instance` for the device `id`.
pub open spec fn knows(store: StateStoreView, id: Seq<char>, instance: Seq<char>) -> bool {
    match store.device(id) {
        Some(device) => device.capability(instance) is Some,
        None => false,
    }
}

/// What is published when `capability` is reported for the device `id`
/// while the fleet is in state `before`: the state report of the entity that
/// shows the capability, and ahead of it the entity's announcement if the
/// capability was not known before.
pub open spec fn event_plan(
    before: StateStoreView,
    id: Seq<char>,
    capability: DeviceCapabilityView,
) -> Seq<PublicationView> {
    let after = before.with_capability(id, capability);
    match after.device(id) {
        None => Seq::empty(),
        Some(device) => match device.capability(capability.instance) {
            None => Seq::empty(),
            Some(found) => {
                let sensor = alarm_event_sensor(device, found.instance);
                let announcement = if knows(before, id, capability.instance) {
                    Seq::empty()
                } else {
                    seq![config_publication(sensor.sensor, after.hass_disco_prefix)]
                };
                match alarm_notification(sensor, after) {
                    Some(report) => announcement.push(report),
                    None => announcement,
                }
            },
        },
    }
}

/// An event for a capability that was not known before is answered by the
/// entity's announcement and then its state report; an event for a known
/// capability by the state report alone.
pub proof fn lemma_event_plan_shape(
    before: StateStoreView,
    id: Seq<char>,
    capability: DeviceCapabilityView,
)
    ensures
        ({
            let plan = event_plan(before, id, capability);
            if knows(before, id, capability.instance) {
                plan.len() == 1 && plan[0] is State
            } else {
                plan.len() == 2 && announces(plan[0], plan[1])
            }
        }),
{
    let after = before.with_capability(id, capability);
    lemma_with_capability_reads_back(before, id, capability);
    lemma_device_position(after.devices, id);
    let device = after.device(id)->0;
    assert(device.id == id);
    let sensor = alarm_event_sensor(device, capability.instance);
    assert(alarm_notification(sensor, after) is Some);
}

/// The sensors for the capabilities of `device`.
pub fn enumerate_entities_for_device(device: &Device) -> (sensors: Vec<AlarmEventSensor>)
    ensures
        sensor_views(sensors@) == device_entities(device@),
        distinct_instances(device@.capabilities),
{
    let capabilities = device.capabilities();
    let mut sensors: Vec<AlarmEventSensor> = Vec::new();
    let mut i: usize = 0;
    while i < capabilities.len()
        invariant
            i <= capabilities.len(),
            capability_views(capabilities@) == device@.capabilities,
            sensor_views(sensors@) == device_entities(device@).take(i as int),
        decreases capabilities.len() - i,
    {
        let ghost earlier = sensor_views(sensors@);
        let sensor = AlarmEventSensor::new(device, &capabilities[i]);
        proof {
            assert(capability_views(capabilities@)[i as int] == capabilities@[i as int]@);
        }
        sensors.push(sensor);
        assert(sensor_views(sensors@) =~= earlier.push(sensor@));
        assert(sensor_views(sensors@) =~= device_entities(device@).take(i + 1));
        i = i + 1;
    }
    assert(sensor_views(sensors@) =~= device_entities(device@));
    sensors
}

/// The sensors for all capabilities of all known devices. No two of them
/// share a unique id.
pub fn enumerate_all_entities(state: &StateStore) -> (sensors: Vec<AlarmEventSensor>)
    ensures
        sensor_views(sensors@) == all_entities(state@.devices),
        distinct_unique_ids(sensor_views(sensors@)),
{
    let devices = state.devices();
    let mut sensors: Vec<AlarmEventSensor> = Vec::new();
    let mut i: usize = 0;
    assert(device_views(devices@).take(0) =~= Seq::empty());
    while i < devices.len()
        invariant
            i <= devices.len(),
            device_views(devices@) == state@.devices,
            sensor_views(sensors@) == all_entities(device_views(devices@).take(i as int)),
            forall|k: int|
                0 <= k < i ==> distinct_instances(
                    #[trigger] device_views(devices@)[k].capabilities,
                ),
        decreases devices.len() - i,
    {
        let ghost earlier = sensor_views(sensors@);
        let mut more = enumerate_entities_for_device(&devices[i]);
        let ghost added = sensor_views(more@);
        sensors.append(&mut more);
        proof {
            let seen = device_views(devices@).take(i + 1);
            assert(seen.drop_last() =~= device_views(devices@).take(i as int));
            assert(seen.last() == devices@[i as int]@);
            assert(sensor_views(sensors@) =~= earlier + added);
        }
        i = i + 1;
    }
    proof {
        assert(device_views(devices@).take(devices@.len() as int) =~= device_views(devices@));
        lemma_entities_have_distinct_ids(state@.devices);
    }
    sensors
}

/// The announcements of `sensors`, in order.
pub fn publish_configs(sensors: &Vec<AlarmEventSensor>, state: &StateStore) -> (publications: Vec<
    Publication,
>)
    ensures
        publication_views(publications@) == config_publications(
            sensor_views(sensors@),
            state@.hass_disco_prefix,
        ),
{
    let mut publications: Vec<Publication> = Vec::new();
    let mut i: usize = 0;
    while i < sensors.len()
        invariant
            i <= sensors.len(),
            publication_views(publications@) == config_publications(
                sensor_views(sensors@),
                state@.hass_disco_prefix,
            ).take(i as int),
        decreases sensors.len() - i,
    {
        let ghost earlier = publication_views(publications@);
        let publication = sensors[i].publish_config(state);
        publications.push(publication);
        assert(publication_views(publications@) =~= earlier.push(publication@));
        assert(publication_views(publications@) =~= config_publications(
            sensor_views(sensors@),
            state@.hass_disco_prefix,
        ).take(i + 1));
        i = i + 1;
    }
    assert(publication_views(publications@) =~= config_publications(
        sensor_views(sensors@),
        state@.hass_disco_prefix,
    ));
    publications
}

/// The state reports of `sensors`, in order, read from `state` now.
pub fn notify_states(sensors: &Vec<AlarmEventSensor>, state: &StateStore) -> (publications: Vec<
    Publication,
>)
    ensures
        publication_views(publications@) == state_publications(sensor_views(sensors@), state@),
{
    let mut publications: Vec<Publication> = Vec::new();
    let mut i: usize = 0;
    assert(sensor_views(sensors@).take(0) =~= Seq::empty());
    assert(publication_views(publications@) =~= Seq::empty());
    while i < sensors.len()
        invariant
            i <= sensors.len(),
            publication_views(publications@) == state_publications(
                sensor_views(sensors@).take(i as int),
                state@,
            ),
        decreases sensors.len() - i,
    {
        let ghost earlier = publication_views(publications@);
        proof {
            let seen = sensor_views(sensors@).take(i + 1);
            assert(seen.drop_last() =~= sensor_views(sensors@).take(i as int));
            assert(seen.last() == sensors@[i as int]@);
        }
        match sensors[i].notify_state(state) {
            Some(publication) => {
                publications.push(publication);
                assert(publication_views(publications@) =~= earlier.push(publication@));
            },
            None => {},
        }
        i = i + 1;
    }
    assert(sensor_views(sensors@).take(sensors@.len() as int) =~= sensor_views(sensors@));
    publications
}

/// What to publish when the bridge starts: every entity is announced before
/// any state is reported.
pub fn startup_publications(state: &StateStore) -> (publications: Vec<Publication>)
    ensures
        publication_views(publications@) == startup_plan(state@),
{
    let sensors = enumerate_all_entities(state);
    let mut publications = publish_configs(&sensors, state);
    let ghost configs = publication_views(publications@);
    let mut states = notify_states(&sensors, state);
    let ghost reports = publication_views(states@);
    publications.append(&mut states);
    assert(publication_views(publications@) =~= configs + reports);
    publications
}

/// Records that `raw_state` was reported for capability `instance` of the
/// device `device_id`, and says what to publish for it.
pub fn capability_changed(
    state: &mut StateStore,
    device_id: &str,
    instance: &str,
    raw_state: serde_json::Value,
) -> (publications: Vec<Publication>)
    ensures
        final(state)@ == old(state)@.with_capability(
            device_id@,
            DeviceCapabilityView { instance: instance@, state: raw_state },
        ),
        publication_views(publications@) == event_plan(
            old(state)@,
            device_id@,
            DeviceCapabilityView { instance: instance@, state: raw_state },
        ),
{
    let known = match state.device_by_id(device_id) {
        Some(device) => device.get_state_capability_by_instance(instance).is_some(),
        None => false,
    };
    state.upsert_capability(device_id, instance, raw_state);
    let mut publications: Vec<Publication> = Vec::new();
    assert(publication_views(publications@) =~= Seq::empty());
    match state.device_by_id(device_id) {
        Some(device) => {
            match device.get_state_capability_by_instance(instance) {
                Some(capability) => {
                    let sensor = AlarmEventSensor::new(&device, capability);
                    if !known {
                        let announcement = sensor.publish_config(state);
                        publications.push(announcement);
                        assert(publication_views(publications@) =~= seq![announcement@]);
                    }
                    let ghost earlier = publication_views(publications@);
                    match sensor.notify_state(state) {
                        Some(report) => {
                            publications.push(report);
                            assert(publication_views(publications@) =~= earlier.push(report@));
                        },
                        None => {},
                    }
                },
                None => {},
            }
        },
        None => {},
    }
    publications
}

} // verus!
