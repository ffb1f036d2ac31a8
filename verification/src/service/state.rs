//! The registry of all known devices: the one source of truth that entities
//! read from when they report.

use crate::platform_api::DeviceCapabilityView;
use crate::service::device::{
    capability_position, lemma_capability_position, Device, DeviceView,
};
use crate::text::{chars_of, spells};
use vstd::prelude::*;

verus! {

/// The models of a list of devices, in order.
pub open spec fn device_views(devices: Seq<Device>) -> Seq<DeviceView> {
    Seq::new(devices.len(), |i: int| devices[i]@)
}

/// No two devices bear the same id.
pub open spec fn distinct_ids(devices: Seq<DeviceView>) -> bool {
    forall|i: int, j: int| 0 <= i < j < devices.len() ==> devices[i].id != devices[j].id
}

/// The position of the first device whose id is `id`, or the length of the
/// list if none bears that id.
pub open spec fn device_position(devices: Seq<DeviceView>, id: Seq<char>) -> int
    decreases devices.len(),
{
    if devices.len() == 0 {
        0
    } else if devices[0].id == id {
        0
    } else {
        1 + device_position(devices.drop_first(), id)
    }
}

/// `device_position` is the least position that bears the id.
pub proof fn lemma_device_position(devices: Seq<DeviceView>, id: Seq<char>)
    ensures
        0 <= device_position(devices, id) <= devices.len(),
        device_position(devices, id) < devices.len() ==> devices[device_position(
            devices,
            id,
        )].id == id,
        forall|k: int| 0 <= k < device_position(devices, id) ==> devices[k].id != id,
    decreases devices.len(),
{
    if devices.len() > 0 && devices[0].id != id {
        let rest = devices.drop_first();
        lemma_device_position(rest, id);
        assert forall|k: int| 0 <= k < device_position(devices, id) implies devices[k].id
            != id by {
            if k > 0 {
                assert(devices[k] == rest[k - 1]);
            }
        }
    }
}

/// The mathematical model of a [`StateStore`].
pub struct StateStoreView {
    pub hass_disco_prefix: Seq<char>,
    pub devices: Seq<DeviceView>,
}

impl StateStoreView {
    /// The device whose id is `id`, if it is known.
    pub open spec fn device(self, id: Seq<char>) -> Option<DeviceView> {
        let position = device_position(self.devices, id);
        if position < self.devices.len() {
            Some(self.devices[position])
        } else {
            None
        }
    }

    /// The store after `device` was recorded: it replaces the device of the
    /// same id in place, or joins the list at its end.
    pub open spec fn with_device(self, device: DeviceView) -> StateStoreView {
        let position = device_position(self.devices, device.id);
        StateStoreView {
            devices: if position < self.devices.len() {
                self.devices.update(position, device)
            } else {
                self.devices.push(device)
            },
            ..self
        }
    }

    /// The device that a capability report for `id` is recorded in: the known
    /// device of that id, or a new one that is named after its id.
    pub open spec fn device_or_new(self, id: Seq<char>) -> DeviceView {
        match self.device(id) {
            Some(device) => device,
            None => DeviceView { id, name: id, sku: Seq::empty(), capabilities: Seq::empty() },
        }
    }

    /// The store after `capability` was reported for the device `id`.
    pub open spec fn with_capability(
        self,
        id: Seq<char>,
        capability: DeviceCapabilityView,
    ) -> StateStoreView {
        self.with_device(self.device_or_new(id).with_capability(capability))
    }

    /// The store after the device `id` was removed.
    pub open spec fn without_device(self, id: Seq<char>) -> StateStoreView {
        let position = device_position(self.devices, id);
        StateStoreView {
            devices: if position < self.devices.len() {
                self.devices.remove(position)
            } else {
                self.devices
            },
            ..self
        }
    }
}

/// Once a device is removed, the store no longer knows its id.
pub proof fn lemma_without_device_forgets(store: StateStoreView, id: Seq<char>)
    requires
        distinct_ids(store.devices),
    ensures
        store.without_device(id).device(id) is None,
{
    let before = store.devices;
    let after = store.without_device(id).devices;
    let position = device_position(before, id);
    lemma_device_position(before, id);
    lemma_device_position(after, id);
    let k = device_position(after, id);
    if k < after.len() && position < before.len() {
        assert(after[k] == before[if k < position { k } else { k + 1 }]);
    }
}

/// A reported capability is what the store reads back for its device and
/// instance name.
pub proof fn lemma_with_capability_reads_back(
    store: StateStoreView,
    id: Seq<char>,
    capability: DeviceCapabilityView,
)
    ensures
        store.with_capability(id, capability).device(id) is Some,
        store.with_capability(id, capability).device(id)->0.capability(capability.instance)
            == Some(capability),
{
    let device = store.device_or_new(id);
    let updated = device.with_capability(capability);
    let after = store.with_capability(id, capability);
    lemma_device_position(store.devices, id);
    lemma_device_position(after.devices, id);
    assert(device.id == id);
    assert(updated.id == id);
    let position = device_position(store.devices, id);
    assert(after.devices[position] == updated);
    assert(device_position(after.devices, id) == position) by {
        assert forall|k: int| 0 <= k < position implies after.devices[k].id != id by {
            assert(after.devices[k] == store.devices[k]);
        }
    }
    lemma_capability_position(device.capabilities, capability.instance);
    lemma_capability_position(updated.capabilities, capability.instance);
    let slot = capability_position(device.capabilities, capability.instance);
    assert(updated.capabilities[slot] == capability);
    assert(capability_position(updated.capabilities, capability.instance) == slot) by {
        assert forall|k: int| 0 <= k < slot implies updated.capabilities[k].instance
            != capability.instance by {
            assert(updated.capabilities[k] == device.capabilities[k]);
        }
    }
}

/// Reporting a capability of one device leaves what the store knows of every
/// other device as it was.
pub proof fn lemma_with_capability_keeps_other_devices(
    store: StateStoreView,
    id: Seq<char>,
    capability: DeviceCapabilityView,
    other: Seq<char>,
)
    requires
        other != id,
    ensures
        store.with_capability(id, capability).device(other) == store.device(other),
{
    let before = store.devices;
    let after = store.with_capability(id, capability).devices;
    let slot = device_position(before, id);
    lemma_device_position(before, id);
    lemma_device_position(before, other);
    lemma_device_position(after, other);
    let found = device_position(before, other);
    assert(after[slot].id == id);
    assert forall|k: int| 0 <= k < found implies after[k].id != other by {
        if k != slot {
            assert(after[k] == before[k]);
        }
    }
    if found < before.len() {
        assert(after[found] == before[found]);
    } else {
        assert forall|k: int| 0 <= k < after.len() implies after[k].id != other by {
            if k != slot {
                assert(after[k] == before[k]);
            }
        }
    }
}

/// The registry of known devices, in the order in which they were first
/// seen, and the discovery prefix of the hub. No two devices bear the same
/// id.
#[derive(Debug)]
pub struct StateStore {
    hass_disco_prefix: String,
    devices: Vec<Device>,
}

impl View for StateStore {
    type V = StateStoreView;

    closed spec fn view(&self) -> StateStoreView {
        StateStoreView {
            hass_disco_prefix: self.hass_disco_prefix@,
            devices: device_views(self.devices@),
        }
    }
}

impl StateStore {
    #[verifier::type_invariant]
    spec fn well_formed(self) -> bool {
        distinct_ids(device_views(self.devices@))
    }

    /// An empty store for a hub that listens under `hass_disco_prefix`.
    pub fn new(hass_disco_prefix: &str) -> (store: Self)
        ensures
            store@ == (StateStoreView {
                hass_disco_prefix: hass_disco_prefix@,
                devices: Seq::empty(),
            }),
    {
        let store = StateStore {
            hass_disco_prefix: String::from_str(hass_disco_prefix),
            devices: Vec::new(),
        };
        assert(device_views(store.devices@) =~= Seq::empty());
        store
    }

    /// The topic prefix under which the hub listens for descriptors.
    pub fn get_hass_disco_prefix(&self) -> (prefix: &str)
        ensures
            prefix@ == self@.hass_disco_prefix,
    {
        self.hass_disco_prefix.as_str()
    }

    /// The known devices, no two of them under one id.
    pub fn devices(&self) -> (devices: &Vec<Device>)
        ensures
            device_views(devices@) == self@.devices,
            distinct_ids(self@.devices),
    {
        proof {
            use_type_invariant(self);
        }
        &self.devices
    }

    fn position(devices: &Vec<Device>, id: &str) -> (position: usize)
        ensures
            position == device_position(device_views(devices@), id@),
            position <= devices.len(),
    {
        let wanted = chars_of(id);
        let ghost views = device_views(devices@);
        let mut i: usize = 0;
        while i < devices.len()
            invariant
                i <= devices.len(),
                wanted@ == id@,
                views == device_views(devices@),
                forall|k: int| 0 <= k < i ==> views[k].id != id@,
            decreases devices.len() - i,
        {
            proof {
                assert(views[i as int] == devices@[i as int]@);
            }
            if spells(&wanted, devices[i].id()) {
                proof {
                    lemma_device_position(views, id@);
                }
                return i;
            }
            i = i + 1;
        }
        proof {
            lemma_device_position(views, id@);
        }
        i
    }

    /// A snapshot of the device whose id is `id`, if it is known. The
    /// snapshot is a copy: later changes of the store do not show in it.
    pub fn device_by_id(&self, id: &str) -> (found: Option<Device>)
        ensures
            match found {
                Some(device) => self@.device(id@) == Some(device@),
                None => self@.device(id@) is None,
            },
    {
        let position = Self::position(&self.devices, id);
        if position < self.devices.len() {
            Some(self.devices[position].clone())
        } else {
            None
        }
    }

    /// Records `device`, in place of the known device of the same id if there
    /// is one.
    pub fn upsert_device(&mut self, device: Device)
        ensures
            final(self)@ == old(self)@.with_device(device@),
            distinct_ids(final(self)@.devices),
    {
        proof {
            use_type_invariant(&*self);
        }
        let mut devices: Vec<Device> = Vec::new();
        std::mem::swap(&mut devices, &mut self.devices);
        let ghost before = device_views(devices@);
        let position = Self::position(&devices, device.id());
        proof {
            lemma_device_position(before, device@.id);
        }
        if position < devices.len() {
            devices.set(position, device);
            assert(device_views(devices@) =~= before.update(position as int, device@));
        } else {
            devices.push(device);
            assert(device_views(devices@) =~= before.push(device@));
        }
        self.devices = devices;
    }

    /// Records the latest raw state of capability `instance` of the device
    /// `device_id`. A device that was not known before is known afterwards.
    pub fn upsert_capability(
        &mut self,
        device_id: &str,
        instance: &str,
        raw_state: serde_json::Value,
    )
        ensures
            final(self)@ == old(self)@.with_capability(
                device_id@,
                DeviceCapabilityView { instance: instance@, state: raw_state },
            ),
            distinct_ids(final(self)@.devices),
    {
        proof {
            use_type_invariant(&*self);
            reveal_strlit("");
            assert(""@ =~= Seq::<char>::empty());
        }
        let mut devices: Vec<Device> = Vec::new();
        std::mem::swap(&mut devices, &mut self.devices);
        let ghost before = device_views(devices@);
        let position = Self::position(&devices, device_id);
        proof {
            lemma_device_position(before, device_id@);
        }
        if position < devices.len() {
            devices[position].set_capability(instance, raw_state);
            assert(device_views(devices@) =~= before.update(
                position as int,
                devices@[position as int]@,
            ));
        } else {
            let mut device = Device::new(device_id, device_id, "");
            device.set_capability(instance, raw_state);
            devices.push(device);
            assert(device_views(devices@) =~= before.push(device@));
        }
        self.devices = devices;
    }

    /// Forgets the device whose id is `id`. Returns whether it was known.
    pub fn remove_device(&mut self, id: &str) -> (removed: bool)
        ensures
            final(self)@ == old(self)@.without_device(id@),
            removed == (old(self)@.device(id@) is Some),
            final(self)@.device(id@) is None,
            distinct_ids(final(self)@.devices),
    {
        proof {
            use_type_invariant(&*self);
        }
        let mut devices: Vec<Device> = Vec::new();
        std::mem::swap(&mut devices, &mut self.devices);
        let ghost before = device_views(devices@);
        let position = Self::position(&devices, id);
        proof {
            lemma_device_position(before, id@);
        }
        let removed = position < devices.len();
        if removed {
            let _ = devices.remove(position);
            assert(device_views(devices@) =~= before.remove(position as int));
        }
        proof {
            let after = device_views(devices@);
            lemma_device_position(after, id@);
            if device_position(after, id@) < after.len() {
                let k = device_position(after, id@);
                if removed {
                    assert(after[k] == before[if k < position { k } else { k + 1 }]);
                }
            }
        }
        self.devices = devices;
        removed
    }
}

} // verus!
