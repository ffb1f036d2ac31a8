//! A device of the vendor fleet with its capabilities.

use crate::platform_api::{DeviceCapability, DeviceCapabilityView};
use crate::text::{chars_of, spells};
use vstd::prelude::*;

verus! {

/// The models of a list of capabilities, in order.
pub open spec fn capability_views(capabilities: Seq<DeviceCapability>) -> Seq<
    DeviceCapabilityView,
> {
    Seq::new(capabilities.len(), |i: int| capabilities[i]@)
}

/// No two capabilities bear the same instance name.
pub open spec fn distinct_instances(capabilities: Seq<DeviceCapabilityView>) -> bool {
    forall|i: int, j: int|
        0 <= i < j < capabilities.len() ==> capabilities[i].instance != capabilities[j].instance
}

/// The position of the first capability named `instance`, or the length of
/// the list if none bears that name.
pub open spec fn capability_position(
    capabilities: Seq<DeviceCapabilityView>,
    instance: Seq<char>,
) -> int
    decreases capabilities.len(),
{
    if capabilities.len() == 0 {
        0
    } else if capabilities[0].instance == instance {
        0
    } else {
        1 + capability_position(capabilities.drop_first(), instance)
    }
}

/// `capability_position` is the least position that bears the name.
pub proof fn lemma_capability_position(
    capabilities: Seq<DeviceCapabilityView>,
    instance: Seq<char>,
)
    ensures
        0 <= capability_position(capabilities, instance) <= capabilities.len(),
        capability_position(capabilities, instance) < capabilities.len()
            ==> capabilities[capability_position(capabilities, instance)].instance == instance,
        forall|k: int|
            0 <= k < capability_position(capabilities, instance)
                ==> capabilities[k].instance != instance,
    decreases capabilities.len(),
{
    if capabilities.len() > 0 && capabilities[0].instance != instance {
        let rest = capabilities.drop_first();
        lemma_capability_position(rest, instance);
        assert forall|k: int|
            0 <= k < capability_position(capabilities, instance) implies capabilities[k].instance
            != instance by {
            if k > 0 {
                assert(capabilities[k] == rest[k - 1]);
            }
        }
    }
}

/// The mathematical model of a [`Device`].
pub struct DeviceView {
    pub id: Seq<char>,
    pub name: Seq<char>,
    pub sku: Seq<char>,
    pub capabilities: Seq<DeviceCapabilityView>,
}

impl DeviceView {
    /// The capability named `instance`, if the device has one.
    pub open spec fn capability(self, instance: Seq<char>) -> Option<DeviceCapabilityView> {
        let position = capability_position(self.capabilities, instance);
        if position < self.capabilities.len() {
            Some(self.capabilities[position])
        } else {
            None
        }
    }

    /// The device after `capability` was reported: it replaces the capability
    /// of the same name in place, or joins the list at its end.
    pub open spec fn with_capability(self, capability: DeviceCapabilityView) -> DeviceView {
        let position = capability_position(self.capabilities, capability.instance);
        DeviceView {
            capabilities: if position < self.capabilities.len() {
                self.capabilities.update(position, capability)
            } else {
                self.capabilities.push(capability)
            },
            ..self
        }
    }
}

/// Reporting a capability leaves the capabilities of every other name as they
/// were.
pub proof fn lemma_with_capability_keeps_other_instances(
    device: DeviceView,
    capability: DeviceCapabilityView,
    other: Seq<char>,
)
    requires
        other != capability.instance,
    ensures
        device.with_capability(capability).capability(other) == device.capability(other),
{
    let before = device.capabilities;
    let after = device.with_capability(capability).capabilities;
    let slot = capability_position(before, capability.instance);
    lemma_capability_position(before, capability.instance);
    lemma_capability_position(before, other);
    lemma_capability_position(after, other);
    let found = capability_position(before, other);
    assert forall|k: int| 0 <= k < found implies after[k].instance != other by {
        if k != slot {
            assert(after[k] == before[k]);
        }
    }
    if found < before.len() {
        assert(after[found] == before[found]);
    } else {
        assert forall|k: int| 0 <= k < after.len() implies after[k].instance != other by {
            if k != slot {
                assert(after[k] == before[k]);
            }
        }
    }
}

/// A device: its stable id, its display metadata, and its capabilities in the
/// order in which they were first reported. No two of its capabilities bear
/// the same instance name.
#[derive(Debug)]
pub struct Device {
    id: String,
    name: String,
    sku: String,
    capabilities: Vec<DeviceCapability>,
}

impl View for Device {
    type V = DeviceView;

    closed spec fn view(&self) -> DeviceView {
        DeviceView {
            id: self.id@,
            name: self.name@,
            sku: self.sku@,
            capabilities: capability_views(self.capabilities@),
        }
    }
}

impl Device {
    #[verifier::type_invariant]
    spec fn well_formed(self) -> bool {
        distinct_instances(capability_views(self.capabilities@))
    }

    /// A device without capabilities.
    pub fn new(id: &str, name: &str, sku: &str) -> (device: Self)
        ensures
            device@ == (DeviceView {
                id: id@,
                name: name@,
                sku: sku@,
                capabilities: Seq::empty(),
            }),
    {
        let device = Device {
            id: String::from_str(id),
            name: String::from_str(name),
            sku: String::from_str(sku),
            capabilities: Vec::new(),
        };
        assert(capability_views(device.capabilities@) =~= Seq::empty());
        device
    }

    /// The stable id of the device.
    pub fn id(&self) -> (id: &str)
        ensures
            id@ == self@.id,
    {
        self.id.as_str()
    }

    /// The display name of the device.
    pub fn name(&self) -> (name: &str)
        ensures
            name@ == self@.name,
    {
        self.name.as_str()
    }

    /// The model designation of the device.
    pub fn sku(&self) -> (sku: &str)
        ensures
            sku@ == self@.sku,
    {
        self.sku.as_str()
    }

    /// The capabilities of the device, no two of them under one name.
    pub fn capabilities(&self) -> (capabilities: &Vec<DeviceCapability>)
        ensures
            capability_views(capabilities@) == self@.capabilities,
            distinct_instances(self@.capabilities),
    {
        proof {
            use_type_invariant(self);
        }
        &self.capabilities
    }

    fn position(capabilities: &Vec<DeviceCapability>, instance: &str) -> (position: usize)
        ensures
            position == capability_position(capability_views(capabilities@), instance@),
    {
        let wanted = chars_of(instance);
        let ghost views = capability_views(capabilities@);
        let mut i: usize = 0;
        while i < capabilities.len()
            invariant
                i <= capabilities.len(),
                wanted@ == instance@,
                views == capability_views(capabilities@),
                forall|k: int| 0 <= k < i ==> views[k].instance != instance@,
            decreases capabilities.len() - i,
        {
            if spells(&wanted, capabilities[i].instance.as_str()) {
                proof {
                    assert(views[i as int] == capabilities@[i as int]@);
                    lemma_capability_position(views, instance@);
                }
                return i;
            }
            proof {
                assert(views[i as int] == capabilities@[i as int]@);
            }
            i = i + 1;
        }
        proof {
            lemma_capability_position(views, instance@);
        }
        i
    }

    /// The capability named `instance`, if the device has one.
    pub fn get_state_capability_by_instance(&self, instance: &str) -> (found: Option<
        &DeviceCapability,
    >)
        ensures
            match found {
                Some(capability) => self@.capability(instance@) == Some(capability@),
                None => self@.capability(instance@) is None,
            },
    {
        let position = Self::position(&self.capabilities, instance);
        if position < self.capabilities.len() {
            Some(&self.capabilities[position])
        } else {
            None
        }
    }

    /// Records the latest raw state of the capability named `instance`.
    pub fn set_capability(&mut self, instance: &str, state: serde_json::Value)
        ensures
            final(self)@ == old(self)@.with_capability(
                DeviceCapabilityView { instance: instance@, state },
            ),
            distinct_instances(final(self)@.capabilities),
    {
        proof {
            use_type_invariant(&*self);
        }
        let mut capabilities: Vec<DeviceCapability> = Vec::new();
        std::mem::swap(&mut capabilities, &mut self.capabilities);
        let ghost before = capability_views(capabilities@);
        let position = Self::position(&capabilities, instance);
        proof {
            lemma_capability_position(before, instance@);
        }
        let capability = DeviceCapability::new(instance, state);
        if position < capabilities.len() {
            capabilities.set(position, capability);
            assert(capability_views(capabilities@) =~= before.update(
                position as int,
                capability@,
            ));
        } else {
            capabilities.push(capability);
            assert(capability_views(capabilities@) =~= before.push(capability@));
        }
        self.capabilities = capabilities;
    }
}

impl Clone for Device {
    fn clone(&self) -> (copy: Self)
        ensures
            copy@ == self@,
    {
        proof {
            use_type_invariant(self);
        }
        let mut capabilities: Vec<DeviceCapability> = Vec::new();
        let mut i: usize = 0;
        while i < self.capabilities.len()
            invariant
                i <= self.capabilities.len(),
                capability_views(capabilities@) == capability_views(self.capabilities@).take(
                    i as int,
                ),
            decreases self.capabilities.len() - i,
        {
            let ghost copied = capability_views(capabilities@);
            let capability = self.capabilities[i].clone();
            capabilities.push(capability);
            assert(capability_views(capabilities@) =~= copied.push(self.capabilities@[i as int]@));
            assert(capability_views(capabilities@) =~= capability_views(
                self.capabilities@,
            ).take(i + 1));
            i = i + 1;
        }
        assert(capability_views(capabilities@) =~= capability_views(self.capabilities@));
        Device {
            id: self.id.clone(),
            name: self.name.clone(),
            sku: self.sku.clone(),
            capabilities,
        }
    }
}

} // verus!
