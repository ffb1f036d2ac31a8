//! The part of a discovery descriptor that every entity family shares.

use crate::service::device::{Device as ServiceDevice, DeviceView as ServiceDeviceView};
use crate::service::hass::{topic_safe_id, topic_safe_text};
use crate::text::{clone_option_text, clone_texts, option_text, text_views};
use vstd::prelude::*;

verus! {

/// Which software published a descriptor.
#[derive(Debug, PartialEq, Eq)]
pub struct Origin {
    pub name: String,
    pub sw_version: String,
}

/// The mathematical model of an [`Origin`].
pub struct OriginView {
    pub name: Seq<char>,
    pub sw_version: Seq<char>,
}

impl View for Origin {
    type V = OriginView;

    open spec fn view(&self) -> OriginView {
        OriginView { name: self.name@, sw_version: self.sw_version@ }
    }
}

/// The origin that this bridge states in every descriptor.
pub open spec fn bridge_origin() -> OriginView {
    OriginView { name: "gv2mqtt"@, sw_version: "0.1.0"@ }
}

impl Default for Origin {
    fn default() -> (origin: Self)
        ensures
            origin@ == bridge_origin(),
    {
        Origin { name: String::from_str("gv2mqtt"), sw_version: String::from_str("0.1.0") }
    }
}

impl Clone for Origin {
    fn clone(&self) -> (copy: Self)
        ensures
            copy@ == self@,
    {
        Origin { name: self.name.clone(), sw_version: self.sw_version.clone() }
    }
}

/// How the hub links an entity to the physical device it belongs to.
#[derive(Debug, PartialEq, Eq)]
pub struct Device {
    pub name: String,
    pub model: String,
    pub identifiers: Vec<String>,
    pub via_device: Option<String>,
}

/// The mathematical model of a device linkage.
pub struct DeviceView {
    pub name: Seq<char>,
    pub model: Seq<char>,
    pub identifiers: Seq<Seq<char>>,
    pub via_device: Option<Seq<char>>,
}

impl View for Device {
    type V = DeviceView;

    open spec fn view(&self) -> DeviceView {
        DeviceView {
            name: self.name@,
            model: self.model@,
            identifiers: text_views(self.identifiers@),
            via_device: option_text(self.via_device),
        }
    }
}

/// The linkage of `device`: its display name and model, one identifier made
/// of the bridge's namespace and the safe form of the device id, and the
/// bridge itself as the device it is reached through.
pub open spec fn device_link(device: ServiceDeviceView) -> DeviceView {
    DeviceView {
        name: device.name,
        model: device.sku,
        identifiers: seq!["gv2mqtt-"@ + topic_safe_text(device.id)],
        via_device: Some("gv2mqtt"@),
    }
}

impl Device {
    /// The linkage that descriptors of `device`'s entities carry.
    pub fn for_device(device: &ServiceDevice) -> (link: Self)
        ensures
            link@ == device_link(device@),
    {
        let mut identifier = String::from_str("gv2mqtt-");
        identifier.append(topic_safe_id(device).as_str());
        let mut identifiers: Vec<String> = Vec::new();
        identifiers.push(identifier);
        assert(text_views(identifiers@) =~= seq!["gv2mqtt-"@ + topic_safe_text(device@.id)]);
        Device {
            name: String::from_str(device.name()),
            model: String::from_str(device.sku()),
            identifiers,
            via_device: Some(String::from_str("gv2mqtt")),
        }
    }
}

impl Clone for Device {
    fn clone(&self) -> (copy: Self)
        ensures
            copy@ == self@,
    {
        Device {
            name: self.name.clone(),
            model: self.model.clone(),
            identifiers: clone_texts(&self.identifiers),
            via_device: clone_option_text(&self.via_device),
        }
    }
}

/// The fields of a discovery descriptor that do not depend on the entity
/// family. A field that is `None` is left out of the published document.
#[derive(Debug, PartialEq, Eq)]
pub struct EntityConfig {
    pub availability_topic: String,
    pub name: Option<String>,
    pub entity_category: Option<String>,
    pub origin: Origin,
    pub device: Device,
    pub unique_id: String,
    pub device_class: Option<String>,
    pub icon: Option<String>,
}

/// The mathematical model of an [`EntityConfig`].
pub struct EntityConfigView {
    pub availability_topic: Seq<char>,
    pub name: Option<Seq<char>>,
    pub entity_category: Option<Seq<char>>,
    pub origin: OriginView,
    pub device: DeviceView,
    pub unique_id: Seq<char>,
    pub device_class: Option<Seq<char>>,
    pub icon: Option<Seq<char>>,
}

impl View for EntityConfig {
    type V = EntityConfigView;

    open spec fn view(&self) -> EntityConfigView {
        EntityConfigView {
            availability_topic: self.availability_topic@,
            name: option_text(self.name),
            entity_category: option_text(self.entity_category),
            origin: self.origin@,
            device: self.device@,
            unique_id: self.unique_id@,
            device_class: option_text(self.device_class),
            icon: option_text(self.icon),
        }
    }
}

impl Clone for EntityConfig {
    fn clone(&self) -> (copy: Self)
        ensures
            copy@ == self@,
    {
        EntityConfig {
            availability_topic: self.availability_topic.clone(),
            name: clone_option_text(&self.name),
            entity_category: clone_option_text(&self.entity_category),
            origin: self.origin.clone(),
            device: self.device.clone(),
            unique_id: self.unique_id.clone(),
            device_class: clone_option_text(&self.device_class),
            icon: clone_option_text(&self.icon),
        }
    }
}

} // verus!
