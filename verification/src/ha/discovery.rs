//! The shape of the retained device-description message: device and origin
//! metadata plus one entry per discovery descriptor, each mapped from a
//! unit's own descriptor by a constructor with an exact field contract.

use vstd::prelude::*;
use crate::command::CommandDiscovery;
use crate::ha::values::{DeviceClass, EntityCategory, StateClass};
use crate::sensor::SensorDiscovery;

verus! {

/// The whole retained device-description payload.
pub struct HaDeviceDiscovery {
    pub device: Device,
    pub origin: Origin,
    pub availability_topic: String,
    pub components: Vec<(String, HaComponentDiscovery)>,
}

/// Device metadata of the discovery payload.
pub struct Device {
    pub name: String,
    pub identifiers: Vec<String>,
    pub connections: Vec<(String, String)>,
}

/// Origin metadata of the discovery payload: the publishing agent.
pub struct Origin {
    pub name: String,
    pub sw_version: String,
}

/// One component entry of the discovery payload.
pub enum HaComponentDiscovery {
    Sensor(HaSensorDiscovery),
    BinarySensor(HaSensorDiscovery),
    Button(HaButtonDiscovery),
}

impl HaComponentDiscovery {
    /// The globally unique identifier of this component.
    pub open spec fn spec_unique_id(self) -> Seq<char> {
        match self {
            HaComponentDiscovery::Sensor(s) => s.unique_id@,
            HaComponentDiscovery::BinarySensor(s) => s.unique_id@,
            HaComponentDiscovery::Button(b) => b.unique_id@,
        }
    }
}

/// One sensor entry of the discovery payload.
pub struct HaSensorDiscovery {
    pub unique_id: String,
    pub name: String,
    pub icon: Option<String>,
    pub entity_category: Option<EntityCategory>,
    pub device_class: Option<DeviceClass>,
    pub state_class: Option<StateClass>,
    pub unit_of_measurement: Option<String>,
    pub suggested_display_precision: Option<i32>,
    pub state_topic: String,
    pub value_template: String,
    pub json_attributes_topic: Option<String>,
    pub json_attributes_template: Option<String>,
}

impl HaSensorDiscovery {
    /// Maps a sensor unit's descriptor onto a payload entry, returning the
    /// descriptor's raw identifier alongside it. The attributes topic is set
    /// exactly when the descriptor carries an attributes template, and then
    /// equals the state topic.
    pub fn new(unique_id: String, topic: String, discovery: SensorDiscovery) -> (r: (
        String,
        Self,
    ))
        ensures
            r.0 == discovery.id,
            r.1.unique_id == unique_id,
            r.1.name == discovery.title,
            r.1.icon == discovery.icon,
            r.1.entity_category == discovery.entity_category,
            r.1.device_class == discovery.device_class,
            r.1.state_class == discovery.state_class,
            r.1.unit_of_measurement == discovery.unit_of_measurement,
            r.1.suggested_display_precision == discovery.suggested_display_precision,
            r.1.state_topic == topic,
            r.1.value_template == discovery.value_template,
            discovery.attributes_template is Some ==> r.1.json_attributes_topic == Some(topic)
                && r.1.json_attributes_template == discovery.attributes_template,
            discovery.attributes_template is None ==> r.1.json_attributes_topic is None
                && r.1.json_attributes_template is None,
    {
        let (attrs_topic, attrs_tpl) = match discovery.attributes_template {
            Some(tpl) => (Some(topic.clone()), Some(tpl)),
            None => (None, None),
        };
        (
            discovery.id,
            HaSensorDiscovery {
                unique_id,
                name: discovery.title,
                icon: discovery.icon,
                entity_category: discovery.entity_category,
                device_class: discovery.device_class,
                state_class: discovery.state_class,
                unit_of_measurement: discovery.unit_of_measurement,
                suggested_display_precision: discovery.suggested_display_precision,
                state_topic: topic,
                value_template: discovery.value_template,
                json_attributes_topic: attrs_topic,
                json_attributes_template: attrs_tpl,
            },
        )
    }
}

/// One button entry of the discovery payload.
pub struct HaButtonDiscovery {
    pub unique_id: String,
    pub name: String,
    pub icon: Option<String>,
    pub entity_category: Option<EntityCategory>,
    pub device_class: Option<String>,
    pub command_topic: String,
}

impl HaButtonDiscovery {
    /// Maps a command unit's descriptor onto a payload entry, returning the
    /// descriptor's raw identifier alongside it.
    pub fn new(unique_id: String, command_topic: String, discovery: CommandDiscovery) -> (r: (
        String,
        Self,
    ))
        ensures
            r.0 == discovery.id,
            r.1.unique_id == unique_id,
            r.1.name == discovery.name,
            r.1.icon == discovery.icon,
            r.1.entity_category == discovery.entity_category,
            r.1.device_class == discovery.device_class,
            r.1.command_topic == command_topic,
    {
        (
            discovery.id,
            HaButtonDiscovery {
                unique_id,
                name: discovery.name,
                icon: discovery.icon,
                entity_category: discovery.entity_category,
                device_class: discovery.device_class,
                command_topic,
            },
        )
    }
}

} // verus!
