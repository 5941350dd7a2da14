//! The static face of a sensor unit: its discovery descriptor, built with a
//! fluent sequence of setters whose effect the contracts pin down field by
//! field.

use vstd::prelude::*;
use crate::ha::values::{DeviceClass, EntityCategory, StateClass};

verus! {

/// One discovery descriptor of a sensor: how an external consumer is to
/// present and extract this sensor's values.
pub struct SensorDiscovery {
    pub id: String,
    pub title: String,
    pub entity_category: Option<EntityCategory>,
    pub device_class: Option<DeviceClass>,
    pub state_class: Option<StateClass>,
    pub unit_of_measurement: Option<String>,
    pub suggested_display_precision: Option<i32>,
    pub icon: Option<String>,
    pub binary: bool,
    pub value_template: String,
    pub attributes_template: Option<String>,
}

/// The always-present parts of a descriptor under construction.
pub struct SensorDiscoveryInit {
    pub id: String,
    pub title: String,
    pub icon: String,
    pub value_template: String,
}

impl SensorDiscovery {
    /// A descriptor with the given identity, icon and value template, and
    /// every optional field unset.
    pub fn new(init: SensorDiscoveryInit) -> (r: Self)
        ensures
            r.id == init.id,
            r.title == init.title,
            r.entity_category is None,
            r.device_class is None,
            r.state_class is None,
            r.unit_of_measurement is None,
            r.suggested_display_precision is None,
            r.icon == Some(init.icon),
            r.binary == false,
            r.value_template == init.value_template,
            r.attributes_template is None,
    {
        Self {
            id: init.id,
            title: init.title,
            entity_category: None,
            device_class: None,
            state_class: None,
            unit_of_measurement: None,
            suggested_display_precision: None,
            icon: Some(init.icon),
            binary: false,
            value_template: init.value_template,
            attributes_template: None,
        }
    }

    /// The same descriptor with the entity category set.
    pub fn with_entity_category(self, entity_category: EntityCategory) -> (r: Self)
        ensures
            r == (Self { entity_category: Some(entity_category), ..self }),
    {
        Self { entity_category: Some(entity_category), ..self }
    }

    /// The same descriptor with the device class set.
    pub fn with_device_class(self, device_class: DeviceClass) -> (r: Self)
        ensures
            r == (Self { device_class: Some(device_class), ..self }),
    {
        Self { device_class: Some(device_class), ..self }
    }

    /// The same descriptor with the state class set.
    pub fn with_state_class(self, state_class: StateClass) -> (r: Self)
        ensures
            r == (Self { state_class: Some(state_class), ..self }),
    {
        Self { state_class: Some(state_class), ..self }
    }

    /// The same descriptor with the unit of measurement set.
    pub fn with_unit_of_measurement(self, unit_of_measurement: String) -> (r: Self)
        ensures
            r == (Self { unit_of_measurement: Some(unit_of_measurement), ..self }),
    {
        Self { unit_of_measurement: Some(unit_of_measurement), ..self }
    }

    /// The same descriptor with the suggested display precision set.
    pub fn with_suggested_display_precision(self, suggested_display_precision: i32) -> (r: Self)
        ensures
            r == (Self {
                suggested_display_precision: Some(suggested_display_precision),
                ..self
            }),
    {
        Self { suggested_display_precision: Some(suggested_display_precision), ..self }
    }

    /// The same descriptor marked binary or not.
    pub fn with_binary(self, binary: bool) -> (r: Self)
        ensures
            r == (Self { binary: binary, ..self }),
    {
        Self { binary: binary, ..self }
    }

    /// The same descriptor with the attributes template set.
    pub fn with_attributes(self, template: String) -> (r: Self)
        ensures
            r == (Self { attributes_template: Some(template), ..self }),
    {
        Self { attributes_template: Some(template), ..self }
    }
}

} // verus!
