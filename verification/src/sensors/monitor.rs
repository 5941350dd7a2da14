//! The heartbeat-of-data sensor: publishes the time of the last status
//! round. The timestamp itself comes from the clock at the runtime's edge.

use vstd::prelude::*;
use crate::ha::values::{DeviceClass, EntityCategory};
use crate::sensor::{SensorDiscovery, SensorDiscoveryInit};
use crate::topics::topic_of;

verus! {

/// The monitor sensor: reports when the agent last published.
pub struct MonitorSensor {
    pub topic: String,
}

impl MonitorSensor {
    /// A monitor sensor publishing under `{topic_base}/monitor`.
    pub fn new(topic_base: &str) -> (r: Self)
        ensures
            r.topic@ == topic_of(topic_base@, "monitor"@),
    {
        MonitorSensor { topic: crate::topics::make_topic(topic_base, "monitor") }
    }

    /// The topic this sensor publishes on.
    pub fn topic(&self) -> (r: &str)
        ensures
            r@ == self.topic@,
    {
        self.topic.as_str()
    }

    /// The single descriptor of this sensor.
    pub fn discovery_data(&self) -> (r: Vec<SensorDiscovery>)
        ensures
            r@.len() == 1,
            r@[0].id@ == "monitor"@,
            r@[0].title@ == "Updated"@,
            r@[0].value_template@ == "{{ value_json }}"@,
            r@[0].entity_category == Some(EntityCategory::Diagnostic),
            r@[0].device_class == Some(DeviceClass::Timestamp),
            r@[0].state_class is None,
            r@[0].unit_of_measurement is None,
            r@[0].suggested_display_precision is None,
            match r@[0].icon {
                Some(ic) => ic@ == "mdi:timer"@,
                None => false,
            },
            r@[0].binary == false,
            r@[0].attributes_template is None,
    {
        let mut out: Vec<SensorDiscovery> = Vec::new();
        let d = SensorDiscovery::new(
            SensorDiscoveryInit {
                id: String::from_str("monitor"),
                title: String::from_str("Updated"),
                icon: String::from_str("mdi:timer"),
                value_template: String::from_str("{{ value_json }}"),
            },
        ).with_entity_category(EntityCategory::Diagnostic).with_device_class(
            DeviceClass::Timestamp,
        );
        out.push(d);
        out
    }
}

} // verus!
