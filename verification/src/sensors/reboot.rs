//! The reboot-required sensor: whether the host needs a restart, with the
//! packages demanding it as attributes. The flag file and package list are
//! read at the runtime's edge.

use vstd::prelude::*;
use crate::sensor::{SensorDiscovery, SensorDiscoveryInit};
use crate::topics::topic_of;

verus! {

/// What the reboot-required sensor publishes.
pub struct Payload {
    pub state: bool,
    pub packages: Vec<String>,
}

/// Builds the published value: the flag as read, and the package list only
/// when the flag is set.
pub fn payload_of(state: bool, packages: Vec<String>) -> (r: Payload)
    ensures
        r.state == state,
        r.packages@ == if state {
            packages@
        } else {
            Seq::<String>::empty()
        },
{
    Payload {
        state,
        packages: if state {
            packages
        } else {
            Vec::new()
        },
    }
}

/// The reboot-required sensor.
pub struct RebootSensor {
    pub topic: String,
}

impl RebootSensor {
    /// A reboot sensor publishing under `{topic_base}/reboot`.
    pub fn new(topic_base: &str) -> (r: Self)
        ensures
            r.topic@ == topic_of(topic_base@, "reboot"@),
    {
        RebootSensor { topic: crate::topics::make_topic(topic_base, "reboot") }
    }

    /// The topic this sensor publishes on.
    pub fn topic(&self) -> (r: &str)
        ensures
            r@ == self.topic@,
    {
        self.topic.as_str()
    }

    /// The single descriptor of this sensor: a binary state with the
    /// package list as attributes.
    pub fn discovery_data(&self) -> (r: Vec<SensorDiscovery>)
        ensures
            r@.len() == 1,
            r@[0].id@ == "reboot"@,
            r@[0].title@ == "Reboot required"@,
            r@[0].value_template@ == "{{ 'ON' if value_json.state else 'OFF' }}"@,
            r@[0].entity_category is None,
            r@[0].device_class is None,
            r@[0].state_class is None,
            r@[0].unit_of_measurement is None,
            r@[0].suggested_display_precision is None,
            match r@[0].icon {
                Some(ic) => ic@ == "mdi:restart"@,
                None => false,
            },
            r@[0].binary == true,
            match r@[0].attributes_template {
                Some(t) => t@ == "{{ value_json.attrs | tojson }}"@,
                None => false,
            },
    {
        let mut out: Vec<SensorDiscovery> = Vec::new();
        let d = SensorDiscovery::new(
            SensorDiscoveryInit {
                id: String::from_str("reboot"),
                title: String::from_str("Reboot required"),
                icon: String::from_str("mdi:restart"),
                value_template: String::from_str("{{ 'ON' if value_json.state else 'OFF' }}"),
            },
        ).with_binary(true).with_attributes(String::from_str("{{ value_json.attrs | tojson }}"));
        out.push(d);
        out
    }
}

} // verus!
