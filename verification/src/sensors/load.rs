//! Load averages: the sensor's identity and descriptors. The averages
//! themselves are fractional values read at the runtime's edge.

use vstd::prelude::*;
use crate::ha::values::{EntityCategory, StateClass};
use crate::sensor::{SensorDiscovery, SensorDiscoveryInit};
use crate::topics::topic_of;

verus! {

/// The load sensor: reports the one, five and fifteen minute load averages
/// under its own topic.
pub struct LoadSensor {
    pub topic: String,
}

/// The fields every load descriptor shares, and the ones that vary.
pub open spec fn is_load_desc(
    d: SensorDiscovery,
    id: Seq<char>,
    title: Seq<char>,
    tpl: Seq<char>,
) -> bool {
    &&& d.id@ == id
    &&& d.title@ == title
    &&& d.value_template@ == tpl
    &&& d.entity_category == Some(EntityCategory::Diagnostic)
    &&& d.device_class is None
    &&& d.state_class == Some(StateClass::Measurement)
    &&& d.unit_of_measurement is None
    &&& d.suggested_display_precision is None
    &&& match d.icon {
        Some(ic) => ic@ == "mdi:cpu-64-bit"@,
        None => false,
    }
    &&& d.binary == false
    &&& d.attributes_template is None
}

impl LoadSensor {
    /// A load sensor publishing under `{topic_base}/load`.
    pub fn new(topic_base: &str) -> (r: Self)
        ensures
            r.topic@ == topic_of(topic_base@, "load"@),
    {
        LoadSensor { topic: crate::topics::make_topic(topic_base, "load") }
    }

    /// The topic this sensor publishes on.
    pub fn topic(&self) -> (r: &str)
        ensures
            r@ == self.topic@,
    {
        self.topic.as_str()
    }

    /// The three descriptors of this sensor: the three load windows.
    pub fn discovery_data(&self) -> (r: Vec<SensorDiscovery>)
        ensures
            r@.len() == 3,
            is_load_desc(r@[0], "load_1min"@, "Load (1m)"@, "{{ value_json.load_1min }}"@),
            is_load_desc(r@[1], "load_5min"@, "Load (5m)"@, "{{ value_json.load_5min }}"@),
            is_load_desc(r@[2], "load_15min"@, "Load (15m)"@, "{{ value_json.load_15min }}"@),
    {
        let mut out: Vec<SensorDiscovery> = Vec::new();
        let d0 = SensorDiscovery::new(
            SensorDiscoveryInit {
                id: String::from_str("load_1min"),
                title: String::from_str("Load (1m)"),
                icon: String::from_str("mdi:cpu-64-bit"),
                value_template: String::from_str("{{ value_json.load_1min }}"),
            },
        ).with_state_class(StateClass::Measurement).with_entity_category(
            EntityCategory::Diagnostic,
        );
        out.push(d0);
        let d1 = SensorDiscovery::new(
            SensorDiscoveryInit {
                id: String::from_str("load_5min"),
                title: String::from_str("Load (5m)"),
                icon: String::from_str("mdi:cpu-64-bit"),
                value_template: String::from_str("{{ value_json.load_5min }}"),
            },
        ).with_state_class(StateClass::Measurement).with_entity_category(
            EntityCategory::Diagnostic,
        );
        out.push(d1);
        let d2 = SensorDiscovery::new(
            SensorDiscoveryInit {
                id: String::from_str("load_15min"),
                title: String::from_str("Load (15m)"),
                icon: String::from_str("mdi:cpu-64-bit"),
                value_template: String::from_str("{{ value_json.load_15min }}"),
            },
        ).with_state_class(StateClass::Measurement).with_entity_category(
            EntityCategory::Diagnostic,
        );
        out.push(d2);
        out
    }
}

} // verus!
