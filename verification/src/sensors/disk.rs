//! Disk usage: deriving the published byte figures from a file-system
//! statistics snapshot, and the descriptors of the disk sensor.

use vstd::prelude::*;
use crate::ha::values::{DeviceClass, EntityCategory, StateClass};
use crate::sensor::{SensorDiscovery, SensorDiscoveryInit};
use crate::topics::topic_of;

verus! {

/// The published disk figures, in bytes.
#[derive(Clone, Copy, Debug, PartialEq, Eq, Structural)]
pub struct Payload {
    pub disk_use: u64,
    pub disk_free: u64,
}

/// Caps a block count scaled to bytes at what a `u64` can carry.
pub open spec fn blocks_to_bytes(blocks: int, block_size: u64) -> u64 {
    if blocks * block_size <= u64::MAX {
        (blocks * block_size) as u64
    } else {
        u64::MAX
    }
}

/// Derives the published figures from a file-system statistics snapshot:
/// used blocks and available blocks, scaled by the fragment size.
pub fn payload_of(blocks: u64, blocks_free: u64, blocks_available: u64, block_size: u64) -> (r:
    Payload)
    ensures
        r.disk_use == blocks_to_bytes(
            crate::rate::delta_or_zero(blocks, blocks_free) as int,
            block_size,
        ),
        r.disk_free == blocks_to_bytes(blocks_available as int, block_size),
{
    let used_blocks: u64 = if blocks >= blocks_free {
        blocks - blocks_free
    } else {
        0
    };
    proof {
        assert((used_blocks as int) * (block_size as int) <= u128::MAX) by (nonlinear_arith)
            requires
                used_blocks <= u64::MAX,
                block_size <= u64::MAX,
        ;
        assert((blocks_available as int) * (block_size as int) <= u128::MAX) by (nonlinear_arith)
            requires
                blocks_available <= u64::MAX,
                block_size <= u64::MAX,
        ;
    }
    let used: u128 = (used_blocks as u128) * (block_size as u128);
    let free: u128 = (blocks_available as u128) * (block_size as u128);
    Payload {
        disk_use: if used > u64::MAX as u128 {
            u64::MAX
        } else {
            used as u64
        },
        disk_free: if free > u64::MAX as u128 {
            u64::MAX
        } else {
            free as u64
        },
    }
}

/// The disk sensor: reports the figures above under its own topic.
pub struct DiskSensor {
    pub topic: String,
}

/// The fields every disk descriptor shares, and the ones that vary.
pub open spec fn is_disk_desc(
    d: SensorDiscovery,
    id: Seq<char>,
    title: Seq<char>,
    tpl: Seq<char>,
    diagnostic: bool,
) -> bool {
    &&& d.id@ == id
    &&& d.title@ == title
    &&& d.value_template@ == tpl
    &&& d.entity_category == if diagnostic {
        Some(EntityCategory::Diagnostic)
    } else {
        None::<EntityCategory>
    }
    &&& d.device_class == Some(DeviceClass::DataSize)
    &&& d.state_class == Some(StateClass::Measurement)
    &&& match d.unit_of_measurement {
        Some(u) => u@ == "B"@,
        None => false,
    }
    &&& d.suggested_display_precision is None
    &&& match d.icon {
        Some(ic) => ic@ == "mdi:harddisk"@,
        None => false,
    }
    &&& d.binary == false
    &&& d.attributes_template is None
}

impl DiskSensor {
    /// A disk sensor publishing under `{topic_base}/disk`.
    pub fn new(topic_base: &str) -> (r: Self)
        ensures
            r.topic@ == topic_of(topic_base@, "disk"@),
    {
        DiskSensor { topic: crate::topics::make_topic(topic_base, "disk") }
    }

    /// The topic this sensor publishes on.
    pub fn topic(&self) -> (r: &str)
        ensures
            r@ == self.topic@,
    {
        self.topic.as_str()
    }

    /// The two descriptors of this sensor: disk use and disk free.
    pub fn discovery_data(&self) -> (r: Vec<SensorDiscovery>)
        ensures
            r@.len() == 2,
            is_disk_desc(r@[0], "disk_use"@, "Disk use"@, "{{ value_json.disk_use }}"@, false),
            is_disk_desc(r@[1], "disk_free"@, "Disk free"@, "{{ value_json.disk_free }}"@, true),
    {
        let mut out: Vec<SensorDiscovery> = Vec::new();
        let d0 = SensorDiscovery::new(
            SensorDiscoveryInit {
                id: String::from_str("disk_use"),
                title: String::from_str("Disk use"),
                icon: String::from_str("mdi:harddisk"),
                value_template: String::from_str("{{ value_json.disk_use }}"),
            },
        ).with_device_class(DeviceClass::DataSize).with_state_class(
            StateClass::Measurement,
        ).with_unit_of_measurement(String::from_str("B"));
        out.push(d0);
        let d1 = SensorDiscovery::new(
            SensorDiscoveryInit {
                id: String::from_str("disk_free"),
                title: String::from_str("Disk free"),
                icon: String::from_str("mdi:harddisk"),
                value_template: String::from_str("{{ value_json.disk_free }}"),
            },
        ).with_device_class(DeviceClass::DataSize).with_state_class(
            StateClass::Measurement,
        ).with_entity_category(EntityCategory::Diagnostic).with_unit_of_measurement(
            String::from_str("B"),
        );
        out.push(d1);
        out
    }
}

} // verus!
