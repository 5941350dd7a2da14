//! Memory accounting: parsing the kernel's memory-information table and
//! deriving the published use/free figures the way the usual tooling does.

use vstd::prelude::*;
use crate::ha::values::{DeviceClass, EntityCategory, StateClass};
use crate::parser::ParseError;
use crate::sensor::{SensorDiscovery, SensorDiscoveryInit};
use crate::text::{digits_val, is_u64_string, lines_of, split_at_first, trim_spec};
use crate::topics::topic_of;

verus! {

/// The five fields read from the memory-information table, in bytes.
#[derive(Clone, Copy, Debug, PartialEq, Eq, Structural)]
pub struct MemInfo {
    pub mem_total: u64,
    pub mem_free: u64,
    pub mem_available: u64,
    pub swap_total: u64,
    pub swap_free: u64,
}

/// What parsing one table value yields: a plain number of bytes, or a
/// kibibyte count scaled by 1024.
pub open spec fn parse_value_spec(v: Seq<char>) -> Option<u64> {
    let t = trim_spec(v);
    match split_at_first(t, ' ') {
        Some(p) => if p.1 == "kB"@ && is_u64_string(p.0) && digits_val(p.0) * 1024 <= u64::MAX {
            Some((digits_val(p.0) * 1024) as u64)
        } else {
            None
        },
        None => if is_u64_string(t) {
            Some(digits_val(t) as u64)
        } else {
            None
        },
    }
}

/// Parses one table value: a number, optionally followed by the unit `kB`,
/// which scales it by 1024.
pub fn parse_value(s: &str) -> (r: Result<u64, ParseError>)
    ensures
        ({
            let t = trim_spec(s@);
            match r {
                Ok(v) => parse_value_spec(s@) == Some(v),
                Err(ParseError::UnknownUnit) => match split_at_first(t, ' ') {
                    Some(p) => p.1 != "kB"@,
                    None => false,
                },
                Err(ParseError::InvalidNumber) => match split_at_first(t, ' ') {
                    Some(p) => p.1 == "kB"@ && !is_u64_string(p.0),
                    None => !is_u64_string(t),
                },
                Err(ParseError::Overflow) => match split_at_first(t, ' ') {
                    Some(p) => p.1 == "kB"@ && is_u64_string(p.0) && digits_val(p.0) * 1024
                        > u64::MAX,
                    None => false,
                },
                Err(_) => false,
            }
        }),
{
    let t = crate::text::trim_str(s);
    match crate::text::split_once_char(t, ' ') {
        Some((n, unit)) => {
            if !crate::strutil::str_eq(unit.as_str(), "kB") {
                return Err(ParseError::UnknownUnit);
            }
            match crate::text::parse_u64_str(n.as_str()) {
                Some(v) => {
                    if v > u64::MAX / 1024 {
                        proof {
                            assert(digits_val(n@) * 1024 > u64::MAX) by (nonlinear_arith)
                                requires
                                    digits_val(n@) == v,
                                    v > u64::MAX / 1024,
                            ;
                        }
                        return Err(ParseError::Overflow);
                    }
                    proof {
                        assert(digits_val(n@) * 1024 <= u64::MAX) by (nonlinear_arith)
                            requires
                                digits_val(n@) == v,
                                v <= u64::MAX / 1024,
                        ;
                    }
                    Ok(v * 1024)
                },
                None => Err(ParseError::InvalidNumber),
            }
        },
        None => {
            match crate::text::parse_u64_str(t) {
                Some(v) => Ok(v),
                None => Err(ParseError::InvalidNumber),
            }
        },
    }
}

/// Folds one table line into the fields gathered so far: an unlabelled line
/// is skipped, an unknown label is skipped, a known label must carry a valid
/// value, and a repeated label overwrites.
pub open spec fn mem_step(acc: MemInfo, line: Seq<char>) -> Option<MemInfo> {
    match split_at_first(line, ':') {
        None => Some(acc),
        Some(p) => if p.0 == "MemTotal"@ {
            match parse_value_spec(p.1) {
                None => None,
                Some(v) => Some(MemInfo { mem_total: v, ..acc }),
            }
        } else if p.0 == "MemFree"@ {
            match parse_value_spec(p.1) {
                None => None,
                Some(v) => Some(MemInfo { mem_free: v, ..acc }),
            }
        } else if p.0 == "MemAvailable"@ {
            match parse_value_spec(p.1) {
                None => None,
                Some(v) => Some(MemInfo { mem_available: v, ..acc }),
            }
        } else if p.0 == "SwapTotal"@ {
            match parse_value_spec(p.1) {
                None => None,
                Some(v) => Some(MemInfo { swap_total: v, ..acc }),
            }
        } else if p.0 == "SwapFree"@ {
            match parse_value_spec(p.1) {
                None => None,
                Some(v) => Some(MemInfo { swap_free: v, ..acc }),
            }
        } else {
            Some(acc)
        },
    }
}

/// The fields gathered after folding the first `i` lines, all starting from
/// zero.
pub open spec fn mem_fold(ls: Seq<Seq<char>>, i: int) -> Option<MemInfo>
    decreases i,
{
    if i <= 0 {
        Some(
            MemInfo {
                mem_total: 0,
                mem_free: 0,
                mem_available: 0,
                swap_total: 0,
                swap_free: 0,
            },
        )
    } else {
        match mem_fold(ls, i - 1) {
            None => None,
            Some(acc) => mem_step(acc, ls[i - 1]),
        }
    }
}

/// What parsing the whole memory-information table yields.
pub open spec fn parse_mem_info_spec(s: Seq<char>) -> Option<MemInfo> {
    mem_fold(lines_of(s), lines_of(s).len() as int)
}

/// Once a line fails, the whole fold fails.
proof fn lemma_mem_fold_none(ls: Seq<Seq<char>>, i: int, j: int)
    requires
        0 <= i <= j,
        mem_fold(ls, i) is None,
    ensures
        mem_fold(ls, j) is None,
    decreases j - i,
{
    if i < j {
        lemma_mem_fold_none(ls, i, j - 1);
    }
}

/// Parses the memory-information table: known labelled lines must carry
/// valid values, everything else is skipped, absent fields stay zero.
pub fn parse_mem_info(s: &str) -> (r: Result<MemInfo, ParseError>)
    ensures
        match (r, parse_mem_info_spec(s@)) {
            (Ok(m), Some(sm)) => m == sm,
            (Err(_), None) => true,
            _ => false,
        },
{
    let ls = crate::text::split_lines(s);
    let ghost lsv = lines_of(s@);
    let n = ls.len();
    let mut acc = MemInfo { mem_total: 0, mem_free: 0, mem_available: 0, swap_total: 0, swap_free: 0 };
    let mut i: usize = 0;
    while i < n
        invariant
            lsv == lines_of(s@),
            ls.deep_view() == lsv,
            n == ls@.len() == lsv.len(),
            0 <= i <= n,
            mem_fold(lsv, i as int) == Some(acc),
        decreases n - i,
    {
        proof {
            assert(lsv[i as int] == ls@[i as int]@);
        }
        match crate::text::split_once_char(ls[i].as_str(), ':') {
            None => {},
            Some((label, value)) => {
                let known = crate::strutil::str_eq(label.as_str(), "MemTotal") || crate::strutil::str_eq(
                    label.as_str(),
                    "MemFree",
                ) || crate::strutil::str_eq(label.as_str(), "MemAvailable")
                    || crate::strutil::str_eq(label.as_str(), "SwapTotal")
                    || crate::strutil::str_eq(label.as_str(), "SwapFree");
                if known {
                    let v = match parse_value(value.as_str()) {
                        Ok(v) => v,
                        Err(e) => {
                            proof {
                                assert(mem_fold(lsv, i + 1) is None);
                                lemma_mem_fold_none(lsv, i + 1, lsv.len() as int);
                            }
                            return Err(e);
                        },
                    };
                    if crate::strutil::str_eq(label.as_str(), "MemTotal") {
                        acc.mem_total = v;
                    } else if crate::strutil::str_eq(label.as_str(), "MemFree") {
                        acc.mem_free = v;
                    } else if crate::strutil::str_eq(label.as_str(), "MemAvailable") {
                        acc.mem_available = v;
                    } else if crate::strutil::str_eq(label.as_str(), "SwapTotal") {
                        acc.swap_total = v;
                    } else {
                        acc.swap_free = v;
                    }
                }
            },
        }
        i = i + 1;
    }
    Ok(acc)
}

/// `a - b`, or zero where `b` exceeds `a`.
pub open spec fn sub_or_zero(a: u64, b: u64) -> u64 {
    if a >= b {
        (a - b) as u64
    } else {
        0
    }
}

/// The published memory figures, in kibibytes.
#[derive(Clone, Copy, Debug, PartialEq, Eq, Structural)]
pub struct Payload {
    pub mem_use: u64,
    pub mem_free: u64,
    pub swap_use: u64,
    pub swap_free: u64,
}

/// The memory in use: total less available when the available figure is
/// meaningful, else total less free, as the usual tooling reckons it.
pub open spec fn mem_used_spec(m: MemInfo) -> u64 {
    if m.mem_available > 0 && m.mem_available < m.mem_total {
        (m.mem_total - m.mem_available) as u64
    } else {
        sub_or_zero(m.mem_total, m.mem_free)
    }
}

/// Derives the published figures from the parsed table, scaled down to
/// kibibytes.
pub fn payload_of(m: MemInfo) -> (r: Payload)
    ensures
        r.mem_use == mem_used_spec(m) / 1024,
        r.mem_free == m.mem_free / 1024,
        r.swap_use == sub_or_zero(m.swap_total, m.swap_free) / 1024,
        r.swap_free == m.swap_free / 1024,
{
    let mem_used: u64 = if m.mem_available > 0 && m.mem_available < m.mem_total {
        m.mem_total - m.mem_available
    } else {
        if m.mem_total >= m.mem_free {
            m.mem_total - m.mem_free
        } else {
            0
        }
    };
    let swap_used: u64 = if m.swap_total >= m.swap_free {
        m.swap_total - m.swap_free
    } else {
        0
    };
    Payload {
        mem_use: mem_used / 1024,
        mem_free: m.mem_free / 1024,
        swap_use: swap_used / 1024,
        swap_free: m.swap_free / 1024,
    }
}

/// The memory sensor: reports the figures above under its own topic.
pub struct MemorySensor {
    pub topic: String,
}

/// The fields every memory descriptor shares, and the ones that vary.
pub open spec fn is_mem_desc(
    d: SensorDiscovery,
    id: Seq<char>,
    title: Seq<char>,
    tpl: Seq<char>,
    diagnostic: bool,
) -> bool {
    &&& d.id@ == id
    &&& d.title@ == title
    &&& d.value_template@ == tpl
    &&& d.entity_category == if diagnostic {
        Some(EntityCategory::Diagnostic)
    } else {
        None::<EntityCategory>
    }
    &&& d.device_class == Some(DeviceClass::DataSize)
    &&& d.state_class == Some(StateClass::Measurement)
    &&& match d.unit_of_measurement {
        Some(u) => u@ == "KiB"@,
        None => false,
    }
    &&& d.suggested_display_precision is None
    &&& match d.icon {
        Some(ic) => ic@ == "mdi:memory"@,
        None => false,
    }
    &&& d.binary == false
    &&& d.attributes_template is None
}

impl MemorySensor {
    /// A memory sensor publishing under `{topic_base}/memory`.
    pub fn new(topic_base: &str) -> (r: Self)
        ensures
            r.topic@ == topic_of(topic_base@, "memory"@),
    {
        MemorySensor { topic: crate::topics::make_topic(topic_base, "memory") }
    }

    /// The topic this sensor publishes on.
    pub fn topic(&self) -> (r: &str)
        ensures
            r@ == self.topic@,
    {
        self.topic.as_str()
    }

    /// The four descriptors of this sensor: memory and swap, use and free.
    pub fn discovery_data(&self) -> (r: Vec<SensorDiscovery>)
        ensures
            r@.len() == 4,
            is_mem_desc(r@[0], "memory_use"@, "Memory use"@, "{{ value_json.mem_use }}"@, false),
            is_mem_desc(r@[1], "memory_free"@, "Memory free"@, "{{ value_json.mem_free }}"@, true),
            is_mem_desc(r@[2], "swap_use"@, "Swap use"@, "{{ value_json.swap_use }}"@, true),
            is_mem_desc(r@[3], "swap_free"@, "Swap free"@, "{{ value_json.swap_free }}"@, true),
    {
        let mut out: Vec<SensorDiscovery> = Vec::new();
        let d0 = SensorDiscovery::new(
            SensorDiscoveryInit {
                id: String::from_str("memory_use"),
                title: String::from_str("Memory use"),
                icon: String::from_str("mdi:memory"),
                value_template: String::from_str("{{ value_json.mem_use }}"),
            },
        ).with_device_class(DeviceClass::DataSize).with_state_class(
            StateClass::Measurement,
        ).with_unit_of_measurement(String::from_str("KiB"));
        out.push(d0);
        let d1 = SensorDiscovery::new(
            SensorDiscoveryInit {
                id: String::from_str("memory_free"),
                title: String::from_str("Memory free"),
                icon: String::from_str("mdi:memory"),
                value_template: String::from_str("{{ value_json.mem_free }}"),
            },
        ).with_device_class(DeviceClass::DataSize).with_state_class(
            StateClass::Measurement,
        ).with_entity_category(EntityCategory::Diagnostic).with_unit_of_measurement(
            String::from_str("KiB"),
        );
        out.push(d1);
        let d2 = SensorDiscovery::new(
            SensorDiscoveryInit {
                id: String::from_str("swap_use"),
                title: String::from_str("Swap use"),
                icon: String::from_str("mdi:memory"),
                value_template: String::from_str("{{ value_json.swap_use }}"),
            },
        ).with_device_class(DeviceClass::DataSize).with_state_class(
            StateClass::Measurement,
        ).with_entity_category(EntityCategory::Diagnostic).with_unit_of_measurement(
            String::from_str("KiB"),
        );
        out.push(d2);
        let d3 = SensorDiscovery::new(
            SensorDiscoveryInit {
                id: String::from_str("swap_free"),
                title: String::from_str("Swap free"),
                icon: String::from_str("mdi:memory"),
                value_template: String::from_str("{{ value_json.swap_free }}"),
            },
        ).with_device_class(DeviceClass::DataSize).with_state_class(
            StateClass::Measurement,
        ).with_entity_category(EntityCategory::Diagnostic).with_unit_of_measurement(
            String::from_str("KiB"),
        );
        out.push(d3);
        out
    }
}

} // verus!
