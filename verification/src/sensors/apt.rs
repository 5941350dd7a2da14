//! Pending package upgrades: extracting the package names from the
//! dry-run upgrade listing, and the descriptor of the upgrades sensor.

use vstd::prelude::*;
use crate::ha::values::StateClass;
use crate::sensor::{SensorDiscovery, SensorDiscoveryInit};
use crate::text::{has_prefix, lines_of, split_at_first};
use crate::topics::topic_of;

verus! {

/// The package name announced by one line, if the line announces an
/// installation: the run of non-space characters right after `Inst `.
pub open spec fn line_package(l: Seq<char>) -> Option<Seq<char>> {
    if has_prefix(l, "Inst "@) && l.len() > 5 && l[5] != ' ' {
        match split_at_first(l.skip(5), ' ') {
            Some(p) => Some(p.0),
            None => Some(l.skip(5)),
        }
    } else {
        None
    }
}

/// The packages announced by the first `i` lines, in order.
pub open spec fn packages_fold(ls: Seq<Seq<char>>, i: int) -> Seq<Seq<char>>
    decreases i,
{
    if i <= 0 {
        Seq::empty()
    } else {
        let r = packages_fold(ls, i - 1);
        match line_package(ls[i - 1]) {
            None => r,
            Some(p) => r.push(p),
        }
    }
}

/// The packages announced by the whole upgrade listing.
pub open spec fn upgrade_list_spec(s: Seq<char>) -> Seq<Seq<char>> {
    packages_fold(lines_of(s), lines_of(s).len() as int)
}

/// Extracts the packages a dry-run upgrade would install: the first word
/// after `Inst ` on each line that announces an installation.
pub fn parse_upgrade_list(s: &str) -> (r: Vec<String>)
    ensures
        r.deep_view() == upgrade_list_spec(s@),
{
    let ls = crate::text::split_lines(s);
    let ghost lsv = lines_of(s@);
    let n = ls.len();
    let mut out: Vec<String> = Vec::new();
    let mut i: usize = 0;
    while i < n
        invariant
            lsv == lines_of(s@),
            ls.deep_view() == lsv,
            n == ls@.len() == lsv.len(),
            0 <= i <= n,
            out.deep_view() == packages_fold(lsv, i as int),
        decreases n - i,
    {
        proof {
            assert(lsv[i as int] == ls@[i as int]@);
            reveal_strlit("Inst ");
        }
        let line = ls[i].as_str();
        if crate::text::starts_with(line, "Inst ") && line.unicode_len() > 5 && line.get_char(5)
            != ' ' {
            let rest = crate::text::skip_chars(line, 5);
            let pkg = match crate::text::split_once_char(rest, ' ') {
                Some((p, _)) => p,
                None => String::from_str(rest),
            };
            out.push(pkg);
            proof {
                assert(out.deep_view() =~= packages_fold(lsv, i + 1));
            }
        }
        i = i + 1;
    }
    out
}

/// The pending-upgrades sensor: reports how many upgrades are pending, with
/// the package list as attributes, under its own topic.
pub struct AptSensor {
    pub topic: String,
}

impl AptSensor {
    /// An upgrades sensor publishing under `{topic_base}/apt`.
    pub fn new(topic_base: &str) -> (r: Self)
        ensures
            r.topic@ == topic_of(topic_base@, "apt"@),
    {
        AptSensor { topic: crate::topics::make_topic(topic_base, "apt") }
    }

    /// The topic this sensor publishes on.
    pub fn topic(&self) -> (r: &str)
        ensures
            r@ == self.topic@,
    {
        self.topic.as_str()
    }

    /// The single descriptor of this sensor.
    pub fn discovery_data(&self) -> (r: Vec<SensorDiscovery>)
        ensures
            r@.len() == 1,
            r@[0].id@ == "apt"@,
            r@[0].title@ == "APT pending upgrades"@,
            r@[0].value_template@ == "{{ value_json.state }}"@,
            r@[0].entity_category is None,
            r@[0].device_class is None,
            r@[0].state_class == Some(StateClass::Measurement),
            r@[0].unit_of_measurement is None,
            r@[0].suggested_display_precision is None,
            match r@[0].icon {
                Some(ic) => ic@ == "mdi:update"@,
                None => false,
            },
            r@[0].binary == false,
            match r@[0].attributes_template {
                Some(t) => t@ == "{{ value_json.attrs | tojson }}"@,
                None => false,
            },
    {
        let mut out: Vec<SensorDiscovery> = Vec::new();
        let d = SensorDiscovery::new(
            SensorDiscoveryInit {
                id: String::from_str("apt"),
                title: String::from_str("APT pending upgrades"),
                icon: String::from_str("mdi:update"),
                value_template: String::from_str("{{ value_json.state }}"),
            },
        ).with_state_class(StateClass::Measurement).with_attributes(
            String::from_str("{{ value_json.attrs | tojson }}"),
        );
        out.push(d);
        out
    }
}

} // verus!
