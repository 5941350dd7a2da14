//! Network throughput: parsing the kernel's per-interface counter table,
//! selecting the interfaces worth reporting, and turning two snapshots into
//! per-interface byte rates.

use vstd::prelude::*;
use crate::ha::values::{DeviceClass, StateClass};
use crate::parser::ParseError;
use crate::rate::{cap_u64, delta_or_zero, rate_units_spec};
use crate::sensor::{SensorDiscovery, SensorDiscoveryInit};
use crate::text::{digits_val, is_u64_string, lines_of, split_at_first, tokens_of, trim_spec};
use crate::topics::topic_of;

verus! {

/// One interface's cumulative traffic counters.
#[derive(Clone, Debug, PartialEq, Eq)]
pub struct DeviceStatus {
    pub interface: String,
    pub receive_bytes: u64,
    pub receive_packets: u64,
    pub transmit_bytes: u64,
    pub transmit_packets: u64,
}

/// The mathematical image of one interface's counters.
pub struct DeviceStatusV {
    pub interface: Seq<char>,
    pub receive_bytes: u64,
    pub receive_packets: u64,
    pub transmit_bytes: u64,
    pub transmit_packets: u64,
}

impl View for DeviceStatus {
    type V = DeviceStatusV;

    open spec fn view(&self) -> DeviceStatusV {
        DeviceStatusV {
            interface: self.interface@,
            receive_bytes: self.receive_bytes,
            receive_packets: self.receive_packets,
            transmit_bytes: self.transmit_bytes,
            transmit_packets: self.transmit_packets,
        }
    }
}

impl DeviceStatus {
    /// This is the loopback interface.
    pub fn is_lo(&self) -> (r: bool)
        ensures
            r == (self.interface@ == "lo"@),
    {
        crate::strutil::str_eq(self.interface.as_str(), "lo")
    }
}

/// The interface-status views of a list of statuses.
pub open spec fn views_of(v: Seq<DeviceStatus>) -> Seq<DeviceStatusV> {
    v.map_values(|d: DeviceStatus| d@)
}

/// What parsing one interface line yields: the name before the colon, then
/// at least ten counter fields of which the first, second, ninth and tenth
/// must be valid numbers.
pub open spec fn dev_line_spec(l: Seq<char>) -> Option<DeviceStatusV> {
    let t = trim_spec(l);
    match split_at_first(t, ':') {
        None => None,
        Some(p) => {
            let toks = tokens_of(p.1);
            if toks.len() >= 10 && is_u64_string(toks[0]) && is_u64_string(toks[1])
                && is_u64_string(toks[8]) && is_u64_string(toks[9]) {
                Some(
                    DeviceStatusV {
                        interface: p.0,
                        receive_bytes: digits_val(toks[0]) as u64,
                        receive_packets: digits_val(toks[1]) as u64,
                        transmit_bytes: digits_val(toks[8]) as u64,
                        transmit_packets: digits_val(toks[9]) as u64,
                    },
                )
            } else {
                None
            }
        },
    }
}

/// The interface entries parsed from the first `i` lines, the two header
/// lines skipped.
pub open spec fn dev_fold(ls: Seq<Seq<char>>, i: int) -> Option<Seq<DeviceStatusV>>
    decreases i,
{
    if i <= 2 {
        Some(Seq::empty())
    } else {
        match dev_fold(ls, i - 1) {
            None => None,
            Some(v) => match dev_line_spec(ls[i - 1]) {
                None => None,
                Some(e) => Some(v.push(e)),
            },
        }
    }
}

/// What parsing the whole interface table yields.
pub open spec fn parse_device_status_spec(s: Seq<char>) -> Option<Seq<DeviceStatusV>> {
    let ls = lines_of(trim_spec(s));
    dev_fold(ls, ls.len() as int)
}

/// Once a line fails, the whole fold fails.
proof fn lemma_dev_fold_none(ls: Seq<Seq<char>>, i: int, j: int)
    requires
        2 <= i <= j,
        dev_fold(ls, i) is None,
    ensures
        dev_fold(ls, j) is None,
    decreases j - i,
{
    if i < j {
        lemma_dev_fold_none(ls, i, j - 1);
    }
}

/// Parses the kernel's interface table: two header lines, then one line of
/// counters per interface.
pub fn parse_device_status(s: &str) -> (r: Result<Vec<DeviceStatus>, ParseError>)
    ensures
        match (r, parse_device_status_spec(s@)) {
            (Ok(v), Some(sv)) => views_of(v@) == sv,
            (Err(_), None) => true,
            _ => false,
        },
{
    let t = crate::text::trim_str(s);
    let ls = crate::text::split_lines(t);
    let ghost lsv = lines_of(trim_spec(s@));
    let n = ls.len();
    let mut out: Vec<DeviceStatus> = Vec::new();
    let mut i: usize = 2;
    if n < 2 {
        proof {
            assert(views_of(out@) =~= Seq::<DeviceStatusV>::empty());
        }
        return Ok(out);
    }
    while i < n
        invariant
            lsv == lines_of(trim_spec(s@)),
            ls.deep_view() == lsv,
            n == ls@.len() == lsv.len(),
            2 <= i <= n,
            dev_fold(lsv, i as int) == Some(views_of(out@)),
        decreases n - i,
    {
        proof {
            assert(lsv[i as int] == ls@[i as int]@);
        }
        let line = crate::text::trim_str(ls[i].as_str());
        let (iface, rest) = match crate::text::split_once_char(line, ':') {
            Some(p) => p,
            None => {
                proof {
                    assert(dev_fold(lsv, i + 1) is None);
                    lemma_dev_fold_none(lsv, i + 1, lsv.len() as int);
                }
                return Err(ParseError::BadFormat);
            },
        };
        let fields = crate::text::split_whitespace(rest.as_str());
        let mut pos: usize = 0;
        let receive_bytes = match crate::parser::parse_next_field(&fields, &mut pos) {
            Ok(v) => v,
            Err(e) => {
                proof {
                    assert(dev_fold(lsv, i + 1) is None);
                    lemma_dev_fold_none(lsv, i + 1, lsv.len() as int);
                }
                return Err(e);
            },
        };
        let receive_packets = match crate::parser::parse_next_field(&fields, &mut pos) {
            Ok(v) => v,
            Err(e) => {
                proof {
                    assert(dev_fold(lsv, i + 1) is None);
                    lemma_dev_fold_none(lsv, i + 1, lsv.len() as int);
                }
                return Err(e);
            },
        };
        // Skip the six receive counters that are not reported.
        pos = if pos <= usize::MAX - 6 && pos + 6 <= fields.len() {
            pos + 6
        } else {
            fields.len()
        };
        let transmit_bytes = match crate::parser::parse_next_field(&fields, &mut pos) {
            Ok(v) => v,
            Err(e) => {
                proof {
                    assert(dev_fold(lsv, i + 1) is None);
                    lemma_dev_fold_none(lsv, i + 1, lsv.len() as int);
                }
                return Err(e);
            },
        };
        let transmit_packets = match crate::parser::parse_next_field(&fields, &mut pos) {
            Ok(v) => v,
            Err(e) => {
                proof {
                    assert(dev_fold(lsv, i + 1) is None);
                    lemma_dev_fold_none(lsv, i + 1, lsv.len() as int);
                }
                return Err(e);
            },
        };
        let d = DeviceStatus {
            interface: iface,
            receive_bytes,
            receive_packets,
            transmit_bytes,
            transmit_packets,
        };
        proof {
            assert(dev_fold(lsv, i + 1) == Some(views_of(out@).push(d@)));
            assert(views_of(out@.push(d)) =~= views_of(out@).push(d@));
        }
        out.push(d);
        i = i + 1;
    }
    Ok(out)
}

/// The names of the non-loopback interfaces among the first `i` entries.
pub open spec fn nonlo_fold(v: Seq<DeviceStatusV>, i: int) -> Seq<Seq<char>>
    decreases i,
{
    if i <= 0 {
        Seq::empty()
    } else {
        let r = nonlo_fold(v, i - 1);
        if v[i - 1].interface == "lo"@ {
            r
        } else {
            r.push(v[i - 1].interface)
        }
    }
}

/// The names of the non-loopback interfaces, in table order.
pub open spec fn select_interfaces_spec(v: Seq<DeviceStatusV>) -> Seq<Seq<char>> {
    nonlo_fold(v, v.len() as int)
}

/// Picks the names of the interfaces worth reporting: all but loopback.
pub fn select_interfaces(sts: &Vec<DeviceStatus>) -> (r: Vec<String>)
    ensures
        r.deep_view() == select_interfaces_spec(views_of(sts@)),
{
    let n = sts.len();
    let mut out: Vec<String> = Vec::new();
    let mut i: usize = 0;
    while i < n
        invariant
            n == sts@.len(),
            0 <= i <= n,
            out.deep_view() == nonlo_fold(views_of(sts@), i as int),
        decreases n - i,
    {
        if !sts[i].is_lo() {
            out.push(sts[i].interface.clone());
            proof {
                assert(out.deep_view() =~= nonlo_fold(views_of(sts@), i + 1));
            }
        }
        i = i + 1;
    }
    out
}

/// The first entry from `i` on whose interface is `name`.
pub open spec fn find_from(v: Seq<DeviceStatusV>, name: Seq<char>, i: int) -> Option<DeviceStatusV>
    decreases v.len() - i,
{
    if i < 0 || i >= v.len() {
        None
    } else if v[i].interface == name {
        Some(v[i])
    } else {
        find_from(v, name, i + 1)
    }
}

/// Finds the first entry for the named interface.
pub fn find_status(sts: &Vec<DeviceStatus>, name: &str) -> (r: Option<usize>)
    ensures
        match r {
            Some(k) => k < sts@.len() && find_from(views_of(sts@), name@, 0) == Some(
                views_of(sts@)[k as int],
            ),
            None => find_from(views_of(sts@), name@, 0) is None,
        },
{
    let n = sts.len();
    let mut i: usize = 0;
    while i < n
        invariant
            n == sts@.len(),
            0 <= i <= n,
            find_from(views_of(sts@), name@, 0) == find_from(views_of(sts@), name@, i as int),
        decreases n - i,
    {
        if crate::strutil::str_eq(sts[i].interface.as_str(), name) {
            return Some(i);
        }
        i = i + 1;
    }
    None
}

/// The per-interface rates derived from the first `i` current entries:
/// loopback and interfaces without an earlier snapshot are skipped, the rest
/// get their receive and transmit byte rates over the window.
pub open spec fn rates_fold(
    lastv: Seq<DeviceStatusV>,
    curv: Seq<DeviceStatusV>,
    elapsed_ms: u64,
    i: int,
) -> Seq<(Seq<char>, u64, u64)>
    decreases i,
{
    if i <= 0 {
        Seq::empty()
    } else {
        let r = rates_fold(lastv, curv, elapsed_ms, i - 1);
        let d = curv[i - 1];
        if d.interface == "lo"@ {
            r
        } else {
            match find_from(lastv, d.interface, 0) {
                None => r,
                Some(p) => r.push(
                    (
                        d.interface,
                        cap_u64(
                            rate_units_spec(
                                delta_or_zero(d.receive_bytes, p.receive_bytes),
                                elapsed_ms,
                            ),
                        ),
                        cap_u64(
                            rate_units_spec(
                                delta_or_zero(d.transmit_bytes, p.transmit_bytes),
                                elapsed_ms,
                            ),
                        ),
                    ),
                ),
            }
        }
    }
}

/// What one sampling window publishes for the network sensor.
pub open spec fn net_rates_spec(
    lastv: Seq<DeviceStatusV>,
    curv: Seq<DeviceStatusV>,
    elapsed_ms: u64,
) -> Seq<(Seq<char>, u64, u64)> {
    rates_fold(lastv, curv, elapsed_ms, curv.len() as int)
}

/// The views of a list of named rate pairs.
pub open spec fn rate_views(v: Seq<(String, u64, u64)>) -> Seq<(Seq<char>, u64, u64)> {
    v.map_values(|t: (String, u64, u64)| (t.0@, t.1, t.2))
}

/// Turns two counter snapshots into per-interface receive and transmit byte
/// rates over the elapsed window, skipping loopback and interfaces that the
/// earlier snapshot does not hold.
pub fn net_rates(
    last: &Vec<DeviceStatus>,
    cur: &Vec<DeviceStatus>,
    elapsed_ms: u64,
) -> (r: Vec<(String, u64, u64)>)
    requires
        elapsed_ms > 0,
    ensures
        rate_views(r@) == net_rates_spec(views_of(last@), views_of(cur@), elapsed_ms),
{
    let n = cur.len();
    let mut out: Vec<(String, u64, u64)> = Vec::new();
    let mut i: usize = 0;
    while i < n
        invariant
            elapsed_ms > 0,
            n == cur@.len(),
            0 <= i <= n,
            rate_views(out@) == rates_fold(views_of(last@), views_of(cur@), elapsed_ms, i as int),
        decreases n - i,
    {
        if !cur[i].is_lo() {
            match find_status(last, cur[i].interface.as_str()) {
                None => {},
                Some(k) => {
                    let d_in = if cur[i].receive_bytes >= last[k].receive_bytes {
                        cur[i].receive_bytes - last[k].receive_bytes
                    } else {
                        0
                    };
                    let d_out = if cur[i].transmit_bytes >= last[k].transmit_bytes {
                        cur[i].transmit_bytes - last[k].transmit_bytes
                    } else {
                        0
                    };
                    let rate_in = crate::rate::rate_per_sec(d_in, elapsed_ms);
                    let rate_out = crate::rate::rate_per_sec(d_out, elapsed_ms);
                    out.push((cur[i].interface.clone(), rate_in, rate_out));
                    proof {
                        assert(rate_views(out@) =~= rates_fold(
                            views_of(last@),
                            views_of(cur@),
                            elapsed_ms,
                            i + 1,
                        ));
                    }
                },
            }
        }
        i = i + 1;
    }
    out
}

/// The network sensor: reports the rates above for a fixed set of
/// interfaces under its own topic.
pub struct NetSensor {
    pub topic: String,
    pub interfaces: Vec<String>,
}

/// The fields every network descriptor shares, and the ones that vary with
/// the interface and direction.
pub open spec fn is_net_desc(
    d: SensorDiscovery,
    iface: Seq<char>,
    id: Seq<char>,
    title: Seq<char>,
    tpl: Seq<char>,
    icon: Seq<char>,
) -> bool {
    &&& d.id@ == id
    &&& d.title@ == title
    &&& d.value_template@ == tpl
    &&& d.entity_category is None
    &&& d.device_class == Some(DeviceClass::DataRate)
    &&& d.state_class == Some(StateClass::Measurement)
    &&& match d.unit_of_measurement {
        Some(u) => u@ == "B/s"@,
        None => false,
    }
    &&& d.suggested_display_precision is None
    &&& match d.icon {
        Some(ic) => ic@ == icon,
        None => false,
    }
    &&& d.binary == false
    &&& d.attributes_template is None
}

impl NetSensor {
    /// A network sensor publishing under `{topic_base}/net` for the given
    /// interfaces.
    pub fn new(topic_base: &str, interfaces: Vec<String>) -> (r: Self)
        ensures
            r.topic@ == topic_of(topic_base@, "net"@),
            r.interfaces == interfaces,
    {
        NetSensor { topic: crate::topics::make_topic(topic_base, "net"), interfaces }
    }

    /// The topic this sensor publishes on.
    pub fn topic(&self) -> (r: &str)
        ensures
            r@ == self.topic@,
    {
        self.topic.as_str()
    }

    /// Two descriptors per interface: throughput in, then throughput out.
    pub fn discovery_data(&self) -> (r: Vec<SensorDiscovery>)
        ensures
            r@.len() == 2 * self.interfaces@.len(),
            forall|k: int|
                0 <= k < self.interfaces@.len() ==> {
                    let iface = self.interfaces.deep_view()[k];
                    is_net_desc(
                        #[trigger] r@[2 * k],
                        iface,
                        "net_"@ + iface + "_bytes_in"@,
                        "Network "@ + iface + " throughput in"@,
                        "{{ value_json['"@ + iface + "'].bytes_in }}"@,
                        "mdi:download-network"@,
                    ) && is_net_desc(
                        r@[2 * k + 1],
                        iface,
                        "net_"@ + iface + "_bytes_out"@,
                        "Network "@ + iface + " throughput out"@,
                        "{{ value_json['"@ + iface + "'].bytes_out }}"@,
                        "mdi:upload-network"@,
                    )
                },
    {
        let n = self.interfaces.len();
        let mut out: Vec<SensorDiscovery> = Vec::new();
        let mut i: usize = 0;
        while i < n
            invariant
                n == self.interfaces@.len(),
                0 <= i <= n,
                out@.len() == 2 * i,
                forall|k: int|
                    0 <= k < i ==> {
                        let iface = self.interfaces.deep_view()[k];
                        is_net_desc(
                            #[trigger] out@[2 * k],
                            iface,
                            "net_"@ + iface + "_bytes_in"@,
                            "Network "@ + iface + " throughput in"@,
                            "{{ value_json['"@ + iface + "'].bytes_in }}"@,
                            "mdi:download-network"@,
                        ) && is_net_desc(
                            out@[2 * k + 1],
                            iface,
                            "net_"@ + iface + "_bytes_out"@,
                            "Network "@ + iface + " throughput out"@,
                            "{{ value_json['"@ + iface + "'].bytes_out }}"@,
                            "mdi:upload-network"@,
                        )
                    },
            decreases n - i,
        {
            let iface: &String = &self.interfaces[i];
            let mut id_in = String::from_str("net_");
            crate::strutil::append_str(&mut id_in, iface.as_str());
            crate::strutil::append_str(&mut id_in, "_bytes_in");
            let mut title_in = String::from_str("Network ");
            crate::strutil::append_str(&mut title_in, iface.as_str());
            crate::strutil::append_str(&mut title_in, " throughput in");
            let mut tpl_in = String::from_str("{{ value_json['");
            crate::strutil::append_str(&mut tpl_in, iface.as_str());
            crate::strutil::append_str(&mut tpl_in, "'].bytes_in }}");
            let d_in = SensorDiscovery::new(
                SensorDiscoveryInit {
                    id: id_in,
                    title: title_in,
                    icon: String::from_str("mdi:download-network"),
                    value_template: tpl_in,
                },
            ).with_device_class(DeviceClass::DataRate).with_state_class(
                StateClass::Measurement,
            ).with_unit_of_measurement(String::from_str("B/s"));
            out.push(d_in);
            let mut id_out = String::from_str("net_");
            crate::strutil::append_str(&mut id_out, iface.as_str());
            crate::strutil::append_str(&mut id_out, "_bytes_out");
            let mut title_out = String::from_str("Network ");
            crate::strutil::append_str(&mut title_out, iface.as_str());
            crate::strutil::append_str(&mut title_out, " throughput out");
            let mut tpl_out = String::from_str("{{ value_json['");
            crate::strutil::append_str(&mut tpl_out, iface.as_str());
            crate::strutil::append_str(&mut tpl_out, "'].bytes_out }}");
            let d_out = SensorDiscovery::new(
                SensorDiscoveryInit {
                    id: id_out,
                    title: title_out,
                    icon: String::from_str("mdi:upload-network"),
                    value_template: tpl_out,
                },
            ).with_device_class(DeviceClass::DataRate).with_state_class(
                StateClass::Measurement,
            ).with_unit_of_measurement(String::from_str("B/s"));
            out.push(d_out);
            i = i + 1;
        }
        out
    }
}

} // verus!
