//! Processor time accounting: parsing the kernel's cumulative tick counters
//! and the descriptors of the processor-use sensor.

use vstd::prelude::*;
use crate::parser::{ParseError, parse_next_field, parse_next_field_opt};
use crate::text::{digits_val, has_prefix, is_u64_string, lines_of, split_at_first, tokens_of};

verus! {

/// Cumulative scheduling-class tick counters of one processor, or of all of
/// them summed.
#[derive(Clone, Copy, Debug, PartialEq, Eq, Structural)]
pub struct CpuTimes {
    pub user: u64,
    pub nice: u64,
    pub system: u64,
    pub idle: u64,
    pub io_wait: u64,
    pub irq: u64,
    pub soft_irq: u64,
    pub steal: u64,
    pub guest: u64,
    pub guest_nice: u64,
}

/// The value of token `i`, or zero where the line has fewer tokens.
pub open spec fn tok_val(toks: Seq<Seq<char>>, i: int) -> nat {
    if i < toks.len() {
        digits_val(toks[i])
    } else {
        0
    }
}

/// How many leading tokens a counter line must parse: all of them, up to the
/// ten counters known.
pub open spec fn counter_limit(toks: Seq<Seq<char>>) -> int {
    if toks.len() < 10 {
        toks.len() as int
    } else {
        10
    }
}

/// Every examined token of a counter line is a decimal number.
pub open spec fn counters_ok(toks: Seq<Seq<char>>) -> bool {
    toks.len() >= 4 && forall|i: int| 0 <= i < counter_limit(toks) ==> is_u64_string(
        #[trigger] toks[i],
    )
}

/// The counters read from a line's tokens: the first four are required, the
/// next six default to zero when absent.
pub open spec fn counters_of(toks: Seq<Seq<char>>) -> CpuTimes {
    CpuTimes {
        user: tok_val(toks, 0) as u64,
        nice: tok_val(toks, 1) as u64,
        system: tok_val(toks, 2) as u64,
        idle: tok_val(toks, 3) as u64,
        io_wait: tok_val(toks, 4) as u64,
        irq: tok_val(toks, 5) as u64,
        soft_irq: tok_val(toks, 6) as u64,
        steal: tok_val(toks, 7) as u64,
        guest: tok_val(toks, 8) as u64,
        guest_nice: tok_val(toks, 9) as u64,
    }
}

/// What parsing a whitespace-separated counter line yields.
pub open spec fn parse_cpu_times_spec(s: Seq<char>) -> Option<CpuTimes> {
    let toks = tokens_of(s);
    if counters_ok(toks) {
        Some(counters_of(toks))
    } else {
        None
    }
}

impl CpuTimes {
    /// The ticks spent doing work, as opposed to idling or waiting.
    pub open spec fn busy_spec(self) -> int {
        self.user + self.nice + self.system + self.guest + self.guest_nice
    }

    /// The ticks spent doing work, as opposed to idling or waiting.
    pub fn busy(&self) -> (r: u64)
        requires
            self.busy_spec() <= u64::MAX,
        ensures
            r == self.busy_spec(),
    {
        self.user + self.nice + self.system + self.guest + self.guest_nice
    }

    /// Parses one whitespace-separated counter line: four required counters,
    /// six optional ones defaulting to zero.
    pub fn from_str(s: &str) -> (r: Result<CpuTimes, ParseError>)
        ensures
            ({
                let toks = tokens_of(s@);
                match r {
                    Ok(t) => counters_ok(toks) && t == counters_of(toks),
                    Err(ParseError::InvalidNumber) => exists|i: int|
                        0 <= i < counter_limit(toks) && !is_u64_string(#[trigger] toks[i]),
                    Err(ParseError::MissingField) => toks.len() < 4 && forall|i: int|
                        0 <= i < toks.len() ==> is_u64_string(#[trigger] toks[i]),
                    Err(_) => false,
                }
            }),
    {
        let fields = crate::text::split_whitespace(s);
        let ghost toks = tokens_of(s@);
        let mut pos: usize = 0;
        let user = match parse_next_field(&fields, &mut pos) {
            Ok(v) => v,
            Err(e) => return Err(e),
        };
        let nice = match parse_next_field(&fields, &mut pos) {
            Ok(v) => v,
            Err(e) => return Err(e),
        };
        let system = match parse_next_field(&fields, &mut pos) {
            Ok(v) => v,
            Err(e) => return Err(e),
        };
        let idle = match parse_next_field(&fields, &mut pos) {
            Ok(v) => v,
            Err(e) => return Err(e),
        };
        let io_wait = match parse_next_field_opt(&fields, &mut pos) {
            Ok(v) => v,
            Err(e) => return Err(e),
        };
        let irq = match parse_next_field_opt(&fields, &mut pos) {
            Ok(v) => v,
            Err(e) => return Err(e),
        };
        let soft_irq = match parse_next_field_opt(&fields, &mut pos) {
            Ok(v) => v,
            Err(e) => return Err(e),
        };
        let steal = match parse_next_field_opt(&fields, &mut pos) {
            Ok(v) => v,
            Err(e) => return Err(e),
        };
        let guest = match parse_next_field_opt(&fields, &mut pos) {
            Ok(v) => v,
            Err(e) => return Err(e),
        };
        let guest_nice = match parse_next_field_opt(&fields, &mut pos) {
            Ok(v) => v,
            Err(e) => return Err(e),
        };
        Ok(CpuTimes { user, nice, system, idle, io_wait, irq, soft_irq, steal, guest, guest_nice })
    }
}

/// Counters of all processors summed, and of each processor.
#[derive(Debug)]
pub struct AllCpuTimes {
    pub total: CpuTimes,
    pub per_cpu: Vec<CpuTimes>,
}

impl PartialEq for AllCpuTimes {
    fn eq(&self, other: &AllCpuTimes) -> (r: bool) {
        if self.total != other.total {
            return false;
        }
        if self.per_cpu.len() != other.per_cpu.len() {
            return false;
        }
        let n = self.per_cpu.len();
        let mut i: usize = 0;
        while i < n
            invariant
                n == self.per_cpu.len() == other.per_cpu.len(),
                0 <= i <= n,
                forall|j: int| 0 <= j < i ==> self.per_cpu@[j] == other.per_cpu@[j],
            decreases n - i,
        {
            if self.per_cpu[i] != other.per_cpu[i] {
                return false;
            }
            i = i + 1;
        }
        proof {
            assert(self.per_cpu@ =~= other.per_cpu@);
        }
        true
    }
}

impl vstd::std_specs::cmp::PartialEqSpecImpl for AllCpuTimes {
    open spec fn obeys_eq_spec() -> bool {
        true
    }

    open spec fn eq_spec(&self, other: &AllCpuTimes) -> bool {
        self.total == other.total && self.per_cpu@ == other.per_cpu@
    }
}

/// The per-processor lines parsed from line `i` on: one entry per leading
/// line that starts with `cpu`, each of which must carry a processor number
/// and a valid counter line.
pub open spec fn per_cpu_parse(ls: Seq<Seq<char>>, i: int) -> Option<Seq<CpuTimes>>
    decreases ls.len() - i,
{
    if i < 0 || i >= ls.len() {
        Some(Seq::empty())
    } else if !has_prefix(ls[i], seq!['c', 'p', 'u']) {
        Some(Seq::empty())
    } else {
        match split_at_first(ls[i].skip(3), ' ') {
            None => None,
            Some(p) => match parse_cpu_times_spec(p.1) {
                None => None,
                Some(t) => match per_cpu_parse(ls, i + 1) {
                    None => None,
                    Some(rest) => Some(seq![t] + rest),
                },
            },
        }
    }
}

/// Prepends already-parsed entries to the outcome of parsing the remaining
/// lines.
pub open spec fn prepend_parsed(v: Seq<CpuTimes>, o: Option<Seq<CpuTimes>>) -> Option<
    Seq<CpuTimes>,
> {
    match o {
        None => None,
        Some(r) => Some(v + r),
    }
}

/// What parsing a whole processor-statistics table yields: the summed
/// counters from the first line, then one entry per per-processor line.
pub open spec fn parse_stat_spec(s: Seq<char>) -> Option<(CpuTimes, Seq<CpuTimes>)> {
    let ls = lines_of(s);
    if ls.len() == 0 || !has_prefix(ls[0], seq!['c', 'p', 'u', ' ']) {
        None
    } else {
        match parse_cpu_times_spec(ls[0].skip(4)) {
            None => None,
            Some(total) => match per_cpu_parse(ls, 1) {
                None => None,
                Some(pc) => Some((total, pc)),
            },
        }
    }
}

/// Parses the kernel's processor-statistics table: the summed counters from
/// the first line, then one entry per line that starts with `cpu`, stopping
/// at the first line that does not.
pub fn parse_stat(s: &str) -> (r: Result<AllCpuTimes, ParseError>)
    ensures
        match (r, parse_stat_spec(s@)) {
            (Ok(a), Some(p)) => a.total == p.0 && a.per_cpu@ == p.1,
            (Err(_), None) => true,
            _ => false,
        },
{
    let ls = crate::text::split_lines(s);
    let ghost lsv = lines_of(s@);
    if ls.len() == 0 {
        return Err(ParseError::MissingField);
    }
    if !crate::text::starts_with(ls[0].as_str(), "cpu ") {
        proof {
            reveal_strlit("cpu ");
            assert("cpu "@ =~= seq!['c', 'p', 'u', ' ']);
        }
        return Err(ParseError::BadFormat);
    }
    proof {
        reveal_strlit("cpu ");
        assert("cpu "@ =~= seq!['c', 'p', 'u', ' ']);
    }
    let rest = crate::text::skip_chars(ls[0].as_str(), 4);
    let total = match CpuTimes::from_str(rest) {
        Ok(t) => t,
        Err(e) => {
            proof {
                assert(parse_cpu_times_spec(lsv[0].skip(4)) is None);
            }
            return Err(e);
        },
    };
    let n = ls.len();
    let mut per_cpu: Vec<CpuTimes> = Vec::new();
    let mut i: usize = 1;
    while i < n
        invariant
            lsv == lines_of(s@),
            n == lsv.len(),
            ls.deep_view() == lsv,
            n == ls@.len(),
            1 <= i <= n,
            has_prefix(lsv[0], seq!['c', 'p', 'u', ' ']),
            parse_cpu_times_spec(lsv[0].skip(4)) == Some(total),
            per_cpu_parse(lsv, 1) == prepend_parsed(per_cpu@, per_cpu_parse(lsv, i as int)),
        ensures
            1 <= i <= n,
            per_cpu_parse(lsv, i as int) == Some(Seq::<CpuTimes>::empty()),
            per_cpu_parse(lsv, 1) == prepend_parsed(per_cpu@, per_cpu_parse(lsv, i as int)),
        decreases n - i,
    {
        proof {
            reveal_strlit("cpu");
            assert("cpu"@ =~= seq!['c', 'p', 'u']);
            assert(lsv[i as int] == ls@[i as int]@);
        }
        if !crate::text::starts_with(ls[i].as_str(), "cpu") {
            proof {
                assert(per_cpu_parse(lsv, i as int) == Some(Seq::<CpuTimes>::empty()));
            }
            break;
        }
        let l2 = crate::text::skip_chars(ls[i].as_str(), 3);
        let (_num, tail) = match crate::text::split_once_char(l2, ' ') {
            Some(p) => p,
            None => {
                proof {
                    assert(per_cpu_parse(lsv, i as int) is None);
                }
                return Err(ParseError::BadFormat);
            },
        };
        let t = match CpuTimes::from_str(tail.as_str()) {
            Ok(t) => t,
            Err(e) => {
                proof {
                    assert(per_cpu_parse(lsv, i as int) is None);
                }
                return Err(e);
            },
        };
        proof {
            let rest_o = per_cpu_parse(lsv, i + 1);
            assert(per_cpu_parse(lsv, i as int) == prepend_parsed(seq![t], rest_o));
            if rest_o is Some {
                assert(per_cpu@.push(t) + rest_o->0 =~= per_cpu@ + (seq![t] + rest_o->0));
            }
        }
        per_cpu.push(t);
        i = i + 1;
    }
    proof {
        assert(per_cpu@ + Seq::<CpuTimes>::empty() =~= per_cpu@);
        assert(per_cpu_parse(lsv, 1) == Some(per_cpu@));
    }
    Ok(AllCpuTimes { total, per_cpu })
}

/// The busy ticks gained between two snapshots, zero where the counters
/// moved backwards, capped at what a `u64` carries.
pub open spec fn busy_delta_spec(start: CpuTimes, end: CpuTimes) -> u64 {
    let d = end.busy_spec() - start.busy_spec();
    if d <= 0 {
        0
    } else if d > u64::MAX {
        u64::MAX
    } else {
        d as u64
    }
}

/// The busy ticks gained between two snapshots.
pub fn busy_delta(start: &CpuTimes, end: &CpuTimes) -> (r: u64)
    ensures
        r == busy_delta_spec(*start, *end),
{
    let a: u128 = start.user as u128 + start.nice as u128 + start.system as u128
        + start.guest as u128 + start.guest_nice as u128;
    let b: u128 = end.user as u128 + end.nice as u128 + end.system as u128 + end.guest as u128
        + end.guest_nice as u128;
    if b <= a {
        0
    } else {
        let d = b - a;
        if d > u64::MAX as u128 {
            u64::MAX
        } else {
            d as u64
        }
    }
}

/// One percentage of a sampling window, in tenths of a percent.
pub open spec fn window_pct_spec(
    start: CpuTimes,
    end: CpuTimes,
    clock_tick: u64,
    elapsed_ms: u64,
    divisor: u64,
) -> u64 {
    crate::rate::cap_u64(
        crate::rate::round_div(
            busy_delta_spec(start, end) * 1_000_000,
            clock_tick * elapsed_ms * divisor,
        ),
    )
}

/// Computes one sampling window of the processor sensor: the averaged
/// total percentage over all processors, and, on a multi-processor host,
/// each processor's own percentage, all in tenths of a percent.
pub fn cpu_window(
    last: &AllCpuTimes,
    cur: &AllCpuTimes,
    clock_tick: u64,
    elapsed_ms: u64,
    cpu_count: usize,
) -> (r: (u64, Vec<u64>))
    requires
        clock_tick > 0,
        elapsed_ms > 0,
        cpu_count > 0,
    ensures
        r.0 == window_pct_spec(last.total, cur.total, clock_tick, elapsed_ms, cpu_count as u64),
        r.1@.len() == if cpu_count > 1 {
            if last.per_cpu@.len() <= cur.per_cpu@.len() {
                last.per_cpu@.len()
            } else {
                cur.per_cpu@.len()
            }
        } else {
            0
        },
        forall|j: int|
            0 <= j < r.1@.len() ==> r.1@[j] == window_pct_spec(
                last.per_cpu@[j],
                cur.per_cpu@[j],
                clock_tick,
                elapsed_ms,
                1,
            ),
{
    let total = crate::rate::busy_tenths(
        busy_delta(&last.total, &cur.total),
        clock_tick,
        elapsed_ms,
        cpu_count as u64,
    );
    let mut per_cpu: Vec<u64> = Vec::new();
    if cpu_count > 1 {
        let n = if last.per_cpu.len() <= cur.per_cpu.len() {
            last.per_cpu.len()
        } else {
            cur.per_cpu.len()
        };
        let mut j: usize = 0;
        while j < n
            invariant
                clock_tick > 0,
                elapsed_ms > 0,
                n <= last.per_cpu@.len(),
                n <= cur.per_cpu@.len(),
                0 <= j <= n,
                per_cpu@.len() == j,
                forall|k: int|
                    0 <= k < j ==> per_cpu@[k] == window_pct_spec(
                        last.per_cpu@[k],
                        cur.per_cpu@[k],
                        clock_tick,
                        elapsed_ms,
                        1,
                    ),
            decreases n - j,
        {
            let p = crate::rate::busy_tenths(
                busy_delta(&last.per_cpu[j], &cur.per_cpu[j]),
                clock_tick,
                elapsed_ms,
                1,
            );
            per_cpu.push(p);
            j = j + 1;
        }
    }
    (total, per_cpu)
}

/// The processor-use sensor: publishes the averaged percentages sampled
/// over each window under its own topic. Its processor count is fixed at
/// startup from the first counter snapshot.
pub struct CpuSensor {
    pub topic: String,
    pub cpu_count: usize,
}

/// The fields every processor descriptor shares, and the ones that vary.
pub open spec fn is_cpu_desc(
    d: crate::sensor::SensorDiscovery,
    id: Seq<char>,
    title: Seq<char>,
    tpl: Seq<char>,
    diagnostic: bool,
) -> bool {
    &&& d.id@ == id
    &&& d.title@ == title
    &&& d.value_template@ == tpl
    &&& d.entity_category == if diagnostic {
        Some(crate::ha::values::EntityCategory::Diagnostic)
    } else {
        None::<crate::ha::values::EntityCategory>
    }
    &&& d.device_class is None
    &&& d.state_class == Some(crate::ha::values::StateClass::Measurement)
    &&& match d.unit_of_measurement {
        Some(u) => u@ == "%"@,
        None => false,
    }
    &&& d.suggested_display_precision == Some(1i32)
    &&& match d.icon {
        Some(ic) => ic@ == "mdi:cpu-64-bit"@,
        None => false,
    }
    &&& d.binary == false
    &&& d.attributes_template is None
}

impl CpuSensor {
    /// A processor sensor publishing under `{topic_base}/cpu` for the given
    /// number of processors.
    pub fn new(topic_base: &str, cpu_count: usize) -> (r: Self)
        ensures
            r.topic@ == crate::topics::topic_of(topic_base@, "cpu"@),
            r.cpu_count == cpu_count,
    {
        CpuSensor { topic: crate::topics::make_topic(topic_base, "cpu"), cpu_count }
    }

    /// The topic this sensor publishes on.
    pub fn topic(&self) -> (r: &str)
        ensures
            r@ == self.topic@,
    {
        self.topic.as_str()
    }

    /// One descriptor for the averaged total, and, on a multi-processor
    /// host, one per processor.
    pub fn discovery_data(&self) -> (r: Vec<crate::sensor::SensorDiscovery>)
        ensures
            r@.len() == if self.cpu_count > 1 {
                1 + self.cpu_count
            } else {
                1
            },
            is_cpu_desc(r@[0], "cpu"@, "CPU use"@, "{{ value_json.total }}"@, false),
            forall|k: int|
                0 <= k < r@.len() - 1 ==> is_cpu_desc(
                    #[trigger] r@[1 + k],
                    "cpu_"@ + crate::text::dec_of(k as nat),
                    "CPU "@ + crate::text::dec_of(k as nat) + " use"@,
                    "{{ value_json.per_cpu["@ + crate::text::dec_of(k as nat) + "] }}"@,
                    true,
                ),
    {
        let mut out: Vec<crate::sensor::SensorDiscovery> = Vec::new();
        let d0 = crate::sensor::SensorDiscovery::new(
            crate::sensor::SensorDiscoveryInit {
                id: String::from_str("cpu"),
                title: String::from_str("CPU use"),
                icon: String::from_str("mdi:cpu-64-bit"),
                value_template: String::from_str("{{ value_json.total }}"),
            },
        ).with_state_class(crate::ha::values::StateClass::Measurement).with_unit_of_measurement(
            String::from_str("%"),
        ).with_suggested_display_precision(1);
        out.push(d0);
        if self.cpu_count > 1 {
            let n = self.cpu_count;
            let mut k: usize = 0;
            while k < n
                invariant
                    n == self.cpu_count,
                    0 <= k <= n,
                    out@.len() == 1 + k,
                    is_cpu_desc(out@[0], "cpu"@, "CPU use"@, "{{ value_json.total }}"@, false),
                    forall|j: int|
                        0 <= j < k ==> is_cpu_desc(
                            #[trigger] out@[1 + j],
                            "cpu_"@ + crate::text::dec_of(j as nat),
                            "CPU "@ + crate::text::dec_of(j as nat) + " use"@,
                            "{{ value_json.per_cpu["@ + crate::text::dec_of(j as nat) + "] }}"@,
                            true,
                        ),
                decreases n - k,
            {
                let num = crate::text::format_u64(k as u64);
                let mut id = String::from_str("cpu_");
                crate::strutil::append_str(&mut id, num.as_str());
                let mut title = String::from_str("CPU ");
                crate::strutil::append_str(&mut title, num.as_str());
                crate::strutil::append_str(&mut title, " use");
                let mut tpl = String::from_str("{{ value_json.per_cpu[");
                crate::strutil::append_str(&mut tpl, num.as_str());
                crate::strutil::append_str(&mut tpl, "] }}");
                let d = crate::sensor::SensorDiscovery::new(
                    crate::sensor::SensorDiscoveryInit {
                        id,
                        title,
                        icon: String::from_str("mdi:cpu-64-bit"),
                        value_template: tpl,
                    },
                ).with_entity_category(crate::ha::values::EntityCategory::Diagnostic)
                    .with_state_class(crate::ha::values::StateClass::Measurement)
                    .with_unit_of_measurement(String::from_str("%"))
                    .with_suggested_display_precision(1);
                out.push(d);
                k = k + 1;
            }
        }
        out
    }
}

} // verus!
