use mqtt2ha_reporter::parser::{
    maybe_parse_next_field, parse_next_field, parse_next_field_opt, ParseError,
};
use mqtt2ha_reporter::sensors::cpu::CpuTimes;
use mqtt2ha_reporter::sensors::memory::{parse_mem_info, parse_value, MemInfo};
use mqtt2ha_reporter::sensors::net::{parse_device_status, DeviceStatus};
use mqtt2ha_reporter::snake_case::make_snake_case;
use mqtt2ha_reporter::text::{parse_u64_str, split_whitespace};

fn mem_info_input() -> String {
    let mut s = String::new();
    for line in [
        "MemTotal:       65751344 kB",
        "MemFree:        35679740 kB",
        "MemAvailable:   52700668 kB",
        "Buffers:          667512 kB",
        "Cached:         16294240 kB",
        "SwapCached:            0 kB",
        "SwapTotal:       6040576 kB",
        "SwapFree:        6040576 kB",
        "Dirty:              1076 kB",
        "Hugepagesize:       2048 kB",
        "DirectMap1G:    48234496 kB",
    ] {
        s.push_str(line);
        s.push('\n');
    }
    s
}

#[test]
fn test_parse_mem_info() {
    let mem_info = mem_info_input();
    assert_eq!(
        parse_mem_info(&mem_info).unwrap(),
        MemInfo {
            mem_total: 65_751_344 * 1024,
            mem_free: 35_679_740 * 1024,
            mem_available: 52_700_668 * 1024,
            swap_total: 6_040_576 * 1024,
            swap_free: 6_040_576 * 1024,
        },
    );
}

fn net_dev_input() -> String {
    let mut s = String::new();
    for line in [
        "Inter-|   Receive                                                |  Transmit",
        " face |bytes    packets errs drop fifo frame compressed multicast|bytes    packets errs drop fifo colls carrier compressed",
        "    lo: 10646157  118687    0    0    0     0          0         0 10646157  118687    0    0    0     0       0          0",
        "  eth0: 626446856 1867839    0    0    0     0          0         0 525923915 2425108    0    0    0     0       0          0",
    ] {
        s.push_str(line);
        s.push('\n');
    }
    s
}

#[test]
fn test_parse_device_status() {
    let dev = net_dev_input();
    let status = parse_device_status(&dev).unwrap();
    assert_eq!(
        status,
        vec![
            DeviceStatus {
                interface: "lo".into(),
                receive_bytes: 10_646_157,
                receive_packets: 118_687,
                transmit_bytes: 10_646_157,
                transmit_packets: 118_687,
            },
            DeviceStatus {
                interface: "eth0".into(),
                receive_bytes: 626_446_856,
                receive_packets: 1_867_839,
                transmit_bytes: 525_923_915,
                transmit_packets: 2_425_108,
            },
        ]
    );
}

#[test]
fn test_make_snake_case() {
    let testcases = &[
        ("HELLO, World!", "hello_world"),
        ("upsuper-vps11", "upsuper_vps11"),
        (r"C:\Users", "c_users"),
    ];
    for (input, expected) in testcases {
        assert_eq!(make_snake_case(input), *expected);
    }
}

#[test]
fn snake_case_edges() {
    assert_eq!(make_snake_case(""), "");
    assert_eq!(make_snake_case("!!!"), "");
    assert_eq!(make_snake_case("!abc"), "_abc");
    assert_eq!(make_snake_case("abc!"), "abc");
    assert_eq!(make_snake_case("a!!b"), "a_b");
}

#[test]
fn u64_parsing() {
    assert_eq!(parse_u64_str("0"), Some(0));
    assert_eq!(parse_u64_str("18446744073709551615"), Some(u64::MAX));
    assert_eq!(parse_u64_str("18446744073709551616"), None);
    assert_eq!(parse_u64_str(""), None);
    assert_eq!(parse_u64_str("12a"), None);
    assert_eq!(parse_u64_str("-1"), None);
}

#[test]
fn next_field_variants() {
    let fields = split_whitespace("10 x");
    let mut pos = 0;
    assert_eq!(parse_next_field(&fields, &mut pos), Ok(10));
    assert_eq!(parse_next_field(&fields, &mut pos), Err(ParseError::InvalidNumber));
    assert_eq!(parse_next_field(&fields, &mut pos), Err(ParseError::MissingField));
    let mut pos = 2;
    assert_eq!(parse_next_field_opt(&fields, &mut pos), Ok(0));
    let mut pos = 2;
    assert_eq!(maybe_parse_next_field(&fields, &mut pos), Ok(None));
}

#[test]
fn cpu_times_from_str_variants() {
    let t = CpuTimes::from_str("1 2 3 4").unwrap();
    assert_eq!(t.user, 1);
    assert_eq!(t.idle, 4);
    assert_eq!(t.io_wait, 0);
    assert_eq!(t.guest_nice, 0);
    assert_eq!(CpuTimes::from_str("1 2 3"), Err(ParseError::MissingField));
    assert_eq!(CpuTimes::from_str("1 2 x 4"), Err(ParseError::InvalidNumber));
    // An eleventh field is beyond the known counters and is ignored.
    let t = CpuTimes::from_str("1 2 3 4 5 6 7 8 9 10 nonsense").unwrap();
    assert_eq!(t.guest_nice, 10);
}

#[test]
fn cpu_busy_counts_work_ticks() {
    let t = CpuTimes::from_str("1 2 3 4 5 6 7 8 9 10").unwrap();
    assert_eq!(t.busy(), 1 + 2 + 3 + 9 + 10);
}

#[test]
fn mem_value_variants() {
    assert_eq!(parse_value(" 512 kB "), Ok(512 * 1024));
    assert_eq!(parse_value("512"), Ok(512));
    assert_eq!(parse_value("512 MB"), Err(ParseError::UnknownUnit));
    assert_eq!(parse_value("abc"), Err(ParseError::InvalidNumber));
    assert_eq!(parse_value("18446744073709551615 kB"), Err(ParseError::Overflow));
}

#[test]
fn mem_info_bad_value_is_rejected() {
    assert!(parse_mem_info("MemTotal: oops kB\n").is_err());
    // Unknown labels and unlabelled lines are skipped.
    let m = parse_mem_info("Whatever: oops\nno colon here\n").unwrap();
    assert_eq!(m.mem_total, 0);
}

#[test]
fn device_status_bad_line_is_rejected() {
    let mut s = String::from("h1\nh2\n");
    s.push_str("eth0 without colon\n");
    assert!(parse_device_status(&s).is_err());
    let short = "h1\nh2\n eth0: 1 2 3\n";
    assert!(parse_device_status(short).is_err());
    assert_eq!(parse_device_status("").unwrap(), vec![]);
}
