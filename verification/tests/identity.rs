use mqtt2ha_reporter::machine_id::{derive_machine_id, format_hyphenated, parse_uuid};
use mqtt2ha_reporter::rate::{busy_tenths, rate_per_sec, rate_per_sec_milli};
use mqtt2ha_reporter::sensors::cpu::{cpu_window, parse_stat};
use mqtt2ha_reporter::sensors::disk;
use mqtt2ha_reporter::sensors::memory::{payload_of, MemInfo};
use mqtt2ha_reporter::sensors::net::{net_rates, parse_device_status, select_interfaces};
use mqtt2ha_reporter::sensors::apt::parse_upgrade_list;
use mqtt2ha_reporter::sensors::reboot;

#[test]
fn machine_id_is_keyed_hash_of_raw_id() {
    // The published identifier is the keyed hash of the raw one: never the
    // raw identifier itself, and stable across runs.
    let raw = "b7a1eb2698a5418e8e0d8ee8e04a4e1f\n";
    let id = derive_machine_id(raw).unwrap();
    assert_eq!(id, "7f4e72dc-fec3-d117-5494-6f1b49b42024");
    assert_eq!(derive_machine_id(raw).unwrap(), id);
}

#[test]
fn machine_id_accepts_hyphenated_form() {
    let plain = derive_machine_id("b7a1eb2698a5418e8e0d8ee8e04a4e1f").unwrap();
    let hyphenated = derive_machine_id("b7a1eb26-98a5-418e-8e0d-8ee8e04a4e1f\n").unwrap();
    assert_eq!(plain, hyphenated);
}

#[test]
fn machine_id_rejects_malformed_input() {
    assert!(derive_machine_id("not a uuid").is_err());
    assert!(derive_machine_id("b7a1eb2698a5418e8e0d8ee8e04a4e1").is_err());
    assert!(derive_machine_id("g7a1eb2698a5418e8e0d8ee8e04a4e1f").is_err());
}

#[test]
fn uuid_parse_and_format_round_trip() {
    let bytes = parse_uuid("00112233-4455-6677-8899-aabbccddeeff").unwrap();
    assert_eq!(bytes, vec![0x00, 0x11, 0x22, 0x33, 0x44, 0x55, 0x66, 0x77, 0x88, 0x99, 0xaa, 0xbb, 0xcc, 0xdd, 0xee, 0xff]);
    assert_eq!(format_hyphenated(&bytes), "00112233-4455-6677-8899-aabbccddeeff");
    let upper = parse_uuid("00112233445566778899AABBCCDDEEFF").unwrap();
    assert_eq!(upper, bytes);
}

#[test]
fn rates_are_rounded_per_second() {
    assert_eq!(rate_per_sec(600, 60_000), 10);
    assert_eq!(rate_per_sec(0, 60_000), 0);
    // Rounds to nearest: 100 bytes over 30 s is 3.33…, so 3.
    assert_eq!(rate_per_sec(100, 30_000), 3);
    assert_eq!(rate_per_sec(105, 30_000), 4);
    assert_eq!(rate_per_sec_milli(600, 60_000), 10_000);
}

#[test]
fn busy_percentage_in_tenths() {
    // 3000 ticks at 100 ticks per second over 60 s: 50% busy, 500 tenths.
    assert_eq!(busy_tenths(3000, 100, 60_000, 1), 500);
    // Averaged over 4 processors.
    assert_eq!(busy_tenths(3000, 100, 60_000, 4), 125);
    assert_eq!(busy_tenths(0, 100, 60_000, 1), 0);
}

#[test]
fn cpu_window_averages_and_enumerates() {
    let last = parse_stat("cpu  0 0 0 0\ncpu0 0 0 0 0\ncpu1 0 0 0 0\n").unwrap();
    let cur = parse_stat("cpu  6000 0 0 0\ncpu0 1500 0 0 0\ncpu1 4500 0 0 0\n").unwrap();
    let (total, per_cpu) = cpu_window(&last, &cur, 100, 60_000, 2);
    // 6000 ticks over 60 s at 100 ticks per second, over 2 processors: 50%.
    assert_eq!(total, 500);
    assert_eq!(per_cpu, vec![250, 750]);
}

#[test]
fn net_rates_skip_loopback_and_unknown() {
    let last = parse_device_status(
        "h\nh\n lo: 0 0 0 0 0 0 0 0 0 0 0 0 0 0 0 0\n eth0: 1000 1 0 0 0 0 0 0 2000 1 0 0 0 0 0 0\n",
    )
    .unwrap();
    let cur = parse_device_status(
        "h\nh\n lo: 9 9 0 0 0 0 0 0 9 9 0 0 0 0 0 0\n eth0: 1600 2 0 0 0 0 0 0 3200 2 0 0 0 0 0 0\n new0: 5 5 0 0 0 0 0 0 5 5 0 0 0 0 0 0\n",
    )
    .unwrap();
    let interfaces = select_interfaces(&cur);
    assert_eq!(interfaces, vec!["eth0".to_string(), "new0".to_string()]);
    let rates = net_rates(&last, &cur, 60_000);
    assert_eq!(rates.len(), 1);
    assert_eq!(rates[0].0, "eth0");
    assert_eq!(rates[0].1, 10);
    assert_eq!(rates[0].2, 20);
}

#[test]
fn memory_payload_follows_the_free_reckoning() {
    // A meaningful available figure wins.
    let p = payload_of(MemInfo {
        mem_total: 100 * 1024,
        mem_free: 30 * 1024,
        mem_available: 60 * 1024,
        swap_total: 10 * 1024,
        swap_free: 4 * 1024,
    });
    assert_eq!(p.mem_use, 40);
    assert_eq!(p.mem_free, 30);
    assert_eq!(p.swap_use, 6);
    assert_eq!(p.swap_free, 4);
    // Without one, total less free is used.
    let p = payload_of(MemInfo {
        mem_total: 100 * 1024,
        mem_free: 30 * 1024,
        mem_available: 0,
        swap_total: 0,
        swap_free: 0,
    });
    assert_eq!(p.mem_use, 70);
}

#[test]
fn disk_payload_scales_blocks() {
    let p = disk::payload_of(1000, 400, 350, 4096);
    assert_eq!(p.disk_use, 600 * 4096);
    assert_eq!(p.disk_free, 350 * 4096);
}

#[test]
fn upgrade_list_extracts_package_names() {
    let listing = "Reading package lists...\n\
        Inst firefox [128.0] (129.0 Ubuntu:24.04)\n\
        Inst libssl3t64 [3.0.13-0ubuntu3.4] (3.0.13-0ubuntu3.5)\n\
        Conf firefox (129.0 Ubuntu:24.04)\n\
        Inst \n";
    let packages = parse_upgrade_list(listing);
    assert_eq!(packages, vec!["firefox".to_string(), "libssl3t64".to_string()]);
    assert_eq!(parse_upgrade_list(""), Vec::<String>::new());
}

#[test]
fn reboot_payload_drops_packages_when_clear() {
    let p = reboot::payload_of(true, vec!["linux-image".into()]);
    assert!(p.state);
    assert_eq!(p.packages, vec!["linux-image".to_string()]);
    let p = reboot::payload_of(false, vec!["linux-image".into()]);
    assert!(!p.state);
    assert!(p.packages.is_empty());
}
