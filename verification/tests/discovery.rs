use mqtt2ha_reporter::command::Command;
use mqtt2ha_reporter::config::{Daemon, Mqtt};
use mqtt2ha_reporter::command_subscriber::{CommandKind, CommandSubscriber};
use mqtt2ha_reporter::commands::create_commands;
use mqtt2ha_reporter::connections::{
    get_connections, select_addresses, AddrInfo, Display, Interface, OperateState, Scope,
};
use mqtt2ha_reporter::discovery_publisher::{
    build_device_discovery, discovery_topic, ComponentCollector,
};
use mqtt2ha_reporter::ha::discovery::HaComponentDiscovery;
use mqtt2ha_reporter::ha::values::{DeviceClass, EntityCategory, StateClass};
use mqtt2ha_reporter::host::dmi::normalize_dmi_value;
use mqtt2ha_reporter::main_loop::{interval_ms, round_timeout_ms, MainLoop, StopReason};
use mqtt2ha_reporter::sensor::{SensorDiscovery, SensorDiscoveryInit};
use mqtt2ha_reporter::sensors::apt::AptSensor;
use mqtt2ha_reporter::sensors::cpu::CpuSensor;
use mqtt2ha_reporter::sensors::disk::DiskSensor;
use mqtt2ha_reporter::sensors::load::LoadSensor;
use mqtt2ha_reporter::sensors::memory::MemorySensor;
use mqtt2ha_reporter::sensors::monitor::MonitorSensor;
use mqtt2ha_reporter::sensors::net::NetSensor;
use mqtt2ha_reporter::sensors::reboot::RebootSensor;

fn plain_descriptor(id: &str) -> SensorDiscovery {
    SensorDiscovery::new(SensorDiscoveryInit {
        id: id.into(),
        title: "Title".into(),
        icon: "mdi:eye".into(),
        value_template: "{{ value_json }}".into(),
    })
}

#[test]
fn colliding_descriptor_ids_get_distinct_keys() {
    let mut collector = ComponentCollector::new("myhost".into());
    collector.add_sensor("base/one", vec![plain_descriptor("a")]);
    collector.add_sensor("base/two", vec![plain_descriptor("a")]);
    let keys: Vec<&str> = collector.result.iter().map(|(k, _)| k.as_str()).collect();
    assert_eq!(keys.len(), 2);
    assert_ne!(keys[0], keys[1]);
    for k in &keys {
        assert!(k.starts_with("myhost_"));
    }
}

#[test]
fn collector_maps_descriptors_onto_entries() {
    let mut collector = ComponentCollector::new("myhost".into());
    let d = plain_descriptor("cpu")
        .with_entity_category(EntityCategory::Diagnostic)
        .with_state_class(StateClass::Measurement)
        .with_unit_of_measurement("%".into());
    collector.add_sensor("base/cpu", vec![d]);
    let commands = create_commands("base");
    collector.add_command(
        commands.reboot_command.topic(),
        commands.reboot_command.discovery_data(),
    );
    assert_eq!(collector.result.len(), 2);
    match &collector.result[0].1 {
        HaComponentDiscovery::Sensor(s) => {
            assert_eq!(s.unique_id, "myhost_cpu");
            assert_eq!(s.state_topic, "base/cpu");
            assert_eq!(s.name, "Title");
            assert_eq!(s.unit_of_measurement.as_deref(), Some("%"));
            assert!(s.json_attributes_topic.is_none());
        }
        _ => panic!("expected a sensor entry"),
    }
    match &collector.result[1].1 {
        HaComponentDiscovery::Button(b) => {
            assert_eq!(b.unique_id, "myhost_reboot");
            assert_eq!(b.command_topic, "base/command/reboot");
            assert_eq!(b.name, "Reboot System");
            assert_eq!(b.device_class.as_deref(), Some("restart"));
        }
        _ => panic!("expected a button entry"),
    }
}

#[test]
fn attributes_template_pairs_with_topic() {
    let mut collector = ComponentCollector::new("h".into());
    let d = plain_descriptor("apt").with_attributes("{{ value_json.attrs | tojson }}".into());
    collector.add_sensor("base/apt", vec![d]);
    match &collector.result[0].1 {
        HaComponentDiscovery::Sensor(s) => {
            assert_eq!(s.json_attributes_topic.as_deref(), Some("base/apt"));
            assert_eq!(
                s.json_attributes_template.as_deref(),
                Some("{{ value_json.attrs | tojson }}")
            );
        }
        _ => panic!("expected a sensor entry"),
    }
}

#[test]
fn discovery_payload_carries_device_identity() {
    let collector = ComponentCollector::new("h".into());
    let payload = build_device_discovery(
        "base/availability".into(),
        "myhost".into(),
        "0000-1111".into(),
        vec![("mac".into(), "aa:bb".into())],
        "agent".into(),
        "1.0".into(),
        collector,
    );
    assert_eq!(payload.device.name, "myhost");
    assert_eq!(payload.device.identifiers, vec!["0000-1111".to_string()]);
    assert_eq!(payload.availability_topic, "base/availability");
    assert_eq!(payload.origin.name, "agent");
    assert!(payload.components.is_empty());
    assert_eq!(discovery_topic("homeassistant", "myhost"), "homeassistant/device/myhost/config");
}

#[test]
fn main_loop_derives_run_identity() {
    let main_loop = MainLoop::new("My-Host", "0000-1111", "home/nodes", 5);
    assert_eq!(main_loop.topic_base, "home/nodes/my_host");
    assert_eq!(main_loop.availability_topic, "home/nodes/my_host/availability");
    assert_eq!(main_loop.commands.reboot_command.topic, "home/nodes/my_host/command/reboot");
    assert_eq!(interval_ms(5), 300_000);
    assert_eq!(round_timeout_ms(300_000), 240_000);
    assert_eq!(StopReason::Shutdown.as_str(), "shutting down");
    assert_eq!(StopReason::Sleep.as_str(), "sleeping");
}

#[test]
fn dispatcher_finds_commands_by_topic() {
    let commands = create_commands("base");
    let subscriber = CommandSubscriber::new(&commands);
    let topics = subscriber.topics();
    assert_eq!(topics, vec!["base/command/reboot", "base/command/suspend"]);
    assert_eq!(subscriber.find_command("base/command/reboot"), Some(CommandKind::Reboot));
    assert_eq!(subscriber.find_command("base/command/suspend"), Some(CommandKind::Suspend));
    assert_eq!(subscriber.find_command("base/command/unknown"), None);
}

#[test]
fn sensor_descriptor_sets() {
    let memory = MemorySensor::new("base");
    assert_eq!(memory.topic(), "base/memory");
    let data = memory.discovery_data();
    let ids: Vec<&str> = data.iter().map(|d| d.id.as_str()).collect();
    assert_eq!(ids, vec!["memory_use", "memory_free", "swap_use", "swap_free"]);
    assert_eq!(data[0].entity_category, None);
    assert_eq!(data[1].entity_category, Some(EntityCategory::Diagnostic));
    assert_eq!(data[0].device_class, Some(DeviceClass::DataSize));

    let disk = DiskSensor::new("base");
    assert_eq!(disk.topic(), "base/disk");
    assert_eq!(disk.discovery_data().len(), 2);

    let load = LoadSensor::new("base");
    assert_eq!(load.topic(), "base/load");
    let ids: Vec<String> = load.discovery_data().into_iter().map(|d| d.id).collect();
    assert_eq!(ids, vec!["load_1min", "load_5min", "load_15min"]);

    let monitor = MonitorSensor::new("base");
    assert_eq!(monitor.topic(), "base/monitor");
    assert_eq!(monitor.discovery_data()[0].device_class, Some(DeviceClass::Timestamp));

    let apt = AptSensor::new("base");
    assert_eq!(apt.topic(), "base/apt");
    assert!(apt.discovery_data()[0].attributes_template.is_some());

    let reboot = RebootSensor::new("base");
    assert_eq!(reboot.topic(), "base/reboot");
    assert!(reboot.discovery_data()[0].binary);
}

#[test]
fn cpu_descriptors_enumerate_processors() {
    let cpu = CpuSensor::new("base", 3);
    assert_eq!(cpu.topic(), "base/cpu");
    let data = cpu.discovery_data();
    let ids: Vec<&str> = data.iter().map(|d| d.id.as_str()).collect();
    assert_eq!(ids, vec!["cpu", "cpu_0", "cpu_1", "cpu_2"]);
    assert_eq!(data[1].value_template, "{{ value_json.per_cpu[0] }}");
    assert_eq!(data[1].title, "CPU 0 use");
    // A single-processor host gets only the total.
    assert_eq!(CpuSensor::new("base", 1).discovery_data().len(), 1);
}

#[test]
fn net_descriptors_enumerate_interfaces() {
    let net = NetSensor::new("base", vec!["eth0".into(), "wlan0".into()]);
    assert_eq!(net.topic(), "base/net");
    let data = net.discovery_data();
    let ids: Vec<&str> = data.iter().map(|d| d.id.as_str()).collect();
    assert_eq!(
        ids,
        vec!["net_eth0_bytes_in", "net_eth0_bytes_out", "net_wlan0_bytes_in", "net_wlan0_bytes_out"]
    );
    assert_eq!(data[0].value_template, "{{ value_json['eth0'].bytes_in }}");
    assert_eq!(data[0].device_class, Some(DeviceClass::DataRate));
}

#[test]
fn address_selection_and_tagging() {
    let interfaces = vec![
        Interface {
            operate_state: OperateState::Up,
            address: Some("aa:bb".into()),
            addr_info: vec![AddrInfo { scope: Scope::Global }],
        },
        Interface {
            operate_state: OperateState::Down,
            address: Some("cc:dd".into()),
            addr_info: vec![AddrInfo { scope: Scope::Global }],
        },
        Interface {
            operate_state: OperateState::Up,
            address: Some("ee:ff".into()),
            addr_info: vec![AddrInfo { scope: Scope::Link }],
        },
        Interface {
            operate_state: OperateState::Up,
            address: None,
            addr_info: vec![AddrInfo { scope: Scope::Global }],
        },
    ];
    let addresses = select_addresses(interfaces);
    assert_eq!(addresses, vec!["aa:bb".to_string()]);
    let connections = get_connections(addresses);
    assert_eq!(connections.len(), 1);
    assert_eq!(connections[0].0, "mac");
    assert_eq!(connections[0].1, "aa:bb");
    let two = vec![
        ("mac".to_string(), "aa:bb".to_string()),
        ("mac".to_string(), "cc:dd".to_string()),
    ];
    assert_eq!(Display(&two).render(), "mac=aa:bb, mac=cc:dd");
    assert_eq!(Display(&Vec::new()).render(), "");
}

#[test]
fn dmi_values_are_filtered() {
    assert_eq!(normalize_dmi_value(" LENOVO \n", "System manufacturer"), Some("LENOVO".into()));
    assert_eq!(normalize_dmi_value("System manufacturer\n", "System manufacturer"), None);
    assert_eq!(normalize_dmi_value("   \n", "System manufacturer"), None);
}

#[test]
fn config_defaults() {
    assert_eq!(Daemon::default_interval_in_minutes(), 5);
    assert_eq!(Mqtt::default_hostname(), "localhost");
    assert_eq!(Mqtt::default_port(), 1883);
    assert_eq!(Mqtt::default_keep_alive(), 60);
    assert!(!Mqtt::default_tls());
    assert_eq!(Mqtt::default_discovery_prefix(), "homeassistant");
    assert_eq!(Mqtt::default_base_topic(), "home/nodes");
}
