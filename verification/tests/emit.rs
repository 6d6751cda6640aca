use hephaestus::domain::{CollectError, Timestamp};
use hephaestus::metrics::disk_io::{DeviceIoStats, DiskIo, DiskIoCollector, DiskIoStats};
use hephaestus::metrics::network_io::{
    InterfaceStats, NetworkIo, NetworkIoCollector, NetworkIoStats,
};
use hephaestus::metrics::ups::{Metrics, Ups, UpsCollector, UpsDeviceStats, UpsField, UpsStats};
use hephaestus::metrics::util::{
    counter, emit, gauge, into_labels, maybe_counter, maybe_gauge, Desc, LabelPair, MetricFamily,
    MetricType, Reading,
};
use hephaestus::number::Ratio;

fn desc(name: &str, labels: &[&str]) -> Desc {
    Desc::with_labels(name, "help text", labels).unwrap()
}

fn labels_of(m: &[LabelPair]) -> Vec<(String, String)> {
    m.iter().map(|l| (l.name.clone(), l.value.clone())).collect()
}

fn pair(k: &str, v: &str) -> (String, String) {
    (k.to_string(), v.to_string())
}

#[test]
fn an_absent_field_gives_no_sample_and_a_present_one_exactly_one() {
    let d = desc("disk_wear", &["device"]);
    let entities = vec![
        Reading { label: into_labels(&[("device", "sda")]), value: None },
        Reading { label: into_labels(&[("device", "sdb")]), value: Some(Ratio { num: 97, den: 1 }) },
        Reading { label: into_labels(&[("device", "sdc")]), value: None },
    ];
    let family = emit(&d, MetricType::Gauge, &entities);
    assert_eq!(family.name, "disk_wear");
    assert_eq!(family.help, "help text");
    assert_eq!(family.field_type, MetricType::Gauge);
    assert_eq!(family.metric.len(), 1);
    assert_eq!(labels_of(&family.metric[0].label), vec![pair("device", "sdb")]);
    assert_eq!(family.metric[0].value, Ratio { num: 97, den: 1 });

    let none = emit(&d, MetricType::Counter, &Vec::new());
    assert!(none.metric.is_empty());
    assert_eq!(none.field_type, MetricType::Counter);
}

#[test]
fn maybe_gauge_and_maybe_counter_add_nothing_for_an_absent_value() {
    let d = desc("x_total", &["device"]);
    let l = into_labels(&[("device", "sda")]);
    let mut families: Vec<MetricFamily> = Vec::new();
    maybe_gauge(&mut families, &d, &l, None);
    maybe_counter(&mut families, &d, &l, None);
    assert!(families.is_empty());
    maybe_gauge(&mut families, &d, &l, Some(Ratio { num: 1, den: 2 }));
    maybe_counter(&mut families, &d, &l, Some(9));
    assert_eq!(families.len(), 2);
    assert_eq!(families[0].field_type, MetricType::Gauge);
    assert_eq!(families[0].metric[0].value, Ratio { num: 1, den: 2 });
    assert_eq!(families[1].field_type, MetricType::Counter);
    assert_eq!(families[1].metric[0].value, Ratio { num: 9, den: 1 });
    assert_eq!(labels_of(&families[1].metric[0].label), vec![pair("device", "sda")]);
    assert_eq!(families[1].name, "x_total");
}

#[test]
fn gauge_and_counter_build_one_sample() {
    let d = desc("y", &["a", "b"]);
    let g = gauge(&d, into_labels(&[("a", "1"), ("b", "2")]), Ratio { num: 3, den: 4 });
    assert_eq!(g.field_type, MetricType::Gauge);
    assert_eq!(g.metric.len(), 1);
    assert_eq!(labels_of(&g.metric[0].label), vec![pair("a", "1"), pair("b", "2")]);
    let c = counter(&d, Vec::new(), Ratio { num: 5, den: 1 });
    assert_eq!(c.field_type, MetricType::Counter);
    assert!(c.metric[0].label.is_empty());
    assert_eq!(c.metric[0].value, Ratio { num: 5, den: 1 });
}

#[test]
fn the_registry_rules_decide_on_descriptors() {
    assert!(Desc::new("system_ok_total", "fine", vec!["device".to_string()]).is_ok());
    assert!(Desc::new("system_ok_total", "", vec![]).is_err());
    match Desc::new("not a name", "help", vec![]) {
        Err(e) => assert_eq!(e.fq_name, "not a name"),
        Ok(_) => panic!("a name with spaces is no metric name"),
    }
    assert!(Desc::new("x", "help", vec!["bad-label".to_string()]).is_err());
    assert!(Desc::new("x", "help", vec!["a".to_string(), "a".to_string()]).is_err());
    assert!(Desc::with_label("x", "help", "core").is_ok());
    assert!(Desc::checked("anything at all", "h", vec![], true).is_ok());
    assert!(Desc::checked("x", "h", vec![], false).is_err());
    let d = Desc::with_labels("x", "h", &["a", "b"]).unwrap();
    assert_eq!(d.variable_labels, vec!["a".to_string(), "b".to_string()]);
    assert_eq!((d.fq_name.as_str(), d.help.as_str()), ("x", "h"));
}

fn device(name: &str, voltage: Option<Ratio>) -> UpsDeviceStats {
    UpsDeviceStats {
        device_name: name.to_string(),
        estimated_runtime: Some(Ratio { num: 1200, den: 1 }),
        battery_level: Some(Ratio { num: 80, den: 100 }),
        input_voltage: voltage,
        output_voltage: None,
        apparent_power: None,
        real_power: Some(Ratio { num: 500, den: 1 }),
        load: Some(Ratio { num: 50, den: 100 }),
    }
}

#[test]
fn ups_series_are_sparse() {
    let metrics = Metrics::new().unwrap();
    assert_eq!(metrics.runtime.fq_name, "system_ups_runtime_seconds");
    assert_eq!(metrics.load.help, "UPS load percentage");
    assert_eq!(metrics.input_voltage.variable_labels, vec!["ups".to_string()]);
    assert!(metrics.collect(&None).is_empty());

    let stats = UpsStats {
        timestamp: Timestamp::new(1),
        devices: vec![
            device("apc", None),
            device("eaton", Some(Ratio { num: 2304, den: 10 })),
        ],
    };
    assert_eq!(stats.devices[1].get(UpsField::InputVoltage), Some(Ratio { num: 2304, den: 10 }));
    let families = metrics.collect(&Some(stats));
    let names: Vec<&str> = families.iter().map(|f| f.name.as_str()).collect();
    assert_eq!(
        names,
        vec![
            "system_ups_runtime_seconds",
            "system_ups_battery_level_percent",
            "system_ups_apparent_power_va",
            "system_ups_real_power_watts",
            "system_ups_load_percent",
            "system_ups_input_voltage",
            "system_ups_output_voltage",
        ]
    );
    let counts: Vec<usize> = families.iter().map(|f| f.metric.len()).collect();
    assert_eq!(counts, vec![2, 2, 0, 2, 2, 1, 0]);
    assert_eq!(labels_of(&families[5].metric[0].label), vec![pair("ups", "eaton")]);
    assert_eq!(families[5].metric[0].value, Ratio { num: 2304, den: 10 });
    assert_eq!(labels_of(&families[0].metric[0].label), vec![pair("ups", "apc")]);
    assert!(families.iter().all(|f| f.field_type == MetricType::Gauge));
}

#[test]
fn a_disabled_probe_registers_nothing() {
    assert!(Ups::new(hephaestus::metrics::ups::Config { enabled: false }).register().unwrap().is_none());
    let (collector, metrics) = Ups::new(hephaestus::metrics::ups::Config::default())
        .register()
        .unwrap()
        .unwrap();
    assert!(collector.measurements().is_none());
    assert_eq!(metrics.real_power.fq_name, "system_ups_real_power_watts");
    assert!(DiskIo::new(hephaestus::metrics::disk_io::Config { enabled: false }).register().unwrap().is_none());
    assert!(DiskIo::new(hephaestus::metrics::disk_io::Config::default()).register().unwrap().is_some());
}

#[test]
fn the_ups_collector_keeps_the_newest_measurement() {
    let mut c = UpsCollector::new();
    let at = |n: u64| UpsStats { timestamp: Timestamp::new(n), devices: vec![device("apc", None)] };
    assert!(c.collect(Ok(at(20))).is_ok());
    assert!(c.collect(Ok(at(10))).is_ok());
    assert_eq!(c.measurements().as_ref().unwrap().timestamp, Timestamp::new(20));
    assert!(c.collect(Err(CollectError::Source("down".to_string()))).is_err());
    assert_eq!(c.measurements().as_ref().unwrap().timestamp, Timestamp::new(20));
    assert!(c.collect(Ok(at(30))).is_ok());
    assert_eq!(c.measurements().as_ref().unwrap().timestamp, Timestamp::new(30));
}

fn disk(name: &str) -> DeviceIoStats {
    DeviceIoStats { device_name: name.to_string(), bytes_read: 1, bytes_written: 2, read_ops: 3, write_ops: 4 }
}

#[test]
fn the_disk_collector_drops_loop_and_zram_devices() {
    let mut c = DiskIoCollector::new();
    assert!(c.should_collect("sda"));
    assert!(c.should_collect("md1p1"));
    assert!(!c.should_collect("loop0"));
    assert!(!c.should_collect("zram1"));
    let stats = DiskIoStats {
        timestamp: Timestamp::new(5),
        disks: vec![disk("loop0"), disk("sda"), disk("zram0"), disk("nvme0n1")],
    };
    assert!(c.collect(Ok(stats)).is_ok());
    let held = c.measurements().as_ref().unwrap();
    let names: Vec<&str> = held.disks.iter().map(|d| d.device_name.as_str()).collect();
    assert_eq!(names, vec!["sda", "nvme0n1"]);
    let older = DiskIoStats { timestamp: Timestamp::new(4), disks: vec![disk("sdz")] };
    assert!(c.collect(Ok(older)).is_ok());
    assert_eq!(c.measurements().as_ref().unwrap().disks.len(), 2);

    let metrics = hephaestus::metrics::disk_io::Metrics::new().unwrap();
    let families = metrics.collect(c.measurements());
    assert_eq!(families.len(), 4);
    assert_eq!(families[0].name, "system_disk_bytes_read_total");
    assert_eq!(families[3].name, "system_disk_write_ops_total");
    assert_eq!(families[3].metric.len(), 2);
    assert_eq!(families[3].metric[1].value, Ratio { num: 4, den: 1 });
    assert_eq!(labels_of(&families[1].metric[1].label), vec![pair("device", "nvme0n1")]);
    assert!(families.iter().all(|f| f.field_type == MetricType::Counter));
}

fn iface(name: &str) -> InterfaceStats {
    InterfaceStats { interface: name.to_string(), bytes_sent: 1, bytes_received: 2, packets_sent: 3, packets_received: 4 }
}

#[test]
fn the_network_collector_follows_the_watch_and_ignore_lists() {
    let default = hephaestus::metrics::network_io::Config::default();
    assert!(default.enabled);
    assert_eq!(default.watch_interfaces, Some(vec!["bond0".to_string(), "tailscale1".to_string()]));
    assert_eq!(default.ignore_interfaces, None);

    let watching = NetworkIoCollector::new(default.clone());
    assert!(watching.should_collect("bond0"));
    assert!(!watching.should_collect("eth0"));

    let ignoring = NetworkIoCollector::new(hephaestus::metrics::network_io::Config {
        enabled: true,
        watch_interfaces: None,
        ignore_interfaces: Some(vec!["lo".to_string()]),
    });
    assert!(!ignoring.should_collect("lo"));
    assert!(ignoring.should_collect("eth0"));

    let mut all = NetworkIoCollector::new(hephaestus::metrics::network_io::Config {
        enabled: true,
        watch_interfaces: None,
        ignore_interfaces: None,
    });
    assert!(all.should_collect("anything"));

    let mut c = ignoring;
    let stats = NetworkIoStats { timestamp: Timestamp::new(1), interfaces: vec![iface("lo"), iface("eth0"), iface("wlan0")] };
    assert!(c.collect(Ok(stats)).is_ok());
    let names: Vec<&str> = c.measurements().as_ref().unwrap().interfaces.iter().map(|d| d.interface.as_str()).collect();
    assert_eq!(names, vec!["eth0", "wlan0"]);
    assert!(all.collect(Err(CollectError::Source("gone".to_string()))).is_err());
    assert!(all.measurements().is_none());

    let (collector, metrics) = NetworkIo::new(default).register().unwrap().unwrap();
    assert!(collector.measurements().is_none());
    let families = metrics.collect(c.measurements());
    assert_eq!(families.len(), 8);
    assert_eq!(families[0].name, "system_network_transmit_bytes_total");
    assert_eq!(families[1].name, "system_network_receive_bytes_total");
    assert_eq!(families[7].name, "system_network_receive_packets_total");
    assert_eq!(labels_of(&families[4].metric[0].label), vec![pair("device", "wlan0")]);
    assert_eq!(families[7].metric[0].value, Ratio { num: 4, den: 1 });
}

#[test]
fn descriptors_are_listed_in_the_order_of_their_declaration() {
    let ups = Metrics::new().unwrap();
    let names: Vec<&str> = ups.desc().iter().map(|d| d.fq_name.as_str()).collect();
    assert_eq!(
        names,
        vec![
            "system_ups_runtime_seconds",
            "system_ups_battery_level_percent",
            "system_ups_input_voltage",
            "system_ups_output_voltage",
            "system_ups_apparent_power_va",
            "system_ups_real_power_watts",
            "system_ups_load_percent",
        ]
    );
    let smart = hephaestus::metrics::disk_smart::Metrics::new().unwrap();
    let descs = smart.desc();
    assert_eq!(descs.len(), 22);
    assert_eq!(descs[0].fq_name, "system_smart_sata_temperature_celsius");
    assert_eq!(descs[12].fq_name, "system_smart_nvme_temperature_celsius");
    assert_eq!(descs[21].help, "Total NVMe media and data integrity errors");
    assert_eq!(
        descs[21].variable_labels,
        vec!["device".to_string(), "model".to_string(), "serial_number".to_string()]
    );
    let disks = hephaestus::metrics::disk_io::Metrics::new().unwrap();
    assert_eq!(disks.desc().len(), 4);
    assert_eq!(disks.desc()[1].fq_name, "system_disk_bytes_written_total");
}
