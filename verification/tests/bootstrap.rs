use hephaestus::bootstrap::init_collectors;
use hephaestus::config::{Collectors, Configuration, DataSources, Http, Log};
use hephaestus::datasource::cpu_usage::calculate_usage;
use hephaestus::domain::{CollectError, Timestamp};
use hephaestus::metrics::cpu_frequency::{CpuFreqStats, CpuFrequency};
use hephaestus::metrics::cpu_usage::{CoreStats, CoreUsageStats, CpuUsage, CpuUsageStats};
use hephaestus::metrics::memory_usage::{MemoryUsage, RamStats, SwapStats};
use hephaestus::metrics::util::{MetricFamily, MetricType};
use hephaestus::metrics::zfs_arc::{ArcStats, ZfsArc};
use hephaestus::metrics::zfs_dataset::{DatasetIoStats, ZfsDatasetIo, ZfsIoStats};
use hephaestus::number::Ratio;

fn labels(f: &MetricFamily) -> Vec<(&str, &str)> {
    f.metric[0].label.iter().map(|l| (l.name.as_str(), l.value.as_str())).collect()
}

#[test]
fn defaults_are_those_of_the_agent() {
    let c = Configuration::default();
    assert!(!c.log.enable_stdout);
    assert!(c.log.enable_log_file);
    assert_eq!(c.log.log_file_directory.as_deref(), Some("/var/log/hephaestus/"));
    assert_eq!(c.log.level, "INFO");
    assert!(c.log.directives.is_empty());
    assert_eq!(c.log.max_log_files, 3);
    assert_eq!(c.http.port, 9123);
    assert_eq!(c.http.address, "0.0.0.0");
    assert_eq!(c.http.timeout, 10_000);
    assert_eq!(c.datasource.nut.address, "localhost");
    assert_eq!(c.datasource.nut.port, 3493);
    assert!(c.collector.memory_usage.enabled);
    assert!(!c.collector.memory_usage.report_swap);
    assert!(c.collector.cpu_usage.enabled && c.collector.cpu_frequency.enabled);
    assert!(c.collector.disk_io.enabled && c.collector.disk_temp.enabled && c.collector.ups.enabled);
    assert_eq!(Log::default().max_log_files, 3);
    assert_eq!(Http::default().port, 9123);
    assert_eq!(DataSources::default().nut.port, 3493);
}

#[test]
fn only_enabled_probes_are_put_together() {
    let all = init_collectors(Collectors::default()).unwrap();
    assert!(all.memory_usage.is_some() && all.cpu_frequency.is_some() && all.cpu_usage.is_some());
    assert!(all.network_io.is_some() && all.disk_io.is_some() && all.disk_temp.is_some());
    assert!(all.ups.is_some() && all.docker.is_some() && all.zfs_arc.is_some() && all.zfs_dataset.is_some());
    assert!(all.memory_usage.as_ref().unwrap().swap_metrics.is_none());
    assert!(all.gather().is_empty());

    let mut config = Collectors::default();
    config.ups.enabled = false;
    config.docker.enabled = false;
    config.memory_usage.report_swap = true;
    config.network_io.watch_interfaces = None;
    let some = init_collectors(config).unwrap();
    assert!(some.ups.is_none());
    assert!(some.docker.is_none());
    assert!(some.disk_io.is_some());
    assert!(some.memory_usage.as_ref().unwrap().swap_metrics.is_some());
    assert_eq!(some.network_io.as_ref().unwrap().0.config.watch_interfaces, None);
}

#[test]
fn gathering_goes_probe_after_probe() {
    let mut config = Collectors::default();
    config.memory_usage.report_swap = true;
    let mut probes = init_collectors(config).unwrap();
    let ram = RamStats { total: 100, used: 40, free: 50, available: 60, buffers: 4, cache: 6 };
    let swap = SwapStats { total: 10, used: 3, free: 7 };
    let memory = probes.memory_usage.as_mut().unwrap();
    assert!(memory.wants_swap());
    memory.collect(Some(swap), ram);
    let frequency = probes.cpu_frequency.as_mut().unwrap();
    assert!(frequency.collect(Ok(CpuFreqStats { cores: vec![800_000_000, 900_000_000] })).is_ok());
    assert!(frequency.collect(Err(CollectError::NoSensors)).is_err());
    let arc = probes.zfs_arc.as_mut().unwrap();
    let stats = ArcStats { timestamp: Timestamp::new(1), hits: 5, misses: 6, size: 7, target_size: 8, max_size: 9 };
    assert!(arc.0.collect(Ok(stats)).is_ok());

    let families = probes.gather();
    let names: Vec<&str> = families.iter().map(|f| f.name.as_str()).collect();
    assert_eq!(
        names,
        vec![
            "system_swap_free_bytes",
            "system_swap_used_bytes",
            "system_swap_total_bytes",
            "system_memory_free_bytes",
            "system_memory_used_bytes",
            "system_memory_total_bytes",
            "system_memory_available_bytes",
            "system_memory_buffers_bytes",
            "system_memory_cache_bytes",
            "system_cpu_core_frequency_hertz",
            "system_cpu_core_frequency_hertz",
            "zfs_arc_hits_total",
            "zfs_arc_misses_total",
            "zfs_arc_size_bytes",
            "zfs_arc_target_size_bytes",
            "zfs_arc_max_size_bytes",
        ]
    );
    assert_eq!(families[1].metric[0].value, Ratio { num: 3, den: 1 });
    assert_eq!(families[6].metric[0].value, Ratio { num: 60, den: 1 });
    assert!(families[0].metric[0].label.is_empty());
    assert_eq!(labels(&families[10]), vec![("core", "1")]);
    assert_eq!(families[10].metric[0].value, Ratio { num: 900_000_000, den: 1 });
    assert_eq!(families[11].field_type, MetricType::Counter);
    assert_eq!(families[13].field_type, MetricType::Gauge);
}

#[test]
fn swap_is_reported_only_where_it_is_asked_for() {
    let mut c = MemoryUsage::new(hephaestus::metrics::memory_usage::Config::default()).register().unwrap().unwrap();
    assert!(!c.wants_swap());
    assert!(c.gather().is_empty());
    c.collect(Some(SwapStats { total: 1, used: 1, free: 0 }), RamStats::default());
    assert_eq!(c.swap, None);
    assert_eq!(c.gather().len(), 6);
    assert!(MemoryUsage::new(hephaestus::metrics::memory_usage::Config { enabled: false, report_swap: true }).register().unwrap().is_none());
}

#[test]
fn cpu_usage_gauges_carry_core_and_type() {
    let mut c = CpuUsage::new(hephaestus::metrics::cpu_usage::Config::default()).register().unwrap().unwrap();
    assert!(c.gather().is_empty());
    let prev = [0, 0, 0, 100, 0, 0, 0, 0, 0, 0];
    let curr = [20, 0, 10, 160, 10, 0, 0, 0, 0, 0];
    let (usage, breakdown) = calculate_usage(&curr, &prev);
    let stats = CpuUsageStats {
        total_usage: usage,
        total_breakdown: breakdown,
        cores: vec![
            CoreUsageStats { core: 0, total_usage: usage, breakdown },
            CoreUsageStats { core: 11, total_usage: Ratio { num: 0, den: 1 }, breakdown: CoreStats::default() },
        ],
    };
    assert!(c.collect(Ok(stats)).is_ok());
    assert!(c.collect(Err(CollectError::TopologyChanged { previous: 3, current: 2 })).is_err());
    let families = c.gather();
    assert_eq!(families.len(), 1 + 10 + 2 * 11);
    assert_eq!(families[0].name, "system_cpu_usage_ratio");
    assert_eq!(families[0].metric[0].value, Ratio { num: 30, den: 100 });
    assert!(families[0].metric[0].label.is_empty());
    assert_eq!(families[1].name, "system_cpu_time_type_ratio");
    assert_eq!(labels(&families[1]), vec![("type", "user")]);
    assert_eq!(families[1].metric[0].value, Ratio { num: 20, den: 100 });
    assert_eq!(labels(&families[10]), vec![("type", "guest_nice")]);
    assert_eq!(families[11].name, "system_cpu_core_usage_ratio");
    assert_eq!(labels(&families[11]), vec![("core", "0")]);
    assert_eq!(families[12].name, "system_cpu_core_time_type_ratio");
    assert_eq!(labels(&families[12]), vec![("core", "0"), ("type", "user")]);
    assert_eq!(labels(&families[15]), vec![("core", "0"), ("type", "idle")]);
    assert_eq!(families[15].metric[0].value, Ratio { num: 60, den: 100 });
    assert_eq!(labels(&families[22]), vec![("core", "11")]);
    assert_eq!(labels(&families[32]), vec![("core", "11"), ("type", "guest_nice")]);
    assert!(families.iter().all(|f| f.field_type == MetricType::Gauge));
    assert!(CpuUsage::new(hephaestus::metrics::cpu_usage::Config { enabled: false }).register().unwrap().is_none());
    assert!(CpuFrequency::new(hephaestus::metrics::cpu_frequency::Config { enabled: false }).register().unwrap().is_none());
}

#[test]
fn dataset_and_cache_series() {
    let (mut collector, metrics) = ZfsDatasetIo::new(hephaestus::metrics::zfs_dataset::Config::default()).register().unwrap().unwrap();
    let stats = ZfsIoStats {
        timestamp: Timestamp::new(2),
        datasets: vec![DatasetIoStats { pool: "tank".to_string(), dataset: "tank/home".to_string(), reads: 1, writes: 2, nread: 3, nwritten: 4 }],
    };
    assert!(collector.collect(Ok(stats)).is_ok());
    let families = metrics.collect(collector.measurements());
    assert_eq!(families.len(), 4);
    assert_eq!(families[2].name, "zfs_dataset_read_bytes_total");
    assert_eq!(labels(&families[2]), vec![("pool", "tank"), ("dataset", "tank/home")]);
    assert_eq!(families[3].metric[0].value, Ratio { num: 4, den: 1 });
    assert!(ZfsDatasetIo::new(hephaestus::metrics::zfs_dataset::Config { enabled: false }).register().unwrap().is_none());

    let (mut cache, _) = ZfsArc::new(hephaestus::metrics::zfs_arc::Config::default()).register().unwrap().unwrap();
    let at = |n: u64| ArcStats { timestamp: Timestamp::new(n), hits: n, misses: 0, size: 0, target_size: 0, max_size: 0 };
    assert!(cache.collect(Ok(at(9))).is_ok());
    assert!(cache.collect(Ok(at(3))).is_ok());
    assert_eq!(cache.measurements().unwrap().hits, 9);
    assert!(ZfsArc::new(hephaestus::metrics::zfs_arc::Config { enabled: false }).register().unwrap().is_none());
}
