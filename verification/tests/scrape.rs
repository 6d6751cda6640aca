use hephaestus::domain::{
    collect_into, update_measurement_if, CollectError, Collector, Metric, Snapshot, Timestamp,
};
use hephaestus::metrics::no_operation::NoOpCollector;
use hephaestus::metrics::{
    cpu_frequency, cpu_usage, disk_io, disk_smart, docker, memory_usage, network_io, ups, zfs_arc,
    zfs_dataset,
};
use hephaestus::scrape::{ScrapeCacheState, ScrapeCoordinator, ScrapeDecision, DEFAULT_TTL};

const MS: u64 = 1_000_000;

struct CountingProbe {
    calls: usize,
}

impl Collector for CountingProbe {
    fn collect(&mut self) -> Result<(), CollectError> {
        self.calls += 1;
        Ok(())
    }
}

fn render(coordinator: &mut ScrapeCoordinator, probe: &mut CountingProbe, now: Timestamp) {
    if coordinator.on_request(now) == ScrapeDecision::Refresh {
        probe.collect().unwrap();
    }
}

#[test]
fn two_renders_within_the_ttl_fan_out_once() {
    let mut coordinator = ScrapeCoordinator::new(DEFAULT_TTL);
    let mut probe = CountingProbe { calls: 0 };
    render(&mut coordinator, &mut probe, Timestamp::new(5_000 * MS));
    render(&mut coordinator, &mut probe, Timestamp::new(5_500 * MS));
    assert_eq!(probe.calls, 1);
    render(&mut coordinator, &mut probe, Timestamp::new(6_000 * MS));
    assert_eq!(probe.calls, 1);
    render(&mut coordinator, &mut probe, Timestamp::new(6_000 * MS + 1));
    assert_eq!(probe.calls, 2);
    assert_eq!(coordinator.cache.last_refresh, Some(Timestamp::new(6_000 * MS + 1)));
}

#[test]
fn the_first_request_always_refreshes() {
    assert_eq!(DEFAULT_TTL, 1_000_000_000);
    let mut coordinator = ScrapeCoordinator::new(DEFAULT_TTL);
    assert_eq!(coordinator.cache, ScrapeCacheState::new());
    assert_eq!(coordinator.cache.last_refresh, None);
    assert_eq!(coordinator.on_request(Timestamp::new(0)), ScrapeDecision::Refresh);
    assert_eq!(coordinator.cache.last_refresh, Some(Timestamp::new(0)));
    assert_eq!(coordinator.ttl, DEFAULT_TTL);
}

#[test]
fn a_request_that_finds_the_lock_taken_serves_what_is_there() {
    assert_eq!(ScrapeCoordinator::lock_unavailable(), ScrapeDecision::ServeCached);
}

#[test]
fn a_clock_that_went_back_does_not_refresh() {
    let mut coordinator = ScrapeCoordinator::new(10);
    assert_eq!(coordinator.on_request(Timestamp::new(1_000)), ScrapeDecision::Refresh);
    assert_eq!(coordinator.on_request(Timestamp::new(500)), ScrapeDecision::ServeCached);
    assert_eq!(coordinator.cache.last_refresh, Some(Timestamp::new(1_000)));
    assert_eq!(coordinator.on_request(Timestamp::new(1_010)), ScrapeDecision::ServeCached);
    assert_eq!(coordinator.on_request(Timestamp::new(1_011)), ScrapeDecision::Refresh);
}

fn snapshot(nanos: u64, payload: &str) -> Snapshot<String> {
    Snapshot { timestamp: Timestamp::new(nanos), payload: payload.to_string() }
}

#[test]
fn an_older_snapshot_never_replaces_a_newer_one() {
    let mut slot: Option<Snapshot<String>> = None;
    assert!(update_measurement_if(&mut slot, snapshot(200, "newer")));
    assert!(!update_measurement_if(&mut slot, snapshot(100, "older")));
    let held = slot.as_ref().unwrap();
    assert_eq!(held.timestamp, Timestamp::new(200));
    assert_eq!(held.payload, "newer");
    assert!(update_measurement_if(&mut slot, snapshot(200, "same time")));
    assert_eq!(slot.as_ref().unwrap().payload, "same time");
    assert!(update_measurement_if(&mut slot, snapshot(300, "latest")));
    assert_eq!(slot.as_ref().unwrap().payload, "latest");
}

#[test]
fn delivery_order_does_not_matter() {
    let mut one: Option<Snapshot<String>> = None;
    update_measurement_if(&mut one, snapshot(1, "a"));
    update_measurement_if(&mut one, snapshot(2, "b"));
    let mut other: Option<Snapshot<String>> = None;
    update_measurement_if(&mut other, snapshot(2, "b"));
    update_measurement_if(&mut other, snapshot(1, "a"));
    assert_eq!(one.unwrap().payload, "b");
    assert_eq!(other.unwrap().payload, "b");
}

#[test]
fn a_failed_cycle_keeps_the_stale_snapshot() {
    let mut slot = Some(snapshot(10, "kept"));
    let r = collect_into(&mut slot, Err(CollectError::Source("connection refused".to_string())));
    match r {
        Err(CollectError::Source(text)) => assert_eq!(text, "connection refused"),
        _ => panic!("the failure must be handed on"),
    }
    assert_eq!(slot.as_ref().unwrap().payload, "kept");
    assert!(collect_into(&mut slot, Ok(snapshot(11, "fresh"))).is_ok());
    assert_eq!(slot.as_ref().unwrap().payload, "fresh");
}

#[test]
fn timestamps_measure_elapsed_time_without_underflow() {
    assert_eq!(Timestamp::new(10).since(Timestamp::new(4)), 6);
    assert_eq!(Timestamp::new(4).since(Timestamp::new(10)), 0);
}

#[test]
fn the_no_op_collector_succeeds_and_emits_nothing() {
    let mut c = NoOpCollector::new();
    assert!(c.collect().is_ok());
    assert!(c.collect().is_ok());
    assert!(c.gather().is_empty());
    assert_eq!(c, NoOpCollector::default());
}

#[test]
fn every_probe_has_a_name_and_says_whether_it_is_enabled() {
    let names = vec![
        cpu_usage::CpuUsage::new(cpu_usage::Config::default()).name(),
        cpu_frequency::CpuFrequency::new(cpu_frequency::Config::default()).name(),
        memory_usage::MemoryUsage::new(memory_usage::Config::default()).name(),
        network_io::NetworkIo::new(network_io::Config::default()).name(),
        disk_io::DiskIo::new(disk_io::Config::default()).name(),
        disk_smart::DiskTemp::new(disk_smart::Config::default()).name(),
        ups::Ups::new(ups::Config::default()).name(),
        docker::Docker::new(docker::Config::default()).name(),
        zfs_arc::ZfsArc::new(zfs_arc::Config::default()).name(),
        zfs_dataset::ZfsDatasetIo::new(zfs_dataset::Config::default()).name(),
    ];
    assert_eq!(
        names,
        vec![
            "cpu-usage", "cpu-frequency", "memory-usage", "network-io", "disk-io", "disk-smart",
            "ups", "docker", "zfs-arc", "zfs-dataset",
        ]
    );
    assert!(ups::Ups::new(ups::Config::default()).enabled());
    assert!(!ups::Ups::new(ups::Config { enabled: false }).enabled());
    assert!(!memory_usage::MemoryUsage::new(memory_usage::Config { enabled: false, report_swap: true }).enabled());
}
