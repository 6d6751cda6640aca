use hephaestus::datasource::docker::{
    container_name, cpu_usage, to_cpu_stats, Baseline, ContainerCpuReading, ContainerReading,
    CpuStats, DockerClient, NetworkReading, StatsReading,
};
use hephaestus::domain::Timestamp;
use hephaestus::metrics::docker::{Docker, DockerCollector, Metrics};
use hephaestus::metrics::util::MetricType;
use hephaestus::number::Ratio;

fn reading(total: u64, system: u64, cpus: Option<u32>) -> ContainerCpuReading {
    ContainerCpuReading { total_usage: Some(total), system_cpu_usage: Some(system), online_cpus: cpus }
}

fn baseline(name: &str, total: u64, system: u64) -> Baseline {
    Baseline { name: name.to_string(), stats: CpuStats { total, system } }
}

fn container(id: Option<&str>, names: Option<Vec<&str>>, stats: Option<StatsReading>) -> ContainerReading {
    ContainerReading {
        id: id.map(|s| s.to_string()),
        names: names.map(|n| n.into_iter().map(|s| s.to_string()).collect()),
        stats,
    }
}

#[test]
fn container_names_lose_their_leading_slashes() {
    assert_eq!(container_name(&container(Some("abc"), Some(vec!["/web", "/alias"]), None)), "web");
    assert_eq!(container_name(&container(Some("abc"), Some(vec![]), None)), "abc");
    assert_eq!(container_name(&container(Some("abc"), None, None)), "abc");
    assert_eq!(container_name(&container(None, None, None)), "n/a");
    assert_eq!(container_name(&container(None, Some(vec!["//a/b"]), None)), "a/b");
}

#[test]
fn cpu_usage_is_the_share_of_machine_time_times_the_cpus() {
    let prev = vec![baseline("web", 1_000, 10_000)];
    let r = reading(1_500, 12_000, Some(4));
    let (usage, next) = cpu_usage("web", Some(&r), &prev);
    assert_eq!(usage, Some(Ratio { num: 2_000, den: 2_000 }));
    assert_eq!(next, Some(CpuStats { total: 1_500, system: 12_000 }));
    let r = reading(1_250, 12_000, None);
    let (usage, _) = cpu_usage("web", Some(&r), &prev);
    assert_eq!(usage, Some(Ratio { num: 250, den: 2_000 }));
    let r = reading(1_250, 12_000, Some(0));
    let (usage, _) = cpu_usage("web", Some(&r), &prev);
    assert_eq!(usage, Some(Ratio { num: 0, den: 2_000 }));
}

#[test]
fn a_restart_or_an_impossible_usage_is_suppressed_but_the_baseline_advances() {
    let prev = vec![baseline("web", 1_000, 10_000)];
    let same_total = reading(1_000, 12_000, Some(2));
    assert_eq!(cpu_usage("web", Some(&same_total), &prev), (None, Some(CpuStats { total: 1_000, system: 12_000 })));
    let fell = reading(10, 12_000, Some(2));
    assert_eq!(cpu_usage("web", Some(&fell), &prev), (None, Some(CpuStats { total: 10, system: 12_000 })));
    let system_fell = reading(2_000, 9_000, Some(2));
    assert_eq!(cpu_usage("web", Some(&system_fell), &prev), (None, Some(CpuStats { total: 2_000, system: 9_000 })));
    let too_much = reading(4_000, 12_000, Some(2));
    assert_eq!(cpu_usage("web", Some(&too_much), &prev), (None, Some(CpuStats { total: 4_000, system: 12_000 })));
    let at_the_limit = reading(3_000, 12_000, Some(2));
    assert_eq!(cpu_usage("web", Some(&at_the_limit), &prev).0, Some(Ratio { num: 4_000, den: 2_000 }));
}

#[test]
fn without_a_reading_or_a_baseline_there_is_no_usage() {
    let prev = vec![baseline("web", 1_000, 10_000)];
    assert_eq!(cpu_usage("web", None, &prev), (None, None));
    let partial = ContainerCpuReading { total_usage: Some(5), system_cpu_usage: None, online_cpus: Some(1) };
    assert_eq!(to_cpu_stats(&partial), None);
    assert_eq!(cpu_usage("web", Some(&partial), &prev), (None, None));
    let r = reading(1_500, 12_000, Some(4));
    assert_eq!(cpu_usage("db", Some(&r), &prev), (None, Some(CpuStats { total: 1_500, system: 12_000 })));
    let twice = vec![baseline("web", 0, 0), baseline("web", 1_000, 10_000)];
    assert_eq!(cpu_usage("web", Some(&r), &twice).0, Some(Ratio { num: 2_000, den: 2_000 }));
}

fn report(cpu: Option<ContainerCpuReading>, memory: Option<u64>, networks: Option<Vec<(Option<u64>, Option<u64>)>>) -> StatsReading {
    StatsReading {
        cpu_stats: cpu,
        memory_usage: memory,
        networks: networks.map(|n| n.into_iter().map(|(rx, tx)| NetworkReading { rx_bytes: rx, tx_bytes: tx }).collect()),
    }
}

#[test]
fn a_cycle_reports_containers_and_replaces_the_baselines() {
    let mut client = DockerClient::new();
    let first = vec![
        container(Some("1"), Some(vec!["/web"]), Some(report(Some(reading(1_000, 10_000, Some(2))), Some(4096), Some(vec![(Some(10), Some(20)), (None, Some(5))])))),
        container(None, Some(vec!["/ghost"]), Some(report(None, None, None))),
        container(Some("3"), Some(vec!["/silent"]), None),
        container(Some("4"), Some(vec!["/db"]), Some(report(None, None, None))),
    ];
    let stats = client.docker_stats(&first, Timestamp::new(1));
    assert_eq!(stats.timestamp, Timestamp::new(1));
    let names: Vec<&str> = stats.containers.iter().map(|c| c.name.as_str()).collect();
    assert_eq!(names, vec!["web", "db"]);
    assert_eq!(stats.containers[0].cpu_usage, None);
    assert_eq!(stats.containers[0].mem_usage_bytes, Some(4096));
    assert_eq!(stats.containers[0].net_rx_bytes, Some(10));
    assert_eq!(stats.containers[0].net_tx_bytes, Some(25));
    assert_eq!(stats.containers[1].mem_usage_bytes, None);
    assert_eq!(stats.containers[1].net_rx_bytes, None);
    assert_eq!(client.prev_cpu_stats.len(), 1);
    assert_eq!(client.prev_cpu_stats[0].name, "web");

    let second = vec![
        container(Some("1"), Some(vec!["/web"]), Some(report(Some(reading(1_500, 12_000, Some(2))), None, Some(vec![(Some(u64::MAX), Some(1)), (Some(7), Some(1))])))),
    ];
    let stats = client.docker_stats(&second, Timestamp::new(2));
    assert_eq!(stats.containers[0].cpu_usage, Some(Ratio { num: 1_000, den: 2_000 }));
    assert_eq!(stats.containers[0].net_rx_bytes, Some(u64::MAX));
    assert_eq!(stats.containers[0].net_tx_bytes, Some(2));
    assert_eq!(client.prev_cpu_stats[0].stats, CpuStats { total: 1_500, system: 12_000 });

    let third = client.docker_stats(&Vec::new(), Timestamp::new(3));
    assert!(third.containers.is_empty());
    assert!(client.prev_cpu_stats.is_empty());
}

#[test]
fn container_series_are_sparse() {
    let mut client = DockerClient::new();
    let listing = vec![
        container(Some("1"), Some(vec!["/web"]), Some(report(None, Some(4096), None))),
        container(Some("2"), Some(vec!["/db"]), Some(report(None, None, Some(vec![(Some(1), Some(2))])))),
    ];
    let stats = client.docker_stats(&listing, Timestamp::new(1));
    let mut collector = DockerCollector::new();
    assert!(collector.collect(Ok(stats)).is_ok());
    let metrics = Metrics::new().unwrap();
    assert!(metrics.collect(&None).is_empty());
    let families = metrics.collect(collector.measurements());
    let seen: Vec<(&str, &str, MetricType)> = families
        .iter()
        .map(|f| (f.name.as_str(), f.metric[0].label[0].value.as_str(), f.field_type))
        .collect();
    assert_eq!(
        seen,
        vec![
            ("docker_memory_usage_bytes", "web", MetricType::Gauge),
            ("docker_network_receive_bytes_total", "db", MetricType::Counter),
            ("docker_network_transmit_bytes_total", "db", MetricType::Counter),
        ]
    );
    assert_eq!(families[0].metric[0].value, Ratio { num: 4096, den: 1 });
    assert_eq!(families[0].metric[0].label[0].name, "container");
    assert!(Docker::new(hephaestus::metrics::docker::Config { enabled: false }).register().unwrap().is_none());
}
