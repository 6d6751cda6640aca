use hephaestus::datasource::cpu_usage::{calculate_usage, parse_proc_stat, CpuUsage, SampleStep};
use hephaestus::domain::{CollectError, Timestamp};
use hephaestus::number::Ratio;

fn value(r: Ratio) -> f64 {
    r.num as f64 / r.den as f64
}

#[test]
fn test_parse_proc_stat_valid_input() {
    let content = r#"cpu  1100 200 300 400 500 600 700 800 900 1000
cpu0 600 100 150 200 250 300 350 400 450 500
cpu1 500 100 150 200 250 300 350 400 450 500
intr 123456 789
ctxt 987654
"#;

    let result = parse_proc_stat(content);
    assert_eq!(result.len(), 3);

    assert_eq!(
        result[0],
        [1100, 200, 300, 400, 500, 600, 700, 800, 900, 1000]
    );
    assert_eq!(
        result[1],
        [600, 100, 150, 200, 250, 300, 350, 400, 450, 500]
    );
    assert_eq!(
        result[2],
        [500, 100, 150, 200, 250, 300, 350, 400, 450, 500]
    );
}

#[test]
fn test_parse_proc_stat_with_varying_whitespace() {
    let content = r#"cpu  10 10 10 10 10 10 10 10 10 10 
cpu0 20 20 20 20 20 20 20 20 20 20

"#;

    let result = parse_proc_stat(content);
    assert_eq!(result.len(), 2);
    assert_eq!(result[0][0], 10);
    assert_eq!(result[1][0], 20);
}

#[test]
fn test_calculate_usage_standard_usage() {
    let prev = [0, 0, 0, 100, 0, 0, 0, 0, 0, 0];
    let curr = [20, 0, 10, 160, 10, 0, 0, 0, 0, 0];

    let (usage, stats) = calculate_usage(&curr, &prev);

    assert!((value(usage) - 0.3).abs() < f64::EPSILON);
    assert!((value(stats.user) - 0.2).abs() < f64::EPSILON);
    assert!((value(stats.system) - 0.1).abs() < f64::EPSILON);
    assert!((value(stats.idle) - 0.6).abs() < f64::EPSILON);
    assert!((value(stats.iowait) - 0.1).abs() < f64::EPSILON);
}

#[test]
fn test_calculate_usage_zero_delta() {
    let prev = [100, 100, 100, 100, 100, 100, 100, 100, 100, 100];
    let curr = [100, 100, 100, 100, 100, 100, 100, 100, 100, 100];

    let (usage, stats) = calculate_usage(&curr, &prev);

    assert_eq!(value(usage), 0.0);
    assert_eq!(value(stats.user), 0.0);
    assert_eq!(value(stats.idle), 0.0);
}

#[test]
fn test_calculate_usage_guest_overlap() {
    let prev = [0u64; 10];
    let curr = [10, 0, 0, 90, 0, 0, 0, 0, 5, 0];

    let (usage, stats) = calculate_usage(&curr, &prev);

    assert!((value(stats.user) - 0.1).abs() < f64::EPSILON);
    assert!((value(stats.guest) - 0.05).abs() < f64::EPSILON);
    assert!((value(usage) - 0.1).abs() < f64::EPSILON);
}

#[test]
fn test_calculate_usage_saturating_sub() {
    let prev = [200; 10];
    let curr = [100; 10];

    let (usage, _) = calculate_usage(&curr, &prev);
    assert_eq!(value(usage), 0.0);
}

#[test]
fn calculate_usage_gives_exact_fractions() {
    let prev = [0, 0, 0, 100, 0, 0, 0, 0, 0, 0];
    let curr = [20, 0, 10, 160, 10, 0, 0, 0, 0, 0];
    let (usage, stats) = calculate_usage(&curr, &prev);
    assert_eq!(usage, Ratio { num: 30, den: 100 });
    assert_eq!(stats.user, Ratio { num: 20, den: 100 });
    assert_eq!(stats.idle, Ratio { num: 60, den: 100 });
    assert_eq!(stats.guest, Ratio { num: 0, den: 100 });
}

#[test]
fn sampler_seeds_waits_and_reads() {
    assert_eq!(CpuUsage::plan(None, Timestamp::new(5)), SampleStep::Seed);
    assert_eq!(
        CpuUsage::plan(Some(Timestamp::new(1_000)), Timestamp::new(100_001_000)),
        SampleStep::Wait(150_000_000)
    );
    assert_eq!(
        CpuUsage::plan(Some(Timestamp::new(1_000)), Timestamp::new(250_001_000)),
        SampleStep::Read
    );
    assert_eq!(
        CpuUsage::plan(Some(Timestamp::new(1_000)), Timestamp::new(10)),
        SampleStep::Wait(250_000_000)
    );
}

#[test]
fn sampler_advances_the_baseline_and_rejects_a_changed_core_count() {
    let a = parse_proc_stat("cpu  0 0 0 100 0 0 0 0 0 0\ncpu0 0 0 0 100 0 0 0 0 0 0\n");
    let b = parse_proc_stat("cpu  50 0 0 150 0 0 0 0 0 0\ncpu0 50 0 0 150 0 0 0 0 0 0\n");
    let c = parse_proc_stat("cpu  50 0 80 170 0 0 0 0 0 0\ncpu0 50 0 80 170 0 0 0 0 0 0\n");
    let mut sampler = CpuUsage::new();
    assert!(sampler.baseline().is_none());

    let first = sampler.complete(&a, b.clone(), Timestamp::new(300)).unwrap();
    assert!((value(first.total_usage) - 0.5).abs() < f64::EPSILON);
    assert!((value(first.total_breakdown.user) - 0.5).abs() < f64::EPSILON);
    assert_eq!(first.cores.len(), 1);
    assert_eq!(first.cores[0].core, 0);

    let stored = sampler.baseline().unwrap();
    assert_eq!(stored.timestamp, Timestamp::new(300));
    assert_eq!(stored.rows, b);

    let second = sampler.complete(&stored.rows, c, Timestamp::new(900)).unwrap();
    assert!((value(second.total_usage) - 0.8).abs() < f64::EPSILON);
    assert!((value(second.total_breakdown.system) - 0.8).abs() < f64::EPSILON);
    assert!((value(second.total_breakdown.user) - 0.0).abs() < f64::EPSILON);

    let fewer = parse_proc_stat("cpu  60 0 80 170 0 0 0 0 0 0\n");
    let before = sampler.baseline().unwrap();
    match sampler.complete(&before.rows, fewer, Timestamp::new(1_500)) {
        Err(CollectError::TopologyChanged { previous, current }) => {
            assert_eq!(previous, 2);
            assert_eq!(current, 1);
        }
        _ => panic!("a changed row count must fail the sample"),
    }
    assert_eq!(sampler.baseline().unwrap().timestamp, Timestamp::new(900));

    match sampler.complete(&Vec::new(), Vec::new(), Timestamp::new(2_000)) {
        Err(CollectError::EmptyReading) => {}
        _ => panic!("an empty reading must fail the sample"),
    }
}

fn sample(sampler: &mut CpuUsage, text: &str, now: u64) -> hephaestus::metrics::cpu_usage::CpuUsageStats {
    let baseline = match sampler.baseline() {
        Some(m) => m,
        None => panic!("the sampler has a baseline"),
    };
    sampler
        .complete(&baseline.rows, parse_proc_stat(text), Timestamp::new(now))
        .unwrap()
}

#[test]
fn test_cpu_usage_datasource() {
    let snapshot_a = r#"cpu  0 0 0 100 0 0 0 0 0 0
cpu0 0 0 0 100 0 0 0 0 0 0
"#;
    let snapshot_b = r#"cpu  50 0 0 150 0 0 0 0 0 0
cpu0 50 0 0 150 0 0 0 0 0 0
"#;
    let snapshot_c = r#"cpu  50 0 80 170 0 0 0 0 0 0
cpu0 50 0 80 170 0 0 0 0 0 0
"#;

    let mut datasource = CpuUsage::new();
    assert_eq!(CpuUsage::plan(None, Timestamp::new(0)), SampleStep::Seed);
    let seed = parse_proc_stat(snapshot_a);
    assert_eq!(
        CpuUsage::plan(Some(Timestamp::new(0)), Timestamp::new(0)),
        SampleStep::Wait(250_000_000)
    );

    let first_stats = datasource
        .complete(&seed, parse_proc_stat(snapshot_b), Timestamp::new(250_000_000))
        .unwrap();
    assert!((value(first_stats.total_usage) - 0.5).abs() < f64::EPSILON);
    assert!((value(first_stats.total_breakdown.user) - 0.5).abs() < f64::EPSILON);
    assert_eq!(first_stats.cores.len(), 1);

    assert_eq!(
        CpuUsage::plan(Some(Timestamp::new(250_000_000)), Timestamp::new(550_000_000)),
        SampleStep::Read
    );
    let second_stats = sample(&mut datasource, snapshot_c, 550_000_000);
    assert!((value(second_stats.total_usage) - 0.8).abs() < f64::EPSILON);
    assert!((value(second_stats.total_breakdown.system) - 0.8).abs() < f64::EPSILON);
    assert!((value(second_stats.total_breakdown.user) - 0.0).abs() < f64::EPSILON);
}

#[test]
fn test_cpu_usage_all_metrics_mapping() {
    let snapshot_a = r#"cpu  100 100 100 100 100 100 100 100 100 100
cpu0 100 100 100 100 100 100 100 100 100 100"#;
    let snapshot_b = r#"cpu  110 120 130 140 150 160 170 180 190 200
cpu0 110 120 130 140 150 160 170 180 190 200"#;

    let mut datasource = CpuUsage::new();
    let stats = datasource
        .complete(&parse_proc_stat(snapshot_a), parse_proc_stat(snapshot_b), Timestamp::new(1))
        .unwrap();
    let t = 360.0;
    let c0 = &stats.cores[0].breakdown;

    assert!((value(c0.user) - (10.0 / t)).abs() < f64::EPSILON, "User ratio fail");
    assert!((value(c0.nice) - (20.0 / t)).abs() < f64::EPSILON, "Nice ratio fail");
    assert!((value(c0.system) - (30.0 / t)).abs() < f64::EPSILON, "System ratio fail");
    assert!((value(c0.idle) - (40.0 / t)).abs() < f64::EPSILON, "Idle ratio fail");
    assert!((value(c0.iowait) - (50.0 / t)).abs() < f64::EPSILON, "IOWait ratio fail");
    assert!((value(c0.irq) - (60.0 / t)).abs() < f64::EPSILON, "IRQ ratio fail");
    assert!((value(c0.softirq) - (70.0 / t)).abs() < f64::EPSILON, "SoftIRQ ratio fail");
    assert!((value(c0.steal) - (80.0 / t)).abs() < f64::EPSILON, "Steal ratio fail");
    assert!((value(c0.guest) - (90.0 / t)).abs() < f64::EPSILON, "Guest ratio fail");
    assert!((value(c0.guest_nice) - (100.0 / t)).abs() < f64::EPSILON, "GuestNice ratio fail");
    assert!(
        (value(stats.cores[0].total_usage) - 0.75).abs() < f64::EPSILON,
        "Total Usage calculation fail"
    );
}
