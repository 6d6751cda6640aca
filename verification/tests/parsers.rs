use hephaestus::datasource::cpu_frequency::{CpuFrequency, MAX_CORES};
use hephaestus::datasource::disk_io::{is_excluded_device, DiskIo};
use hephaestus::datasource::memory_usage::MemoryUsage;
use hephaestus::datasource::network_io::NetworkIo;
use hephaestus::datasource::zfs_arc_stat::KstatZfs;
use hephaestus::datasource::zfs_dataset::{KstatZfsDatasetIo, ObjsetFile};
use hephaestus::domain::{CollectError, Timestamp};
use hephaestus::metrics::memory_usage::{RamStats, SwapStats};

const DISK_STATS: &str = r#"   7       0 loop0 133549 0 8587416 51112 0 0 0 0 0 13992709 51112 0 0 0 0 0 0
   7       1 loop1 599 0 100360 25 0 0 0 0 0 31 25 0 0 0 0 0 0
   7       2 loop2 0 0 0 0 0 0 0 0 0 0 0 0 0 0 0 0 0
   7       3 loop3 0 0 0 0 0 0 0 0 0 0 0 0 0 0 0 0 0
 252       0 zram0 0 0 0 0 0 0 0 0 0 0 0 0 0 0 0 0 0
 259       4 nvme0n1 2745204 0 554989650 559677 1793083 0 67354640 334639 0 584873 1134742 59324 0 7646410160 198553 158575 41872
 259       5 nvme0n1p1 2745099 0 554986698 559672 1793083 0 67354640 334639 0 967799 1092866 59324 0 7646410160 198553 0 0
   8       0 sda 90175 15156 6941747 172836 1609 314 69328 1989 0 102770 174825 0 0 0 0 1 0
   8       1 sda1 90130 15156 6940427 172803 1609 314 69328 1989 0 103673 174792 0 0 0 0 0 0
   9       1 md1p1 0 0 0 0 0 0 0 0 0 0 0 0 0 0 0 0 0"#;

#[test]
fn test_disk_io_datasource() {
    let ds = DiskIo::new();
    let stats = ds.disk_io(DISK_STATS, Timestamp::new(1));
    assert_eq!(4, stats.disks.len());

    assert_eq!("nvme0n1", stats.disks[0].device_name);
    assert_eq!(34485575680, stats.disks[0].bytes_written);
    assert_eq!(284154700800, stats.disks[0].bytes_read);
    assert_eq!(1793083, stats.disks[0].write_ops);
    assert_eq!(2745204, stats.disks[0].read_ops);

    assert_eq!("nvme0n1p1", stats.disks[1].device_name);
    assert_eq!(34485575680, stats.disks[1].bytes_written);
    assert_eq!(284153189376, stats.disks[1].bytes_read);
    assert_eq!(1793083, stats.disks[1].write_ops);
    assert_eq!(2745099, stats.disks[1].read_ops);

    assert_eq!("sda", stats.disks[2].device_name);
    assert_eq!(35495936, stats.disks[2].bytes_written);
    assert_eq!(3554174464, stats.disks[2].bytes_read);
    assert_eq!(1609, stats.disks[2].write_ops);
    assert_eq!(90175, stats.disks[2].read_ops);

    assert_eq!("sda1", stats.disks[3].device_name);
    assert_eq!(35495936, stats.disks[3].bytes_written);
    assert_eq!(3553498624, stats.disks[3].bytes_read);
    assert_eq!(1609, stats.disks[3].write_ops);
    assert_eq!(90130, stats.disks[3].read_ops);
}

#[test]
fn disk_lines_without_a_device_are_skipped_and_missing_columns_are_zero() {
    let ds = DiskIo::new();
    let stats = ds.disk_io("8 0\n\n8 0 sdb 5\n8 1 sdc x 0 y\n", Timestamp::new(9));
    assert_eq!(stats.timestamp, Timestamp::new(9));
    assert_eq!(stats.disks.len(), 2);
    assert_eq!(stats.disks[0].device_name, "sdb");
    assert_eq!(stats.disks[0].read_ops, 5);
    assert_eq!(stats.disks[0].bytes_read, 0);
    assert_eq!(stats.disks[0].bytes_written, 0);
    assert_eq!(stats.disks[1].read_ops, 0);
    let big = ds.disk_io("8 0 sdz 1 0 18446744073709551615 0 1 0 2 0\n", Timestamp::new(9));
    assert_eq!(big.disks[0].bytes_read, u64::MAX);
    assert_eq!(big.disks[0].bytes_written, 1024);
}

#[test]
fn excluded_devices_are_an_explicit_predicate() {
    let chars = |s: &str| s.chars().collect::<Vec<char>>();
    assert!(is_excluded_device(&chars("loop7")));
    assert!(is_excluded_device(&chars("zram0")));
    assert!(is_excluded_device(&chars("md1p3")));
    assert!(!is_excluded_device(&chars("md1")));
    assert!(!is_excluded_device(&chars("md0p1")));
    assert!(!is_excluded_device(&chars("sda")));
    assert!(!is_excluded_device(&chars("nvme0n1p1")));
}

const NET_DEV_TEXT: &str = r#"Inter-|   Receive                                                |  Transmit
 face |bytes    packets errs drop fifo frame compressed multicast|bytes    packets errs drop fifo colls carrier compressed
    lo: 5467426526  298140    0    0    0     0          0         0 5467426526  298140    0    0    0     0       0          0
enp1s0: 23258276045 17679116    0 11185    0     0          0     56575 56878436846 2548501    0    0    0     0       0          0
wlp2s0:       0       0    0    0    0     0          0         0        0       0    0    0    0     0       0          0
"#;

#[test]
fn test_network_io_datasource() {
    let ds = NetworkIo::new();
    let nio = ds.network_io(NET_DEV_TEXT, Timestamp::new(3));
    assert_eq!(nio.interfaces.len(), 3);

    assert_eq!(nio.interfaces[0].interface, "lo");
    assert_eq!(nio.interfaces[0].bytes_received, 5467426526);
    assert_eq!(nio.interfaces[0].packets_received, 298140);
    assert_eq!(nio.interfaces[0].bytes_sent, 5467426526);
    assert_eq!(nio.interfaces[0].packets_sent, 298140);

    assert_eq!(nio.interfaces[1].interface, "enp1s0");
    assert_eq!(nio.interfaces[1].bytes_received, 23258276045);
    assert_eq!(nio.interfaces[1].packets_received, 17679116);
    assert_eq!(nio.interfaces[1].bytes_sent, 56878436846);
    assert_eq!(nio.interfaces[1].packets_sent, 2548501);

    assert_eq!(nio.interfaces[2].interface, "wlp2s0");
    assert_eq!(nio.interfaces[2].bytes_received, 0);
    assert_eq!(nio.interfaces[2].packets_received, 0);
    assert_eq!(nio.interfaces[2].bytes_sent, 0);
    assert_eq!(nio.interfaces[2].packets_sent, 0);
}

#[test]
fn network_headings_blank_lines_and_lines_without_a_colon_are_skipped() {
    let ds = NetworkIo::new();
    assert!(ds.network_io("", Timestamp::new(0)).interfaces.is_empty());
    assert!(ds.network_io("eth0: 1 2\n", Timestamp::new(0)).interfaces.is_empty());
    let nio = ds.network_io("h1\nh2\n\n   \nno colon here\n eth0 : 7 8\n", Timestamp::new(0));
    assert_eq!(nio.interfaces.len(), 1);
    assert_eq!(nio.interfaces[0].interface, "eth0");
    assert_eq!(nio.interfaces[0].bytes_received, 7);
    assert_eq!(nio.interfaces[0].packets_received, 8);
    assert_eq!(nio.interfaces[0].bytes_sent, 0);
}

const MEM_INFO: &str = r#"MemTotal:       61489320 kB
MemFree:        44422752 kB
MemAvailable:   54097832 kB
Buffers:            1112 kB
Cached:          9113108 kB
SwapCached:            0 kB
Active:          8537148 kB
Inactive:        7160620 kB
Active(anon):    5594376 kB
Inactive(anon):        0 kB
Active(file):    2942772 kB
Inactive(file):  7160620 kB
Unevictable:        5764 kB
Mlocked:            5764 kB
SwapTotal:       8388604 kB
SwapFree:        2097152 kB
Zswap:                 0 kB
Zswapped:              0 kB
Dirty:              2004 kB
Writeback:             0 kB
AnonPages:       6438384 kB
Mapped:          1520572 kB
Shmem:             58640 kB
KReclaimable:     266068 kB
Slab:             539688 kB
SReclaimable:     266068 kB
SUnreclaim:       273620 kB
KernelStack:       26048 kB
PageTables:        57932 kB
SecPageTables:      4252 kB
NFS_Unstable:          0 kB
Bounce:                0 kB
WritebackTmp:          0 kB
CommitLimit:    30744660 kB
Committed_AS:   14825576 kB
VmallocTotal:   34359738367 kB
VmallocUsed:      185488 kB
VmallocChunk:          0 kB
Percpu:            19328 kB
HardwareCorrupted:     0 kB
AnonHugePages:   3209216 kB
ShmemHugePages:        0 kB
ShmemPmdMapped:        0 kB
FileHugePages:    102400 kB
FilePmdMapped:         0 kB
Unaccepted:            0 kB
Balloon:               0 kB
HugePages_Total:       0
HugePages_Free:        0
HugePages_Rsvd:        0
HugePages_Surp:        0
Hugepagesize:       2048 kB
Hugetlb:               0 kB
DirectMap4k:      537384 kB
DirectMap2M:    13916160 kB
DirectMap1G:    49283072 kB
"#;

#[test]
fn test_parse_ram_meminfo() {
    let ds = MemoryUsage::new();
    let ram = ds.ram(MEM_INFO);
    assert_eq!(ram.total, 62_965_063_680);
    assert_eq!(ram.free, 45_488_898_048);
    assert_eq!(ram.available, 55_396_179_968);
    assert_eq!(ram.cache, 9_604_276_224);
    assert_eq!(ram.buffers, 1_138_688);
    assert_eq!(ram.used, 7_870_750_720);
}

#[test]
fn test_parse_swap_meminfo() {
    let ds = MemoryUsage::new();
    let swap = ds.swap(MEM_INFO);
    assert_eq!(swap.total, 8_589_930_496);
    assert_eq!(swap.free, 2_147_483_648);
    assert_eq!(swap.used, 6_442_446_848);
}

#[test]
fn memory_lines_with_units() {
    let ds = MemoryUsage::new();
    let line = |s: &str| {
        ds.parse_line(&s.chars().collect::<Vec<char>>())
            .map(|(k, v)| (k.into_iter().collect::<String>(), v))
    };
    assert_eq!(line("MemTotal:       61489320 kB"), Some(("MemTotal".to_string(), 61489320 * 1024)));
    assert_eq!(line("HugePages_Total:       0"), Some(("HugePages_Total".to_string(), 0)));
    assert_eq!(line("X: 3 mB"), Some(("X".to_string(), 3 * 1024 * 1024)));
    assert_eq!(line("X: 3"), Some(("X".to_string(), 3)));
    assert_eq!(line("X: abc kB"), Some(("X".to_string(), 0)));
    assert_eq!(line("X: 3 GB"), None);
    assert_eq!(line("no colon"), None);
    assert_eq!(line("X: 18446744073709551615 kB"), Some(("X".to_string(), u64::MAX)));
    assert_eq!(ds.swap(""), SwapStats::default());
    assert_eq!(ds.ram(""), RamStats::default());
    assert_eq!(ds.swap("SwapTotal: 1 kB\nSwapFree: 2 kB\n"), SwapStats { total: 1024, used: 0, free: 2048 });
    assert_eq!(ds.swap("SwapTotal: 1 kB\nSwapTotal: 5 kB\n").total, 5 * 1024);
}

fn mock_arcstats_body(hits: u64, misses: u64, size: u64) -> String {
    format!(
        "250 1 0x01 1 1\nname type value\nhits 4 {hits}\nmisses 4 {misses}\nsize 4 {size}\nc 4 2000\nc_max 4 4000"
    )
}

#[test]
fn test_arc_stats_parsing_success() {
    let data_source = KstatZfs::new();
    let stats = data_source.arc_stats(&mock_arcstats_body(500, 100, 1024), Timestamp::new(4));
    assert_eq!(stats.hits, 500);
    assert_eq!(stats.misses, 100);
    assert_eq!(stats.size, 1024);
    assert_eq!(stats.target_size, 2000);
    assert_eq!(stats.max_size, 4000);
    assert_eq!(stats.timestamp, Timestamp::new(4));
}

#[test]
fn test_arc_stats_sequential_reads() {
    let data_source = KstatZfs::new();
    let stats1 = data_source.arc_stats(&mock_arcstats_body(10, 5, 100), Timestamp::new(1));
    assert_eq!(stats1.hits, 10);
    let stats2 = data_source.arc_stats(&mock_arcstats_body(20, 10, 200), Timestamp::new(2));
    assert_eq!(stats2.hits, 20);
}

#[test]
fn test_arc_stats_malformed_values() {
    let data_source = KstatZfs::new();
    let malformed = "header\nheader\nhits 4 NOT_A_NUMBER\nmisses 4 50";
    let stats = data_source.arc_stats(malformed, Timestamp::new(1));
    assert_eq!(stats.hits, 0);
    assert_eq!(stats.misses, 50);
}

#[test]
fn arc_statistics_of_short_texts_are_zero() {
    let data_source = KstatZfs::new();
    for text in ["", "hits 4 9", "hits 4 9\nmisses 4 9"] {
        let stats = data_source.arc_stats(text, Timestamp::new(1));
        assert_eq!((stats.hits, stats.misses, stats.size), (0, 0, 0));
    }
    let stats = data_source.arc_stats("a\nb\nhits 4 1\nhits\nhits 4\nhits 4 2\n", Timestamp::new(1));
    assert_eq!(stats.hits, 2);
}

fn mock_objset_body(name: &str, reads: u64, writes: u64) -> String {
    format!(
        "250 1 0x01 1 1\nname type value\ndataset_name string {name}\nreads u64 {reads}\nwrites u64 {writes}\nnread u64 {nread}\nnwritten u64 {nwritten}",
        nread = reads * 1024,
        nwritten = writes * 1024
    )
}

#[test]
fn test_parse_objset_logic() {
    let ds = KstatZfsDatasetIo::new();

    let content = mock_objset_body("tank/home", 100, 50);
    let stats = ds.parse_objset("tank", &content).unwrap();
    assert_eq!(stats.dataset, "tank/home");
    assert_eq!(stats.reads, 100);
    assert_eq!(stats.writes, 50);

    let snap_content = mock_objset_body("tank/home@snap1", 10, 10);
    let stats = ds.parse_objset("tank", &snap_content);
    assert!(stats.is_none(), "Snapshots must be filtered out");

    let malformed = "header\nheader\nreads u64 100";
    let stats = ds.parse_objset("tank", malformed);
    assert!(stats.is_none());
}

#[test]
fn test_dataset_io_sequential_updates() {
    let ds = KstatZfsDatasetIo::new();
    let stats1 = ds.parse_objset("tank", &mock_objset_body("tank/data", 100, 50)).unwrap();
    assert_eq!(stats1.reads, 100);
    let stats2 = ds.parse_objset("tank", &mock_objset_body("tank/data", 110, 55)).unwrap();
    assert_eq!(stats2.reads, 110);
}

#[test]
fn test_parsing_with_other_kstats_present() {
    let ds = KstatZfsDatasetIo::new();
    let content = format!(
        "{}\nrandom_stat u64 12345\nanother_one string hello",
        mock_objset_body("tank/test", 5, 5)
    );
    let stats = ds.parse_objset("tank", &content).unwrap();
    assert_eq!(stats.dataset, "tank/test");
    assert_eq!(stats.reads, 5);
    assert_eq!(stats.pool, "tank");
    assert_eq!(stats.nread, 5 * 1024);
    assert_eq!(stats.nwritten, 5 * 1024);
}

#[test]
fn a_line_with_fewer_than_three_fields_voids_the_file() {
    let ds = KstatZfsDatasetIo::new();
    let content = format!("{}\n", mock_objset_body("tank/a", 1, 1));
    assert!(ds.parse_objset("tank", &content).is_some());
    let content = format!("{}\n\n", mock_objset_body("tank/a", 1, 1));
    assert!(ds.parse_objset("tank", &content).is_none());
    let content = format!("{}\nreads u64", mock_objset_body("tank/a", 1, 1));
    assert!(ds.parse_objset("tank", &content).is_none());
    let content = format!("{}\nreads u64 oops", mock_objset_body("tank/a", 7, 1));
    assert_eq!(ds.parse_objset("tank", &content).unwrap().reads, 0);
}

#[test]
fn dataset_files_are_gathered_in_order() {
    let ds = KstatZfsDatasetIo::new();
    assert!(ds.is_objset_file("objset-0x1"));
    assert!(!ds.is_objset_file("io"));
    assert!(!ds.is_objset_file("objset"));
    let files = vec![
        ObjsetFile { pool: "tank".to_string(), content: mock_objset_body("tank/a", 1, 2) },
        ObjsetFile { pool: "tank".to_string(), content: mock_objset_body("tank/a@s", 1, 2) },
        ObjsetFile { pool: "dozer".to_string(), content: mock_objset_body("dozer/b", 3, 4) },
    ];
    let stats = ds.dataset_io(&files, Timestamp::new(8));
    assert_eq!(stats.timestamp, Timestamp::new(8));
    assert_eq!(stats.datasets.len(), 2);
    assert_eq!((stats.datasets[0].pool.as_str(), stats.datasets[0].dataset.as_str()), ("tank", "tank/a"));
    assert_eq!((stats.datasets[1].pool.as_str(), stats.datasets[1].dataset.as_str()), ("dozer", "dozer/b"));
    assert_eq!(stats.datasets[1].writes, 4);
}

#[test]
fn test_cpu_frequency() {
    let ds = CpuFrequency::new();
    let contents = vec![
        format!("{}", 1100980),
        format!("{}", 883485),
        format!("{}", 4203950),
        format!("{}", 5100362),
    ];
    let stats = ds.cpy_freq(&contents).unwrap();

    assert_eq!(4, stats.cores.len());
    assert_eq!(1000 * 1100980, stats.cores[0]);
    assert_eq!(1000 * 883485, stats.cores[1]);
    assert_eq!(1000 * 4203950, stats.cores[2]);
    assert_eq!(1000 * 5100362, stats.cores[3]);
}

#[test]
fn cpu_frequency_edge_cases() {
    let ds = CpuFrequency::new();
    assert_eq!(ds.path(0), "/sys/devices/system/cpu/cpu0/cpufreq/scaling_cur_freq");
    assert_eq!(ds.path(17), "/sys/devices/system/cpu/cpu17/cpufreq/scaling_cur_freq");
    assert_eq!(ds.parse(" 800000\n"), 800_000_000);
    assert_eq!(ds.parse("fast"), 0);
    assert_eq!(ds.parse("18446744073709551615"), u64::MAX);
    match ds.cpy_freq(&Vec::new()) {
        Err(CollectError::NoSensors) => {}
        _ => panic!("no file means no sensor"),
    }
    let many: Vec<String> = (0..300).map(|i| format!("{}", i)).collect();
    let stats = ds.cpy_freq(&many).unwrap();
    assert_eq!(MAX_CORES, 256);
    assert_eq!(stats.cores.len(), 256);
    assert_eq!(stats.cores[255], 255_000);
}

#[test]
fn parsing_twice_gives_equal_results() {
    let ds = DiskIo::new();
    let first = ds.disk_io(DISK_STATS, Timestamp::new(1));
    let second = ds.disk_io(DISK_STATS, Timestamp::new(1));
    assert_eq!(first.disks.len(), second.disks.len());
    for (a, b) in first.disks.iter().zip(second.disks.iter()) {
        assert_eq!(a.device_name, b.device_name);
        assert_eq!((a.bytes_read, a.bytes_written, a.read_ops, a.write_ops), (b.bytes_read, b.bytes_written, b.read_ops, b.write_ops));
    }
    let mem = MemoryUsage::new();
    assert_eq!(mem.ram(MEM_INFO), mem.ram(MEM_INFO));
    assert_eq!(mem.swap(MEM_INFO), mem.swap(MEM_INFO));
    let arc = KstatZfs::new();
    let text = mock_arcstats_body(1, 2, 3);
    assert_eq!(arc.arc_stats(&text, Timestamp::new(5)), arc.arc_stats(&text, Timestamp::new(5)));
    assert_eq!(
        hephaestus::datasource::cpu_usage::parse_proc_stat("cpu 1 2 3\ncpu0 1 2 3\n"),
        hephaestus::datasource::cpu_usage::parse_proc_stat("cpu 1 2 3\ncpu0 1 2 3\n")
    );
}
