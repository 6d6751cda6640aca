//! The series of the disks' self-monitoring reports.
use crate::domain::{collect_into, CollectError, Metric, stored_after, Timestamp, Timestamped};
use crate::metrics::util::{
    accepted, described, maybe, maybe_counter, maybe_gauge, texts, whole, Desc, DescModel,
    FamilyModel, InvalidDesc, LabelPair, MetricFamily, MetricType,
};
use crate::number::Ratio;
use vstd::prelude::*;

verus! {

#[derive(Clone, Copy, Debug, PartialEq, Eq, Structural)]
pub struct Config {
    pub enabled: bool,
}

impl Default for Config {
    fn default() -> (c: Config)
        ensures
            c.enabled,
    {
        Config { enabled: true }
    }
}

/// What identifies a disk: its device path, its model and its serial number.
#[derive(Debug)]
pub struct Device {
    pub device: String,
    pub model: String,
    pub serial_number: String,
}

/// The report of a SATA disk. What the disk does not report is absent.
#[derive(Debug)]
pub struct SataDevice {
    pub device: Device,
    pub temperature: Option<Ratio>,
    pub temperature_min: Option<Ratio>,
    pub temperature_max: Option<Ratio>,
    pub start_stop_count: Option<u64>,
    pub power_on_hours: Option<u64>,
    pub power_cycle_count: Option<u64>,
    pub load_cycle_count: Option<u64>,
    pub reallocated_sectors: Option<u64>,
    pub pending_sectors: Option<u64>,
    pub uncorrectable_errors: Option<u64>,
    pub crc_errors: Option<u64>,
    pub wear_level: Option<Ratio>,
}

impl SataDevice {
    /// The report of `device` in which everything is absent.
    pub open spec fn empty(device: Device) -> SataDevice {
        SataDevice {
            device,
            temperature: None,
            temperature_min: None,
            temperature_max: None,
            start_stop_count: None,
            power_on_hours: None,
            power_cycle_count: None,
            load_cycle_count: None,
            reallocated_sectors: None,
            pending_sectors: None,
            uncorrectable_errors: None,
            crc_errors: None,
            wear_level: None,
        }
    }

    pub fn new(device: Device) -> (s: SataDevice)
        ensures
            s == SataDevice::empty(device),
    {
        SataDevice {
            device,
            temperature: None,
            temperature_min: None,
            temperature_max: None,
            start_stop_count: None,
            power_on_hours: None,
            power_cycle_count: None,
            load_cycle_count: None,
            reallocated_sectors: None,
            pending_sectors: None,
            uncorrectable_errors: None,
            crc_errors: None,
            wear_level: None,
        }
    }
}

/// The report of an NVMe disk. What the disk does not report is absent.
#[derive(Debug)]
pub struct NvmeDevice {
    pub device: Device,
    pub temperature: Option<Ratio>,
    pub available_spare: Option<Ratio>,
    pub percent_used: Option<Ratio>,
    pub data_units_read: Option<u64>,
    pub data_units_written: Option<u64>,
    pub host_reads: Option<u64>,
    pub host_writes: Option<u64>,
    pub power_on_hours: Option<u64>,
    pub unsafe_shutdowns: Option<u64>,
    pub media_errors: Option<u64>,
}

impl NvmeDevice {
    /// The report of `device` in which everything is absent.
    pub open spec fn empty(device: Device) -> NvmeDevice {
        NvmeDevice {
            device,
            temperature: None,
            available_spare: None,
            percent_used: None,
            data_units_read: None,
            data_units_written: None,
            host_reads: None,
            host_writes: None,
            power_on_hours: None,
            unsafe_shutdowns: None,
            media_errors: None,
        }
    }

    pub fn new(device: Device) -> (s: NvmeDevice)
        ensures
            s == NvmeDevice::empty(device),
    {
        NvmeDevice {
            device,
            temperature: None,
            available_spare: None,
            percent_used: None,
            data_units_read: None,
            data_units_written: None,
            host_reads: None,
            host_writes: None,
            power_on_hours: None,
            unsafe_shutdowns: None,
            media_errors: None,
        }
    }
}

#[derive(Debug)]
pub struct SmartReports {
    pub timestamp: Timestamp,
    pub sata: Vec<SataDevice>,
    pub nvme: Vec<NvmeDevice>,
}

impl Timestamped for SmartReports {
    open spec fn taken_at(&self) -> Timestamp {
        self.timestamp
    }

    fn timestamp(&self) -> (t: Timestamp) {
        self.timestamp
    }
}

/// A descriptor with the labels of a disk.
pub open spec fn of_disk(fq_name: Seq<char>, help: Seq<char>) -> DescModel {
    described(fq_name, help, seq!["device"@, "model"@, "serial_number"@])
}

/// The descriptors of the disk report series, in the order in which they are declared.
pub open spec fn descriptors() -> Seq<DescModel> {
    seq![
        of_disk("system_smart_sata_temperature_celsius"@, "Current SATA disk temperature"@),
        of_disk("smart_sata_temperature_min_celsius"@, "Minimum temperature recorded by the SATA device"@),
        of_disk("smart_sata_temperature_max_celsius"@, "Maximum temperature recorded by the SATA device"@),
        of_disk("system_smart_sata_start_stop_count_total"@, "Total SATA start/stop cycles"@),
        of_disk("system_smart_sata_power_on_hours_total"@, "Total SATA power on hours"@),
        of_disk("system_smart_sata_power_cycle_count_total"@, "Total SATA power cycles"@),
        of_disk("system_smart_sata_load_cycle_count_total"@, "Total SATA load/unload cycles"@),
        of_disk("system_smart_sata_reallocated_sectors_total"@, "Total SATA reallocated sectors count"@),
        of_disk("system_smart_sata_pending_sectors_total"@, "Total SATA pending sectors count"@),
        of_disk("system_smart_sata_uncorrectable_errors_total"@, "Total SATA uncorrectable errors count"@),
        of_disk("system_smart_sata_crc_errors_total"@, "Total SATA interface CRC errors (UDMA_CRC_Error_Count)"@),
        of_disk("system_smart_sata_wear_level_ratio"@, "SATA SSD wear level (1.0 is new, 0.0 is end of life)"@),
        of_disk("system_smart_nvme_temperature_celsius"@, "Current NVMe disk temperature"@),
        of_disk("system_smart_nvme_available_spare_ratio"@, "NVMe remaining spare capacity ratio (0-1)"@),
        of_disk("system_smart_nvme_percent_used_ratio"@, "NVMe life used ratio (0-1, can exceed 1)"@),
        of_disk("system_smart_nvme_data_units_read_total"@, "Total NVMe data units read (512 byte units)"@),
        of_disk("system_smart_nvme_data_units_written_total"@, "Total NVMe data units written (512 byte units)"@),
        of_disk("system_smart_nvme_host_reads_total"@, "Total NVMe host read commands"@),
        of_disk("system_smart_nvme_host_writes_total"@, "Total NVMe host write commands"@),
        of_disk("system_smart_nvme_power_on_hours_total"@, "Total NVMe power on hours"@),
        of_disk("system_smart_nvme_unsafe_shutdowns_total"@, "Total NVMe unsafe shutdowns"@),
        of_disk("system_smart_nvme_media_errors_total"@, "Total NVMe media and data integrity errors"@),
    ]
}

fn disk_desc(fq_name: &str, help: &str) -> (r: Result<Desc, InvalidDesc>)
    ensures
        r is Ok <==> accepted(of_disk(fq_name@, help@)),
        r is Ok ==> r->Ok_0.deep_view() == of_disk(fq_name@, help@),
{
    let labels: [&str; 3] = ["device", "model", "serial_number"];
    assert(texts(labels@) =~= seq!["device"@, "model"@, "serial_number"@]);
    Desc::with_labels(fq_name, help, &labels)
}

#[derive(Debug)]
pub struct Metrics {
    pub sata_temp: Desc,
    pub sata_temp_min: Desc,
    pub sata_temp_max: Desc,
    pub sata_start_stop: Desc,
    pub sata_power_on: Desc,
    pub sata_power_cycle: Desc,
    pub sata_load_cycle: Desc,
    pub sata_reallocated: Desc,
    pub sata_pending: Desc,
    pub sata_uncorrectable: Desc,
    pub sata_crc_errors: Desc,
    pub sata_wear_level: Desc,
    pub nvme_temp: Desc,
    pub nvme_available_spare: Desc,
    pub nvme_percent_used: Desc,
    pub nvme_data_read: Desc,
    pub nvme_data_written: Desc,
    pub nvme_host_reads: Desc,
    pub nvme_host_writes: Desc,
    pub nvme_power_on: Desc,
    pub nvme_unsafe_shutdowns: Desc,
    pub nvme_media_errors: Desc,
}

impl Metrics {
    pub open spec fn models(&self) -> Seq<DescModel> {
        seq![
            self.sata_temp.deep_view(),
            self.sata_temp_min.deep_view(),
            self.sata_temp_max.deep_view(),
            self.sata_start_stop.deep_view(),
            self.sata_power_on.deep_view(),
            self.sata_power_cycle.deep_view(),
            self.sata_load_cycle.deep_view(),
            self.sata_reallocated.deep_view(),
            self.sata_pending.deep_view(),
            self.sata_uncorrectable.deep_view(),
            self.sata_crc_errors.deep_view(),
            self.sata_wear_level.deep_view(),
            self.nvme_temp.deep_view(),
            self.nvme_available_spare.deep_view(),
            self.nvme_percent_used.deep_view(),
            self.nvme_data_read.deep_view(),
            self.nvme_data_written.deep_view(),
            self.nvme_host_reads.deep_view(),
            self.nvme_host_writes.deep_view(),
            self.nvme_power_on.deep_view(),
            self.nvme_unsafe_shutdowns.deep_view(),
            self.nvme_media_errors.deep_view(),
        ]
    }

    /// The descriptors, in the order in which they are declared.
    pub fn desc(&self) -> (d: Vec<&Desc>)
        ensures
            d.deep_view() == self.models(),
    {
        let mut d: Vec<&Desc> = Vec::new();
        d.push(&self.sata_temp);
        d.push(&self.sata_temp_min);
        d.push(&self.sata_temp_max);
        d.push(&self.sata_start_stop);
        d.push(&self.sata_power_on);
        d.push(&self.sata_power_cycle);
        d.push(&self.sata_load_cycle);
        d.push(&self.sata_reallocated);
        d.push(&self.sata_pending);
        d.push(&self.sata_uncorrectable);
        d.push(&self.sata_crc_errors);
        d.push(&self.sata_wear_level);
        d.push(&self.nvme_temp);
        d.push(&self.nvme_available_spare);
        d.push(&self.nvme_percent_used);
        d.push(&self.nvme_data_read);
        d.push(&self.nvme_data_written);
        d.push(&self.nvme_host_reads);
        d.push(&self.nvme_host_writes);
        d.push(&self.nvme_power_on);
        d.push(&self.nvme_unsafe_shutdowns);
        d.push(&self.nvme_media_errors);
        assert(d.deep_view() =~= self.models());
        d
    }

    /// Builds the descriptors; fails when the registry's rules refuse one of them.
    pub fn new() -> (r: Result<Metrics, InvalidDesc>)
        ensures
            r is Ok <==> (forall|i: int| 0 <= i < 22 ==> accepted(#[trigger] descriptors()[i])),
            r is Ok ==> r->Ok_0.models() == descriptors(),
    {
        let ghost d = descriptors();
        // Each descriptor is named once, so that the clauses about all of them apply to it.
        assert(d[0] == d[0]);
        assert(d[1] == d[1]);
        assert(d[2] == d[2]);
        assert(d[3] == d[3]);
        assert(d[4] == d[4]);
        assert(d[5] == d[5]);
        assert(d[6] == d[6]);
        assert(d[7] == d[7]);
        assert(d[8] == d[8]);
        assert(d[9] == d[9]);
        assert(d[10] == d[10]);
        assert(d[11] == d[11]);
        assert(d[12] == d[12]);
        assert(d[13] == d[13]);
        assert(d[14] == d[14]);
        assert(d[15] == d[15]);
        assert(d[16] == d[16]);
        assert(d[17] == d[17]);
        assert(d[18] == d[18]);
        assert(d[19] == d[19]);
        assert(d[20] == d[20]);
        assert(d[21] == d[21]);
        let sata_temp = disk_desc("system_smart_sata_temperature_celsius", "Current SATA disk temperature")?;
        let sata_temp_min = disk_desc("smart_sata_temperature_min_celsius", "Minimum temperature recorded by the SATA device")?;
        let sata_temp_max = disk_desc("smart_sata_temperature_max_celsius", "Maximum temperature recorded by the SATA device")?;
        let sata_start_stop = disk_desc("system_smart_sata_start_stop_count_total", "Total SATA start/stop cycles")?;
        let sata_power_on = disk_desc("system_smart_sata_power_on_hours_total", "Total SATA power on hours")?;
        let sata_power_cycle = disk_desc("system_smart_sata_power_cycle_count_total", "Total SATA power cycles")?;
        let sata_load_cycle = disk_desc("system_smart_sata_load_cycle_count_total", "Total SATA load/unload cycles")?;
        let sata_reallocated = disk_desc("system_smart_sata_reallocated_sectors_total", "Total SATA reallocated sectors count")?;
        let sata_pending = disk_desc("system_smart_sata_pending_sectors_total", "Total SATA pending sectors count")?;
        let sata_uncorrectable = disk_desc("system_smart_sata_uncorrectable_errors_total", "Total SATA uncorrectable errors count")?;
        let sata_crc_errors = disk_desc("system_smart_sata_crc_errors_total", "Total SATA interface CRC errors (UDMA_CRC_Error_Count)")?;
        let sata_wear_level = disk_desc("system_smart_sata_wear_level_ratio", "SATA SSD wear level (1.0 is new, 0.0 is end of life)")?;
        let nvme_temp = disk_desc("system_smart_nvme_temperature_celsius", "Current NVMe disk temperature")?;
        let nvme_available_spare = disk_desc("system_smart_nvme_available_spare_ratio", "NVMe remaining spare capacity ratio (0-1)")?;
        let nvme_percent_used = disk_desc("system_smart_nvme_percent_used_ratio", "NVMe life used ratio (0-1, can exceed 1)")?;
        let nvme_data_read = disk_desc("system_smart_nvme_data_units_read_total", "Total NVMe data units read (512 byte units)")?;
        let nvme_data_written = disk_desc("system_smart_nvme_data_units_written_total", "Total NVMe data units written (512 byte units)")?;
        let nvme_host_reads = disk_desc("system_smart_nvme_host_reads_total", "Total NVMe host read commands")?;
        let nvme_host_writes = disk_desc("system_smart_nvme_host_writes_total", "Total NVMe host write commands")?;
        let nvme_power_on = disk_desc("system_smart_nvme_power_on_hours_total", "Total NVMe power on hours")?;
        let nvme_unsafe_shutdowns = disk_desc("system_smart_nvme_unsafe_shutdowns_total", "Total NVMe unsafe shutdowns")?;
        let nvme_media_errors = disk_desc("system_smart_nvme_media_errors_total", "Total NVMe media and data integrity errors")?;
        let m = Metrics {
            sata_temp,
            sata_temp_min,
            sata_temp_max,
            sata_start_stop,
            sata_power_on,
            sata_power_cycle,
            sata_load_cycle,
            sata_reallocated,
            sata_pending,
            sata_uncorrectable,
            sata_crc_errors,
            sata_wear_level,
            nvme_temp,
            nvme_available_spare,
            nvme_percent_used,
            nvme_data_read,
            nvme_data_written,
            nvme_host_reads,
            nvme_host_writes,
            nvme_power_on,
            nvme_unsafe_shutdowns,
            nvme_media_errors,
        };
        assert(m.models() =~= descriptors());
        Ok(m)
    }

    /// The labels of a disk.
    pub fn make_labels(&self, device: &Device) -> (l: Vec<LabelPair>)
        ensures
            l.deep_view() == labels_of(*device),
    {
        let mut l: Vec<LabelPair> = Vec::new();
        l.push(LabelPair::new("device", device.device.as_str()));
        l.push(LabelPair::new("model", device.model.as_str()));
        l.push(LabelPair::new("serial_number", device.serial_number.as_str()));
        assert(l.deep_view() =~= labels_of(*device));
        l
    }

    /// The families of one NVMe disk: one for each figure that it reports.
    pub open spec fn nvme_families_of(&self, n: NvmeDevice) -> Seq<FamilyModel> {
        let l = labels_of(n.device);
        maybe(self.nvme_temp.deep_view(), MetricType::Gauge, l, n.temperature)
            + maybe(self.nvme_available_spare.deep_view(), MetricType::Gauge, l, n.available_spare)
            + maybe(self.nvme_percent_used.deep_view(), MetricType::Gauge, l, n.percent_used)
            + maybe(self.nvme_data_read.deep_view(), MetricType::Counter, l, whole(n.data_units_read))
            + maybe(self.nvme_data_written.deep_view(), MetricType::Counter, l, whole(n.data_units_written))
            + maybe(self.nvme_host_reads.deep_view(), MetricType::Counter, l, whole(n.host_reads))
            + maybe(self.nvme_host_writes.deep_view(), MetricType::Counter, l, whole(n.host_writes))
            + maybe(self.nvme_power_on.deep_view(), MetricType::Counter, l, whole(n.power_on_hours))
            + maybe(self.nvme_unsafe_shutdowns.deep_view(), MetricType::Counter, l, whole(n.unsafe_shutdowns))
            + maybe(self.nvme_media_errors.deep_view(), MetricType::Counter, l, whole(n.media_errors))
    }

    /// The families of one SATA disk: one for each figure that it reports.
    pub open spec fn sata_families_of(&self, s: SataDevice) -> Seq<FamilyModel> {
        let l = labels_of(s.device);
        maybe(self.sata_temp.deep_view(), MetricType::Gauge, l, s.temperature)
            + maybe(self.sata_temp_min.deep_view(), MetricType::Gauge, l, s.temperature_min)
            + maybe(self.sata_temp_max.deep_view(), MetricType::Gauge, l, s.temperature_max)
            + maybe(self.sata_start_stop.deep_view(), MetricType::Counter, l, whole(s.start_stop_count))
            + maybe(self.sata_power_on.deep_view(), MetricType::Counter, l, whole(s.power_on_hours))
            + maybe(self.sata_power_cycle.deep_view(), MetricType::Counter, l, whole(s.power_cycle_count))
            + maybe(self.sata_load_cycle.deep_view(), MetricType::Counter, l, whole(s.load_cycle_count))
            + maybe(self.sata_reallocated.deep_view(), MetricType::Counter, l, whole(s.reallocated_sectors))
            + maybe(self.sata_pending.deep_view(), MetricType::Counter, l, whole(s.pending_sectors))
            + maybe(self.sata_uncorrectable.deep_view(), MetricType::Counter, l, whole(s.uncorrectable_errors))
            + maybe(self.sata_crc_errors.deep_view(), MetricType::Counter, l, whole(s.crc_errors))
            + maybe(self.sata_wear_level.deep_view(), MetricType::Gauge, l, s.wear_level)
    }

    pub open spec fn nvme_families(&self, disks: Seq<NvmeDevice>) -> Seq<FamilyModel>
        decreases disks.len(),
    {
        if disks.len() == 0 {
            Seq::empty()
        } else {
            self.nvme_families(disks.drop_last()) + self.nvme_families_of(disks.last())
        }
    }

    pub open spec fn sata_families(&self, disks: Seq<SataDevice>) -> Seq<FamilyModel>
        decreases disks.len(),
    {
        if disks.len() == 0 {
            Seq::empty()
        } else {
            self.sata_families(disks.drop_last()) + self.sata_families_of(disks.last())
        }
    }

    /// Adds the families of one NVMe disk.
    fn push_nvme(&self, families: &mut Vec<MetricFamily>, n: &NvmeDevice)
        ensures
            final(families).deep_view() == old(families).deep_view() + self.nvme_families_of(*n),
    {
        let ghost before = families.deep_view();
        let l = self.make_labels(&n.device);
        maybe_gauge(families, &self.nvme_temp, &l, n.temperature);
        let ghost acc = maybe(self.nvme_temp.deep_view(), MetricType::Gauge, l.deep_view(), n.temperature);
        assert(families.deep_view() == before + acc);
        maybe_gauge(families, &self.nvme_available_spare, &l, n.available_spare);
        proof {
            lemma_append_assoc(before, acc, maybe(self.nvme_available_spare.deep_view(), MetricType::Gauge, l.deep_view(), n.available_spare));
        }
        let ghost acc = acc + maybe(self.nvme_available_spare.deep_view(), MetricType::Gauge, l.deep_view(), n.available_spare);
        assert(families.deep_view() == before + acc);
        maybe_gauge(families, &self.nvme_percent_used, &l, n.percent_used);
        proof {
            lemma_append_assoc(before, acc, maybe(self.nvme_percent_used.deep_view(), MetricType::Gauge, l.deep_view(), n.percent_used));
        }
        let ghost acc = acc + maybe(self.nvme_percent_used.deep_view(), MetricType::Gauge, l.deep_view(), n.percent_used);
        assert(families.deep_view() == before + acc);
        maybe_counter(families, &self.nvme_data_read, &l, n.data_units_read);
        proof {
            lemma_append_assoc(before, acc, maybe(self.nvme_data_read.deep_view(), MetricType::Counter, l.deep_view(), whole(n.data_units_read)));
        }
        let ghost acc = acc + maybe(self.nvme_data_read.deep_view(), MetricType::Counter, l.deep_view(), whole(n.data_units_read));
        assert(families.deep_view() == before + acc);
        maybe_counter(families, &self.nvme_data_written, &l, n.data_units_written);
        proof {
            lemma_append_assoc(before, acc, maybe(self.nvme_data_written.deep_view(), MetricType::Counter, l.deep_view(), whole(n.data_units_written)));
        }
        let ghost acc = acc + maybe(self.nvme_data_written.deep_view(), MetricType::Counter, l.deep_view(), whole(n.data_units_written));
        assert(families.deep_view() == before + acc);
        maybe_counter(families, &self.nvme_host_reads, &l, n.host_reads);
        proof {
            lemma_append_assoc(before, acc, maybe(self.nvme_host_reads.deep_view(), MetricType::Counter, l.deep_view(), whole(n.host_reads)));
        }
        let ghost acc = acc + maybe(self.nvme_host_reads.deep_view(), MetricType::Counter, l.deep_view(), whole(n.host_reads));
        assert(families.deep_view() == before + acc);
        maybe_counter(families, &self.nvme_host_writes, &l, n.host_writes);
        proof {
            lemma_append_assoc(before, acc, maybe(self.nvme_host_writes.deep_view(), MetricType::Counter, l.deep_view(), whole(n.host_writes)));
        }
        let ghost acc = acc + maybe(self.nvme_host_writes.deep_view(), MetricType::Counter, l.deep_view(), whole(n.host_writes));
        assert(families.deep_view() == before + acc);
        maybe_counter(families, &self.nvme_power_on, &l, n.power_on_hours);
        proof {
            lemma_append_assoc(before, acc, maybe(self.nvme_power_on.deep_view(), MetricType::Counter, l.deep_view(), whole(n.power_on_hours)));
        }
        let ghost acc = acc + maybe(self.nvme_power_on.deep_view(), MetricType::Counter, l.deep_view(), whole(n.power_on_hours));
        assert(families.deep_view() == before + acc);
        maybe_counter(families, &self.nvme_unsafe_shutdowns, &l, n.unsafe_shutdowns);
        proof {
            lemma_append_assoc(before, acc, maybe(self.nvme_unsafe_shutdowns.deep_view(), MetricType::Counter, l.deep_view(), whole(n.unsafe_shutdowns)));
        }
        let ghost acc = acc + maybe(self.nvme_unsafe_shutdowns.deep_view(), MetricType::Counter, l.deep_view(), whole(n.unsafe_shutdowns));
        assert(families.deep_view() == before + acc);
        maybe_counter(families, &self.nvme_media_errors, &l, n.media_errors);
        proof {
            lemma_append_assoc(before, acc, maybe(self.nvme_media_errors.deep_view(), MetricType::Counter, l.deep_view(), whole(n.media_errors)));
        }
        let ghost acc = acc + maybe(self.nvme_media_errors.deep_view(), MetricType::Counter, l.deep_view(), whole(n.media_errors));
        assert(families.deep_view() == before + acc);
    }

    /// Adds the families of one SATA disk.
    fn push_sata(&self, families: &mut Vec<MetricFamily>, s: &SataDevice)
        ensures
            final(families).deep_view() == old(families).deep_view() + self.sata_families_of(*s),
    {
        let ghost before = families.deep_view();
        let l = self.make_labels(&s.device);
        maybe_gauge(families, &self.sata_temp, &l, s.temperature);
        let ghost acc = maybe(self.sata_temp.deep_view(), MetricType::Gauge, l.deep_view(), s.temperature);
        assert(families.deep_view() == before + acc);
        maybe_gauge(families, &self.sata_temp_min, &l, s.temperature_min);
        proof {
            lemma_append_assoc(before, acc, maybe(self.sata_temp_min.deep_view(), MetricType::Gauge, l.deep_view(), s.temperature_min));
        }
        let ghost acc = acc + maybe(self.sata_temp_min.deep_view(), MetricType::Gauge, l.deep_view(), s.temperature_min);
        assert(families.deep_view() == before + acc);
        maybe_gauge(families, &self.sata_temp_max, &l, s.temperature_max);
        proof {
            lemma_append_assoc(before, acc, maybe(self.sata_temp_max.deep_view(), MetricType::Gauge, l.deep_view(), s.temperature_max));
        }
        let ghost acc = acc + maybe(self.sata_temp_max.deep_view(), MetricType::Gauge, l.deep_view(), s.temperature_max);
        assert(families.deep_view() == before + acc);
        maybe_counter(families, &self.sata_start_stop, &l, s.start_stop_count);
        proof {
            lemma_append_assoc(before, acc, maybe(self.sata_start_stop.deep_view(), MetricType::Counter, l.deep_view(), whole(s.start_stop_count)));
        }
        let ghost acc = acc + maybe(self.sata_start_stop.deep_view(), MetricType::Counter, l.deep_view(), whole(s.start_stop_count));
        assert(families.deep_view() == before + acc);
        maybe_counter(families, &self.sata_power_on, &l, s.power_on_hours);
        proof {
            lemma_append_assoc(before, acc, maybe(self.sata_power_on.deep_view(), MetricType::Counter, l.deep_view(), whole(s.power_on_hours)));
        }
        let ghost acc = acc + maybe(self.sata_power_on.deep_view(), MetricType::Counter, l.deep_view(), whole(s.power_on_hours));
        assert(families.deep_view() == before + acc);
        maybe_counter(families, &self.sata_power_cycle, &l, s.power_cycle_count);
        proof {
            lemma_append_assoc(before, acc, maybe(self.sata_power_cycle.deep_view(), MetricType::Counter, l.deep_view(), whole(s.power_cycle_count)));
        }
        let ghost acc = acc + maybe(self.sata_power_cycle.deep_view(), MetricType::Counter, l.deep_view(), whole(s.power_cycle_count));
        assert(families.deep_view() == before + acc);
        maybe_counter(families, &self.sata_load_cycle, &l, s.load_cycle_count);
        proof {
            lemma_append_assoc(before, acc, maybe(self.sata_load_cycle.deep_view(), MetricType::Counter, l.deep_view(), whole(s.load_cycle_count)));
        }
        let ghost acc = acc + maybe(self.sata_load_cycle.deep_view(), MetricType::Counter, l.deep_view(), whole(s.load_cycle_count));
        assert(families.deep_view() == before + acc);
        maybe_counter(families, &self.sata_reallocated, &l, s.reallocated_sectors);
        proof {
            lemma_append_assoc(before, acc, maybe(self.sata_reallocated.deep_view(), MetricType::Counter, l.deep_view(), whole(s.reallocated_sectors)));
        }
        let ghost acc = acc + maybe(self.sata_reallocated.deep_view(), MetricType::Counter, l.deep_view(), whole(s.reallocated_sectors));
        assert(families.deep_view() == before + acc);
        maybe_counter(families, &self.sata_pending, &l, s.pending_sectors);
        proof {
            lemma_append_assoc(before, acc, maybe(self.sata_pending.deep_view(), MetricType::Counter, l.deep_view(), whole(s.pending_sectors)));
        }
        let ghost acc = acc + maybe(self.sata_pending.deep_view(), MetricType::Counter, l.deep_view(), whole(s.pending_sectors));
        assert(families.deep_view() == before + acc);
        maybe_counter(families, &self.sata_uncorrectable, &l, s.uncorrectable_errors);
        proof {
            lemma_append_assoc(before, acc, maybe(self.sata_uncorrectable.deep_view(), MetricType::Counter, l.deep_view(), whole(s.uncorrectable_errors)));
        }
        let ghost acc = acc + maybe(self.sata_uncorrectable.deep_view(), MetricType::Counter, l.deep_view(), whole(s.uncorrectable_errors));
        assert(families.deep_view() == before + acc);
        maybe_counter(families, &self.sata_crc_errors, &l, s.crc_errors);
        proof {
            lemma_append_assoc(before, acc, maybe(self.sata_crc_errors.deep_view(), MetricType::Counter, l.deep_view(), whole(s.crc_errors)));
        }
        let ghost acc = acc + maybe(self.sata_crc_errors.deep_view(), MetricType::Counter, l.deep_view(), whole(s.crc_errors));
        assert(families.deep_view() == before + acc);
        maybe_gauge(families, &self.sata_wear_level, &l, s.wear_level);
        proof {
            lemma_append_assoc(before, acc, maybe(self.sata_wear_level.deep_view(), MetricType::Gauge, l.deep_view(), s.wear_level));
        }
        let ghost acc = acc + maybe(self.sata_wear_level.deep_view(), MetricType::Gauge, l.deep_view(), s.wear_level);
        assert(families.deep_view() == before + acc);
    }

    /// The families of the stored reports: none before the first cycle, and otherwise those
    /// of the NVMe disks, then those of the SATA disks. A figure that a disk does not report
    /// has no family.
    pub fn collect(&self, state: &Option<SmartReports>) -> (mf: Vec<MetricFamily>)
        ensures
            match *state {
                None => mf@.len() == 0,
                Some(stats) => mf.deep_view() == self.nvme_families(stats.nvme@)
                    + self.sata_families(stats.sata@),
            },
    {
        let mut families: Vec<MetricFamily> = Vec::new();
        match state {
            None => {},
            Some(stats) => {
                let mut i: usize = 0;
                assert(families.deep_view() =~= self.nvme_families(stats.nvme@.take(0)));
                while i < stats.nvme.len()
                    invariant
                        i <= stats.nvme.len(),
                        families.deep_view() == self.nvme_families(stats.nvme@.take(i as int)),
                    decreases stats.nvme.len() - i,
                {
                    let n = &stats.nvme[i];
                    let ghost all = stats.nvme@;
                    let ghost before = families.deep_view();
                    assert(all.take(i + 1).drop_last() =~= all.take(i as int));
                    assert(all.take(i + 1).last() == *n);
                    self.push_nvme(&mut families, n);
                    assert(families.deep_view() =~= before + self.nvme_families_of(*n));
                    i += 1;
                }
                assert(stats.nvme@.take(stats.nvme.len() as int) =~= stats.nvme@);
                let ghost head = families.deep_view();
                let mut j: usize = 0;
                assert(families.deep_view() =~= head + self.sata_families(stats.sata@.take(0)));
                while j < stats.sata.len()
                    invariant
                        j <= stats.sata.len(),
                        families.deep_view() == head + self.sata_families(
                            stats.sata@.take(j as int),
                        ),
                    decreases stats.sata.len() - j,
                {
                    let s = &stats.sata[j];
                    let ghost all = stats.sata@;
                    let ghost before = families.deep_view();
                    assert(all.take(j + 1).drop_last() =~= all.take(j as int));
                    assert(all.take(j + 1).last() == *s);
                    self.push_sata(&mut families, s);
                    assert(families.deep_view() =~= before + self.sata_families_of(*s));
                    j += 1;
                }
                assert(stats.sata@.take(stats.sata.len() as int) =~= stats.sata@);
            },
        }
        families
    }
}

/// Appending is associative.
pub proof fn lemma_append_assoc<A>(a: Seq<A>, b: Seq<A>, c: Seq<A>)
    ensures
        (a + b) + c == a + (b + c),
{
    assert((a + b) + c =~= a + (b + c));
}

/// The labels of a disk.
pub open spec fn labels_of(device: Device) -> Seq<(Seq<char>, Seq<char>)> {
    seq![
        ("device"@, device.device@),
        ("model"@, device.model@),
        ("serial_number"@, device.serial_number@),
    ]
}

/// The disk report probe as configured.
#[derive(Debug)]
pub struct DiskTemp {
    pub config: Config,
}

impl Metric for DiskTemp {
    open spec fn name_of(&self) -> Seq<char> {
        "disk-smart"@
    }

    open spec fn is_enabled(&self) -> bool {
        self.config.enabled
    }

    fn name(&self) -> (n: &'static str) {
        "disk-smart"
    }

    fn enabled(&self) -> (b: bool) {
        self.config.enabled
    }
}

impl DiskTemp {
    pub fn new(config: Config) -> (d: DiskTemp)
        ensures
            d.config == config,
    {
        DiskTemp { config }
    }

    /// Decides at start-up what stands for this probe: nothing when it is disabled, and
    /// otherwise its collector and its descriptors.
    pub fn register(self) -> (r: Result<Option<(DiskTempCollector, Metrics)>, InvalidDesc>)
        ensures
            !self.config.enabled ==> r == Ok::<Option<(DiskTempCollector, Metrics)>, InvalidDesc>(
                None,
            ),
            self.config.enabled ==> (r is Ok <==> registrable()),
            self.config.enabled && r is Ok ==> r->Ok_0 is Some && r->Ok_0->Some_0.0.measurements
                is None && r->Ok_0->Some_0.1.models() == descriptors(),
    {
        if !self.config.enabled {
            return Ok(None);
        }
        proof {
            reveal(registrable);
        }
        let collector = DiskTempCollector::new();
        let metrics = Metrics::new()?;
        Ok(Some((collector, metrics)))
    }
}

/// The state of the enabled disk report probe.
#[derive(Debug)]
pub struct DiskTempCollector {
    pub measurements: Option<SmartReports>,
}

impl DiskTempCollector {
    pub fn new() -> (c: DiskTempCollector)
        ensures
            c.measurements is None,
    {
        DiskTempCollector { measurements: None }
    }

    pub fn measurements(&self) -> (m: &Option<SmartReports>)
        ensures
            *m == self.measurements,
    {
        &self.measurements
    }

    /// Ends a cycle with what the data source delivered.
    pub fn collect(&mut self, outcome: Result<SmartReports, CollectError>) -> (r: Result<
        (),
        CollectError,
    >)
        ensures
            match outcome {
                Ok(m) => r is Ok && final(self).measurements == stored_after(
                    old(self).measurements,
                    m,
                ),
                Err(e) => r == Err::<(), CollectError>(e) && *final(self) == *old(self),
            },
    {
        collect_into(&mut self.measurements, outcome)
    }
}

/// Whether the registry takes every descriptor of this probe.
#[verifier::opaque]
pub open spec fn registrable() -> bool {
    forall|i: int| 0 <= i < 22 ==> accepted(#[trigger] descriptors()[i])
}

} // verus!
