//! The series of the block devices.
use crate::domain::{collect_into, CollectError, Metric, replaces, Timestamp, Timestamped};
use crate::metrics::util::{
    accepted, described, emit, family_of, present, Desc, DescModel, FamilyModel, InvalidDesc,
    LabelPair, MetricFamily, MetricType, Reading,
};
use crate::number::Ratio;
use crate::text::{chars_of, has_prefix, starts_with};
use vstd::prelude::*;

verus! {

#[derive(Clone, Copy, Debug, PartialEq, Eq, Structural)]
pub struct Config {
    pub enabled: bool,
}

impl Default for Config {
    fn default() -> (c: Config)
        ensures
            c.enabled,
    {
        Config { enabled: true }
    }
}

/// The counters of one block device since boot.
#[derive(Debug)]
pub struct DeviceIoStats {
    pub device_name: String,
    pub bytes_read: u64,
    pub bytes_written: u64,
    pub read_ops: u64,
    pub write_ops: u64,
}

pub struct DeviceIoModel {
    pub device_name: Seq<char>,
    pub bytes_read: u64,
    pub bytes_written: u64,
    pub read_ops: u64,
    pub write_ops: u64,
}

impl DeepView for DeviceIoStats {
    type V = DeviceIoModel;

    open spec fn deep_view(&self) -> DeviceIoModel {
        DeviceIoModel {
            device_name: self.device_name@,
            bytes_read: self.bytes_read,
            bytes_written: self.bytes_written,
            read_ops: self.read_ops,
            write_ops: self.write_ops,
        }
    }
}

#[derive(Debug)]
pub struct DiskIoStats {
    pub timestamp: Timestamp,
    pub disks: Vec<DeviceIoStats>,
}

impl Timestamped for DiskIoStats {
    open spec fn taken_at(&self) -> Timestamp {
        self.timestamp
    }

    fn timestamp(&self) -> (t: Timestamp) {
        self.timestamp
    }
}

/// The counters of a device that are exported.
#[derive(Clone, Copy, Debug, PartialEq, Eq, Structural)]
pub enum DiskField {
    BytesRead,
    BytesWritten,
    ReadOps,
    WriteOps,
}

impl DeviceIoStats {
    pub open spec fn field(&self, which: DiskField) -> u64 {
        match which {
            DiskField::BytesRead => self.bytes_read,
            DiskField::BytesWritten => self.bytes_written,
            DiskField::ReadOps => self.read_ops,
            DiskField::WriteOps => self.write_ops,
        }
    }

    pub fn get(&self, which: DiskField) -> (v: u64)
        ensures
            v == self.field(which),
    {
        match which {
            DiskField::BytesRead => self.bytes_read,
            DiskField::BytesWritten => self.bytes_written,
            DiskField::ReadOps => self.read_ops,
            DiskField::WriteOps => self.write_ops,
        }
    }
}

/// The labels of a device and its counter `which`.
pub open spec fn reading_of(device: DeviceIoStats, which: DiskField) -> (
    Seq<(Seq<char>, Seq<char>)>,
    Option<Ratio>,
) {
    (
        seq![("device"@, device.device_name@)],
        Some(Ratio { num: device.field(which) as u128, den: 1 }),
    )
}

pub open spec fn readings_of(devices: Seq<DeviceIoStats>, which: DiskField) -> Seq<
    (Seq<(Seq<char>, Seq<char>)>, Option<Ratio>),
> {
    Seq::new(devices.len(), |i: int| reading_of(devices[i], which))
}

/// The descriptors of the disk series, in the order in which they are declared.
pub open spec fn descriptors() -> Seq<DescModel> {
    seq![
        described("system_disk_bytes_read_total"@, "Total bytes read"@, seq!["device"@]),
        described("system_disk_bytes_written_total"@, "Total bytes written"@, seq!["device"@]),
        described("system_disk_read_ops_total"@, "Total read ops"@, seq!["device"@]),
        described("system_disk_write_ops_total"@, "Total write ops"@, seq!["device"@]),
    ]
}

#[derive(Debug)]
pub struct Metrics {
    pub bytes_read: Desc,
    pub bytes_written: Desc,
    pub read_ops: Desc,
    pub write_ops: Desc,
}

impl Metrics {
    pub open spec fn models(&self) -> Seq<DescModel> {
        seq![
            self.bytes_read.deep_view(),
            self.bytes_written.deep_view(),
            self.read_ops.deep_view(),
            self.write_ops.deep_view(),
        ]
    }

    /// The descriptors, in the order in which they are declared.
    pub fn desc(&self) -> (d: Vec<&Desc>)
        ensures
            d.deep_view() == self.models(),
    {
        let mut d: Vec<&Desc> = Vec::new();
        d.push(&self.bytes_read);
        d.push(&self.bytes_written);
        d.push(&self.read_ops);
        d.push(&self.write_ops);
        assert(d.deep_view() =~= self.models());
        d
    }

    /// Builds the descriptors; fails when the registry's rules refuse one of them.
    pub fn new() -> (r: Result<Metrics, InvalidDesc>)
        ensures
            r is Ok <==> (forall|i: int| 0 <= i < 4 ==> accepted(#[trigger] descriptors()[i])),
            r is Ok ==> r->Ok_0.models() == descriptors(),
    {
        let ghost d = descriptors();
        // Each descriptor is named once, so that the clauses about all of them apply to it.
        assert(d[0] == d[0] && d[1] == d[1] && d[2] == d[2] && d[3] == d[3]);
        let bytes_read = Desc::with_label(
            "system_disk_bytes_read_total",
            "Total bytes read",
            "device",
        )?;
        let bytes_written = Desc::with_label(
            "system_disk_bytes_written_total",
            "Total bytes written",
            "device",
        )?;
        let read_ops = Desc::with_label("system_disk_read_ops_total", "Total read ops", "device")?;
        let write_ops = Desc::with_label(
            "system_disk_write_ops_total",
            "Total write ops",
            "device",
        )?;
        let m = Metrics { bytes_read, bytes_written, read_ops, write_ops };
        assert(m.models() =~= descriptors());
        Ok(m)
    }

    pub open spec fn desc_of(&self, which: DiskField) -> Desc {
        match which {
            DiskField::BytesRead => self.bytes_read,
            DiskField::BytesWritten => self.bytes_written,
            DiskField::ReadOps => self.read_ops,
            DiskField::WriteOps => self.write_ops,
        }
    }

    /// The family of `which` over all devices of `stats`.
    pub open spec fn family(&self, stats: DiskIoStats, which: DiskField) -> FamilyModel {
        family_of(
            self.desc_of(which).deep_view(),
            MetricType::Counter,
            present(readings_of(stats.disks@, which)),
        )
    }

    /// One counter family for `desc`: a sample for each device, labelled with its name.
    pub fn build_metric_family(&self, desc: &Desc, stats: &DiskIoStats, which: DiskField) -> (mf:
        MetricFamily)
        ensures
            mf.deep_view() == family_of(
                desc.deep_view(),
                MetricType::Counter,
                present(readings_of(stats.disks@, which)),
            ),
    {
        let mut readings: Vec<Reading> = Vec::new();
        let mut i: usize = 0;
        while i < stats.disks.len()
            invariant
                i <= stats.disks.len(),
                readings.len() == i,
                forall|j: int|
                    0 <= j < i ==> readings@[j].deep_view() == reading_of(stats.disks@[j], which),
            decreases stats.disks.len() - i,
        {
            let device = &stats.disks[i];
            let mut label: Vec<LabelPair> = Vec::new();
            label.push(LabelPair::new("device", device.device_name.as_str()));
            assert(label.deep_view() =~= seq![("device"@, device.device_name@)]);
            readings.push(Reading { label, value: Some(Ratio::whole(device.get(which))) });
            i += 1;
        }
        assert(readings.deep_view() =~= readings_of(stats.disks@, which));
        emit(desc, MetricType::Counter, &readings)
    }

    /// The families of the stored measurement: none before the first measurement.
    pub fn collect(&self, state: &Option<DiskIoStats>) -> (mf: Vec<MetricFamily>)
        ensures
            match *state {
                None => mf@.len() == 0,
                Some(stats) => mf.deep_view() == seq![
                    self.family(stats, DiskField::BytesRead),
                    self.family(stats, DiskField::BytesWritten),
                    self.family(stats, DiskField::ReadOps),
                    self.family(stats, DiskField::WriteOps),
                ],
            },
    {
        let mut mf: Vec<MetricFamily> = Vec::new();
        match state {
            None => {},
            Some(stats) => {
                mf.push(self.build_metric_family(&self.bytes_read, stats, DiskField::BytesRead));
                mf.push(
                    self.build_metric_family(&self.bytes_written, stats, DiskField::BytesWritten),
                );
                mf.push(self.build_metric_family(&self.read_ops, stats, DiskField::ReadOps));
                mf.push(self.build_metric_family(&self.write_ops, stats, DiskField::WriteOps));
                assert(mf.deep_view() =~= seq![
                    self.family(*stats, DiskField::BytesRead),
                    self.family(*stats, DiskField::BytesWritten),
                    self.family(*stats, DiskField::ReadOps),
                    self.family(*stats, DiskField::WriteOps),
                ]);
            },
        }
        mf
    }
}

/// The disk probe as configured.
#[derive(Debug)]
pub struct DiskIo {
    pub config: Config,
}

impl Metric for DiskIo {
    open spec fn name_of(&self) -> Seq<char> {
        "disk-io"@
    }

    open spec fn is_enabled(&self) -> bool {
        self.config.enabled
    }

    fn name(&self) -> (n: &'static str) {
        "disk-io"
    }

    fn enabled(&self) -> (b: bool) {
        self.config.enabled
    }
}

impl DiskIo {
    pub fn new(config: Config) -> (d: DiskIo)
        ensures
            d.config == config,
    {
        DiskIo { config }
    }

    /// Decides at start-up what stands for this probe: nothing when it is disabled, and
    /// otherwise its collector and its descriptors.
    pub fn register(self) -> (r: Result<Option<(DiskIoCollector, Metrics)>, InvalidDesc>)
        ensures
            !self.config.enabled ==> r == Ok::<Option<(DiskIoCollector, Metrics)>, InvalidDesc>(
                None,
            ),
            self.config.enabled ==> (r is Ok <==> registrable()),
            self.config.enabled && r is Ok ==> r->Ok_0 is Some && r->Ok_0->Some_0.0.measurement
                is None && r->Ok_0->Some_0.1.models() == descriptors(),
    {
        if !self.config.enabled {
            return Ok(None);
        }
        proof {
            reveal(registrable);
        }
        let collector = DiskIoCollector::new();
        let metrics = Metrics::new()?;
        Ok(Some((collector, metrics)))
    }
}

/// Whether the collector keeps a device of this name: all but loop devices and compressed
/// RAM disks.
pub open spec fn is_collected(device_name: Seq<char>) -> bool {
    !(has_prefix(device_name, "loop"@) || has_prefix(device_name, "zram"@))
}

/// The devices among `disks` that the collector keeps, in order.
pub open spec fn collected(disks: Seq<DeviceIoStats>) -> Seq<DeviceIoStats>
    decreases disks.len(),
{
    if disks.len() == 0 {
        Seq::empty()
    } else if is_collected(disks.last().device_name@) {
        collected(disks.drop_last()).push(disks.last())
    } else {
        collected(disks.drop_last())
    }
}

/// The state of the enabled disk probe: the measurement of the last cycle that succeeded.
#[derive(Debug)]
pub struct DiskIoCollector {
    pub measurement: Option<DiskIoStats>,
}

impl DiskIoCollector {
    pub fn new() -> (c: DiskIoCollector)
        ensures
            c.measurement is None,
    {
        DiskIoCollector { measurement: None }
    }

    pub fn measurements(&self) -> (m: &Option<DiskIoStats>)
        ensures
            *m == self.measurement,
    {
        &self.measurement
    }

    pub fn should_collect(&self, device_name: &str) -> (b: bool)
        ensures
            b == is_collected(device_name@),
    {
        let chars = chars_of(device_name);
        !(starts_with(chars.as_slice(), "loop") || starts_with(chars.as_slice(), "zram"))
    }

    /// The measurement `stats` without the devices that are not collected.
    pub fn retain(&self, stats: DiskIoStats) -> (kept: DiskIoStats)
        ensures
            kept.timestamp == stats.timestamp,
            kept.disks@ == collected(stats.disks@),
    {
        let DiskIoStats { timestamp, disks } = stats;
        let ghost all = disks@;
        let mut out: Vec<DeviceIoStats> = Vec::new();
        let mut rest = disks;
        let mut taken: Vec<DeviceIoStats> = Vec::new();
        // Devices are moved out from the back and put back in order afterwards.
        while rest.len() > 0
            invariant
                rest@ == all.take(rest@.len() as int),
                rest@.len() <= all.len(),
                taken@.len() + rest@.len() == all.len(),
                forall|j: int|
                    0 <= j < taken@.len() ==> taken@[j] == all[all.len() - 1 - j],
            decreases rest.len(),
        {
            let ghost n = rest@.len();
            let device = rest.pop().unwrap();
            taken.push(device);
            assert(rest@ =~= all.take(n - 1));
        }
        assert(collected(all.take(0)) =~= Seq::empty());
        while taken.len() > 0
            invariant
                taken@.len() <= all.len(),
                forall|j: int|
                    0 <= j < taken@.len() ==> taken@[j] == all[all.len() - 1 - j],
                out@ == collected(all.take(all.len() - taken@.len())),
            decreases taken.len(),
        {
            let ghost k = all.len() - taken@.len();
            let device = taken.pop().unwrap();
            assert(device == all[k]);
            assert(all.take(k + 1).drop_last() =~= all.take(k));
            assert(all.take(k + 1).last() == device);
            if self.should_collect(device.device_name.as_str()) {
                out.push(device);
            }
        }
        assert(all.take(all.len() as int) =~= all);
        DiskIoStats { timestamp, disks: out }
    }

    /// Ends a cycle with what the data source delivered: a measurement is stored, without
    /// the devices that are not collected, unless it is older than the stored one.
    pub fn collect(&mut self, outcome: Result<DiskIoStats, CollectError>) -> (r: Result<
        (),
        CollectError,
    >)
        ensures
            match outcome {
                Ok(m) => r is Ok && if replaces(old(self).measurement, m) {
                    &&& final(self).measurement is Some
                    &&& final(self).measurement->Some_0.timestamp == m.timestamp
                    &&& final(self).measurement->Some_0.disks@ == collected(m.disks@)
                } else {
                    final(self).measurement == old(self).measurement
                },
                Err(e) => r == Err::<(), CollectError>(e) && *final(self) == *old(self),
            },
    {
        match outcome {
            Ok(stats) => {
                let kept = self.retain(stats);
                collect_into(&mut self.measurement, Ok(kept))
            },
            Err(e) => Err(e),
        }
    }
}

/// Whether the registry takes every descriptor of this probe.
#[verifier::opaque]
pub open spec fn registrable() -> bool {
    forall|i: int| 0 <= i < 4 ==> accepted(#[trigger] descriptors()[i])
}

} // verus!
