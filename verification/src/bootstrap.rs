//! Putting the probes together at start-up.
use crate::config::Collectors;
use crate::metrics::cpu_frequency::{CpuFrequency, CpuFrequencyCollector};
use crate::metrics::cpu_usage::{CpuUsage, CpuUsageCollector};
use crate::metrics::disk_io::{DiskIo, DiskIoCollector};
use crate::metrics::disk_smart::{DiskTemp, DiskTempCollector};
use crate::metrics::docker::{Docker, DockerCollector};
use crate::metrics::memory_usage::{MemoryUsage, MemoryUsageCollector};
use crate::metrics::network_io::{NetworkIo, NetworkIoCollector};
use crate::metrics::ups::{Ups, UpsCollector};
use crate::metrics::util::{FamilyModel, InvalidDesc, MetricFamily};
use crate::metrics::zfs_arc::{ZfsArc, ZfsCollector};
use crate::metrics::zfs_dataset::{ZfsDatasetIo, ZfsDatasetIoCollector};
use crate::metrics::{
    cpu_frequency, cpu_usage, disk_io, disk_smart, docker, memory_usage, network_io, ups, zfs_arc,
    zfs_dataset,
};
use vstd::prelude::*;

verus! {

/// The probes of the agent. A probe that is disabled has no entry: it never collects and
/// never emits.
#[derive(Debug)]
pub struct Probes {
    pub memory_usage: Option<MemoryUsageCollector>,
    pub cpu_frequency: Option<CpuFrequencyCollector>,
    pub cpu_usage: Option<CpuUsageCollector>,
    pub network_io: Option<(NetworkIoCollector, network_io::Metrics)>,
    pub disk_io: Option<(DiskIoCollector, disk_io::Metrics)>,
    pub disk_temp: Option<(DiskTempCollector, disk_smart::Metrics)>,
    pub ups: Option<(UpsCollector, ups::Metrics)>,
    pub docker: Option<(DockerCollector, docker::Metrics)>,
    pub zfs_arc: Option<(ZfsCollector, zfs_arc::Metrics)>,
    pub zfs_dataset: Option<(ZfsDatasetIoCollector, zfs_dataset::Metrics)>,
}

/// Whether the registry takes the descriptors of every probe that `config` enables.
pub open spec fn registrable(config: Collectors) -> bool {
    &&& config.memory_usage.enabled ==> memory_usage::registrable(config.memory_usage.report_swap)
    &&& config.cpu_frequency.enabled ==> cpu_frequency::registrable()
    &&& config.cpu_usage.enabled ==> cpu_usage::registrable()
    &&& config.network_io.enabled ==> network_io::registrable()
    &&& config.disk_io.enabled ==> disk_io::registrable()
    &&& config.disk_temp.enabled ==> disk_smart::registrable()
    &&& config.ups.enabled ==> ups::registrable()
    &&& config.docker.enabled ==> docker::registrable()
    &&& config.zfs_arc.enabled ==> zfs_arc::registrable()
    &&& config.zfs_dataset.enabled ==> zfs_dataset::registrable()
}

/// Whether `probes` holds exactly the probes that `config` enables.
pub open spec fn matches(probes: Probes, config: Collectors) -> bool {
    &&& probes.memory_usage is Some == config.memory_usage.enabled
    &&& probes.cpu_frequency is Some == config.cpu_frequency.enabled
    &&& probes.cpu_usage is Some == config.cpu_usage.enabled
    &&& probes.network_io is Some == config.network_io.enabled
    &&& probes.disk_io is Some == config.disk_io.enabled
    &&& probes.disk_temp is Some == config.disk_temp.enabled
    &&& probes.ups is Some == config.ups.enabled
    &&& probes.docker is Some == config.docker.enabled
    &&& probes.zfs_arc is Some == config.zfs_arc.enabled
    &&& probes.zfs_dataset is Some == config.zfs_dataset.enabled
    &&& probes.memory_usage is Some ==> probes.memory_usage->Some_0.swap_metrics is Some
        == config.memory_usage.report_swap
    &&& probes.network_io is Some ==> probes.network_io->Some_0.0.config == config.network_io
}

/// Whether every probe of `probes` holds its own descriptors and no measurement yet.
pub open spec fn is_fresh(probes: Probes) -> bool {
    &&& probes.memory_usage is Some ==> {
        let c = probes.memory_usage->Some_0;
        &&& c.ram is None
        &&& c.swap is None
        &&& c.ram_metrics.models() == memory_usage::ram_descriptors()
        &&& c.swap_metrics is Some ==> c.swap_metrics->Some_0.models()
            == memory_usage::swap_descriptors()
    }
    &&& probes.cpu_frequency is Some ==> {
        let c = probes.cpu_frequency->Some_0;
        c.last is None && c.metrics.core_freq.deep_view() == cpu_frequency::descriptor()
    }
    &&& probes.cpu_usage is Some ==> {
        let c = probes.cpu_usage->Some_0;
        c.last is None && c.metrics.models() == cpu_usage::descriptors()
    }
    &&& probes.network_io is Some ==> {
        let p = probes.network_io->Some_0;
        p.0.measurement is None && p.1.models() == network_io::descriptors()
    }
    &&& probes.disk_io is Some ==> {
        let p = probes.disk_io->Some_0;
        p.0.measurement is None && p.1.models() == disk_io::descriptors()
    }
    &&& probes.disk_temp is Some ==> {
        let p = probes.disk_temp->Some_0;
        p.0.measurements is None && p.1.models() == disk_smart::descriptors()
    }
    &&& probes.ups is Some ==> {
        let p = probes.ups->Some_0;
        p.0.measurements is None && p.1.models() == ups::descriptors()
    }
    &&& probes.docker is Some ==> {
        let p = probes.docker->Some_0;
        p.0.measurement is None && p.1.models() == docker::descriptors()
    }
    &&& probes.zfs_arc is Some ==> {
        let p = probes.zfs_arc->Some_0;
        p.0.measurement is None && p.1.models() == zfs_arc::descriptors()
    }
    &&& probes.zfs_dataset is Some ==> {
        let p = probes.zfs_dataset->Some_0;
        p.0.measurement is None && p.1.models() == zfs_dataset::descriptors()
    }
}

/// Puts together the probes that `config` enables. Fails when the registry's rules refuse a
/// descriptor of an enabled probe.
pub fn init_collectors(config: Collectors) -> (r: Result<Probes, InvalidDesc>)
    ensures
        r is Ok <==> registrable(config),
        r is Ok ==> matches(r->Ok_0, config) && is_fresh(r->Ok_0),
{
    let memory_usage = MemoryUsage::new(config.memory_usage).register()?;
    let cpu_frequency = CpuFrequency::new(config.cpu_frequency).register()?;
    let cpu_usage = CpuUsage::new(config.cpu_usage).register()?;
    let network_io = NetworkIo::new(config.network_io).register()?;
    let disk_io = DiskIo::new(config.disk_io).register()?;
    let disk_temp = DiskTemp::new(config.disk_temp).register()?;
    let ups = Ups::new(config.ups).register()?;
    let docker = Docker::new(config.docker).register()?;
    let zfs_arc = ZfsArc::new(config.zfs_arc).register()?;
    let zfs_dataset = ZfsDatasetIo::new(config.zfs_dataset).register()?;
    Ok(
        Probes {
            memory_usage,
            cpu_frequency,
            cpu_usage,
            network_io,
            disk_io,
            disk_temp,
            ups,
            docker,
            zfs_arc,
            zfs_dataset,
        },
    )
}

fn extend(into: &mut Vec<MetricFamily>, from: Vec<MetricFamily>)
    ensures
        final(into).deep_view() == old(into).deep_view() + from.deep_view(),
{
    let mut from = from;
    let ghost a = into.deep_view();
    let ghost b = from.deep_view();
    into.append(&mut from);
    assert(into.deep_view() =~= a + b);
}

impl Probes {
    /// What the memory probe holds.
    pub open spec fn memory_families(&self) -> Seq<FamilyModel> {
        match self.memory_usage {
            Some(c) => c.families(),
            _ => Seq::empty(),
        }
    }

    fn memory_part(&self) -> (mf: Vec<MetricFamily>)
        ensures
            mf.deep_view() == self.memory_families(),
    {
        match &self.memory_usage {
            Some(c) => c.gather(),
            None => {
                let mf: Vec<MetricFamily> = Vec::new();
                assert(mf.deep_view() =~= Seq::empty());
                mf
            },
        }
    }

    /// What the CPU frequency probe holds.
    pub open spec fn frequency_families(&self) -> Seq<FamilyModel> {
        match self.cpu_frequency {
            Some(c) if c.last is Some => c.metrics.families(c.last->Some_0.cores@),
            _ => Seq::empty(),
        }
    }

    fn frequency_part(&self) -> (mf: Vec<MetricFamily>)
        ensures
            mf.deep_view() == self.frequency_families(),
    {
        match &self.cpu_frequency {
            Some(c) => c.gather(),
            None => {
                let mf: Vec<MetricFamily> = Vec::new();
                assert(mf.deep_view() =~= Seq::empty());
                mf
            },
        }
    }

    /// What the CPU usage probe holds.
    pub open spec fn usage_families(&self) -> Seq<FamilyModel> {
        match self.cpu_usage {
            Some(c) if c.last is Some => c.metrics.families(c.last->Some_0),
            _ => Seq::empty(),
        }
    }

    fn usage_part(&self) -> (mf: Vec<MetricFamily>)
        ensures
            mf.deep_view() == self.usage_families(),
    {
        match &self.cpu_usage {
            Some(c) => c.gather(),
            None => {
                let mf: Vec<MetricFamily> = Vec::new();
                assert(mf.deep_view() =~= Seq::empty());
                mf
            },
        }
    }

    /// What the network probe holds.
    pub open spec fn network_families(&self) -> Seq<FamilyModel> {
        match self.network_io {
            Some(p) if p.0.measurement is Some => p.1.families(
                p.0.measurement->Some_0.interfaces@,
            ),
            _ => Seq::empty(),
        }
    }

    fn network_part(&self) -> (mf: Vec<MetricFamily>)
        ensures
            mf.deep_view() == self.network_families(),
    {
        match &self.network_io {
            Some(p) => p.1.collect(&p.0.measurement),
            None => {
                let mf: Vec<MetricFamily> = Vec::new();
                assert(mf.deep_view() =~= Seq::empty());
                mf
            },
        }
    }

    /// What the disk probe holds.
    pub open spec fn disk_families(&self) -> Seq<FamilyModel> {
        match self.disk_io {
            Some(p) if p.0.measurement is Some => seq![
                p.1.family(p.0.measurement->Some_0, disk_io::DiskField::BytesRead),
                p.1.family(p.0.measurement->Some_0, disk_io::DiskField::BytesWritten),
                p.1.family(p.0.measurement->Some_0, disk_io::DiskField::ReadOps),
                p.1.family(p.0.measurement->Some_0, disk_io::DiskField::WriteOps),
            ],
            _ => Seq::empty(),
        }
    }

    fn disk_part(&self) -> (mf: Vec<MetricFamily>)
        ensures
            mf.deep_view() == self.disk_families(),
    {
        match &self.disk_io {
            Some(p) => p.1.collect(&p.0.measurement),
            None => {
                let mf: Vec<MetricFamily> = Vec::new();
                assert(mf.deep_view() =~= Seq::empty());
                mf
            },
        }
    }

    /// What the disk report probe holds.
    pub open spec fn smart_families(&self) -> Seq<FamilyModel> {
        match self.disk_temp {
            Some(p) if p.0.measurements is Some => p.1.nvme_families(
                p.0.measurements->Some_0.nvme@,
            ) + p.1.sata_families(p.0.measurements->Some_0.sata@),
            _ => Seq::empty(),
        }
    }

    fn smart_part(&self) -> (mf: Vec<MetricFamily>)
        ensures
            mf.deep_view() == self.smart_families(),
    {
        match &self.disk_temp {
            Some(p) => p.1.collect(&p.0.measurements),
            None => {
                let mf: Vec<MetricFamily> = Vec::new();
                assert(mf.deep_view() =~= Seq::empty());
                mf
            },
        }
    }

    /// What the UPS probe holds.
    pub open spec fn ups_families(&self) -> Seq<FamilyModel> {
        match self.ups {
            Some(p) if p.0.measurements is Some => seq![
                p.1.family(p.0.measurements->Some_0, ups::UpsField::Runtime),
                p.1.family(p.0.measurements->Some_0, ups::UpsField::BatteryLevel),
                p.1.family(p.0.measurements->Some_0, ups::UpsField::ApparentPower),
                p.1.family(p.0.measurements->Some_0, ups::UpsField::RealPower),
                p.1.family(p.0.measurements->Some_0, ups::UpsField::Load),
                p.1.family(p.0.measurements->Some_0, ups::UpsField::InputVoltage),
                p.1.family(p.0.measurements->Some_0, ups::UpsField::OutputVoltage),
            ],
            _ => Seq::empty(),
        }
    }

    fn ups_part(&self) -> (mf: Vec<MetricFamily>)
        ensures
            mf.deep_view() == self.ups_families(),
    {
        match &self.ups {
            Some(p) => p.1.collect(&p.0.measurements),
            None => {
                let mf: Vec<MetricFamily> = Vec::new();
                assert(mf.deep_view() =~= Seq::empty());
                mf
            },
        }
    }

    /// What the container probe holds.
    pub open spec fn docker_families(&self) -> Seq<FamilyModel> {
        match self.docker {
            Some(p) if p.0.measurement is Some => p.1.families(
                p.0.measurement->Some_0.containers@,
            ),
            _ => Seq::empty(),
        }
    }

    fn docker_part(&self) -> (mf: Vec<MetricFamily>)
        ensures
            mf.deep_view() == self.docker_families(),
    {
        match &self.docker {
            Some(p) => p.1.collect(&p.0.measurement),
            None => {
                let mf: Vec<MetricFamily> = Vec::new();
                assert(mf.deep_view() =~= Seq::empty());
                mf
            },
        }
    }

    /// What the cache probe holds.
    pub open spec fn arc_families(&self) -> Seq<FamilyModel> {
        match self.zfs_arc {
            Some(p) if p.0.measurement is Some => p.1.families(p.0.measurement->Some_0),
            _ => Seq::empty(),
        }
    }

    fn arc_part(&self) -> (mf: Vec<MetricFamily>)
        ensures
            mf.deep_view() == self.arc_families(),
    {
        match &self.zfs_arc {
            Some(p) => p.1.collect(&p.0.measurement),
            None => {
                let mf: Vec<MetricFamily> = Vec::new();
                assert(mf.deep_view() =~= Seq::empty());
                mf
            },
        }
    }

    /// What the dataset probe holds.
    pub open spec fn dataset_families(&self) -> Seq<FamilyModel> {
        match self.zfs_dataset {
            Some(p) if p.0.measurement is Some => p.1.families(
                p.0.measurement->Some_0.datasets@,
            ),
            _ => Seq::empty(),
        }
    }

    fn dataset_part(&self) -> (mf: Vec<MetricFamily>)
        ensures
            mf.deep_view() == self.dataset_families(),
    {
        match &self.zfs_dataset {
            Some(p) => p.1.collect(&p.0.measurement),
            None => {
                let mf: Vec<MetricFamily> = Vec::new();
                assert(mf.deep_view() =~= Seq::empty());
                mf
            },
        }
    }

    /// What the probes hold, probe after probe.
    pub open spec fn families(&self) -> Seq<FamilyModel> {
        self.memory_families()
            + self.frequency_families()
            + self.usage_families()
            + self.network_families()
            + self.disk_families()
            + self.smart_families()
            + self.ups_families()
            + self.docker_families()
            + self.arc_families()
            + self.dataset_families()
    }

    /// Gathers what every enabled probe holds: the measurement of its last cycle that
    /// succeeded. A probe that is disabled, or has not yet measured, adds nothing.
    pub fn gather(&self) -> (mf: Vec<MetricFamily>)
        ensures
            mf.deep_view() == self.families(),
    {
        let mut mf = self.memory_part();
        extend(&mut mf, self.frequency_part());
        extend(&mut mf, self.usage_part());
        extend(&mut mf, self.network_part());
        extend(&mut mf, self.disk_part());
        extend(&mut mf, self.smart_part());
        extend(&mut mf, self.ups_part());
        extend(&mut mf, self.docker_part());
        extend(&mut mf, self.arc_part());
        extend(&mut mf, self.dataset_part());
        mf
    }
}

} // verus!
