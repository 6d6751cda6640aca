//! The series of the running containers.
use crate::domain::{collect_into, CollectError, Metric, stored_after, Timestamp, Timestamped};
use crate::metrics::util::{
    accepted, described, maybe, maybe_counter, maybe_gauge, whole, Desc, DescModel, FamilyModel,
    InvalidDesc, LabelPair, MetricFamily, MetricType,
};
use crate::number::Ratio;
use vstd::prelude::*;

verus! {

#[derive(Clone, Copy, Debug, PartialEq, Eq, Structural)]
pub struct Config {
    pub enabled: bool,
}

impl Default for Config {
    fn default() -> (c: Config)
        ensures
            c.enabled,
    {
        Config { enabled: true }
    }
}

/// What one container reported. A figure that the runtime did not report, or that cannot be
/// computed in this cycle, is absent.
#[derive(Debug)]
pub struct ContainerStats {
    pub name: String,
    /// The CPUs that the container kept busy: from 0 to the number of CPUs online.
    pub cpu_usage: Option<Ratio>,
    pub mem_usage_bytes: Option<u64>,
    pub net_rx_bytes: Option<u64>,
    pub net_tx_bytes: Option<u64>,
}

pub struct ContainerModel {
    pub name: Seq<char>,
    pub cpu_usage: Option<Ratio>,
    pub mem_usage_bytes: Option<u64>,
    pub net_rx_bytes: Option<u64>,
    pub net_tx_bytes: Option<u64>,
}

impl DeepView for ContainerStats {
    type V = ContainerModel;

    open spec fn deep_view(&self) -> ContainerModel {
        ContainerModel {
            name: self.name@,
            cpu_usage: self.cpu_usage,
            mem_usage_bytes: self.mem_usage_bytes,
            net_rx_bytes: self.net_rx_bytes,
            net_tx_bytes: self.net_tx_bytes,
        }
    }
}

#[derive(Debug)]
pub struct DockerStats {
    pub timestamp: Timestamp,
    pub containers: Vec<ContainerStats>,
}

impl Timestamped for DockerStats {
    open spec fn taken_at(&self) -> Timestamp {
        self.timestamp
    }

    fn timestamp(&self) -> (t: Timestamp) {
        self.timestamp
    }
}

/// The descriptors of the container series, in the order in which they are declared.
pub open spec fn descriptors() -> Seq<DescModel> {
    seq![
        described("docker_cpu_usage_percent"@, "CPU usage percentage"@, seq!["container"@]),
        described("docker_memory_usage_bytes"@, "Memory usage in bytes"@, seq!["container"@]),
        described(
            "docker_network_receive_bytes_total"@,
            "Total bytes received"@,
            seq!["container"@],
        ),
        described(
            "docker_network_transmit_bytes_total"@,
            "Total bytes transmitted"@,
            seq!["container"@],
        ),
    ]
}

#[derive(Debug)]
pub struct Metrics {
    pub cpu_usage: Desc,
    pub mem_usage: Desc,
    pub net_rx: Desc,
    pub net_tx: Desc,
}

impl Metrics {
    pub open spec fn models(&self) -> Seq<DescModel> {
        seq![
            self.cpu_usage.deep_view(),
            self.mem_usage.deep_view(),
            self.net_rx.deep_view(),
            self.net_tx.deep_view(),
        ]
    }

    /// The descriptors, in the order in which they are declared.
    pub fn desc(&self) -> (d: Vec<&Desc>)
        ensures
            d.deep_view() == self.models(),
    {
        let mut d: Vec<&Desc> = Vec::new();
        d.push(&self.cpu_usage);
        d.push(&self.mem_usage);
        d.push(&self.net_rx);
        d.push(&self.net_tx);
        assert(d.deep_view() =~= self.models());
        d
    }

    /// Builds the descriptors; fails when the registry's rules refuse one of them.
    pub fn new() -> (r: Result<Metrics, InvalidDesc>)
        ensures
            r is Ok <==> (forall|i: int| 0 <= i < 4 ==> accepted(#[trigger] descriptors()[i])),
            r is Ok ==> r->Ok_0.models() == descriptors(),
    {
        let ghost d = descriptors();
        // Each descriptor is named once, so that the clauses about all of them apply to it.
        assert(d[0] == d[0] && d[1] == d[1] && d[2] == d[2] && d[3] == d[3]);
        let cpu_usage = Desc::with_label(
            "docker_cpu_usage_percent",
            "CPU usage percentage",
            "container",
        )?;
        let mem_usage = Desc::with_label(
            "docker_memory_usage_bytes",
            "Memory usage in bytes",
            "container",
        )?;
        let net_rx = Desc::with_label(
            "docker_network_receive_bytes_total",
            "Total bytes received",
            "container",
        )?;
        let net_tx = Desc::with_label(
            "docker_network_transmit_bytes_total",
            "Total bytes transmitted",
            "container",
        )?;
        let m = Metrics { cpu_usage, mem_usage, net_rx, net_tx };
        assert(m.models() =~= descriptors());
        Ok(m)
    }

    /// The labels of a container.
    pub fn make_labels(&self, container: &ContainerStats) -> (l: Vec<LabelPair>)
        ensures
            l.deep_view() == seq![("container"@, container.name@)],
    {
        let mut l: Vec<LabelPair> = Vec::new();
        l.push(LabelPair::new("container", container.name.as_str()));
        assert(l.deep_view() =~= seq![("container"@, container.name@)]);
        l
    }

    /// The families of one container: one for each figure that is present.
    pub open spec fn families_of(&self, c: ContainerStats) -> Seq<FamilyModel> {
        let l = seq![("container"@, c.name@)];
        maybe(self.cpu_usage.deep_view(), MetricType::Gauge, l, c.cpu_usage) + maybe(
            self.mem_usage.deep_view(),
            MetricType::Gauge,
            l,
            whole(c.mem_usage_bytes),
        ) + maybe(self.net_rx.deep_view(), MetricType::Counter, l, whole(c.net_rx_bytes)) + maybe(
            self.net_tx.deep_view(),
            MetricType::Counter,
            l,
            whole(c.net_tx_bytes),
        )
    }

    /// The families of `containers`, container after container.
    pub open spec fn families(&self, containers: Seq<ContainerStats>) -> Seq<FamilyModel>
        decreases containers.len(),
    {
        if containers.len() == 0 {
            Seq::empty()
        } else {
            self.families(containers.drop_last()) + self.families_of(containers.last())
        }
    }

    /// The families of the stored measurement: none before the first measurement.
    pub fn collect(&self, state: &Option<DockerStats>) -> (mf: Vec<MetricFamily>)
        ensures
            match *state {
                None => mf@.len() == 0,
                Some(stats) => mf.deep_view() == self.families(stats.containers@),
            },
    {
        let mut mf: Vec<MetricFamily> = Vec::new();
        match state {
            None => {},
            Some(stats) => {
                let mut i: usize = 0;
                assert(mf.deep_view() =~= self.families(stats.containers@.take(0)));
                while i < stats.containers.len()
                    invariant
                        i <= stats.containers.len(),
                        mf.deep_view() == self.families(stats.containers@.take(i as int)),
                    decreases stats.containers.len() - i,
                {
                    let c = &stats.containers[i];
                    let ghost all = stats.containers@;
                    let ghost before = mf.deep_view();
                    assert(all.take(i + 1).drop_last() =~= all.take(i as int));
                    assert(all.take(i + 1).last() == *c);
                    let l = self.make_labels(c);
                    maybe_gauge(&mut mf, &self.cpu_usage, &l, c.cpu_usage);
                    let mem = match c.mem_usage_bytes {
                        Some(m) => Some(Ratio::whole(m)),
                        None => None,
                    };
                    maybe_gauge(&mut mf, &self.mem_usage, &l, mem);
                    maybe_counter(&mut mf, &self.net_rx, &l, c.net_rx_bytes);
                    maybe_counter(&mut mf, &self.net_tx, &l, c.net_tx_bytes);
                    assert(mf.deep_view() =~= before + self.families_of(*c));
                    i += 1;
                }
                assert(stats.containers@.take(stats.containers.len() as int)
                    =~= stats.containers@);
            },
        }
        mf
    }
}

/// The container probe as configured.
#[derive(Debug)]
pub struct Docker {
    pub config: Config,
}

impl Metric for Docker {
    open spec fn name_of(&self) -> Seq<char> {
        "docker"@
    }

    open spec fn is_enabled(&self) -> bool {
        self.config.enabled
    }

    fn name(&self) -> (n: &'static str) {
        "docker"
    }

    fn enabled(&self) -> (b: bool) {
        self.config.enabled
    }
}

impl Docker {
    pub fn new(config: Config) -> (d: Docker)
        ensures
            d.config == config,
    {
        Docker { config }
    }

    /// Decides at start-up what stands for this probe: nothing when it is disabled, and
    /// otherwise its collector and its descriptors.
    pub fn register(self) -> (r: Result<Option<(DockerCollector, Metrics)>, InvalidDesc>)
        ensures
            !self.config.enabled ==> r == Ok::<Option<(DockerCollector, Metrics)>, InvalidDesc>(
                None,
            ),
            self.config.enabled ==> (r is Ok <==> registrable()),
            self.config.enabled && r is Ok ==> r->Ok_0 is Some && r->Ok_0->Some_0.0.measurement
                is None && r->Ok_0->Some_0.1.models() == descriptors(),
    {
        if !self.config.enabled {
            return Ok(None);
        }
        proof {
            reveal(registrable);
        }
        let collector = DockerCollector::new();
        let metrics = Metrics::new()?;
        Ok(Some((collector, metrics)))
    }
}

/// The state of the enabled container probe.
#[derive(Debug)]
pub struct DockerCollector {
    pub measurement: Option<DockerStats>,
}

impl DockerCollector {
    pub fn new() -> (c: DockerCollector)
        ensures
            c.measurement is None,
    {
        DockerCollector { measurement: None }
    }

    pub fn measurements(&self) -> (m: &Option<DockerStats>)
        ensures
            *m == self.measurement,
    {
        &self.measurement
    }

    /// Ends a cycle with what the data source delivered.
    pub fn collect(&mut self, outcome: Result<DockerStats, CollectError>) -> (r: Result<
        (),
        CollectError,
    >)
        ensures
            match outcome {
                Ok(m) => r is Ok && final(self).measurement == stored_after(
                    old(self).measurement,
                    m,
                ),
                Err(e) => r == Err::<(), CollectError>(e) && *final(self) == *old(self),
            },
    {
        collect_into(&mut self.measurement, outcome)
    }
}

/// Whether the registry takes every descriptor of this probe.
#[verifier::opaque]
pub open spec fn registrable() -> bool {
    forall|i: int| 0 <= i < 4 ==> accepted(#[trigger] descriptors()[i])
}

} // verus!
