//! Container figures: what the container runtime reported becomes the statistics of a cycle,
//! with the CPU usage computed against the reading of the cycle before.
use crate::domain::Timestamp;
use crate::metrics::docker::{ContainerModel, ContainerStats, DockerStats};
use crate::number::{plus, Ratio};
use crate::text::{chars_of, lookup, string_of, trim_start_matches, trim_start_of, CharClass};
use vstd::prelude::*;

verus! {

/// The CPU time counters of one container, in nanoseconds: the time that the container used,
/// and the time that the whole machine used.
#[derive(Clone, Copy, Debug, PartialEq, Eq, Structural)]
pub struct CpuStats {
    pub total: u64,
    pub system: u64,
}

/// The CPU part of what the runtime reported for a container.
#[derive(Clone, Copy, Debug, PartialEq, Eq, Structural)]
pub struct ContainerCpuReading {
    pub total_usage: Option<u64>,
    pub system_cpu_usage: Option<u64>,
    pub online_cpus: Option<u32>,
}

/// The counters of one network of a container.
#[derive(Clone, Copy, Debug, PartialEq, Eq, Structural)]
pub struct NetworkReading {
    pub rx_bytes: Option<u64>,
    pub tx_bytes: Option<u64>,
}

/// What the runtime reported for a container.
#[derive(Debug)]
pub struct StatsReading {
    pub cpu_stats: Option<ContainerCpuReading>,
    pub memory_usage: Option<u64>,
    pub networks: Option<Vec<NetworkReading>>,
}

/// One running container as the runtime listed it, with its report if it gave one.
#[derive(Debug)]
pub struct ContainerReading {
    pub id: Option<String>,
    pub names: Option<Vec<String>>,
    pub stats: Option<StatsReading>,
}

/// The counters of a container in the cycle before.
#[derive(Debug)]
pub struct Baseline {
    pub name: String,
    pub stats: CpuStats,
}

impl DeepView for Baseline {
    type V = (Seq<char>, CpuStats);

    open spec fn deep_view(&self) -> (Seq<char>, CpuStats) {
        (self.name@, self.stats)
    }
}

/// The name that a container goes by before its leading slashes are taken off: the first of
/// its names, else its identifier, else `n/a`.
pub open spec fn raw_name_of(container: ContainerReading) -> Seq<char> {
    match container.names {
        Some(names) if names@.len() > 0 => names@[0]@,
        _ => match container.id {
            Some(id) => id@,
            None => "n/a"@,
        },
    }
}

/// The name of a container.
pub open spec fn container_name_of(container: ContainerReading) -> Seq<char> {
    trim_start_of(raw_name_of(container), CharClass::Exactly('/'))
}

/// The name of a container.
pub fn container_name(container: &ContainerReading) -> (name: String)
    ensures
        name@ == container_name_of(*container),
{
    let raw: Vec<char> = match &container.names {
        Some(names) if names.len() > 0 => chars_of(names[0].as_str()),
        _ => match &container.id {
            Some(id) => chars_of(id.as_str()),
            None => chars_of("n/a"),
        },
    };
    let trimmed = trim_start_matches(raw.as_slice(), CharClass::Exactly('/'));
    string_of(trimmed.as_slice())
}

/// The time that the container used, if the runtime reported it.
pub fn total_cpu_usage(stats: &ContainerCpuReading) -> (t: Option<u64>)
    ensures
        t == stats.total_usage,
{
    stats.total_usage
}

/// The time that the machine used, if the runtime reported it.
pub fn system_cpu_usage(stats: &ContainerCpuReading) -> (t: Option<u64>)
    ensures
        t == stats.system_cpu_usage,
{
    stats.system_cpu_usage
}

/// The counters of a reading: present when both were reported.
pub open spec fn counters_of(stats: ContainerCpuReading) -> Option<CpuStats> {
    match (stats.total_usage, stats.system_cpu_usage) {
        (Some(total), Some(system)) => Some(CpuStats { total, system }),
        _ => None,
    }
}

pub fn to_cpu_stats(stats: &ContainerCpuReading) -> (c: Option<CpuStats>)
    ensures
        c == counters_of(*stats),
{
    let total = total_cpu_usage(stats)?;
    let system = system_cpu_usage(stats)?;
    Some(CpuStats { total, system })
}

/// The number of CPUs that a reading goes by: one where the runtime reported none.
pub open spec fn cpus_of(stats: ContainerCpuReading) -> u32 {
    match stats.online_cpus {
        Some(n) => n,
        None => 1,
    }
}

/// The CPUs that a container kept busy between two readings: the share of the machine's CPU
/// time that the container used, times the number of CPUs. Absent when a counter did not
/// advance, which is what a restart looks like, and when the result would be above the
/// number of CPUs.
pub open spec fn usage_between(current: CpuStats, previous: CpuStats, cpus: u32) -> Option<Ratio> {
    if current.total <= previous.total || current.system <= previous.system {
        None
    } else {
        let cpu_delta = current.total - previous.total;
        let sys_delta = current.system - previous.system;
        if cpu_delta * cpus > cpus * sys_delta {
            None
        } else {
            Some(Ratio { num: (cpu_delta * cpus) as u128, den: sys_delta as u128 })
        }
    }
}

/// A usage that is reported is never above the number of CPUs.
pub proof fn lemma_usage_is_within_the_cpus(current: CpuStats, previous: CpuStats, cpus: u32)
    ensures
        match usage_between(current, previous, cpus) {
            Some(r) => r.den > 0 && r.num <= cpus * r.den,
            None => true,
        },
{
    if current.total > previous.total && current.system > previous.system {
        let cpu_delta = current.total - previous.total;
        let sys_delta = current.system - previous.system;
        assert(0 <= cpu_delta * cpus <= 0xFFFF_FFFF_FFFF_FFFF * 0xFFFF_FFFF) by (nonlinear_arith)
            requires
                0 <= cpu_delta <= 0xFFFF_FFFF_FFFF_FFFF,
                0 <= cpus <= 0xFFFF_FFFF,
        ;
    }
}

/// The usage of a container and its new baseline, from its reading and its baseline of the
/// cycle before. The counters of a complete reading always become the new baseline, whether
/// or not a usage comes of them.
pub open spec fn cpu_usage_of(stats: Option<ContainerCpuReading>, previous: Option<CpuStats>) -> (
    Option<Ratio>,
    Option<CpuStats>,
) {
    match stats {
        None => (None, None),
        Some(s) => match counters_of(s) {
            None => (None, None),
            Some(current) => match previous {
                None => (None, Some(current)),
                Some(p) => (usage_between(current, p, cpus_of(s)), Some(current)),
            },
        },
    }
}

/// The views of baselines.
pub open spec fn baselines(v: Seq<Baseline>) -> Seq<(Seq<char>, CpuStats)> {
    Seq::new(v.len(), |k: int| v[k].deep_view())
}

fn baseline_of(prev_measurements: &Vec<Baseline>, container_name: &str) -> (out: Option<CpuStats>)
    ensures
        out == lookup(baselines(prev_measurements@), container_name@),
{
    let wanted = container_name.to_owned();
    let mut n: usize = prev_measurements.len();
    let ghost all = baselines(prev_measurements@);
    assert(all.take(n as int) =~= all);
    while n > 0
        invariant
            n <= prev_measurements.len(),
            all == baselines(prev_measurements@),
            wanted@ == container_name@,
            lookup(all.take(n as int), container_name@) == lookup(all, container_name@),
        decreases n,
    {
        let b = &prev_measurements[n - 1];
        assert(all.take(n as int).last() == b.deep_view());
        assert(all.take(n as int).drop_last() =~= all.take(n - 1));
        if b.name == wanted {
            return Some(b.stats);
        }
        n -= 1;
    }
    None
}

/// The CPU usage of the container `container_name` and its new baseline. Where the container
/// has several baselines, the last counts.
pub fn cpu_usage(
    container_name: &str,
    container_stats: Option<&ContainerCpuReading>,
    prev_measurements: &Vec<Baseline>,
) -> (out: (Option<Ratio>, Option<CpuStats>))
    ensures
        out == cpu_usage_of(
            match container_stats {
                Some(s) => Some(*s),
                None => None,
            },
            lookup(baselines(prev_measurements@), container_name@),
        ),
{
    let container_stats = match container_stats {
        Some(s) => s,
        None => {
            return (None, None);
        },
    };
    let current = match to_cpu_stats(container_stats) {
        Some(c) => c,
        None => {
            return (None, None);
        },
    };
    let previous = match baseline_of(prev_measurements, container_name) {
        Some(p) => p,
        None => {
            return (None, Some(current));
        },
    };
    if current.total <= previous.total || current.system <= previous.system {
        return (None, Some(current));
    }
    let cpus: u32 = match container_stats.online_cpus {
        Some(n) => n,
        None => 1,
    };
    let cpu_delta: u64 = current.total - previous.total;
    let sys_delta: u64 = current.system - previous.system;
    assert((cpu_delta * cpus > cpus * sys_delta) == (cpus > 0 && cpu_delta > sys_delta))
        by (nonlinear_arith)
        requires
            cpu_delta >= 0,
            sys_delta >= 0,
            cpus >= 0,
    ;
    if cpus > 0 && cpu_delta > sys_delta {
        return (None, Some(current));
    }
    assert(cpu_delta * cpus <= 0xFFFF_FFFF_FFFF_FFFF * 0xFFFF_FFFF) by (nonlinear_arith)
        requires
            cpu_delta <= 0xFFFF_FFFF_FFFF_FFFF,
            cpus <= 0xFFFF_FFFF,
            cpu_delta >= 0,
            cpus >= 0,
    ;
    let usage = Ratio { num: cpu_delta as u128 * cpus as u128, den: sys_delta as u128 };
    (Some(usage), Some(current))
}

/// The bytes received over all networks; a network without a count adds nothing.
pub open spec fn received(networks: Seq<NetworkReading>) -> u64
    decreases networks.len(),
{
    if networks.len() == 0 {
        0
    } else {
        plus(
            received(networks.drop_last()),
            match networks.last().rx_bytes {
                Some(n) => n,
                None => 0,
            },
        )
    }
}

/// The bytes sent over all networks; a network without a count adds nothing.
pub open spec fn sent(networks: Seq<NetworkReading>) -> u64
    decreases networks.len(),
{
    if networks.len() == 0 {
        0
    } else {
        plus(
            sent(networks.drop_last()),
            match networks.last().tx_bytes {
                Some(n) => n,
                None => 0,
            },
        )
    }
}

fn traffic(networks: &Vec<NetworkReading>) -> (out: (u64, u64))
    ensures
        out.0 == received(networks@),
        out.1 == sent(networks@),
{
    let mut rx: u64 = 0;
    let mut tx: u64 = 0;
    let mut i: usize = 0;
    while i < networks.len()
        invariant
            i <= networks.len(),
            rx == received(networks@.take(i as int)),
            tx == sent(networks@.take(i as int)),
        decreases networks.len() - i,
    {
        assert(networks@.take(i + 1).drop_last() =~= networks@.take(i as int));
        assert(networks@.take(i + 1).last() == networks@[i as int]);
        rx = rx.saturating_add(networks[i].rx_bytes.unwrap_or(0));
        tx = tx.saturating_add(networks[i].tx_bytes.unwrap_or(0));
        i += 1;
    }
    assert(networks@.take(networks.len() as int) =~= networks@);
    (rx, tx)
}

/// Whether a container of a listing is reported: it has an identifier, and the runtime gave
/// a report for it.
pub open spec fn is_reported(container: ContainerReading) -> bool {
    container.id is Some && container.stats is Some
}

/// The statistics of a reported container against the baselines `previous`.
pub open spec fn stats_of(container: ContainerReading, previous: Seq<(Seq<char>, CpuStats)>)
    -> ContainerModel {
    let report = container.stats->Some_0;
    let name = container_name_of(container);
    ContainerModel {
        name,
        cpu_usage: cpu_usage_of(report.cpu_stats, lookup(previous, name)).0,
        mem_usage_bytes: report.memory_usage,
        net_rx_bytes: match report.networks {
            Some(n) => Some(received(n@)),
            None => None,
        },
        net_tx_bytes: match report.networks {
            Some(n) => Some(sent(n@)),
            None => None,
        },
    }
}

/// The statistics of the reported containers among `containers`, in order.
pub open spec fn all_stats_of(
    containers: Seq<ContainerReading>,
    previous: Seq<(Seq<char>, CpuStats)>,
) -> Seq<ContainerModel>
    decreases containers.len(),
{
    if containers.len() == 0 {
        Seq::empty()
    } else if is_reported(containers.last()) {
        all_stats_of(containers.drop_last(), previous).push(stats_of(containers.last(), previous))
    } else {
        all_stats_of(containers.drop_last(), previous)
    }
}

/// The baselines that a cycle leaves for the next: the counters of every reported container
/// whose reading was complete, in order.
pub open spec fn next_baselines(
    containers: Seq<ContainerReading>,
    previous: Seq<(Seq<char>, CpuStats)>,
) -> Seq<(Seq<char>, CpuStats)>
    decreases containers.len(),
{
    if containers.len() == 0 {
        Seq::empty()
    } else {
        let rest = next_baselines(containers.drop_last(), previous);
        let c = containers.last();
        if is_reported(c) {
            let name = container_name_of(c);
            match cpu_usage_of(c.stats->Some_0.cpu_stats, lookup(previous, name)).1 {
                Some(m) => rest.push((name, m)),
                None => rest,
            }
        } else {
            rest
        }
    }
}

/// The container data source: it keeps the CPU counters of each container from one cycle to
/// the next.
#[derive(Debug)]
pub struct DockerClient {
    pub prev_cpu_stats: Vec<Baseline>,
}

impl DockerClient {
    pub fn new() -> (d: DockerClient)
        ensures
            d.prev_cpu_stats@.len() == 0,
    {
        DockerClient { prev_cpu_stats: Vec::new() }
    }

    /// The statistics of one cycle, from the listing `containers` taken at `now`. Containers
    /// without an identifier or without a report are left out. Afterwards the baselines are
    /// those of this cycle alone: a container that is gone leaves no baseline behind.
    pub fn docker_stats(&mut self, containers: &Vec<ContainerReading>, now: Timestamp) -> (stats:
        DockerStats)
        ensures
            stats.timestamp == now,
            stats.containers.deep_view() == all_stats_of(
                containers@,
                baselines(old(self).prev_cpu_stats@),
            ),
            baselines(final(self).prev_cpu_stats@) == next_baselines(
                containers@,
                baselines(old(self).prev_cpu_stats@),
            ),
    {
        let ghost previous = baselines(self.prev_cpu_stats@);
        let mut container_stats: Vec<ContainerStats> = Vec::new();
        let mut current: Vec<Baseline> = Vec::new();
        let mut i: usize = 0;
        assert(container_stats.deep_view() =~= all_stats_of(containers@.take(0), previous));
        assert(baselines(current@) =~= next_baselines(containers@.take(0), previous));
        while i < containers.len()
            invariant
                i <= containers.len(),
                previous == baselines(self.prev_cpu_stats@),
                container_stats.deep_view() == all_stats_of(containers@.take(i as int), previous),
                baselines(current@) == next_baselines(containers@.take(i as int), previous),
            decreases containers.len() - i,
        {
            let container = &containers[i];
            assert(containers@.take(i + 1).drop_last() =~= containers@.take(i as int));
            assert(containers@.take(i + 1).last() == *container);
            i += 1;
            if container.id.is_none() {
                continue ;
            }
            let report = match &container.stats {
                Some(r) => r,
                None => {
                    continue ;
                },
            };
            let name = container_name(container);
            let (usage, measurement) = cpu_usage(
                name.as_str(),
                report.cpu_stats.as_ref(),
                &self.prev_cpu_stats,
            );
            if let Some(m) = measurement {
                let ghost before = baselines(current@);
                current.push(Baseline { name: name.clone(), stats: m });
                assert(baselines(current@) =~= before.push((name@, m)));
            }
            let (rx, tx) = match &report.networks {
                Some(n) => {
                    let (rx, tx) = traffic(n);
                    (Some(rx), Some(tx))
                },
                None => (None, None),
            };
            let ghost before = container_stats.deep_view();
            let entry = ContainerStats {
                name,
                cpu_usage: usage,
                mem_usage_bytes: report.memory_usage,
                net_rx_bytes: rx,
                net_tx_bytes: tx,
            };
            container_stats.push(entry);
            assert(container_stats.deep_view() =~= before.push(entry.deep_view()));
        }
        assert(containers@.take(containers.len() as int) =~= containers@);
        self.prev_cpu_stats = current;
        DockerStats { timestamp: now, containers: container_stats }
    }
}

} // verus!
