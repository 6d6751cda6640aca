//! The series of main memory and swap space.
use crate::metrics::util::{
    accepted, described, maybe, maybe_gauge, whole, Desc, DescModel, FamilyModel, InvalidDesc,
    LabelPair, MetricFamily, MetricType,
};
use crate::number::Ratio;
use crate::domain::Metric;
use vstd::prelude::*;

verus! {

#[derive(Clone, Copy, Debug, PartialEq, Eq, Structural)]
pub struct Config {
    pub enabled: bool,
    pub report_swap: bool,
}

impl Default for Config {
    fn default() -> (c: Config)
        ensures
            c.enabled,
            !c.report_swap,
    {
        Config { enabled: true, report_swap: false }
    }
}

/// Swap space, in bytes.
#[derive(Clone, Copy, Debug, PartialEq, Eq, Structural)]
pub struct SwapStats {
    pub total: u64,
    pub used: u64,
    pub free: u64,
}

impl Default for SwapStats {
    fn default() -> (s: SwapStats)
        ensures
            s == (SwapStats { total: 0, used: 0, free: 0 }),
    {
        SwapStats { total: 0, used: 0, free: 0 }
    }
}

/// Main memory, in bytes.
#[derive(Clone, Copy, Debug, PartialEq, Eq, Structural)]
pub struct RamStats {
    pub total: u64,
    pub used: u64,
    pub free: u64,
    pub available: u64,
    pub buffers: u64,
    pub cache: u64,
}

impl Default for RamStats {
    fn default() -> (s: RamStats)
        ensures
            s == (RamStats { total: 0, used: 0, free: 0, available: 0, buffers: 0, cache: 0 }),
    {
        RamStats { total: 0, used: 0, free: 0, available: 0, buffers: 0, cache: 0 }
    }
}

/// A descriptor without labels.
pub open spec fn plain(fq_name: Seq<char>, help: Seq<char>) -> DescModel {
    described(fq_name, help, Seq::empty())
}

/// The descriptors of the swap series, in the order in which they are declared.
pub open spec fn swap_descriptors() -> Seq<DescModel> {
    seq![
        plain("system_swap_total_bytes"@, "Total amount of swap space available"@),
        plain("system_swap_free_bytes"@, "Amount of swap space currently unused"@),
        plain("system_swap_used_bytes"@, "Amount of swap space currently in use"@),
    ]
}

/// The descriptors of the memory series, in the order in which they are declared.
pub open spec fn ram_descriptors() -> Seq<DescModel> {
    seq![
        plain("system_memory_total_bytes"@, "Total physical RAM installed on the system"@),
        plain(
            "system_memory_used_bytes"@,
            "Amount of memory currently used by programs (Non-reclaimable)"@,
        ),
        plain(
            "system_memory_free_bytes"@,
            "Amount of memory that is completely unused (does not include cache/buffers)"@,
        ),
        plain(
            "system_memory_available_bytes"@,
            "Estimate of how much memory is available for starting new applications without swapping"@,
        ),
        plain(
            "system_memory_buffers_bytes"@,
            "Memory used by kernel buffers (metadata/raw block storage)"@,
        ),
        plain(
            "system_memory_cache_bytes"@,
            "Memory used by the page cache and reclaimable slab objects"@,
        ),
    ]
}

#[derive(Debug)]
pub struct SwapMetrics {
    pub total: Desc,
    pub free: Desc,
    pub used: Desc,
}

impl SwapMetrics {
    pub open spec fn models(&self) -> Seq<DescModel> {
        seq![self.total.deep_view(), self.free.deep_view(), self.used.deep_view()]
    }

    /// The descriptors, in the order in which they are declared.
    pub fn desc(&self) -> (d: Vec<&Desc>)
        ensures
            d.deep_view() == self.models(),
    {
        let mut d: Vec<&Desc> = Vec::new();
        d.push(&self.total);
        d.push(&self.free);
        d.push(&self.used);
        assert(d.deep_view() =~= self.models());
        d
    }

    /// Builds the descriptors; fails when the registry's rules refuse one of them.
    pub fn register() -> (r: Result<SwapMetrics, InvalidDesc>)
        ensures
            r is Ok <==> (forall|i: int| 0 <= i < 3 ==> accepted(#[trigger] swap_descriptors()[i])),
            r is Ok ==> r->Ok_0.models() == swap_descriptors(),
    {
        let ghost d = swap_descriptors();
        // Each descriptor is named once, so that the clauses about all of them apply to it.
        assert(d[0] == d[0] && d[1] == d[1] && d[2] == d[2]);
        let total = Desc::plain("system_swap_total_bytes", "Total amount of swap space available")?;
        let free = Desc::plain("system_swap_free_bytes", "Amount of swap space currently unused")?;
        let used = Desc::plain("system_swap_used_bytes", "Amount of swap space currently in use")?;
        let m = SwapMetrics { total, free, used };
        assert(m.models() =~= swap_descriptors());
        Ok(m)
    }

    /// The gauges of `stats`.
    pub open spec fn families(&self, stats: SwapStats) -> Seq<FamilyModel> {
        let l = Seq::<(Seq<char>, Seq<char>)>::empty();
        maybe(self.free.deep_view(), MetricType::Gauge, l, whole(Some(stats.free))) + maybe(
            self.used.deep_view(),
            MetricType::Gauge,
            l,
            whole(Some(stats.used)),
        ) + maybe(self.total.deep_view(), MetricType::Gauge, l, whole(Some(stats.total)))
    }
}

#[derive(Debug)]
pub struct RamMetrics {
    pub total: Desc,
    pub used: Desc,
    pub free: Desc,
    pub avail: Desc,
    pub buffers: Desc,
    pub cache: Desc,
}

impl RamMetrics {
    pub open spec fn models(&self) -> Seq<DescModel> {
        seq![
            self.total.deep_view(),
            self.used.deep_view(),
            self.free.deep_view(),
            self.avail.deep_view(),
            self.buffers.deep_view(),
            self.cache.deep_view(),
        ]
    }

    /// The descriptors, in the order in which they are declared.
    pub fn desc(&self) -> (d: Vec<&Desc>)
        ensures
            d.deep_view() == self.models(),
    {
        let mut d: Vec<&Desc> = Vec::new();
        d.push(&self.total);
        d.push(&self.used);
        d.push(&self.free);
        d.push(&self.avail);
        d.push(&self.buffers);
        d.push(&self.cache);
        assert(d.deep_view() =~= self.models());
        d
    }

    /// Builds the descriptors; fails when the registry's rules refuse one of them.
    pub fn register() -> (r: Result<RamMetrics, InvalidDesc>)
        ensures
            r is Ok <==> (forall|i: int| 0 <= i < 6 ==> accepted(#[trigger] ram_descriptors()[i])),
            r is Ok ==> r->Ok_0.models() == ram_descriptors(),
    {
        let ghost d = ram_descriptors();
        // Each descriptor is named once, so that the clauses about all of them apply to it.
        assert(d[0] == d[0] && d[1] == d[1] && d[2] == d[2] && d[3] == d[3] && d[4] == d[4] && d[5]
            == d[5]);
        let total = Desc::plain(
            "system_memory_total_bytes",
            "Total physical RAM installed on the system",
        )?;
        let used = Desc::plain(
            "system_memory_used_bytes",
            "Amount of memory currently used by programs (Non-reclaimable)",
        )?;
        let free = Desc::plain(
            "system_memory_free_bytes",
            "Amount of memory that is completely unused (does not include cache/buffers)",
        )?;
        let avail = Desc::plain(
            "system_memory_available_bytes",
            "Estimate of how much memory is available for starting new applications without swapping",
        )?;
        let buffers = Desc::plain(
            "system_memory_buffers_bytes",
            "Memory used by kernel buffers (metadata/raw block storage)",
        )?;
        let cache = Desc::plain(
            "system_memory_cache_bytes",
            "Memory used by the page cache and reclaimable slab objects",
        )?;
        let m = RamMetrics { total, used, free, avail, buffers, cache };
        assert(m.models() =~= ram_descriptors());
        Ok(m)
    }

    /// The gauges of `stats`.
    pub open spec fn families(&self, stats: RamStats) -> Seq<FamilyModel> {
        let l = Seq::<(Seq<char>, Seq<char>)>::empty();
        maybe(self.free.deep_view(), MetricType::Gauge, l, whole(Some(stats.free))) + maybe(
            self.used.deep_view(),
            MetricType::Gauge,
            l,
            whole(Some(stats.used)),
        ) + maybe(self.total.deep_view(), MetricType::Gauge, l, whole(Some(stats.total))) + maybe(
            self.avail.deep_view(),
            MetricType::Gauge,
            l,
            whole(Some(stats.available)),
        ) + maybe(self.buffers.deep_view(), MetricType::Gauge, l, whole(Some(stats.buffers)))
            + maybe(self.cache.deep_view(), MetricType::Gauge, l, whole(Some(stats.cache)))
    }
}

/// The memory probe as configured.
#[derive(Debug)]
pub struct MemoryUsage {
    pub config: Config,
}

impl Metric for MemoryUsage {
    open spec fn name_of(&self) -> Seq<char> {
        "memory-usage"@
    }

    open spec fn is_enabled(&self) -> bool {
        self.config.enabled
    }

    fn name(&self) -> (n: &'static str) {
        "memory-usage"
    }

    fn enabled(&self) -> (b: bool) {
        self.config.enabled
    }
}

impl MemoryUsage {
    pub fn new(config: Config) -> (m: MemoryUsage)
        ensures
            m.config == config,
    {
        MemoryUsage { config }
    }

    /// Decides at start-up what stands for this probe: nothing when it is disabled, and
    /// otherwise its collector, with the swap series only where they are asked for.
    pub fn register(self) -> (r: Result<Option<MemoryUsageCollector>, InvalidDesc>)
        ensures
            !self.config.enabled ==> r == Ok::<Option<MemoryUsageCollector>, InvalidDesc>(None),
            self.config.enabled ==> (r is Ok <==> registrable(self.config.report_swap)),
            self.config.enabled && r is Ok ==> ({
                &&& r->Ok_0 is Some
                &&& r->Ok_0->Some_0.ram_metrics.models() == ram_descriptors()
                &&& r->Ok_0->Some_0.swap_metrics is Some == self.config.report_swap
                &&& self.config.report_swap ==> r->Ok_0->Some_0.swap_metrics->Some_0.models()
                    == swap_descriptors()
                &&& r->Ok_0->Some_0.ram is None
                &&& r->Ok_0->Some_0.swap is None
            }),
    {
        if !self.config.enabled {
            return Ok(None);
        }
        proof {
            reveal(registrable);
        }
        let mut swap_metrics: Option<SwapMetrics> = None;
        if self.config.report_swap {
            swap_metrics = Some(SwapMetrics::register()?);
        }
        let ram_metrics = RamMetrics::register()?;
        Ok(Some(MemoryUsageCollector::new(ram_metrics, swap_metrics)))
    }
}

fn push_gauge(families: &mut Vec<MetricFamily>, desc: &Desc, value: u64)
    ensures
        final(families).deep_view() == old(families).deep_view() + maybe(
            desc.deep_view(),
            MetricType::Gauge,
            Seq::empty(),
            whole(Some(value)),
        ),
{
    let l: Vec<LabelPair> = Vec::new();
    assert(l.deep_view() =~= Seq::empty());
    maybe_gauge(families, desc, &l, Some(Ratio::whole(value)));
}

/// The state of the enabled memory probe: its descriptors and the last readings.
#[derive(Debug)]
pub struct MemoryUsageCollector {
    pub ram_metrics: RamMetrics,
    pub swap_metrics: Option<SwapMetrics>,
    pub ram: Option<RamStats>,
    pub swap: Option<SwapStats>,
}

impl MemoryUsageCollector {
    pub fn new(ram_metrics: RamMetrics, swap_metrics: Option<SwapMetrics>) -> (c:
        MemoryUsageCollector)
        ensures
            c.ram_metrics == ram_metrics,
            c.swap_metrics == swap_metrics,
            c.ram is None,
            c.swap is None,
    {
        MemoryUsageCollector { ram_metrics, swap_metrics, ram: None, swap: None }
    }

    /// Whether a cycle reads the swap space too.
    pub fn wants_swap(&self) -> (b: bool)
        ensures
            b == self.swap_metrics is Some,
    {
        self.swap_metrics.is_some()
    }

    /// Ends a cycle with the readings taken: the swap reading counts only where the swap
    /// series exist.
    pub fn collect(&mut self, swap: Option<SwapStats>, ram: RamStats)
        ensures
            final(self).ram == Some(ram),
            final(self).swap == if old(self).swap_metrics is Some && swap is Some {
                swap
            } else {
                old(self).swap
            },
            final(self).ram_metrics == old(self).ram_metrics,
            final(self).swap_metrics == old(self).swap_metrics,
    {
        if self.swap_metrics.is_some() && swap.is_some() {
            self.swap = swap;
        }
        self.ram = Some(ram);
    }

    /// What the stored readings come to.
    pub open spec fn families(&self) -> Seq<FamilyModel> {
        (match (self.swap_metrics, self.swap) {
            (Some(m), Some(s)) => m.families(s),
            _ => Seq::empty(),
        }) + (match self.ram {
            Some(r) => self.ram_metrics.families(r),
            None => Seq::empty(),
        })
    }

    /// The gauges of the stored readings: those of the swap space first, then those of main
    /// memory; nothing for what was never read.
    pub fn gather(&self) -> (mf: Vec<MetricFamily>)
        ensures
            mf.deep_view() == self.families(),
    {
        let mut mf: Vec<MetricFamily> = Vec::new();
        assert(mf.deep_view() =~= Seq::empty());
        match (&self.swap_metrics, self.swap) {
            (Some(m), Some(s)) => {
                push_gauge(&mut mf, &m.free, s.free);
                push_gauge(&mut mf, &m.used, s.used);
                push_gauge(&mut mf, &m.total, s.total);
                assert(mf.deep_view() =~= m.families(s));
            },
            _ => {},
        }
        let ghost first = mf.deep_view();
        match self.ram {
            Some(r) => {
                let m = &self.ram_metrics;
                push_gauge(&mut mf, &m.free, r.free);
                push_gauge(&mut mf, &m.used, r.used);
                push_gauge(&mut mf, &m.total, r.total);
                push_gauge(&mut mf, &m.avail, r.available);
                push_gauge(&mut mf, &m.buffers, r.buffers);
                push_gauge(&mut mf, &m.cache, r.cache);
                assert(mf.deep_view() =~= first + m.families(r));
            },
            None => {
                assert(mf.deep_view() =~= first + Seq::empty());
            },
        }
        mf
    }
}

/// Whether the registry takes every descriptor of this probe, those of the swap series
/// counted only where they are asked for.
#[verifier::opaque]
pub open spec fn registrable(report_swap: bool) -> bool {
    &&& forall|i: int| 0 <= i < 6 ==> accepted(#[trigger] ram_descriptors()[i])
    &&& report_swap ==> forall|i: int| 0 <= i < 3 ==> accepted(#[trigger] swap_descriptors()[i])
}

} // verus!
