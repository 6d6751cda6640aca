//! CPU time shares, overall and per core.
use crate::domain::{CollectError, Metric};
use crate::metrics::util::{
    accepted, described, maybe_gauge, single, Desc, DescModel, FamilyModel, InvalidDesc,
    LabelPair, MetricFamily, MetricType,
};
use crate::number::Ratio;
use crate::text::{decimal_digits, decimal_string};
use vstd::prelude::*;

verus! {

#[derive(Clone, Copy, Debug, PartialEq, Eq, Structural)]
pub struct Config {
    pub enabled: bool,
}

impl Default for Config {
    fn default() -> (c: Config)
        ensures
            c.enabled,
    {
        Config { enabled: true }
    }
}

/// The share of each kind of CPU time in the time that passed between two readings.
#[derive(Clone, Copy, Debug, PartialEq, Eq, Structural)]
pub struct CoreStats {
    pub user: Ratio,
    pub nice: Ratio,
    pub system: Ratio,
    pub idle: Ratio,
    pub iowait: Ratio,
    pub irq: Ratio,
    pub softirq: Ratio,
    pub steal: Ratio,
    pub guest: Ratio,
    pub guest_nice: Ratio,
}

impl CoreStats {
    /// Every share is zero.
    pub open spec fn zero() -> CoreStats {
        let z = Ratio { num: 0, den: 1 };
        CoreStats {
            user: z,
            nice: z,
            system: z,
            idle: z,
            iowait: z,
            irq: z,
            softirq: z,
            steal: z,
            guest: z,
            guest_nice: z,
        }
    }
}

impl Default for CoreStats {
    fn default() -> (s: CoreStats)
        ensures
            s == CoreStats::zero(),
    {
        let z = Ratio::zero();
        CoreStats {
            user: z,
            nice: z,
            system: z,
            idle: z,
            iowait: z,
            irq: z,
            softirq: z,
            steal: z,
            guest: z,
            guest_nice: z,
        }
    }
}

/// The usage of one core: `core` counts from zero.
#[derive(Clone, Copy, Debug, PartialEq, Eq, Structural)]
pub struct CoreUsageStats {
    pub core: usize,
    pub total_usage: Ratio,
    pub breakdown: CoreStats,
}

#[derive(Clone, Debug)]
pub struct CpuUsageStats {
    pub total_usage: Ratio,
    pub total_breakdown: CoreStats,
    pub cores: Vec<CoreUsageStats>,
}

/// The descriptors of the CPU series, in the order in which they are declared.
pub open spec fn descriptors() -> Seq<DescModel> {
    seq![
        described("system_cpu_usage_ratio"@, "Overall CPU usage ratio"@, Seq::empty()),
        described(
            "system_cpu_time_type_ratio"@,
            "Overall CPU time breakdown by type"@,
            seq!["type"@],
        ),
        described("system_cpu_core_usage_ratio"@, "Per-core CPU usage ratio"@, seq!["core"@]),
        described(
            "system_cpu_core_time_type_ratio"@,
            "Per-core CPU time breakdown by type"@,
            seq!["core"@, "type"@],
        ),
    ]
}

#[derive(Debug)]
pub struct Metrics {
    pub total_usage: Desc,
    pub total_breakdown: Desc,
    pub core_usage: Desc,
    pub core_breakdown: Desc,
}

/// The labels of one kind of time, of the core `core` or, without a core, of all cores.
pub open spec fn type_labels(core: Option<Seq<char>>, time_type: Seq<char>) -> Seq<
    (Seq<char>, Seq<char>),
> {
    match core {
        Some(c) => seq![("core"@, c), ("type"@, time_type)],
        None => seq![("type"@, time_type)],
    }
}

/// One gauge for each kind of time of `stats`.
pub open spec fn breakdown_families(desc: DescModel, stats: CoreStats, core: Option<Seq<char>>)
    -> Seq<FamilyModel> {
    seq![
        single(desc, MetricType::Gauge, type_labels(core, "user"@), stats.user),
        single(desc, MetricType::Gauge, type_labels(core, "nice"@), stats.nice),
        single(desc, MetricType::Gauge, type_labels(core, "system"@), stats.system),
        single(desc, MetricType::Gauge, type_labels(core, "idle"@), stats.idle),
        single(desc, MetricType::Gauge, type_labels(core, "iowait"@), stats.iowait),
        single(desc, MetricType::Gauge, type_labels(core, "irq"@), stats.irq),
        single(desc, MetricType::Gauge, type_labels(core, "softirq"@), stats.softirq),
        single(desc, MetricType::Gauge, type_labels(core, "steal"@), stats.steal),
        single(desc, MetricType::Gauge, type_labels(core, "guest"@), stats.guest),
        single(desc, MetricType::Gauge, type_labels(core, "guest_nice"@), stats.guest_nice),
    ]
}

impl Metrics {
    pub open spec fn models(&self) -> Seq<DescModel> {
        seq![
            self.total_usage.deep_view(),
            self.total_breakdown.deep_view(),
            self.core_usage.deep_view(),
            self.core_breakdown.deep_view(),
        ]
    }

    /// The descriptors, in the order in which they are declared.
    pub fn desc(&self) -> (d: Vec<&Desc>)
        ensures
            d.deep_view() == self.models(),
    {
        let mut d: Vec<&Desc> = Vec::new();
        d.push(&self.total_usage);
        d.push(&self.total_breakdown);
        d.push(&self.core_usage);
        d.push(&self.core_breakdown);
        assert(d.deep_view() =~= self.models());
        d
    }

    /// Builds the descriptors; fails when the registry's rules refuse one of them.
    pub fn register() -> (r: Result<Metrics, InvalidDesc>)
        ensures
            r is Ok <==> (forall|i: int| 0 <= i < 4 ==> accepted(#[trigger] descriptors()[i])),
            r is Ok ==> r->Ok_0.models() == descriptors(),
    {
        let ghost d = descriptors();
        // Each descriptor is named once, so that the clauses about all of them apply to it.
        assert(d[0] == d[0] && d[1] == d[1] && d[2] == d[2] && d[3] == d[3]);
        let total_usage = Desc::plain("system_cpu_usage_ratio", "Overall CPU usage ratio")?;
        let total_breakdown = Desc::with_label(
            "system_cpu_time_type_ratio",
            "Overall CPU time breakdown by type",
            "type",
        )?;
        let core_usage = Desc::with_label(
            "system_cpu_core_usage_ratio",
            "Per-core CPU usage ratio",
            "core",
        )?;
        let both: [&str; 2] = ["core", "type"];
        assert(crate::metrics::util::texts(both@) =~= seq!["core"@, "type"@]);
        let core_breakdown = Desc::with_labels(
            "system_cpu_core_time_type_ratio",
            "Per-core CPU time breakdown by type",
            &both,
        )?;
        let m = Metrics { total_usage, total_breakdown, core_usage, core_breakdown };
        assert(m.models() =~= descriptors());
        Ok(m)
    }

    /// The families of one core: its usage, then its breakdown. The core's label is its
    /// number in decimal notation.
    pub open spec fn core_families(&self, c: CoreUsageStats) -> Seq<FamilyModel> {
        let core = decimal_digits(c.core as nat);
        seq![
            single(self.core_usage.deep_view(), MetricType::Gauge, seq![("core"@, core)], c.total_usage),
        ] + breakdown_families(self.core_breakdown.deep_view(), c.breakdown, Some(core))
    }

    /// The families of `cores`, core after core.
    pub open spec fn cores_families(&self, cores: Seq<CoreUsageStats>) -> Seq<FamilyModel>
        decreases cores.len(),
    {
        if cores.len() == 0 {
            Seq::empty()
        } else {
            self.cores_families(cores.drop_last()) + self.core_families(cores.last())
        }
    }

    /// The families of `stats`: the overall usage, the overall breakdown, then the cores.
    pub open spec fn families(&self, stats: CpuUsageStats) -> Seq<FamilyModel> {
        seq![
            single(self.total_usage.deep_view(), MetricType::Gauge, Seq::empty(), stats.total_usage),
        ] + breakdown_families(self.total_breakdown.deep_view(), stats.total_breakdown, None)
            + self.cores_families(stats.cores@)
    }
}

/// The CPU usage probe as configured.
#[derive(Debug)]
pub struct CpuUsage {
    pub config: Config,
}

impl Metric for CpuUsage {
    open spec fn name_of(&self) -> Seq<char> {
        "cpu-usage"@
    }

    open spec fn is_enabled(&self) -> bool {
        self.config.enabled
    }

    fn name(&self) -> (n: &'static str) {
        "cpu-usage"
    }

    fn enabled(&self) -> (b: bool) {
        self.config.enabled
    }
}

impl CpuUsage {
    pub fn new(config: Config) -> (c: CpuUsage)
        ensures
            c.config == config,
    {
        CpuUsage { config }
    }

    /// Decides at start-up what stands for this probe: nothing when it is disabled, and
    /// otherwise its collector.
    pub fn register(self) -> (r: Result<Option<CpuUsageCollector>, InvalidDesc>)
        ensures
            !self.config.enabled ==> r == Ok::<Option<CpuUsageCollector>, InvalidDesc>(None),
            self.config.enabled ==> (r is Ok <==> registrable()),
            self.config.enabled && r is Ok ==> r->Ok_0 is Some && r->Ok_0->Some_0.last is None
                && r->Ok_0->Some_0.metrics.models() == descriptors(),
    {
        if !self.config.enabled {
            return Ok(None);
        }
        proof {
            reveal(registrable);
        }
        let metrics = Metrics::register()?;
        Ok(Some(CpuUsageCollector::new(metrics)))
    }
}

fn type_label(core_label: Option<&str>, time_type: &str) -> (l: Vec<LabelPair>)
    ensures
        l.deep_view() == type_labels(
            match core_label {
                Some(c) => Some(c@),
                None => None,
            },
            time_type@,
        ),
{
    let mut l: Vec<LabelPair> = Vec::new();
    match core_label {
        Some(c) => {
            l.push(LabelPair::new("core", c));
            l.push(LabelPair::new("type", time_type));
            assert(l.deep_view() =~= seq![("core"@, c@), ("type"@, time_type@)]);
        },
        None => {
            l.push(LabelPair::new("type", time_type));
            assert(l.deep_view() =~= seq![("type"@, time_type@)]);
        },
    }
    l
}

/// The state of the enabled CPU usage probe: its descriptors and the last sample.
#[derive(Debug)]
pub struct CpuUsageCollector {
    pub metrics: Metrics,
    pub last: Option<CpuUsageStats>,
}

impl CpuUsageCollector {
    pub fn new(metrics: Metrics) -> (c: CpuUsageCollector)
        ensures
            c.metrics == metrics,
            c.last is None,
    {
        CpuUsageCollector { metrics, last: None }
    }

    /// Adds one gauge of `desc` for each kind of time of `stats`.
    pub fn update_gauge(
        &self,
        families: &mut Vec<MetricFamily>,
        desc: &Desc,
        stats: &CoreStats,
        core_label: Option<&str>,
    )
        ensures
            final(families).deep_view() == old(families).deep_view() + breakdown_families(
                desc.deep_view(),
                *stats,
                match core_label {
                    Some(c) => Some(c@),
                    None => None,
                },
            ),
    {
        let ghost before = families.deep_view();
        maybe_gauge(families, desc, &type_label(core_label, "user"), Some(stats.user));
        maybe_gauge(families, desc, &type_label(core_label, "nice"), Some(stats.nice));
        maybe_gauge(families, desc, &type_label(core_label, "system"), Some(stats.system));
        maybe_gauge(families, desc, &type_label(core_label, "idle"), Some(stats.idle));
        maybe_gauge(families, desc, &type_label(core_label, "iowait"), Some(stats.iowait));
        maybe_gauge(families, desc, &type_label(core_label, "irq"), Some(stats.irq));
        maybe_gauge(families, desc, &type_label(core_label, "softirq"), Some(stats.softirq));
        maybe_gauge(families, desc, &type_label(core_label, "steal"), Some(stats.steal));
        maybe_gauge(families, desc, &type_label(core_label, "guest"), Some(stats.guest));
        maybe_gauge(families, desc, &type_label(core_label, "guest_nice"), Some(stats.guest_nice));
        assert(families.deep_view() =~= before + breakdown_families(
            desc.deep_view(),
            *stats,
            match core_label {
                Some(c) => Some(c@),
                None => None,
            },
        ));
    }

    /// Ends a cycle with what the sampler delivered: a sample takes the place of the last
    /// one; a failure is handed on and leaves the last sample visible.
    pub fn collect(&mut self, outcome: Result<CpuUsageStats, CollectError>) -> (r: Result<
        (),
        CollectError,
    >)
        ensures
            final(self).metrics == old(self).metrics,
            match outcome {
                Ok(m) => r is Ok && final(self).last == Some(m),
                Err(e) => r == Err::<(), CollectError>(e) && final(self).last == old(self).last,
            },
    {
        match outcome {
            Ok(m) => {
                self.last = Some(m);
                Ok(())
            },
            Err(e) => Err(e),
        }
    }

    /// The gauges of the last sample; none before the first sample.
    pub fn gather(&self) -> (mf: Vec<MetricFamily>)
        ensures
            match self.last {
                None => mf@.len() == 0,
                Some(stats) => mf.deep_view() == self.metrics.families(stats),
            },
    {
        let mut mf: Vec<MetricFamily> = Vec::new();
        match &self.last {
            None => {},
            Some(stats) => {
                let none: Vec<LabelPair> = Vec::new();
                assert(none.deep_view() =~= Seq::empty());
                assert(mf.deep_view() =~= Seq::empty());
                maybe_gauge(&mut mf, &self.metrics.total_usage, &none, Some(stats.total_usage));
                self.update_gauge(
                    &mut mf,
                    &self.metrics.total_breakdown,
                    &stats.total_breakdown,
                    None,
                );
                let ghost head = mf.deep_view();
                assert(head =~= seq![
                    single(
                        self.metrics.total_usage.deep_view(),
                        MetricType::Gauge,
                        Seq::empty(),
                        stats.total_usage,
                    ),
                ] + breakdown_families(
                    self.metrics.total_breakdown.deep_view(),
                    stats.total_breakdown,
                    None,
                ));
                let mut i: usize = 0;
                assert(mf.deep_view() =~= head + self.metrics.cores_families(stats.cores@.take(0)));
                while i < stats.cores.len()
                    invariant
                        i <= stats.cores.len(),
                        mf.deep_view() == head + self.metrics.cores_families(
                            stats.cores@.take(i as int),
                        ),
                    decreases stats.cores.len() - i,
                {
                    let c = &stats.cores[i];
                    let ghost all = stats.cores@;
                    let ghost before = mf.deep_view();
                    assert(all.take(i + 1).drop_last() =~= all.take(i as int));
                    assert(all.take(i + 1).last() == *c);
                    let core_label = decimal_string(c.core as u64);
                    let mut l: Vec<LabelPair> = Vec::new();
                    l.push(LabelPair::new("core", core_label.as_str()));
                    assert(l.deep_view() =~= seq![("core"@, core_label@)]);
                    maybe_gauge(&mut mf, &self.metrics.core_usage, &l, Some(c.total_usage));
                    self.update_gauge(
                        &mut mf,
                        &self.metrics.core_breakdown,
                        &c.breakdown,
                        Some(core_label.as_str()),
                    );
                    assert(mf.deep_view() =~= before + self.metrics.core_families(*c));
                    i += 1;
                }
                assert(stats.cores@.take(stats.cores.len() as int) =~= stats.cores@);
            },
        }
        mf
    }
}


/// Whether the registry takes every descriptor of this probe.
#[verifier::opaque]
pub open spec fn registrable() -> bool {
    forall|i: int| 0 <= i < 4 ==> accepted(#[trigger] descriptors()[i])
}

} // verus!
