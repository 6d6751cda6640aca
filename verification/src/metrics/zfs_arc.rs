//! The series of the ZFS adaptive replacement cache.
use crate::domain::{collect_into, CollectError, Metric, stored_after, Timestamp, Timestamped};
use crate::metrics::memory_usage::plain;
use crate::metrics::util::{
    accepted, maybe, maybe_counter, maybe_gauge, whole, Desc, DescModel, FamilyModel, InvalidDesc,
    LabelPair, MetricFamily, MetricType,
};
use crate::number::Ratio;
use vstd::prelude::*;

verus! {

#[derive(Clone, Copy, Debug, PartialEq, Eq, Structural)]
pub struct Config {
    pub enabled: bool,
}

impl Default for Config {
    fn default() -> (c: Config)
        ensures
            c.enabled,
    {
        Config { enabled: true }
    }
}

/// The cache's counters and sizes, the sizes in bytes.
#[derive(Clone, Copy, Debug, PartialEq, Eq, Structural)]
pub struct ArcStats {
    pub timestamp: Timestamp,
    pub hits: u64,
    pub misses: u64,
    pub size: u64,
    pub target_size: u64,
    pub max_size: u64,
}

impl Timestamped for ArcStats {
    open spec fn taken_at(&self) -> Timestamp {
        self.timestamp
    }

    fn timestamp(&self) -> (t: Timestamp) {
        self.timestamp
    }
}

/// The descriptors of the cache series, in the order in which they are declared.
pub open spec fn descriptors() -> Seq<DescModel> {
    seq![
        plain("zfs_arc_hits_total"@, "Total ARC hits"@),
        plain("zfs_arc_misses_total"@, "Total ARC misses"@),
        plain("zfs_arc_size_bytes"@, "Current size of ARC"@),
        plain("zfs_arc_target_size_bytes"@, "Target size of ARC"@),
        plain("zfs_arc_max_size_bytes"@, "Maximum size of ARC"@),
    ]
}

#[derive(Debug)]
pub struct Metrics {
    pub hits: Desc,
    pub misses: Desc,
    pub size: Desc,
    pub target_size: Desc,
    pub max_size: Desc,
}

impl Metrics {
    pub open spec fn models(&self) -> Seq<DescModel> {
        seq![
            self.hits.deep_view(),
            self.misses.deep_view(),
            self.size.deep_view(),
            self.target_size.deep_view(),
            self.max_size.deep_view(),
        ]
    }

    /// The descriptors, in the order in which they are declared.
    pub fn desc(&self) -> (d: Vec<&Desc>)
        ensures
            d.deep_view() == self.models(),
    {
        let mut d: Vec<&Desc> = Vec::new();
        d.push(&self.hits);
        d.push(&self.misses);
        d.push(&self.size);
        d.push(&self.target_size);
        d.push(&self.max_size);
        assert(d.deep_view() =~= self.models());
        d
    }

    /// Builds the descriptors; fails when the registry's rules refuse one of them.
    pub fn new() -> (r: Result<Metrics, InvalidDesc>)
        ensures
            r is Ok <==> (forall|i: int| 0 <= i < 5 ==> accepted(#[trigger] descriptors()[i])),
            r is Ok ==> r->Ok_0.models() == descriptors(),
    {
        let ghost d = descriptors();
        // Each descriptor is named once, so that the clauses about all of them apply to it.
        assert(d[0] == d[0] && d[1] == d[1] && d[2] == d[2] && d[3] == d[3] && d[4] == d[4]);
        let hits = Desc::plain("zfs_arc_hits_total", "Total ARC hits")?;
        let misses = Desc::plain("zfs_arc_misses_total", "Total ARC misses")?;
        let size = Desc::plain("zfs_arc_size_bytes", "Current size of ARC")?;
        let target_size = Desc::plain("zfs_arc_target_size_bytes", "Target size of ARC")?;
        let max_size = Desc::plain("zfs_arc_max_size_bytes", "Maximum size of ARC")?;
        let m = Metrics { hits, misses, size, target_size, max_size };
        assert(m.models() =~= descriptors());
        Ok(m)
    }

    /// The families of `stats`: two counters and three gauges, none of them labelled.
    pub open spec fn families(&self, stats: ArcStats) -> Seq<FamilyModel> {
        let l = Seq::<(Seq<char>, Seq<char>)>::empty();
        maybe(self.hits.deep_view(), MetricType::Counter, l, whole(Some(stats.hits))) + maybe(
            self.misses.deep_view(),
            MetricType::Counter,
            l,
            whole(Some(stats.misses)),
        ) + maybe(self.size.deep_view(), MetricType::Gauge, l, whole(Some(stats.size))) + maybe(
            self.target_size.deep_view(),
            MetricType::Gauge,
            l,
            whole(Some(stats.target_size)),
        ) + maybe(self.max_size.deep_view(), MetricType::Gauge, l, whole(Some(stats.max_size)))
    }

    /// The families of the stored measurement: none before the first measurement.
    pub fn collect(&self, state: &Option<ArcStats>) -> (mf: Vec<MetricFamily>)
        ensures
            match *state {
                None => mf@.len() == 0,
                Some(stats) => mf.deep_view() == self.families(stats),
            },
    {
        let mut mf: Vec<MetricFamily> = Vec::new();
        match state {
            None => {},
            Some(stats) => {
                let l: Vec<LabelPair> = Vec::new();
                assert(l.deep_view() =~= Seq::empty());
                assert(mf.deep_view() =~= Seq::empty());
                maybe_counter(&mut mf, &self.hits, &l, Some(stats.hits));
                maybe_counter(&mut mf, &self.misses, &l, Some(stats.misses));
                maybe_gauge(&mut mf, &self.size, &l, Some(Ratio::whole(stats.size)));
                maybe_gauge(&mut mf, &self.target_size, &l, Some(Ratio::whole(stats.target_size)));
                maybe_gauge(&mut mf, &self.max_size, &l, Some(Ratio::whole(stats.max_size)));
                assert(mf.deep_view() =~= self.families(*stats));
            },
        }
        mf
    }
}

/// The cache probe as configured.
#[derive(Debug)]
pub struct ZfsArc {
    pub config: Config,
}

impl Metric for ZfsArc {
    open spec fn name_of(&self) -> Seq<char> {
        "zfs-arc"@
    }

    open spec fn is_enabled(&self) -> bool {
        self.config.enabled
    }

    fn name(&self) -> (n: &'static str) {
        "zfs-arc"
    }

    fn enabled(&self) -> (b: bool) {
        self.config.enabled
    }
}

impl ZfsArc {
    pub fn new(config: Config) -> (z: ZfsArc)
        ensures
            z.config == config,
    {
        ZfsArc { config }
    }

    /// Decides at start-up what stands for this probe: nothing when it is disabled, and
    /// otherwise its collector and its descriptors.
    pub fn register(self) -> (r: Result<Option<(ZfsCollector, Metrics)>, InvalidDesc>)
        ensures
            !self.config.enabled ==> r == Ok::<Option<(ZfsCollector, Metrics)>, InvalidDesc>(None),
            self.config.enabled ==> (r is Ok <==> registrable()),
            self.config.enabled && r is Ok ==> r->Ok_0 is Some && r->Ok_0->Some_0.0.measurement
                is None && r->Ok_0->Some_0.1.models() == descriptors(),
    {
        if !self.config.enabled {
            return Ok(None);
        }
        proof {
            reveal(registrable);
        }
        let collector = ZfsCollector::new();
        let metrics = Metrics::new()?;
        Ok(Some((collector, metrics)))
    }
}

/// The state of the enabled cache probe: the measurement of the last cycle that succeeded.
#[derive(Debug)]
pub struct ZfsCollector {
    pub measurement: Option<ArcStats>,
}

impl ZfsCollector {
    pub fn new() -> (c: ZfsCollector)
        ensures
            c.measurement is None,
    {
        ZfsCollector { measurement: None }
    }

    pub fn measurements(&self) -> (m: &Option<ArcStats>)
        ensures
            *m == self.measurement,
    {
        &self.measurement
    }

    /// Ends a cycle with what the data source delivered.
    pub fn collect(&mut self, outcome: Result<ArcStats, CollectError>) -> (r: Result<
        (),
        CollectError,
    >)
        ensures
            match outcome {
                Ok(m) => r is Ok && final(self).measurement == stored_after(
                    old(self).measurement,
                    m,
                ),
                Err(e) => r == Err::<(), CollectError>(e) && *final(self) == *old(self),
            },
    {
        collect_into(&mut self.measurement, outcome)
    }
}

/// Whether the registry takes every descriptor of this probe.
#[verifier::opaque]
pub open spec fn registrable() -> bool {
    forall|i: int| 0 <= i < 5 ==> accepted(#[trigger] descriptors()[i])
}

} // verus!
