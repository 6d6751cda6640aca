//! The series of the ZFS datasets.
use crate::domain::{collect_into, CollectError, Metric, stored_after, Timestamp, Timestamped};
use crate::metrics::util::{
    accepted, described, maybe, maybe_counter, whole, Desc, DescModel, FamilyModel, InvalidDesc,
    LabelPair, MetricFamily, MetricType,
};
use vstd::prelude::*;

verus! {

#[derive(Clone, Copy, Debug, PartialEq, Eq, Structural)]
pub struct Config {
    pub enabled: bool,
}

impl Default for Config {
    fn default() -> (c: Config)
        ensures
            c.enabled,
    {
        Config { enabled: true }
    }
}

/// The counters of one dataset since it was mounted.
#[derive(Debug)]
pub struct DatasetIoStats {
    pub pool: String,
    pub dataset: String,
    pub reads: u64,
    pub writes: u64,
    pub nread: u64,
    pub nwritten: u64,
}

pub struct DatasetIoModel {
    pub pool: Seq<char>,
    pub dataset: Seq<char>,
    pub reads: u64,
    pub writes: u64,
    pub nread: u64,
    pub nwritten: u64,
}

impl DeepView for DatasetIoStats {
    type V = DatasetIoModel;

    open spec fn deep_view(&self) -> DatasetIoModel {
        DatasetIoModel {
            pool: self.pool@,
            dataset: self.dataset@,
            reads: self.reads,
            writes: self.writes,
            nread: self.nread,
            nwritten: self.nwritten,
        }
    }
}

#[derive(Debug)]
pub struct ZfsIoStats {
    pub timestamp: Timestamp,
    pub datasets: Vec<DatasetIoStats>,
}

impl Timestamped for ZfsIoStats {
    open spec fn taken_at(&self) -> Timestamp {
        self.timestamp
    }

    fn timestamp(&self) -> (t: Timestamp) {
        self.timestamp
    }
}

/// The descriptors of the dataset series, in the order in which they are declared.
pub open spec fn descriptors() -> Seq<DescModel> {
    seq![
        described(
            "zfs_dataset_reads_total"@,
            "Total read operations"@,
            seq!["pool"@, "dataset"@],
        ),
        described(
            "zfs_dataset_writes_total"@,
            "Total write operations"@,
            seq!["pool"@, "dataset"@],
        ),
        described("zfs_dataset_read_bytes_total"@, "Total bytes read"@, seq!["pool"@, "dataset"@]),
        described(
            "zfs_dataset_written_bytes_total"@,
            "Total bytes written"@,
            seq!["pool"@, "dataset"@],
        ),
    ]
}

fn labelled(fq_name: &str, help: &str) -> (r: Result<Desc, InvalidDesc>)
    ensures
        r is Ok <==> accepted(described(fq_name@, help@, seq!["pool"@, "dataset"@])),
        r is Ok ==> r->Ok_0.deep_view() == described(fq_name@, help@, seq!["pool"@, "dataset"@]),
{
    let mut labels: Vec<String> = Vec::new();
    labels.push("pool".to_owned());
    labels.push("dataset".to_owned());
    assert(labels.deep_view() =~= seq!["pool"@, "dataset"@]);
    Desc::new(fq_name, help, labels)
}

#[derive(Debug)]
pub struct Metrics {
    pub reads: Desc,
    pub writes: Desc,
    pub nread: Desc,
    pub nwritten: Desc,
}

impl Metrics {
    pub open spec fn models(&self) -> Seq<DescModel> {
        seq![
            self.reads.deep_view(),
            self.writes.deep_view(),
            self.nread.deep_view(),
            self.nwritten.deep_view(),
        ]
    }

    /// The descriptors, in the order in which they are declared.
    pub fn desc(&self) -> (d: Vec<&Desc>)
        ensures
            d.deep_view() == self.models(),
    {
        let mut d: Vec<&Desc> = Vec::new();
        d.push(&self.reads);
        d.push(&self.writes);
        d.push(&self.nread);
        d.push(&self.nwritten);
        assert(d.deep_view() =~= self.models());
        d
    }

    /// Builds the descriptors; fails when the registry's rules refuse one of them.
    pub fn new() -> (r: Result<Metrics, InvalidDesc>)
        ensures
            r is Ok <==> (forall|i: int| 0 <= i < 4 ==> accepted(#[trigger] descriptors()[i])),
            r is Ok ==> r->Ok_0.models() == descriptors(),
    {
        let ghost d = descriptors();
        // Each descriptor is named once, so that the clauses about all of them apply to it.
        assert(d[0] == d[0] && d[1] == d[1] && d[2] == d[2] && d[3] == d[3]);
        let reads = labelled("zfs_dataset_reads_total", "Total read operations")?;
        let writes = labelled("zfs_dataset_writes_total", "Total write operations")?;
        let nread = labelled("zfs_dataset_read_bytes_total", "Total bytes read")?;
        let nwritten = labelled("zfs_dataset_written_bytes_total", "Total bytes written")?;
        let m = Metrics { reads, writes, nread, nwritten };
        assert(m.models() =~= descriptors());
        Ok(m)
    }

    /// The labels of a dataset.
    pub fn make_labels(&self, ds: &DatasetIoStats) -> (l: Vec<LabelPair>)
        ensures
            l.deep_view() == seq![("pool"@, ds.pool@), ("dataset"@, ds.dataset@)],
    {
        let mut l: Vec<LabelPair> = Vec::new();
        l.push(LabelPair::new("pool", ds.pool.as_str()));
        l.push(LabelPair::new("dataset", ds.dataset.as_str()));
        assert(l.deep_view() =~= seq![("pool"@, ds.pool@), ("dataset"@, ds.dataset@)]);
        l
    }

    /// The four families of one dataset.
    pub open spec fn families_of(&self, ds: DatasetIoStats) -> Seq<FamilyModel> {
        let l = seq![("pool"@, ds.pool@), ("dataset"@, ds.dataset@)];
        maybe(self.reads.deep_view(), MetricType::Counter, l, whole(Some(ds.reads))) + maybe(
            self.writes.deep_view(),
            MetricType::Counter,
            l,
            whole(Some(ds.writes)),
        ) + maybe(self.nread.deep_view(), MetricType::Counter, l, whole(Some(ds.nread))) + maybe(
            self.nwritten.deep_view(),
            MetricType::Counter,
            l,
            whole(Some(ds.nwritten)),
        )
    }

    /// The families of `datasets`, dataset after dataset.
    pub open spec fn families(&self, datasets: Seq<DatasetIoStats>) -> Seq<FamilyModel>
        decreases datasets.len(),
    {
        if datasets.len() == 0 {
            Seq::empty()
        } else {
            self.families(datasets.drop_last()) + self.families_of(datasets.last())
        }
    }

    /// The families of the stored measurement: none before the first measurement, and
    /// otherwise four counters for each dataset.
    pub fn collect(&self, state: &Option<ZfsIoStats>) -> (mf: Vec<MetricFamily>)
        ensures
            match *state {
                None => mf@.len() == 0,
                Some(stats) => mf.deep_view() == self.families(stats.datasets@),
            },
    {
        let mut mf: Vec<MetricFamily> = Vec::new();
        match state {
            None => {},
            Some(stats) => {
                let mut i: usize = 0;
                assert(mf.deep_view() =~= self.families(stats.datasets@.take(0)));
                while i < stats.datasets.len()
                    invariant
                        i <= stats.datasets.len(),
                        mf.deep_view() == self.families(stats.datasets@.take(i as int)),
                    decreases stats.datasets.len() - i,
                {
                    let ds = &stats.datasets[i];
                    let ghost all = stats.datasets@;
                    let ghost before = mf.deep_view();
                    assert(all.take(i + 1).drop_last() =~= all.take(i as int));
                    assert(all.take(i + 1).last() == *ds);
                    let l = self.make_labels(ds);
                    maybe_counter(&mut mf, &self.reads, &l, Some(ds.reads));
                    maybe_counter(&mut mf, &self.writes, &l, Some(ds.writes));
                    maybe_counter(&mut mf, &self.nread, &l, Some(ds.nread));
                    maybe_counter(&mut mf, &self.nwritten, &l, Some(ds.nwritten));
                    assert(mf.deep_view() =~= before + self.families_of(*ds));
                    i += 1;
                }
                assert(stats.datasets@.take(stats.datasets.len() as int) =~= stats.datasets@);
            },
        }
        mf
    }
}

/// The dataset probe as configured.
#[derive(Debug)]
pub struct ZfsDatasetIo {
    pub config: Config,
}

impl Metric for ZfsDatasetIo {
    open spec fn name_of(&self) -> Seq<char> {
        "zfs-dataset"@
    }

    open spec fn is_enabled(&self) -> bool {
        self.config.enabled
    }

    fn name(&self) -> (n: &'static str) {
        "zfs-dataset"
    }

    fn enabled(&self) -> (b: bool) {
        self.config.enabled
    }
}

impl ZfsDatasetIo {
    pub fn new(config: Config) -> (z: ZfsDatasetIo)
        ensures
            z.config == config,
    {
        ZfsDatasetIo { config }
    }

    /// Decides at start-up what stands for this probe: nothing when it is disabled, and
    /// otherwise its collector and its descriptors.
    pub fn register(self) -> (r: Result<Option<(ZfsDatasetIoCollector, Metrics)>, InvalidDesc>)
        ensures
            !self.config.enabled ==> r == Ok::<
                Option<(ZfsDatasetIoCollector, Metrics)>,
                InvalidDesc,
            >(None),
            self.config.enabled ==> (r is Ok <==> registrable()),
            self.config.enabled && r is Ok ==> r->Ok_0 is Some && r->Ok_0->Some_0.0.measurement
                is None && r->Ok_0->Some_0.1.models() == descriptors(),
    {
        if !self.config.enabled {
            return Ok(None);
        }
        proof {
            reveal(registrable);
        }
        let collector = ZfsDatasetIoCollector::new();
        let metrics = Metrics::new()?;
        Ok(Some((collector, metrics)))
    }
}

/// The state of the enabled dataset probe.
#[derive(Debug)]
pub struct ZfsDatasetIoCollector {
    pub measurement: Option<ZfsIoStats>,
}

impl ZfsDatasetIoCollector {
    pub fn new() -> (c: ZfsDatasetIoCollector)
        ensures
            c.measurement is None,
    {
        ZfsDatasetIoCollector { measurement: None }
    }

    pub fn measurements(&self) -> (m: &Option<ZfsIoStats>)
        ensures
            *m == self.measurement,
    {
        &self.measurement
    }

    /// Ends a cycle with what the data source delivered.
    pub fn collect(&mut self, outcome: Result<ZfsIoStats, CollectError>) -> (r: Result<
        (),
        CollectError,
    >)
        ensures
            match outcome {
                Ok(m) => r is Ok && final(self).measurement == stored_after(
                    old(self).measurement,
                    m,
                ),
                Err(e) => r == Err::<(), CollectError>(e) && *final(self) == *old(self),
            },
    {
        collect_into(&mut self.measurement, outcome)
    }
}

/// Whether the registry takes every descriptor of this probe.
#[verifier::opaque]
pub open spec fn registrable() -> bool {
    forall|i: int| 0 <= i < 4 ==> accepted(#[trigger] descriptors()[i])
}

} // verus!
