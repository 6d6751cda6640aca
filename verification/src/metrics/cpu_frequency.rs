//! The series of the CPU core frequencies.
use crate::domain::{CollectError, Metric};
use crate::metrics::util::{
    accepted, described, maybe_gauge, single, Desc, DescModel, FamilyModel, InvalidDesc,
    LabelPair, MetricFamily, MetricType,
};
use crate::number::Ratio;
use crate::text::{decimal_digits, decimal_string};
use vstd::prelude::*;

verus! {

#[derive(Clone, Copy, Debug, PartialEq, Eq, Structural)]
pub struct Config {
    pub enabled: bool,
}

impl Default for Config {
    fn default() -> (c: Config)
        ensures
            c.enabled,
    {
        Config { enabled: true }
    }
}

/// The frequency of each core in hertz, the cores in the order of their numbers.
#[derive(Debug)]
pub struct CpuFreqStats {
    pub cores: Vec<u64>,
}

/// The descriptor of the frequency series.
pub open spec fn descriptor() -> DescModel {
    described(
        "system_cpu_core_frequency_hertz"@,
        "Current frequency of the CPU core in Hertz"@,
        seq!["core"@],
    )
}

#[derive(Debug)]
pub struct Metrics {
    pub core_freq: Desc,
}

impl Metrics {
    /// Builds the descriptor; fails when the registry's rules refuse it.
    pub fn register() -> (r: Result<Metrics, InvalidDesc>)
        ensures
            r is Ok <==> accepted(descriptor()),
            r is Ok ==> r->Ok_0.core_freq.deep_view() == descriptor(),
    {
        let core_freq = Desc::with_label(
            "system_cpu_core_frequency_hertz",
            "Current frequency of the CPU core in Hertz",
            "core",
        )?;
        Ok(Metrics { core_freq })
    }

    /// The descriptor.
    pub fn desc(&self) -> (d: Vec<&Desc>)
        ensures
            d.deep_view() == seq![self.core_freq.deep_view()],
    {
        let mut d: Vec<&Desc> = Vec::new();
        d.push(&self.core_freq);
        assert(d.deep_view() =~= seq![self.core_freq.deep_view()]);
        d
    }

    /// The gauge of core `core`.
    pub open spec fn family_of(&self, core: int, frequency: u64) -> FamilyModel {
        single(
            self.core_freq.deep_view(),
            MetricType::Gauge,
            seq![("core"@, decimal_digits(core as nat))],
            Ratio { num: frequency as u128, den: 1 },
        )
    }

    /// One gauge for each core, labelled with the core's number.
    pub open spec fn families(&self, cores: Seq<u64>) -> Seq<FamilyModel> {
        Seq::new(cores.len(), |core: int| self.family_of(core, cores[core]))
    }
}

/// The frequency probe as configured.
#[derive(Debug)]
pub struct CpuFrequency {
    pub config: Config,
}

impl Metric for CpuFrequency {
    open spec fn name_of(&self) -> Seq<char> {
        "cpu-frequency"@
    }

    open spec fn is_enabled(&self) -> bool {
        self.config.enabled
    }

    fn name(&self) -> (n: &'static str) {
        "cpu-frequency"
    }

    fn enabled(&self) -> (b: bool) {
        self.config.enabled
    }
}

impl CpuFrequency {
    pub fn new(config: Config) -> (c: CpuFrequency)
        ensures
            c.config == config,
    {
        CpuFrequency { config }
    }

    /// Decides at start-up what stands for this probe: nothing when it is disabled, and
    /// otherwise its collector.
    pub fn register(self) -> (r: Result<Option<CpuFrequencyCollector>, InvalidDesc>)
        ensures
            !self.config.enabled ==> r == Ok::<Option<CpuFrequencyCollector>, InvalidDesc>(None),
            self.config.enabled ==> (r is Ok <==> registrable()),
            self.config.enabled && r is Ok ==> r->Ok_0 is Some && r->Ok_0->Some_0.last is None
                && r->Ok_0->Some_0.metrics.core_freq.deep_view() == descriptor(),
    {
        if !self.config.enabled {
            return Ok(None);
        }
        proof {
            reveal(registrable);
        }
        let metrics = Metrics::register()?;
        Ok(Some(CpuFrequencyCollector::new(metrics)))
    }
}

/// The state of the enabled frequency probe: its descriptor and the last reading.
#[derive(Debug)]
pub struct CpuFrequencyCollector {
    pub metrics: Metrics,
    pub last: Option<CpuFreqStats>,
}

impl CpuFrequencyCollector {
    pub fn new(metrics: Metrics) -> (c: CpuFrequencyCollector)
        ensures
            c.metrics == metrics,
            c.last is None,
    {
        CpuFrequencyCollector { metrics, last: None }
    }

    /// Ends a cycle with what the data source delivered: a reading takes the place of the
    /// last one; a failure is handed on and leaves the last reading visible.
    pub fn collect(&mut self, outcome: Result<CpuFreqStats, CollectError>) -> (r: Result<
        (),
        CollectError,
    >)
        ensures
            final(self).metrics == old(self).metrics,
            match outcome {
                Ok(m) => r is Ok && final(self).last == Some(m),
                Err(e) => r == Err::<(), CollectError>(e) && final(self).last == old(self).last,
            },
    {
        match outcome {
            Ok(m) => {
                self.last = Some(m);
                Ok(())
            },
            Err(e) => Err(e),
        }
    }

    /// The gauges of the last reading; none before the first reading.
    pub fn gather(&self) -> (mf: Vec<MetricFamily>)
        ensures
            match self.last {
                None => mf@.len() == 0,
                Some(stats) => mf.deep_view() == self.metrics.families(stats.cores@),
            },
    {
        let mut mf: Vec<MetricFamily> = Vec::new();
        match &self.last {
            None => {},
            Some(stats) => {
                let mut core: usize = 0;
                while core < stats.cores.len()
                    invariant
                        core <= stats.cores.len(),
                        mf.deep_view().len() == core,
                        forall|j: int|
                            0 <= j < core ==> mf.deep_view()[j] == self.metrics.family_of(
                                j,
                                stats.cores@[j],
                            ),
                    decreases stats.cores.len() - core,
                {
                    let label = decimal_string(core as u64);
                    let mut l: Vec<LabelPair> = Vec::new();
                    l.push(LabelPair::new("core", label.as_str()));
                    assert(l.deep_view() =~= seq![("core"@, label@)]);
                    let ghost before = mf.deep_view();
                    maybe_gauge(
                        &mut mf,
                        &self.metrics.core_freq,
                        &l,
                        Some(Ratio::whole(stats.cores[core])),
                    );
                    assert(mf.deep_view() =~= before.push(
                        self.metrics.family_of(core as int, stats.cores@[core as int]),
                    ));
                    core += 1;
                }
                assert(mf.deep_view() =~= self.metrics.families(stats.cores@));
            },
        }
        mf
    }
}

/// Whether the registry takes the descriptor of this probe.
#[verifier::opaque]
pub open spec fn registrable() -> bool {
    accepted(descriptor())
}

} // verus!
