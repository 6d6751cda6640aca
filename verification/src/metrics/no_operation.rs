//! What stands for a probe that is disabled.
use crate::domain::{CollectError, Collector};
use crate::metrics::util::MetricFamily;
use vstd::prelude::*;

verus! {

/// The collector of a disabled probe: it always succeeds and never emits anything. It is
/// chosen when the probes are put together, so that no cycle has to ask whether a probe is
/// enabled.
#[derive(Clone, Copy, Debug, PartialEq, Eq, Structural)]
pub struct NoOpCollector {}

impl NoOpCollector {
    pub fn new() -> (c: NoOpCollector) {
        NoOpCollector {  }
    }

    /// The families of a disabled probe: none.
    pub fn gather(&self) -> (mf: Vec<MetricFamily>)
        ensures
            mf@.len() == 0,
    {
        Vec::new()
    }
}

impl Default for NoOpCollector {
    fn default() -> (c: NoOpCollector) {
        NoOpCollector {  }
    }
}

impl Collector for NoOpCollector {
    fn collect(&mut self) -> (r: Result<(), CollectError>)
        ensures
            r is Ok,
            *final(self) == *old(self),
    {
        Ok(())
    }
}

} // verus!
