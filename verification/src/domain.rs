//! The vocabulary shared by every probe: time, failures, and the collecting capability.
use vstd::prelude::*;

verus! {

/// A monotonic clock reading, in nanoseconds since an origin that the caller fixes.
#[derive(Clone, Copy, Debug, PartialEq, Eq, Structural)]
pub struct Timestamp {
    pub nanos: u64,
}

impl Timestamp {
    pub fn new(nanos: u64) -> (t: Timestamp)
        ensures
            t.nanos == nanos,
    {
        Timestamp { nanos }
    }

    /// The time from `earlier` to `self`, or zero when `earlier` is not earlier.
    pub fn since(&self, earlier: Timestamp) -> (elapsed: u64)
        ensures
            elapsed == if self.nanos >= earlier.nanos {
                self.nanos - earlier.nanos
            } else {
                0
            },
    {
        self.nanos.saturating_sub(earlier.nanos)
    }
}

/// Why one collection cycle of one probe failed.
#[derive(Debug)]
pub enum CollectError {
    /// A file, socket or subprocess could not be used; the text is what it reported.
    Source(String),
    /// Two readings of one rate sample hold different numbers of rows.
    TopologyChanged { previous: usize, current: usize },
    /// A reading holds no row at all.
    EmptyReading,
    /// No sensor of the probe's kind exists on this machine.
    NoSensors,
    /// A tool printed what is no document of the expected format.
    Malformed,
    /// A tool ended in failure, with this exit code if it had one.
    ToolFailed { code: Option<i32> },
}

/// The capability to run one collection cycle.
pub trait Collector {
    fn collect(&mut self) -> Result<(), CollectError>;
}

/// What every probe says of itself: the name under which its failures are reported, and
/// whether the configuration enables it.
pub trait Metric {
    spec fn name_of(&self) -> Seq<char>;

    spec fn is_enabled(&self) -> bool;

    fn name(&self) -> (n: &'static str)
        ensures
            n@ == self.name_of(),
    ;

    fn enabled(&self) -> (b: bool)
        ensures
            b == self.is_enabled(),
    ;
}

/// A measurement that knows when it was taken.
pub trait Timestamped {
    spec fn taken_at(&self) -> Timestamp;

    fn timestamp(&self) -> (t: Timestamp)
        ensures
            t == self.taken_at(),
    ;
}

/// The latest successfully collected measurement of one probe.
#[derive(Debug)]
pub struct Snapshot<T> {
    pub timestamp: Timestamp,
    pub payload: T,
}

impl<T> Timestamped for Snapshot<T> {
    open spec fn taken_at(&self) -> Timestamp {
        self.timestamp
    }

    fn timestamp(&self) -> (t: Timestamp) {
        self.timestamp
    }
}

/// Whether `incoming` takes the place of what `stored` holds: always in an empty slot, and
/// otherwise only when it is not older.
pub open spec fn replaces<T: Timestamped>(stored: Option<T>, incoming: T) -> bool {
    match stored {
        None => true,
        Some(s) => incoming.taken_at().nanos >= s.taken_at().nanos,
    }
}

/// What the slot holds after `incoming` was delivered to it.
pub open spec fn stored_after<T: Timestamped>(stored: Option<T>, incoming: T) -> Option<T> {
    if replaces(stored, incoming) {
        Some(incoming)
    } else {
        stored
    }
}

/// Delivers `incoming` to `slot`: it replaces the stored measurement unless it is older.
/// Returns whether it was stored.
pub fn update_measurement_if<T: Timestamped>(slot: &mut Option<T>, incoming: T) -> (stored: bool)
    ensures
        stored == replaces(*old(slot), incoming),
        *final(slot) == stored_after(*old(slot), incoming),
{
    let newer = match slot {
        None => true,
        Some(s) => incoming.timestamp().nanos >= s.timestamp().nanos,
    };
    if newer {
        *slot = Some(incoming);
    }
    newer
}

/// Ends a collection cycle: a measurement that the data source delivered goes to `slot`
/// under the rule of `update_measurement_if`; a failure is handed on and leaves `slot`
/// untouched, so that the measurement of an earlier cycle stays visible.
pub fn collect_into<T: Timestamped>(slot: &mut Option<T>, outcome: Result<T, CollectError>) -> (r:
    Result<(), CollectError>)
    ensures
        match outcome {
            Ok(m) => r is Ok && *final(slot) == stored_after(*old(slot), m),
            Err(e) => r == Err::<(), CollectError>(e) && *final(slot) == *old(slot),
        },
{
    match outcome {
        Ok(m) => {
            update_measurement_if(slot, m);
            Ok(())
        },
        Err(e) => Err(e),
    }
}

/// A slot never goes back in time: once it holds a measurement, delivering an older one
/// leaves that measurement in place.
pub proof fn lemma_older_measurement_is_dropped<T: Timestamped>(newer: T, older: T)
    requires
        older.taken_at().nanos < newer.taken_at().nanos,
    ensures
        stored_after(Some(newer), older) == Some(newer),
        forall|before: Option<T>|
            replaces(before, newer) ==> #[trigger] stored_after(stored_after(before, newer), older)
                == Some(newer),
{
}

/// The time of the stored measurement never decreases, whatever is delivered.
pub proof fn lemma_stored_time_never_decreases<T: Timestamped>(stored: T, incoming: T)
    ensures
        stored_after(Some(stored), incoming) is Some,
        stored_after(Some(stored), incoming)->Some_0.taken_at().nanos >= stored.taken_at().nanos,
{
}

/// Two measurements taken at different times leave the same one stored in whichever order
/// they complete.
pub proof fn lemma_delivery_order_is_irrelevant<T: Timestamped>(slot: Option<T>, a: T, b: T)
    requires
        a.taken_at().nanos != b.taken_at().nanos,
    ensures
        stored_after(stored_after(slot, a), b) == stored_after(stored_after(slot, b), a),
{
}


} // verus!
