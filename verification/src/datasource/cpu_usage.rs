//! CPU time counters of `/proc/stat` and the shares computed from two readings of them.
use crate::domain::{CollectError, Timestamp};
use crate::metrics::cpu_usage::{CoreStats, CoreUsageStats, CpuUsageStats};
use crate::number::Ratio;
use crate::text::{
    chars_of, has_prefix, lines, parse_u64, parse_u64_of, split_lines, split_whitespace,
    starts_with, views, words,
};
use vstd::prelude::*;

verus! {

pub const PATH_PROC_STAT: &'static str = "/proc/stat";

/// The least time between the two readings of one sample, in nanoseconds.
pub const MIN_TIME_BETWEEN_MEASUREMENTS: u64 = 250_000_000;

pub const CPU_USER: usize = 0;

pub const CPU_NICE: usize = 1;

pub const CPU_SYSTEM: usize = 2;

pub const CPU_IDLE: usize = 3;

pub const CPU_IOWAIT: usize = 4;

pub const CPU_IRQ: usize = 5;

pub const CPU_SOFTIRQ: usize = 6;

pub const CPU_STEAL: usize = 7;

pub const CPU_GUEST: usize = 8;

pub const CPU_GUEST_NICE: usize = 9;

pub const CPU_STATS_COUNT: usize = 10;

/// The counters that make up the elapsed time are the first eight: the kernel counts guest
/// time inside user and nice time.
pub const CPU_TOTAL_COLUMNS: usize = 8;

/// The counter in column `idx` of a row whose whitespace-separated fields are `fields`: the
/// field after the row's label, read as a number, or zero when it is missing or no number.
pub open spec fn counter_at(fields: Seq<Seq<char>>, idx: int) -> u64 {
    if 0 <= idx && idx + 1 < fields.len() {
        match parse_u64_of(fields[idx + 1]) {
            Some(v) => v,
            None => 0,
        }
    } else {
        0
    }
}

/// The ten counters of one row.
pub open spec fn cpu_counters(line: Seq<char>) -> Seq<u64> {
    Seq::new(10, |idx: int| counter_at(words(line), idx))
}

pub open spec fn is_cpu_line(line: Seq<char>) -> bool {
    has_prefix(line, "cpu"@)
}

/// The counters of the rows among `lines` that start with `cpu`, in order.
pub open spec fn cpu_rows(lines: Seq<Seq<char>>) -> Seq<Seq<u64>>
    decreases lines.len(),
{
    if lines.len() == 0 {
        Seq::empty()
    } else if is_cpu_line(lines.last()) {
        cpu_rows(lines.drop_last()).push(cpu_counters(lines.last()))
    } else {
        cpu_rows(lines.drop_last())
    }
}

/// The views of the rows of a reading.
pub open spec fn rows_view(v: Seq<[u64; 10]>) -> Seq<Seq<u64>> {
    Seq::new(v.len(), |k: int| v[k]@)
}

fn parse_cpu_line(line: &[char]) -> (vals: [u64; 10])
    ensures
        vals@ == cpu_counters(line@),
{
    let fields = split_whitespace(line);
    let mut vals = [0u64;10];
    let mut idx: usize = 0;
    while idx < 10
        invariant
            idx <= 10,
            views(fields@) == words(line@),
            forall|j: int| 0 <= j < idx ==> vals@[j] == counter_at(words(line@), j),
        decreases 10 - idx,
    {
        let mut v: u64 = 0;
        if idx + 1 < fields.len() {
            assert(views(fields@)[idx + 1] == fields@[idx + 1]@);
            if let Some(n) = parse_u64(fields[idx + 1].as_slice()) {
                v = n;
            }
        }
        vals[idx] = v;
        idx += 1;
    }
    assert(vals@ =~= cpu_counters(line@));
    vals
}

/// Reads the text of `/proc/stat`: one row of ten counters for each line that starts with
/// `cpu`, the aggregate row first as the kernel writes it.
pub fn parse_proc_stat(content: &str) -> (rows: Vec<[u64; 10]>)
    ensures
        rows_view(rows@) == cpu_rows(lines(content@)),
{
    let chars = chars_of(content);
    let all = split_lines(chars.as_slice());
    let mut rows: Vec<[u64; 10]> = Vec::new();
    let mut i: usize = 0;
    assert(rows_view(rows@) =~= Seq::empty());
    while i < all.len()
        invariant
            i <= all.len(),
            views(all@) == lines(content@),
            rows_view(rows@) == cpu_rows(lines(content@).take(i as int)),
        decreases all.len() - i,
    {
        let ghost ls = lines(content@);
        assert(ls.take(i + 1).drop_last() =~= ls.take(i as int));
        assert(ls.take(i + 1).last() == all@[i as int]@);
        if starts_with(all[i].as_slice(), "cpu") {
            let vals = parse_cpu_line(all[i].as_slice());
            let ghost before = rows_view(rows@);
            rows.push(vals);
            assert(rows_view(rows@) =~= before.push(vals@));
        }
        i += 1;
    }
    assert(lines(content@).take(all.len() as int) =~= lines(content@));
    rows
}

/// Reading the same text twice gives the same rows: the reading depends on nothing but the
/// text.
pub proof fn lemma_parse_proc_stat_is_repeatable(
    content: &str,
    again: &str,
    first: Vec<[u64; 10]>,
    second: Vec<[u64; 10]>,
)
    requires
        content@ == again@,
        call_ensures(parse_proc_stat, (content,), first),
        call_ensures(parse_proc_stat, (again,), second),
    ensures
        first@ == second@,
{
    assert(rows_view(first@) == rows_view(second@));
    assert(first@.len() == rows_view(first@).len());
    assert(second@.len() == rows_view(second@).len());
    assert forall|k: int| 0 <= k < first@.len() implies first@[k] == second@[k] by {
        assert(rows_view(first@)[k] == first@[k]@);
        assert(rows_view(second@)[k] == second@[k]@);
        assert(first@[k]@ =~= second@[k]@);
    }
    assert(first@ =~= second@);
}

/// How far the counter in column `i` advanced from `prev` to `curr`; zero when it fell.
pub open spec fn delta_at(curr: Seq<u64>, prev: Seq<u64>, i: int) -> nat {
    if curr[i] >= prev[i] {
        (curr[i] - prev[i]) as nat
    } else {
        0
    }
}

/// The time that passed from `prev` to `curr`: the sum of the deltas of the first eight
/// columns.
pub open spec fn total_delta(curr: Seq<u64>, prev: Seq<u64>) -> nat {
    delta_at(curr, prev, 0) + delta_at(curr, prev, 1) + delta_at(curr, prev, 2) + delta_at(
        curr,
        prev,
        3,
    ) + delta_at(curr, prev, 4) + delta_at(curr, prev, 5) + delta_at(curr, prev, 6) + delta_at(
        curr,
        prev,
        7,
    )
}

/// The share of column `i` in the elapsed time.
pub open spec fn share(curr: Seq<u64>, prev: Seq<u64>, i: int) -> Ratio {
    Ratio { num: delta_at(curr, prev, i) as u128, den: total_delta(curr, prev) as u128 }
}

/// The share of each column in the elapsed time, or all zero when no time elapsed.
pub open spec fn breakdown_of(curr: Seq<u64>, prev: Seq<u64>) -> CoreStats {
    if total_delta(curr, prev) == 0 {
        CoreStats::zero()
    } else {
        CoreStats {
            user: share(curr, prev, 0),
            nice: share(curr, prev, 1),
            system: share(curr, prev, 2),
            idle: share(curr, prev, 3),
            iowait: share(curr, prev, 4),
            irq: share(curr, prev, 5),
            softirq: share(curr, prev, 6),
            steal: share(curr, prev, 7),
            guest: share(curr, prev, 8),
            guest_nice: share(curr, prev, 9),
        }
    }
}

/// The busy share: one less the idle share less the share spent waiting for I/O; zero when
/// no time elapsed.
pub open spec fn busy_of(curr: Seq<u64>, prev: Seq<u64>) -> Ratio {
    let total = total_delta(curr, prev);
    if total == 0 {
        Ratio { num: 0, den: 1 }
    } else {
        Ratio {
            num: (total - delta_at(curr, prev, 3) - delta_at(curr, prev, 4)) as u128,
            den: total as u128,
        }
    }
}

/// The busy share and the breakdown of the time between two readings of one row.
///
/// A counter that fell counts as not advanced, and an interval in which no counter of the
/// first eight advanced gives zero everywhere.
pub fn calculate_usage(curr: &[u64; 10], prev: &[u64; 10]) -> (out: (Ratio, CoreStats))
    ensures
        out.0 == busy_of(curr@, prev@),
        out.1 == breakdown_of(curr@, prev@),
        out.0.wf(),
        out.0.num <= out.0.den,
{
    let mut deltas = [0u64;10];
    let mut i: usize = 0;
    while i < CPU_STATS_COUNT
        invariant
            i <= 10,
            forall|j: int| 0 <= j < i ==> deltas@[j] == delta_at(curr@, prev@, j),
        decreases 10 - i,
    {
        deltas[i] = curr[i].saturating_sub(prev[i]);
        i += 1;
    }
    let total: u128 = deltas[0] as u128 + deltas[1] as u128 + deltas[2] as u128 + deltas[3] as u128
        + deltas[4] as u128 + deltas[5] as u128 + deltas[6] as u128 + deltas[7] as u128;
    assert(total == total_delta(curr@, prev@));
    if total == 0 {
        return (Ratio::zero(), CoreStats::default());
    }
    let times = CoreStats {
        user: Ratio::new(deltas[CPU_USER] as u128, total),
        nice: Ratio::new(deltas[CPU_NICE] as u128, total),
        system: Ratio::new(deltas[CPU_SYSTEM] as u128, total),
        idle: Ratio::new(deltas[CPU_IDLE] as u128, total),
        iowait: Ratio::new(deltas[CPU_IOWAIT] as u128, total),
        irq: Ratio::new(deltas[CPU_IRQ] as u128, total),
        softirq: Ratio::new(deltas[CPU_SOFTIRQ] as u128, total),
        steal: Ratio::new(deltas[CPU_STEAL] as u128, total),
        guest: Ratio::new(deltas[CPU_GUEST] as u128, total),
        guest_nice: Ratio::new(deltas[CPU_GUEST_NICE] as u128, total),
    };
    let busy = Ratio::new(total - deltas[CPU_IDLE] as u128 - deltas[CPU_IOWAIT] as u128, total);
    (busy, times)
}

/// The busy, idle and waiting shares make up the whole of an interval in which time passed,
/// and so do the shares of the first eight columns.
pub proof fn lemma_shares_make_a_whole(curr: Seq<u64>, prev: Seq<u64>)
    requires
        curr.len() == 10,
        prev.len() == 10,
        total_delta(curr, prev) > 0,
    ensures
        busy_of(curr, prev).num + breakdown_of(curr, prev).idle.num + breakdown_of(
            curr,
            prev,
        ).iowait.num == busy_of(curr, prev).den,
        ({
            let b = breakdown_of(curr, prev);
            b.user.num + b.nice.num + b.system.num + b.idle.num + b.iowait.num + b.irq.num
                + b.softirq.num + b.steal.num == b.user.den
        }),
{
}

/// A reading that is nowhere above its baseline gives a busy share of zero and a breakdown of
/// zeros: counters that were reset never show as load.
pub proof fn lemma_fallen_counters_give_zero(curr: Seq<u64>, prev: Seq<u64>)
    requires
        curr.len() == 10,
        prev.len() == 10,
        forall|i: int| 0 <= i < 10 ==> curr[i] <= prev[i],
    ensures
        busy_of(curr, prev) == (Ratio { num: 0, den: 1 }),
        breakdown_of(curr, prev) == CoreStats::zero(),
{
}


/// One raw reading of the counters and the time at which it was taken.
#[derive(Debug)]
pub struct Measurement {
    pub timestamp: Timestamp,
    pub rows: Vec<[u64; 10]>,
}

/// What a sample needs next.
#[derive(Clone, Copy, Debug, PartialEq, Eq, Structural)]
pub enum SampleStep {
    /// There is no baseline: read the counters now and take that reading as the baseline.
    Seed,
    /// The baseline is younger than the least interval: wait this many nanoseconds, then read.
    Wait(u64),
    /// The baseline is old enough: read the counters.
    Read,
}

/// The step that follows from a baseline taken at `baseline` when the clock shows `now`.
pub open spec fn step_after(baseline: Option<Timestamp>, now: Timestamp) -> SampleStep {
    match baseline {
        None => SampleStep::Seed,
        Some(t) => {
            let elapsed = if now.nanos >= t.nanos {
                now.nanos - t.nanos
            } else {
                0
            };
            if elapsed < MIN_TIME_BETWEEN_MEASUREMENTS {
                SampleStep::Wait((MIN_TIME_BETWEEN_MEASUREMENTS - elapsed) as u64)
            } else {
                SampleStep::Read
            }
        },
    }
}

/// The usage of core `k`, which is row `k + 1` of both readings.
pub open spec fn core_usage_of(curr: Seq<[u64; 10]>, prev: Seq<[u64; 10]>, k: int)
    -> CoreUsageStats {
    CoreUsageStats {
        core: k as usize,
        total_usage: busy_of(curr[k + 1]@, prev[k + 1]@),
        breakdown: breakdown_of(curr[k + 1]@, prev[k + 1]@),
    }
}

/// Whether `stats` is what the readings `prev` and `curr` give: the first row is the
/// aggregate over all cores, each further row one core.
pub open spec fn is_usage_of(stats: CpuUsageStats, curr: Seq<[u64; 10]>, prev: Seq<[u64; 10]>)
    -> bool {
    &&& stats.total_usage == busy_of(curr[0]@, prev[0]@)
    &&& stats.total_breakdown == breakdown_of(curr[0]@, prev[0]@)
    &&& stats.cores@ == Seq::new((curr.len() - 1) as nat, |k: int| core_usage_of(curr, prev, k))
}

fn copy_rows(rows: &Vec<[u64; 10]>) -> (out: Vec<[u64; 10]>)
    ensures
        out@ == rows@,
{
    let mut out: Vec<[u64; 10]> = Vec::new();
    let mut i: usize = 0;
    while i < rows.len()
        invariant
            i <= rows.len(),
            out@ == rows@.take(i as int),
        decreases rows.len() - i,
    {
        out.push(rows[i]);
        i += 1;
        assert(out@ =~= rows@.take(i as int));
    }
    assert(rows@.take(rows.len() as int) =~= rows@);
    out
}

/// The CPU usage sampler: it keeps the last raw reading as the baseline of the next sample.
///
/// The caller reads the counters and the clock and waits; this type decides. One sample runs
/// `baseline`, then `plan` (after a `Seed` with the fresh reading as the baseline), then
/// `complete`.
#[derive(Debug)]
pub struct CpuUsage {
    pub measurement: Option<Measurement>,
}

impl CpuUsage {
    pub fn new() -> (s: CpuUsage)
        ensures
            s.measurement is None,
    {
        CpuUsage { measurement: None }
    }

    /// A copy of the stored baseline.
    pub fn baseline(&self) -> (out: Option<Measurement>)
        ensures
            match (out, self.measurement) {
                (Some(o), Some(m)) => o.timestamp == m.timestamp && o.rows@ == m.rows@,
                (None, None) => true,
                _ => false,
            },
    {
        match &self.measurement {
            Some(m) => Some(Measurement { timestamp: m.timestamp, rows: copy_rows(&m.rows) }),
            None => None,
        }
    }

    /// Decides what to do with a baseline taken at `baseline`, if there is one, at time `now`.
    pub fn plan(baseline: Option<Timestamp>, now: Timestamp) -> (step: SampleStep)
        ensures
            step == step_after(baseline, now),
    {
        match baseline {
            None => SampleStep::Seed,
            Some(t) => {
                let elapsed = now.since(t);
                if elapsed < MIN_TIME_BETWEEN_MEASUREMENTS {
                    SampleStep::Wait(MIN_TIME_BETWEEN_MEASUREMENTS - elapsed)
                } else {
                    SampleStep::Read
                }
            },
        }
    }

    /// Ends a sample: `previous` is the baseline it started from, `current` the reading taken
    /// at `now`.
    ///
    /// Readings with different numbers of rows, or without rows, fail the sample and leave
    /// the stored baseline as it is. Otherwise `current` becomes the stored baseline,
    /// whatever the shares came to.
    pub fn complete(&mut self, previous: &Vec<[u64; 10]>, current: Vec<[u64; 10]>, now: Timestamp)
        -> (out: Result<CpuUsageStats, CollectError>)
        ensures
            previous.len() != current.len() ==> out == Err::<CpuUsageStats, CollectError>(
                CollectError::TopologyChanged { previous: previous.len(), current: current.len() },
            ) && *final(self) == *old(self),
            previous.len() == current.len() && current.len() == 0 ==> out == Err::<
                CpuUsageStats,
                CollectError,
            >(CollectError::EmptyReading) && *final(self) == *old(self),
            previous.len() == current.len() && current.len() > 0 ==> out is Ok && is_usage_of(
                out->Ok_0,
                current@,
                previous@,
            ) && final(self).measurement == Some(Measurement { timestamp: now, rows: current }),
    {
        if previous.len() != current.len() {
            return Err(
                CollectError::TopologyChanged { previous: previous.len(), current: current.len() },
            );
        }
        if current.len() == 0 {
            return Err(CollectError::EmptyReading);
        }
        let (total_usage, total_breakdown) = calculate_usage(&current[0], &previous[0]);
        let mut cores: Vec<CoreUsageStats> = Vec::new();
        let mut k: usize = 1;
        while k < current.len()
            invariant
                1 <= k <= current.len(),
                previous.len() == current.len(),
                cores@ == Seq::new((k - 1) as nat, |j: int| core_usage_of(current@, previous@, j)),
            decreases current.len() - k,
        {
            let (usage, breakdown) = calculate_usage(&current[k], &previous[k]);
            cores.push(CoreUsageStats { core: k - 1, total_usage: usage, breakdown });
            k += 1;
            assert(cores@ =~= Seq::new(
                (k - 1) as nat,
                |j: int| core_usage_of(current@, previous@, j),
            ));
        }
        self.measurement = Some(Measurement { timestamp: now, rows: current });
        Ok(CpuUsageStats { total_usage, total_breakdown, cores })
    }
}


} // verus!
