//! The time-to-live rule in front of the probes: it lets one refresh start per window.
use crate::domain::Timestamp;
use vstd::prelude::*;

verus! {

/// The default time to live of a refresh: one second, in nanoseconds.
pub const DEFAULT_TTL: u64 = 1_000_000_000;

/// When the last refresh began; `None` until the first one, so that the first request
/// always refreshes.
#[derive(Clone, Copy, Debug, PartialEq, Eq, Structural)]
pub struct ScrapeCacheState {
    pub last_refresh: Option<Timestamp>,
}

/// What one request does before it renders.
#[derive(Clone, Copy, Debug, PartialEq, Eq, Structural)]
pub enum ScrapeDecision {
    /// Run every probe's collection, then render.
    Refresh,
    /// Render what the probes hold.
    ServeCached,
}

/// Whether a refresh that began at `last` is older than `ttl` at `now`.
pub open spec fn is_stale(state: ScrapeCacheState, ttl: u64, now: Timestamp) -> bool {
    match state.last_refresh {
        None => true,
        Some(last) => now.nanos > last.nanos && now.nanos - last.nanos > ttl,
    }
}

/// The decision of a request at `now`. `state` is `None` when the request could not take the
/// lock on the state at once, because another request holds it.
pub open spec fn decision_of(state: Option<ScrapeCacheState>, ttl: u64, now: Timestamp)
    -> ScrapeDecision {
    match state {
        Some(s) if is_stale(s, ttl, now) => ScrapeDecision::Refresh,
        _ => ScrapeDecision::ServeCached,
    }
}

/// The state that a request which held the lock leaves behind.
pub open spec fn state_after(state: ScrapeCacheState, ttl: u64, now: Timestamp)
    -> ScrapeCacheState {
    if is_stale(state, ttl, now) {
        ScrapeCacheState { last_refresh: Some(now) }
    } else {
        state
    }
}

impl ScrapeCacheState {
    pub fn new() -> (s: ScrapeCacheState)
        ensures
            s.last_refresh is None,
    {
        ScrapeCacheState { last_refresh: None }
    }
}

/// The coordinator of all scrape requests.
#[derive(Clone, Copy, Debug, PartialEq, Eq, Structural)]
pub struct ScrapeCoordinator {
    pub ttl: u64,
    pub cache: ScrapeCacheState,
}

impl ScrapeCoordinator {
    pub fn new(ttl: u64) -> (c: ScrapeCoordinator)
        ensures
            c.ttl == ttl,
            c.cache.last_refresh is None,
    {
        ScrapeCoordinator { ttl, cache: ScrapeCacheState::new() }
    }

    /// The decision of a request that could not take the lock: it never waits for the
    /// refresh in flight.
    pub fn lock_unavailable() -> (d: ScrapeDecision)
        ensures
            d == decision_of(None, 0, Timestamp { nanos: 0 }),
            d == ScrapeDecision::ServeCached,
    {
        ScrapeDecision::ServeCached
    }

    /// The decision of a request that holds the lock at `now`. A refresh is recorded as
    /// begun at once, before any probe has run, so that requests arriving while it runs do
    /// not start another.
    pub fn on_request(&mut self, now: Timestamp) -> (d: ScrapeDecision)
        ensures
            d == decision_of(Some(old(self).cache), old(self).ttl, now),
            final(self).cache == state_after(old(self).cache, old(self).ttl, now),
            final(self).ttl == old(self).ttl,
    {
        let stale = match self.cache.last_refresh {
            None => true,
            Some(last) => now.nanos > last.nanos && now.nanos - last.nanos > self.ttl,
        };
        if stale {
            self.cache.last_refresh = Some(now);
            ScrapeDecision::Refresh
        } else {
            ScrapeDecision::ServeCached
        }
    }
}

/// The decisions of requests that hold the lock one after the other at the times `times`,
/// starting from `state`.
pub open spec fn decisions(state: ScrapeCacheState, ttl: u64, times: Seq<Timestamp>) -> Seq<
    ScrapeDecision,
>
    decreases times.len(),
{
    if times.len() == 0 {
        Seq::empty()
    } else {
        seq![decision_of(Some(state), ttl, times[0])] + decisions(
            state_after(state, ttl, times[0]),
            ttl,
            times.drop_first(),
        )
    }
}

/// The first request after start-up refreshes.
pub proof fn lemma_first_request_refreshes(ttl: u64, now: Timestamp)
    ensures
        decision_of(Some(ScrapeCacheState { last_refresh: None }), ttl, now)
            == ScrapeDecision::Refresh,
{
}

/// A request that arrives within the time to live of a refresh does not refresh again.
pub proof fn lemma_request_within_ttl_is_served_from_cache(
    state: ScrapeCacheState,
    ttl: u64,
    first: Timestamp,
    second: Timestamp,
)
    requires
        decision_of(Some(state), ttl, first) == ScrapeDecision::Refresh,
        first.nanos <= second.nanos <= first.nanos + ttl,
    ensures
        decision_of(Some(state_after(state, ttl, first)), ttl, second)
            == ScrapeDecision::ServeCached,
        state_after(state_after(state, ttl, first), ttl, second) == state_after(state, ttl, first),
{
}

/// Among requests that arrive in the order of their times, any two that refresh lie more
/// than the time to live apart: at most one refresh begins per window.
pub proof fn lemma_refreshes_are_a_ttl_apart(
    state: ScrapeCacheState,
    ttl: u64,
    times: Seq<Timestamp>,
    i: int,
    j: int,
)
    requires
        forall|a: int, b: int| 0 <= a <= b < times.len() ==> times[a].nanos <= times[b].nanos,
        state.last_refresh is Some ==> times.len() > 0 ==> state.last_refresh->Some_0.nanos
            <= times[0].nanos,
        0 <= i < j < times.len(),
        decisions(state, ttl, times)[i] == ScrapeDecision::Refresh,
        decisions(state, ttl, times)[j] == ScrapeDecision::Refresh,
    ensures
        times[j].nanos - times[i].nanos > ttl,
    decreases times.len(),
{
    lemma_decisions_len(state, ttl, times);
    let rest = times.drop_first();
    let next = state_after(state, ttl, times[0]);
    lemma_decisions_len(next, ttl, rest);
    assert forall|a: int, b: int| 0 <= a <= b < rest.len() implies rest[a].nanos
        <= rest[b].nanos by {
        assert(rest[a] == times[a + 1]);
        assert(rest[b] == times[b + 1]);
    }
    if i == 0 {
        assert(next.last_refresh == Some(times[0]));
        lemma_refresh_is_after_last(next, ttl, rest, j - 1);
    } else {
        assert(decisions(state, ttl, times)[i] == decisions(next, ttl, rest)[i - 1]);
        assert(decisions(state, ttl, times)[j] == decisions(next, ttl, rest)[j - 1]);
        lemma_refreshes_are_a_ttl_apart(next, ttl, rest, i - 1, j - 1);
    }
}

pub proof fn lemma_decisions_len(state: ScrapeCacheState, ttl: u64, times: Seq<Timestamp>)
    ensures
        decisions(state, ttl, times).len() == times.len(),
    decreases times.len(),
{
    if times.len() > 0 {
        lemma_decisions_len(state_after(state, ttl, times[0]), ttl, times.drop_first());
    }
}

/// A request that refreshes lies more than the time to live after the refresh that the
/// state records.
pub proof fn lemma_refresh_is_after_last(
    state: ScrapeCacheState,
    ttl: u64,
    times: Seq<Timestamp>,
    j: int,
)
    requires
        forall|a: int, b: int| 0 <= a <= b < times.len() ==> times[a].nanos <= times[b].nanos,
        state.last_refresh is Some,
        times.len() > 0 ==> state.last_refresh->Some_0.nanos <= times[0].nanos,
        0 <= j < times.len(),
        decisions(state, ttl, times)[j] == ScrapeDecision::Refresh,
    ensures
        times[j].nanos - state.last_refresh->Some_0.nanos > ttl,
    decreases times.len(),
{
    lemma_decisions_len(state, ttl, times);
    let rest = times.drop_first();
    let next = state_after(state, ttl, times[0]);
    lemma_decisions_len(next, ttl, rest);
    if j > 0 {
        assert forall|a: int, b: int| 0 <= a <= b < rest.len() implies rest[a].nanos
            <= rest[b].nanos by {
            assert(rest[a] == times[a + 1]);
            assert(rest[b] == times[b + 1]);
        }
        assert(rest[0] == times[1]);
        assert(decisions(state, ttl, times)[j] == decisions(next, ttl, rest)[j - 1]);
        lemma_refresh_is_after_last(next, ttl, rest, j - 1);
        assert(rest[j - 1] == times[j]);
    }
}

} // verus!
