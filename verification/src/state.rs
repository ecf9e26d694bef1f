//! Shared engine state and the debounce rule.

use vstd::prelude::*;
use crate::codes::COOLDOWN_MS;

verus! {

/// State shared between the hook callbacks, the signal handler and the
/// control loop. Timestamps are milliseconds on a monotonic clock.
#[derive(Clone, Copy, Debug, PartialEq, Eq, Structural)]
pub struct EngineState {
    pub owning_thread_id: u32,
    pub should_exit: bool,
    pub last_trigger_time: Option<u64>,
    pub simulating_injection: bool,
}

/// Whether a trigger at `now` passes the cool-down, given the time of the
/// last accepted trigger. A clock that went backwards counts as no time
/// elapsed.
pub open spec fn accepts(last: Option<u64>, now: u64) -> bool {
    match last {
        None => true,
        Some(t) => now - t >= COOLDOWN_MS,
    }
}

/// The stored timestamp after a trigger at `now` was offered.
pub open spec fn after_offer(last: Option<u64>, now: u64) -> Option<u64> {
    if accepts(last, now) {
        Some(now)
    } else {
        last
    }
}

impl EngineState {
    /// Fresh state for a run owned by the given thread.
    pub fn new(owning_thread_id: u32) -> (s: EngineState)
        ensures
            s == (EngineState {
                owning_thread_id,
                should_exit: false,
                last_trigger_time: None,
                simulating_injection: false,
            }),
    {
        EngineState {
            owning_thread_id,
            should_exit: false,
            last_trigger_time: None,
            simulating_injection: false,
        }
    }

    /// Offers a trigger at `now`: accepted iff no trigger was accepted yet or
    /// at least the cool-down has passed since the last accepted one. Only an
    /// accepted trigger moves the stored timestamp.
    pub fn accept(&mut self, now: u64) -> (accepted: bool)
        ensures
            accepted == accepts(old(self).last_trigger_time, now),
            *final(self) == (EngineState {
                last_trigger_time: after_offer(old(self).last_trigger_time, now),
                ..*old(self)
            }),
    {
        let pass = match self.last_trigger_time {
            None => true,
            Some(t) => now >= t && now - t >= COOLDOWN_MS,
        };
        if pass {
            self.last_trigger_time = Some(now);
        }
        pass
    }
}

/// The stored timestamp after a sequence of offers, made in order.
pub open spec fn after_offers(last: Option<u64>, times: Seq<u64>) -> Option<u64>
    decreases times.len(),
{
    if times.len() == 0 {
        last
    } else {
        after_offer(after_offers(last, times.drop_last()), times.last())
    }
}

/// Whether offer `i` of a sequence of offers is accepted.
pub open spec fn accepted_at(last: Option<u64>, times: Seq<u64>, i: int) -> bool {
    accepts(after_offers(last, times.take(i)), times[i])
}

/// After offer `j` was accepted and none of the offers after it up to `i`
/// was, the stored timestamp is that of offer `j`.
proof fn lemma_last_accepted_is_stored(last: Option<u64>, times: Seq<u64>, j: int, i: int)
    requires
        0 <= j < i <= times.len(),
        accepted_at(last, times, j),
        forall|k: int| j < k < i ==> !accepted_at(last, times, k),
    ensures
        after_offers(last, times.take(i)) == Some(times[j]),
    decreases i,
{
    let prefix = times.take(i);
    assert(prefix.drop_last() == times.take(i - 1));
    assert(prefix.last() == times[i - 1]);
    if i > j + 1 {
        lemma_last_accepted_is_stored(last, times, j, i - 1);
        assert(!accepted_at(last, times, i - 1));
    }
}

/// Debounce law. In any sequence of offers, let offer `j` be the last one
/// accepted before offer `i`. Then offer `i` is accepted exactly when it
/// comes at least the cool-down after offer `j`: nothing within the
/// cool-down passes, and the first offer at or after it does.
pub proof fn lemma_debounce(last: Option<u64>, times: Seq<u64>, j: int, i: int)
    requires
        0 <= j < i < times.len(),
        accepted_at(last, times, j),
        forall|k: int| j < k < i ==> !accepted_at(last, times, k),
    ensures
        accepted_at(last, times, i) <==> times[i] - times[j] >= COOLDOWN_MS,
{
    lemma_last_accepted_is_stored(last, times, j, i);
}

/// With no trigger accepted before, the very first offer is accepted.
pub proof fn lemma_first_offer_accepted(times: Seq<u64>)
    requires
        times.len() > 0,
    ensures
        accepted_at(None, times, 0),
{
    assert(times.take(0).len() == 0);
}

} // verus!
