//! The change-driven scheduler's decision state. Connectivity-change
//! signals are debounced: a signal is accepted only when at least one full
//! debounce window has passed since the previous attempt ended, the
//! accepted signal waits out one more full window, and the attempt then
//! runs exactly once. Attempts are strictly sequential; signals that queue
//! up while one attempt debounces or runs are processed afterwards and
//! discarded by the same rule.

use vstd::prelude::*;

verus! {

/// Whether a signal processed at `now` is accepted: always for the first
/// signal ever, otherwise only when a full window has elapsed since the
/// last attempt ended.
pub open spec fn debounce_accepts(last_attempt_end: Option<int>, now: int, window: int) -> bool {
    match last_attempt_end {
        None => true,
        Some(l) => now - l >= window,
    }
}

/// The debounce state: the window length and when the last attempt ended,
/// in the caller's clock ticks.
pub struct Debouncer {
    pub window: u64,
    pub last_attempt_end: Option<u64>,
}

impl Debouncer {
    /// A fresh debouncer: the first signal is always accepted.
    pub fn new(window: u64) -> (d: Debouncer)
        ensures
            d.window == window,
            d.last_attempt_end is None,
    {
        Debouncer { window, last_attempt_end: None }
    }

    /// Decides one signal processed at `now`: accepted signals lead to an
    /// attempt, discarded ones to nothing.
    pub fn accepts(&self, now: u64) -> (b: bool)
        ensures
            b == debounce_accepts(
                match self.last_attempt_end {
                    Some(l) => Some(l as int),
                    None => None,
                },
                now as int,
                self.window as int,
            ),
    {
        match self.last_attempt_end {
            None => true,
            Some(l) => now >= l && now - l >= self.window,
        }
    }

    /// Records that an attempt just ended at `now`; the next signal is
    /// accepted only one full window later.
    pub fn record_attempt_end(&mut self, now: u64)
        ensures
            final(self).window == old(self).window,
            final(self).last_attempt_end == Some(now),
    {
        self.last_attempt_end = Some(now);
    }
}

/// How many attempts a run of the scheduler loop performs. Each signal
/// arrives at `arr[i]` and is processed once the loop is free, so at
/// `max(arr[i], free_at)`. An accepted signal waits out one full window,
/// the attempt takes `dur[i] >= 0` more, and the loop is busy until the
/// attempt ends, which is also what the next acceptance is measured from.
pub open spec fn sched_attempts(
    window: int,
    last_attempt_end: Option<int>,
    free_at: int,
    arr: Seq<int>,
    dur: Seq<int>,
) -> int
    decreases arr.len(),
{
    if arr.len() == 0 {
        0
    } else {
        let p = if arr[0] >= free_at {
            arr[0]
        } else {
            free_at
        };
        if debounce_accepts(last_attempt_end, p, window) {
            let e = p + window + dur[0];
            1 + sched_attempts(
                window,
                Some(e),
                e,
                arr.subrange(1, arr.len() as int),
                dur.subrange(1, dur.len() as int),
            )
        } else {
            sched_attempts(
                window,
                last_attempt_end,
                free_at,
                arr.subrange(1, arr.len() as int),
                dur.subrange(1, dur.len() as int),
            )
        }
    }
}

/// While every remaining signal arrived no later than the moment the last
/// attempt ended, none is accepted: each is processed the moment the loop
/// is free, no window has elapsed since, and it is discarded.
proof fn lemma_no_attempts_before_window(window: int, e: int, arr: Seq<int>, dur: Seq<int>)
    requires
        window > 0,
        forall|i: int| 0 <= i < arr.len() ==> arr[i] <= e,
    ensures
        sched_attempts(window, Some(e), e, arr, dur) == 0,
    decreases arr.len(),
{
    if arr.len() > 0 {
        let tail = arr.subrange(1, arr.len() as int);
        assert(forall|i: int| 0 <= i < tail.len() ==> tail[i] == arr[i + 1]);
        lemma_no_attempts_before_window(window, e, tail, dur.subrange(1, dur.len() as int));
    }
}

/// Debounce coalescing: a fresh scheduler given a burst of signals that
/// all arrive within less than one debounce window of the first performs
/// exactly one attempt, however many signals the burst holds and however
/// long the attempt takes.
pub proof fn lemma_debounce_coalesces(window: int, arr: Seq<int>, dur: Seq<int>)
    requires
        window > 0,
        arr.len() >= 1,
        dur.len() == arr.len(),
        forall|i: int| 0 <= i < arr.len() ==> arr[0] <= #[trigger] arr[i] < arr[0] + window,
        forall|i: int| 0 <= i < dur.len() ==> dur[i] >= 0,
    ensures
        sched_attempts(window, None, arr[0], arr, dur) == 1,
{
    let e = arr[0] + window + dur[0];
    let tail = arr.subrange(1, arr.len() as int);
    assert(forall|i: int| 0 <= i < tail.len() ==> tail[i] == arr[i + 1]);
    assert(forall|i: int| 0 <= i < tail.len() ==> tail[i] <= e);
    lemma_no_attempts_before_window(window, e, tail, dur.subrange(1, dur.len() as int));
}

} // verus!
