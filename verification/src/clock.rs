//! Instants, and elapsed time in milliseconds.

use vstd::prelude::*;

verus! {

pub const NANOS_PER_SEC: i128 = 1_000_000_000;

pub const NANOS_PER_MILLI: i128 = 1_000_000;

/// An instant: whole seconds since the Unix epoch, and the nanoseconds that
/// have passed since that second began. Nanoseconds of a full second or more
/// count into the seconds that follow.
#[derive(Clone, Copy, Debug, PartialEq, Eq)]
pub struct Timestamp {
    pub secs: i64,
    pub nanos: u32,
}

impl View for Timestamp {
    type V = int;

    /// Nanoseconds since the Unix epoch.
    open spec fn view(&self) -> int {
        self.secs * NANOS_PER_SEC + self.nanos
    }
}

/// Whole milliseconds from the instant `start` to the instant `end`, both in
/// nanoseconds; a part of a millisecond is dropped. Where `end` lies before
/// `start`, as it does when the clock was set back in between, no time has
/// elapsed.
pub open spec fn elapsed_millis(start: int, end: int) -> nat {
    if end >= start {
        ((end - start) / (NANOS_PER_MILLI as int)) as nat
    } else {
        0
    }
}

/// The response time of a request accepted at `start` whose body reached
/// its end, or was given up, at `end`: the milliseconds elapsed, or the
/// largest number there is where they are more.
pub open spec fn response_time(start: int, end: int) -> i64 {
    if elapsed_millis(start, end) > i64::MAX {
        i64::MAX
    } else {
        elapsed_millis(start, end) as i64
    }
}

impl Timestamp {
    /// Whole milliseconds from `self` to `later`: none where `later` is the
    /// earlier of the two, and no more than `i64` holds.
    pub fn millis_until(&self, later: &Timestamp) -> (ms: i64)
        ensures
            ms == response_time(self@, later@),
    {
        let start: i128 = (self.secs as i128) * NANOS_PER_SEC + (self.nanos as i128);
        let end: i128 = (later.secs as i128) * NANOS_PER_SEC + (later.nanos as i128);
        if end >= start {
            let whole: i128 = (end - start) / NANOS_PER_MILLI;
            if whole > i64::MAX as i128 {
                i64::MAX
            } else {
                whole as i64
            }
        } else {
            0
        }
    }
}

/// The response time is never negative, it is nothing for a body that is
/// done at the instant its request was accepted, and a later end never
/// gives a shorter response time.
pub proof fn lemma_response_time_monotone(start: int, end: int, later: int)
    requires
        end <= later,
    ensures
        0 <= response_time(start, end) <= response_time(start, later),
        response_time(start, start) == 0,
{
    if start <= end {
        assert(0 <= (end - start) / 1_000_000 <= (later - start) / 1_000_000)
            by (nonlinear_arith)
            requires
                0 <= end - start <= later - start,
        ;
    } else if start <= later {
        assert(0 <= (later - start) / 1_000_000) by (nonlinear_arith)
            requires
                0 <= later - start,
        ;
    }
}

} // verus!
