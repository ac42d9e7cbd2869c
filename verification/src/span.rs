//! Lengths of time, and points in time measured from a fixed start.
use vstd::prelude::*;

verus! {

/// A length of time in nanoseconds. A point in time is given as the span since
/// an arbitrary start that one process keeps.
#[derive(Clone, Copy, Debug, PartialEq, Eq, Structural)]
pub struct Span {
    pub nanos: u128,
}

impl Span {
    pub fn from_secs(secs: u64) -> (s: Self)
        ensures
            s.nanos == secs * 1_000_000_000,
    {
        Span { nanos: (secs as u128) * 1_000_000_000 }
    }

    pub fn from_millis(millis: u64) -> (s: Self)
        ensures
            s.nanos == millis * 1_000_000,
    {
        Span { nanos: (millis as u128) * 1_000_000 }
    }

    pub fn from_micros(micros: u64) -> (s: Self)
        ensures
            s.nanos == micros * 1_000,
    {
        Span { nanos: (micros as u128) * 1_000 }
    }

    /// Whole microseconds in the span.
    pub fn as_micros(self) -> (us: u128)
        ensures
            us == self.nanos / 1_000,
    {
        self.nanos / 1_000
    }

    /// Whole milliseconds in the span.
    pub fn as_millis(self) -> (ms: u128)
        ensures
            ms == self.nanos / 1_000_000,
    {
        self.nanos / 1_000_000
    }

    /// The time from `earlier` up to this point, as a number of nanoseconds.
    pub open spec fn since(self, earlier: Span) -> int {
        if self.nanos >= earlier.nanos {
            self.nanos - earlier.nanos
        } else {
            0
        }
    }

    /// The time from `earlier` up to this point; zero if `earlier` lies ahead.
    pub fn elapsed_since(self, earlier: Span) -> (s: Span)
        ensures
            s.nanos == self.since(earlier),
    {
        if self.nanos >= earlier.nanos {
            Span { nanos: self.nanos - earlier.nanos }
        } else {
            Span { nanos: 0 }
        }
    }
}

/// The time between two points is their distance, and none where the first lies ahead.
pub proof fn law_since_is_the_distance(earlier: Span, later: Span)
    requires
        earlier.nanos <= later.nanos,
    ensures
        earlier.nanos + later.since(earlier) == later.nanos,
        earlier.since(later) == 0,
{
}

} // verus!
