//! Counter arithmetic.
use vstd::prelude::*;

verus! {

/// A counter one further; the largest value is followed by zero.
pub open spec fn counted(n: u64) -> u64 {
    if n == u64::MAX {
        0
    } else {
        (n + 1) as u64
    }
}

/// The amount by which a counter grew; zero if it went back.
pub open spec fn growth(now: u64, before: u64) -> u64 {
    if now >= before {
        (now - before) as u64
    } else {
        0
    }
}

/// Counting adds one, but for the largest value, after which it starts again.
pub proof fn law_counting_adds_one(n: u64)
    ensures
        n < u64::MAX ==> counted(n) == n + 1,
        counted(u64::MAX) == 0,
{
}

/// What was counted in between is what a counter grew by.
pub proof fn law_growth_is_what_was_added(before: u64, added: u64)
    requires
        before + added <= u64::MAX,
    ensures
        growth((before + added) as u64, before) == added,
        growth(before, (before + added) as u64) == 0,
{
}

} // verus!
