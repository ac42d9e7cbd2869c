//! Relevance scores.
use vstd::prelude::*;

verus! {

/// A relevance score, held as the bit pattern of an IEEE-754 single-precision
/// number. Scorers produce the patterns; the pipeline only compares them.
#[derive(Clone, Copy, Debug, PartialEq, Eq, Structural)]
pub struct Score {
    pub bits: u32,
}

impl Score {
    /// The pattern without its sign bit.
    pub open spec fn magnitude(self) -> int {
        self.bits as int % 0x8000_0000
    }

    /// Whether the pattern denotes no number.
    pub open spec fn nan(self) -> bool {
        self.magnitude() > 0x7f80_0000
    }

    /// An integer that orders patterns as the numbers they denote are ordered;
    /// both zeros map to 0.
    pub open spec fn rank(self) -> int {
        if self.bits >= 0x8000_0000 {
            -self.magnitude()
        } else {
            self.magnitude()
        }
    }

    /// `self < other`, as IEEE-754 orders numbers: false where either is no
    /// number.
    pub open spec fn below(self, other: Score) -> bool {
        !self.nan() && !other.nan() && self.rank() < other.rank()
    }

    /// `self >= other`, as IEEE-754 orders numbers: false where either is no
    /// number.
    pub open spec fn at_least(self, other: Score) -> bool {
        !self.nan() && !other.nan() && self.rank() >= other.rank()
    }

    /// The score with the given bit pattern.
    pub fn from_bits(bits: u32) -> (s: Self)
        ensures
            s.bits == bits,
    {
        Score { bits }
    }

    /// The score zero.
    pub fn zero() -> (s: Self)
        ensures
            s.bits == 0,
    {
        Score { bits: 0 }
    }

    /// Whether the score is no number.
    pub fn is_nan(self) -> (b: bool)
        ensures
            b == self.nan(),
    {
        self.bits % 0x8000_0000 > 0x7f80_0000
    }

    fn key(self) -> (k: i64)
        ensures
            k == self.rank(),
    {
        let magnitude: i64 = (self.bits % 0x8000_0000) as i64;
        if self.bits >= 0x8000_0000 {
            -magnitude
        } else {
            magnitude
        }
    }

    /// Whether this score is a smaller number than `other`.
    pub fn lt(self, other: Score) -> (b: bool)
        ensures
            b == self.below(other),
    {
        !self.is_nan() && !other.is_nan() && self.key() < other.key()
    }

    /// Whether this score is a number not smaller than `other`.
    pub fn ge(self, other: Score) -> (b: bool)
        ensures
            b == self.at_least(other),
    {
        !self.is_nan() && !other.is_nan() && self.key() >= other.key()
    }
}

/// Scores compare as the numbers that their patterns denote. What is no number
/// compares with nothing; both zeros are equal; a negative number lies below every
/// positive one; positive numbers grow with their pattern, and negative ones shrink.
pub proof fn law_scores_compare_as_numbers(a: Score, b: Score)
    ensures
        a.nan() || b.nan() ==> !a.below(b) && !a.at_least(b),
        !a.nan() && !b.nan() ==> (a.at_least(b) <==> !a.below(b)),
        a.bits < b.bits && b.bits <= 0x7f80_0000 ==> a.below(b),
        0x8000_0000 < b.bits && b.bits < a.bits && a.bits <= 0xff80_0000 ==> a.below(b),
        0x8000_0000 < a.bits && a.bits <= 0xff80_0000 && b.bits <= 0x7f80_0000 ==> a.below(b),
        (a.bits == 0 || a.bits == 0x8000_0000) && (b.bits == 0 || b.bits == 0x8000_0000)
            ==> !a.below(b) && a.at_least(b),
        a.below(b) ==> !b.below(a),
{
}

/// The patterns that denote no number are those above the infinities of either sign.
pub proof fn law_patterns_that_are_no_number(a: Score)
    ensures
        a.nan() <==> (0x7f80_0000 < a.bits && a.bits < 0x8000_0000) || a.bits > 0xff80_0000,
{
}

} // verus!
