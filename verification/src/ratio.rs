//! Shares and rates as exact fractions.
use vstd::prelude::*;

verus! {

/// A share `num / den`: a configured threshold or a configured part of traffic.
///
/// A `Ratio` is only ever compared with a counted share `hits / total`, and the
/// comparison is made by cross-multiplication, so no rounding takes part in it.
/// A fraction whose denominator is zero lies above every counted share.
#[derive(Clone, Copy, Debug, PartialEq, Eq, Structural)]
pub struct Ratio {
    pub num: u64,
    pub den: u64,
}

impl Ratio {
    /// `hits / total > num / den`.
    pub open spec fn below(self, hits: int, total: int) -> bool {
        hits * self.den > self.num * total
    }

    /// The fraction `num / den`.
    pub fn new(num: u64, den: u64) -> (r: Self)
        ensures
            r.num == num,
            r.den == den,
    {
        Ratio { num, den }
    }

    /// Whether the counted share `hits / total` lies strictly above this ratio.
    pub fn exceeded_by(self, hits: u64, total: u64) -> (above: bool)
        ensures
            above == self.below(hits as int, total as int),
    {
        proof {
            lemma_product_fits(hits, self.den);
            lemma_product_fits(self.num, total);
        }
        (hits as u128) * (self.den as u128) > (self.num as u128) * (total as u128)
    }

    /// Whether the share of `hits` among all of `hits` and `others` lies strictly
    /// above this ratio.
    pub fn exceeded_among(self, hits: u64, others: u64) -> (above: bool)
        ensures
            above == self.below(hits as int, hits + others),
    {
        proof {
            lemma_among(hits as int, others as int, self.num as int, self.den as int);
        }
        if self.num > self.den {
            return false;
        }
        let rest: u64 = self.den - self.num;
        proof {
            lemma_product_fits(hits, rest);
            lemma_product_fits(self.num, others);
        }
        (hits as u128) * (rest as u128) > (self.num as u128) * (others as u128)
    }
}

/// Taking the hits off both sides leaves the comparison as it is; a ratio above one
/// is never exceeded.
proof fn lemma_among(hits: int, others: int, num: int, den: int)
    by (nonlinear_arith)
    requires
        hits >= 0,
        others >= 0,
        num >= 0,
        den >= 0,
    ensures
        num <= den ==> (hits * den > num * (hits + others) <==> hits * (den - num) > num * others),
        num > den ==> hits * den <= num * (hits + others),
{
}

/// The product of two 64-bit numbers fits in 128 bits.
proof fn lemma_product_fits(a: u64, b: u64)
    ensures
        0 <= a * b <= u128::MAX,
{
    assert(0 <= a * b <= 0xffff_ffff_ffff_ffff * 0xffff_ffff_ffff_ffff) by (nonlinear_arith)
        requires
            0 <= a <= 0xffff_ffff_ffff_ffff,
            0 <= b <= 0xffff_ffff_ffff_ffff,
    ;
}

/// A ratio is exceeded by the counted shares that lie strictly above it: scaled to a
/// common denominator, the hits outnumber the ratio's part.
pub proof fn law_ratio_is_exceeded_from_above(r: Ratio, hits: int, total: int)
    requires
        hits >= 0,
        total >= 0,
    ensures
        r.below(hits, total) <==> hits * r.den > total * r.num,
        total == 0 && hits == 0 ==> !r.below(hits, total),
{
    assert(total * r.num == r.num * total) by (nonlinear_arith);
    if total == 0 && hits == 0 {
        assert(hits * r.den == 0) by (nonlinear_arith)
            requires
                hits == 0,
        ;
    }
}

/// A share equal to the ratio does not exceed it, and one more hit does.
pub proof fn law_ratio_is_exceeded_strictly(r: Ratio)
    requires
        r.den > 0,
    ensures
        !r.below(r.num as int, r.den as int),
        r.below(r.num + 1, r.den as int),
{
    let (n, d) = (r.num as int, r.den as int);
    assert((n + 1) * d > n * d) by (nonlinear_arith)
        requires
            d > 0,
    ;
}

} // verus!
