//! A/B test of two scorers.
//!
//! Routes a configurable fraction of traffic to a `treatment` scorer and the rest
//! to `control`. Assignment is deterministic per `user_id`, so repeated requests
//! from the same user always land in the same arm.
//!
//! Hashing is FNV-1a 64-bit. The `hash_seed` prefixes the user_id so multiple
//! concurrent experiments don't entangle with each other.
//!
//! When `user_id` is empty the request gets the control arm: anonymous users
//! shouldn't skew an experiment that's measuring user-level outcomes.
use crate::ratio::Ratio;
use crate::text::is_empty_text;
use vstd::prelude::*;
use vstd::utf8::encode_utf8;

verus! {

pub const FNV_OFFSET: u64 = 0xcbf29ce484222325;

pub const FNV_PRIME: u64 = 0x100000001b3;

/// One FNV-1a step.
pub open spec fn mixed(h: u64, byte: u8) -> u64 {
    (h ^ (byte as u64)).wrapping_mul(FNV_PRIME)
}

/// The FNV-1a hash of a byte string, started from `h`.
pub open spec fn hashed(h: u64, bytes: Seq<u8>) -> u64
    decreases bytes.len(),
{
    if bytes.len() == 0 {
        h
    } else {
        mixed(hashed(h, bytes.drop_last()), bytes.last())
    }
}

/// What is hashed for a user in an experiment: the seed, a bar and the user id, in
/// UTF-8.
pub open spec fn hash_input(seed: Seq<char>, user_id: Seq<char>) -> Seq<u8> {
    encode_utf8(seed) + seq![124u8] + encode_utf8(user_id)
}

/// The FNV-1a hash of a user in an experiment.
pub open spec fn user_hash(seed: Seq<char>, user_id: Seq<char>) -> u64 {
    hashed(FNV_OFFSET, hash_input(seed, user_id))
}

fn absorb(start: u64, bytes: &[u8]) -> (h: u64)
    ensures
        h == hashed(start, bytes@),
{
    let mut h: u64 = start;
    let n: usize = bytes.len();
    for i in 0..n
        invariant
            n == bytes@.len(),
            h == hashed(start, bytes@.take(i as int)),
    {
        assert(bytes@.take(i + 1).drop_last() =~= bytes@.take(i as int));
        h = (h ^ (bytes[i] as u64)).wrapping_mul(FNV_PRIME);
    }
    assert(bytes@.take(n as int) =~= bytes@);
    h
}

proof fn lemma_hash_concatenates(h: u64, left: Seq<u8>, right: Seq<u8>)
    ensures
        hashed(h, left + right) == hashed(hashed(h, left), right),
    decreases right.len(),
{
    if right.len() == 0 {
        assert(left + right =~= left);
    } else {
        lemma_hash_concatenates(h, left, right.drop_last());
        assert((left + right).drop_last() =~= left + right.drop_last());
    }
}

/// The FNV-1a hash of a user in an experiment.
pub fn fnv1a(seed: &str, user_id: &str) -> (h: u64)
    ensures
        h == user_hash(seed@, user_id@),
{
    let bar: [u8; 1] = [124];
    let h: u64 = absorb(FNV_OFFSET, seed.as_bytes());
    let h: u64 = absorb(h, &bar);
    let h: u64 = absorb(h, user_id.as_bytes());
    proof {
        assert(bar@ =~= seq![124u8]);
        lemma_hash_concatenates(FNV_OFFSET, encode_utf8(seed@), seq![124u8]);
        lemma_hash_concatenates(
            FNV_OFFSET,
            encode_utf8(seed@) + seq![124u8],
            encode_utf8(user_id@),
        );
    }
    h
}

/// The two arms of an experiment.
#[derive(Debug, Clone, Copy, PartialEq, Eq, Structural)]
pub enum Arm {
    Control,
    Treatment,
}

impl Arm {
    /// The arm's name in metrics.
    pub fn label(self) -> (s: &'static str)
        ensures
            s@ == (match self {
                Arm::Control => "control"@,
                Arm::Treatment => "treatment"@,
            }),
    {
        match self {
            Arm::Control => "control",
            Arm::Treatment => "treatment",
        }
    }
}

/// The experiment that decides between the scorers.
#[derive(Debug, Clone)]
pub struct ABTestScorer {
    /// Treatment share in [0, 1]. 10/100 = 10% of users routed to treatment.
    pub treatment_share: Ratio,
    /// Disambiguates concurrent experiments; prefixes the hash input.
    pub hash_seed: String,
}

/// The arm of a user: treatment if the user's bucket, out of ten thousand, lies
/// below the treatment share.
pub open spec fn arm_of(share: Ratio, seed: Seq<char>, user_id: Seq<char>) -> Arm {
    if user_id.len() > 0 && (user_hash(seed, user_id) % 10_000) * share.den < share.num * 10_000 {
        Arm::Treatment
    } else {
        Arm::Control
    }
}

impl ABTestScorer {
    /// The arm that a request of the user is routed to.
    pub fn pick_arm(&self, user_id: &str) -> (arm: Arm)
        ensures
            arm == arm_of(self.treatment_share, self.hash_seed@, user_id@),
    {
        if is_empty_text(user_id) {
            return Arm::Control;
        }
        let bucket: u64 = fnv1a(self.hash_seed.as_str(), user_id) % 10_000;
        let den: u64 = self.treatment_share.den;
        assert(0 <= bucket * den <= 10_000 * 0xffff_ffff_ffff_ffff) by (nonlinear_arith)
            requires
                0 <= bucket < 10_000,
                0 <= den <= 0xffff_ffff_ffff_ffff,
        ;
        if (bucket as u128) * (den as u128) < (self.treatment_share.num as u128) * 10_000 {
            Arm::Treatment
        } else {
            Arm::Control
        }
    }
}

/// Anonymous users always get the control arm.
pub proof fn law_anonymous_users_are_control(share: Ratio, seed: Seq<char>)
    ensures
        arm_of(share, seed, Seq::<char>::empty()) == Arm::Control,
{
}

/// A share of nothing routes no user to treatment, and a share of everything
/// routes every named user there.
pub proof fn law_extreme_shares(share: Ratio, seed: Seq<char>, user_id: Seq<char>)
    requires
        share.den > 0,
        user_id.len() > 0,
    ensures
        share.num == 0 ==> arm_of(share, seed, user_id) == Arm::Control,
        share.num >= share.den ==> arm_of(share, seed, user_id) == Arm::Treatment,
{
    let bucket = user_hash(seed, user_id) % 10_000;
    assert(bucket * share.den >= 0) by (nonlinear_arith)
        requires
            bucket >= 0,
            share.den > 0,
    ;
    assert(bucket * share.den < 10_000 * share.den) by (nonlinear_arith)
        requires
            bucket < 10_000,
            share.den > 0,
    ;
}

/// A rollout is monotone: a user in treatment stays there when the share grows.
pub proof fn law_growing_share_keeps_users(
    share: Ratio,
    larger: Ratio,
    seed: Seq<char>,
    user_id: Seq<char>,
)
    requires
        share.den > 0,
        larger.den > 0,
        share.num * larger.den <= larger.num * share.den,
        arm_of(share, seed, user_id) == Arm::Treatment,
    ensures
        arm_of(larger, seed, user_id) == Arm::Treatment,
{
    let bucket = (user_hash(seed, user_id) % 10_000) as int;
    let (n, d, m, e) = (
        share.num as int,
        share.den as int,
        larger.num as int,
        larger.den as int,
    );
    assert(bucket * e < m * 10_000) by (nonlinear_arith)
        requires
            bucket * d < n * 10_000,
            n * e <= m * d,
            d > 0,
            e > 0,
    {
        assert((bucket * d) * e < (n * 10_000) * e);
        assert((n * 10_000) * e == (n * e) * 10_000);
        assert((n * e) * 10_000 <= (m * d) * 10_000);
        assert((bucket * d) * e == (bucket * e) * d);
        assert((m * d) * 10_000 == (m * 10_000) * d);
        assert((bucket * e) * d < (m * 10_000) * d);
    }
}

/// The hash takes its bytes in turn: each is added bitwise without carry, and the
/// result is multiplied by the 64-bit FNV prime, modulo a power of two.
pub proof fn law_hash_takes_bytes_in_turn(h: u64, bytes: Seq<u8>, byte: u8)
    ensures
        hashed(h, bytes.push(byte)) == ((hashed(h, bytes) ^ (byte as u64)) * 0x100000001b3)
            % 0x1_0000_0000_0000_0000,
        hashed(h, Seq::<u8>::empty()) == h,
{
    assert(bytes.push(byte).drop_last() =~= bytes);
}

/// What is hashed, from the 64-bit FNV offset basis on: the seed, a bar and the user
/// id.
pub proof fn law_seed_bar_user_are_hashed(seed: Seq<char>, user_id: Seq<char>)
    ensures
        ({
            let input = hash_input(seed, user_id);
            let n = encode_utf8(seed).len() as int;
            &&& user_hash(seed, user_id) == hashed(0xcbf29ce484222325, input)
            &&& input.len() == n + 1 + encode_utf8(user_id).len()
            &&& input.take(n) == encode_utf8(seed)
            &&& input[n] == 0x7c
            &&& input.skip(n + 1) == encode_utf8(user_id)
        }),
{
    let input = hash_input(seed, user_id);
    let n = encode_utf8(seed).len() as int;
    assert(input.take(n) =~= encode_utf8(seed));
    assert(input.skip(n + 1) =~= encode_utf8(user_id));
}

/// A share of so many ten-thousandths is that many buckets, counted from zero.
pub proof fn law_share_counts_buckets(buckets: u64, seed: Seq<char>, user_id: Seq<char>)
    requires
        user_id.len() > 0,
    ensures
        arm_of(Ratio { num: buckets, den: 10_000 }, seed, user_id) == Arm::Treatment <==> user_hash(
            seed,
            user_id,
        ) % 10_000 < buckets,
{
}

} // verus!
