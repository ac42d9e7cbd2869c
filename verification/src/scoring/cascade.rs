//! Cascade of two scorers: a cheap stage 1 over all candidates, an expensive stage
//! 2 over the top-K survivors only.
//!
//! Threshold semantics:
//!   - `top_k > 0`: stage 2 runs on the top-K candidates by stage-1 score.
//!   - `threshold > 0`: stage 2 also requires stage-1 score >= threshold.
//!   - Both default to 0: all candidates pass through.
use crate::model::candidate::AdCandidate;
use crate::score::Score;
use vstd::prelude::*;

verus! {

/// Which candidates advance from stage 1 to stage 2.
#[derive(Debug, Clone, Copy)]
pub struct CascadeScorer {
    /// How many candidates to forward to stage 2 (sorted by stage-1 score, desc).
    /// 0 disables the cap.
    pub top_k: usize,
    /// Minimum stage-1 score required to advance to stage 2. 0 disables.
    pub threshold: Score,
}

/// The standing of a score: scores stand as the numbers they are, and what is no
/// number stands below them all.
pub open spec fn standing(score: Score) -> int {
    if score.nan() {
        -0x1_0000_0000
    } else {
        score.rank()
    }
}

/// Whether the candidate at `i` comes before the one at `j`: it has the higher
/// standing or, at the same standing, the earlier place.
pub open spec fn precedes(list: Seq<AdCandidate>, i: int, j: int) -> bool {
    standing(list[i].score) > standing(list[j].score) || (standing(list[i].score) == standing(
        list[j].score,
    ) && i < j)
}

impl CascadeScorer {
    /// Whether a score is high enough for stage 2.
    pub open spec fn passes(self, score: Score) -> bool {
        (Score { bits: 0 }).below(self.threshold) ==> score.at_least(self.threshold)
    }

    /// Whether indices are those of the candidates that advance: the ones that pass
    /// the threshold, in order, as many as the cap allows.
    pub open spec fn is_advance(self, out: Seq<usize>, list: Seq<AdCandidate>) -> bool {
        &&& self.top_k > 0 ==> out.len() <= self.top_k
        &&& forall|k: int|
            0 <= k < out.len() ==> (#[trigger] out[k]) < list.len() && self.passes(
                list[out[k] as int].score,
            )
        &&& forall|k: int, l: int|
            0 <= k < l < out.len() ==> precedes(
                list,
                #[trigger] out[k] as int,
                #[trigger] out[l] as int,
            )
        &&& forall|i: int|
            0 <= i < list.len() && self.passes((#[trigger] list[i]).score) && !out.contains(
                i as usize,
            ) ==> self.top_k > 0 && out.len() == self.top_k && precedes(
                list,
                out.last() as int,
                i,
            )
    }

    fn admits(&self, score: Score) -> (b: bool)
        ensures
            b == self.passes(score),
    {
        !Score::zero().lt(self.threshold) || score.ge(self.threshold)
    }

    /// Picks which candidates advance to stage 2: the top ones by stage-1 score,
    /// filtered by threshold.
    pub fn advance(&self, candidates: &Vec<AdCandidate>) -> (out: Vec<usize>)
        ensures
            self.is_advance(out@, candidates@),
    {
        let mut ranked: Vec<usize> = Vec::new();
        let n: usize = candidates.len();
        for i in 0..n
            invariant
                n == candidates@.len(),
                ordered(ranked@, candidates@),
                forall|k: int|
                    0 <= k < ranked@.len() ==> (#[trigger] ranked@[k]) < i && self.passes(
                        candidates@[ranked@[k] as int].score,
                    ),
                forall|j: int|
                    0 <= j < i && self.passes((#[trigger] candidates@[j]).score)
                        ==> ranked@.contains(j as usize),
        {
            if self.admits(candidates[i].score) {
                insert_ranked(&mut ranked, candidates, i);
            }
        }
        if self.top_k > 0 && ranked.len() > self.top_k {
            let ghost all = ranked@;
            ranked.truncate(self.top_k);
            assert forall|i: int|
                0 <= i < n && self.passes((#[trigger] candidates@[i]).score) && !ranked@.contains(
                    i as usize,
                ) implies precedes(candidates@, ranked@.last() as int, i) by {
                let k = choose|k: int| 0 <= k < all.len() && all[k] == i as usize;
                assert(k >= self.top_k) by {
                    if k < self.top_k {
                        assert(ranked@[k] == i as usize);
                    }
                }
                assert(ranked@.last() == all[self.top_k - 1]);
                assert(precedes(candidates@, all[self.top_k - 1] as int, all[k] as int));
            }
        }
        ranked
    }
}

/// Indices are in the order of their candidates.
pub open spec fn ordered(ranked: Seq<usize>, list: Seq<AdCandidate>) -> bool {
    forall|k: int, l: int|
        0 <= k < l < ranked.len() ==> precedes(
            list,
            #[trigger] ranked[k] as int,
            #[trigger] ranked[l] as int,
        )
}

/// Whether the candidate at `i` stands no lower than the one at `j`.
fn stands_by(a: Score, b: Score) -> (above: bool)
    ensures
        above == (standing(a) >= standing(b)),
{
    if b.is_nan() {
        true
    } else {
        a.ge(b)
    }
}

/// Puts the last candidate so far in its place among the ranked ones.
fn insert_ranked(ranked: &mut Vec<usize>, candidates: &Vec<AdCandidate>, i: usize)
    requires
        i < candidates@.len(),
        ordered(old(ranked)@, candidates@),
        forall|k: int| 0 <= k < old(ranked)@.len() ==> (#[trigger] old(ranked)@[k]) < i,
    ensures
        ordered(final(ranked)@, candidates@),
        exists|at: int|
            0 <= at <= old(ranked)@.len() && final(ranked)@ == #[trigger] old(ranked)@.insert(at, i),
        forall|j: usize|
            #[trigger] final(ranked)@.contains(j) <==> old(ranked)@.contains(j) || j == i,
{
    let n: usize = ranked.len();
    let mut at: usize = 0;
    while at < n && stands_by(candidates[ranked[at]].score, candidates[i].score)
        invariant
            at <= n == ranked@.len(),
            ranked@ == old(ranked)@,
            i < candidates@.len(),
            forall|k: int| 0 <= k < ranked@.len() ==> (#[trigger] ranked@[k]) < i,
            forall|k: int|
                0 <= k < at ==> standing(candidates@[#[trigger] ranked@[k] as int].score)
                    >= standing(candidates@[i as int].score),
        decreases n - at,
    {
        at += 1;
    }
    let ghost before = ranked@;
    ranked.insert(at, i);
    let ghost after = ranked@;
    assert(after == before.insert(at as int, i));
    assert forall|k: int, l: int| 0 <= k < l < after.len() implies precedes(
        candidates@,
        #[trigger] after[k] as int,
        #[trigger] after[l] as int,
    ) by {
        let p = if k < at {
            k
        } else {
            k - 1
        };
        let q = if l < at {
            l
        } else {
            l - 1
        };
        if k == at {
            assert(after[l] == before[q]);
            if q > at {
                assert(precedes(candidates@, before[at as int] as int, before[q] as int));
            }
        } else if l == at {
            assert(after[k] == before[p]);
        } else {
            assert(after[k] == before[p]);
            assert(after[l] == before[q]);
        }
    }
    assert forall|j: usize| #[trigger] after.contains(j) <==> before.contains(j) || j == i by {
        if before.contains(j) {
            let k = choose|k: int| 0 <= k < before.len() && before[k] == j;
            if k < at {
                assert(after[k] == j);
            } else {
                assert(after[k + 1] == j);
            }
        }
        if j == i {
            assert(after[at as int] == j);
        }
        if after.contains(j) && j != i {
            let k = choose|k: int| 0 <= k < after.len() && after[k] == j;
            if k < at {
                assert(before[k] == j);
            } else {
                assert(before[k - 1] == j);
            }
        }
    }
}

/// Indices that lie in a list, each once.
pub open spec fn distinct_in(indices: Seq<usize>, n: nat) -> bool {
    &&& forall|k: int| 0 <= k < indices.len() ==> (#[trigger] indices[k]) < n
    &&& forall|k: int, l: int|
        0 <= k < l < indices.len() ==> #[trigger] indices[k] != #[trigger] indices[l]
}

/// The candidates at the given indices: the batch that stage 2 scores.
pub fn stage2_batch(candidates: &Vec<AdCandidate>, advance: &Vec<usize>) -> (batch: Vec<
    AdCandidate,
>)
    requires
        forall|k: int| 0 <= k < advance@.len() ==> (#[trigger] advance@[k]) < candidates@.len(),
    ensures
        batch@ == advance@.map_values(|i: usize| candidates@[i as int]),
{
    let mut batch: Vec<AdCandidate> = Vec::new();
    let n: usize = advance.len();
    for k in 0..n
        invariant
            n == advance@.len(),
            forall|l: int| 0 <= l < n ==> (#[trigger] advance@[l]) < candidates@.len(),
            batch@.len() == k,
            forall|l: int| 0 <= l < k ==> batch@[l] == candidates@[advance@[l] as int],
    {
        batch.push(candidates[advance[k]]);
    }
    assert(batch@ =~= advance@.map_values(|i: usize| candidates@[i as int]));
    batch
}

/// Whether a list is another with the scores of some candidates replaced: those at
/// the given indices have the given scores, and all else is the same.
pub open spec fn rescored(
    before: Seq<AdCandidate>,
    after: Seq<AdCandidate>,
    indices: Seq<usize>,
    scores: Seq<Score>,
) -> bool {
    &&& after.len() == before.len()
    &&& forall|k: int|
        0 <= k < indices.len() ==> after[#[trigger] indices[k] as int] == (AdCandidate {
            score: scores[k],
            ..before[indices[k] as int]
        })
    &&& forall|i: int|
        0 <= i < before.len() && !indices.contains(i as usize) ==> #[trigger] after[i] == before[i]
}

/// Writes the stage-2 scores back. Candidates that did not advance keep their
/// stage-1 scores: they are still ranked, just not re-evaluated. What a batch holds
/// past the candidates that advanced is not looked at.
pub fn write_back(candidates: &mut Vec<AdCandidate>, advance: &Vec<usize>, batch: &Vec<AdCandidate>)
    requires
        distinct_in(advance@, old(candidates)@.len()),
        batch@.len() >= advance@.len(),
    ensures
        rescored(
            old(candidates)@,
            final(candidates)@,
            advance@,
            batch@.map_values(|c: AdCandidate| c.score),
        ),
{
    let ghost scores = batch@.map_values(|c: AdCandidate| c.score);
    let n: usize = advance.len();
    for k in 0..n
        invariant
            n == advance@.len() <= batch@.len(),
            scores == batch@.map_values(|c: AdCandidate| c.score),
            distinct_in(advance@, old(candidates)@.len()),
            rescored(old(candidates)@, candidates@, advance@.take(k as int), scores),
    {
        let i = advance[k];
        let ghost earlier = candidates@;
        assert(!advance@.take(k as int).contains(i)) by {
            if advance@.take(k as int).contains(i) {
                let l = choose|l: int| 0 <= l < k && advance@.take(k as int)[l] == i;
                assert(advance@[l] != advance@[k as int]);
            }
        }
        let mut c = candidates[i];
        c.score = batch[k].score;
        candidates.set(i, c);
        let ghost done = advance@.take(k + 1);
        assert forall|l: int| 0 <= l < done.len() implies candidates@[#[trigger] done[l] as int]
            == (AdCandidate { score: scores[l], ..old(candidates)@[done[l] as int] }) by {
            if l < k {
                assert(done[l] == advance@.take(k as int)[l]);
                assert(advance@[l] != advance@[k as int]);
            }
        }
        assert forall|j: int|
            0 <= j < old(candidates)@.len() && !done.contains(
                j as usize,
            ) implies #[trigger] candidates@[j] == old(candidates)@[j] by {
            assert(done[k as int] == i);
            assert(j != i);
            assert(!advance@.take(k as int).contains(j as usize)) by {
                if advance@.take(k as int).contains(j as usize) {
                    let l = choose|l: int| 0 <= l < k && advance@.take(k as int)[l] == j as usize;
                    assert(done[l] == j as usize);
                }
            }
            assert(candidates@[j] == earlier[j]);
        }
    }
    assert(advance@.take(n as int) =~= advance@);
}

/// The indices that advance are distinct: each candidate is scored once.
pub proof fn law_advance_is_distinct(
    cascade: CascadeScorer,
    out: Seq<usize>,
    list: Seq<AdCandidate>,
)
    requires
        cascade.is_advance(out, list),
    ensures
        distinct_in(out, list.len()),
{
}

/// With neither a cap nor a threshold, every candidate advances.
pub proof fn law_no_limits_advance_all(
    cascade: CascadeScorer,
    out: Seq<usize>,
    list: Seq<AdCandidate>,
    i: int,
)
    requires
        cascade.top_k == 0,
        cascade.threshold.bits == 0,
        cascade.is_advance(out, list),
        0 <= i < list.len(),
    ensures
        out.contains(i as usize),
{
    assert(cascade.passes(list[i].score));
}

/// A threshold above every score lets no candidate advance.
pub proof fn law_unreachable_threshold(
    cascade: CascadeScorer,
    out: Seq<usize>,
    list: Seq<AdCandidate>,
)
    requires
        (Score { bits: 0 }).below(cascade.threshold),
        cascade.is_advance(out, list),
        forall|i: int| 0 <= i < list.len() ==> !(#[trigger] list[i]).score.at_least(cascade.threshold),
    ensures
        out.len() == 0,
{
    if out.len() > 0 {
        assert(cascade.passes(list[out[0] as int].score));
    }
}

/// Candidates that do not advance keep their stage-1 scores, and nothing but
/// scores changes.
pub proof fn law_only_advancing_scores_change(
    before: Seq<AdCandidate>,
    after: Seq<AdCandidate>,
    indices: Seq<usize>,
    scores: Seq<Score>,
    i: int,
)
    requires
        rescored(before, after, indices, scores),
        0 <= i < before.len(),
        i <= usize::MAX,
    ensures
        !indices.contains(i as usize) ==> after[i].score == before[i].score,
        after[i].campaign_id == before[i].campaign_id,
        after[i].bid_price_cents == before[i].bid_price_cents,
{
    if indices.contains(i as usize) {
        let k = choose|k: int| 0 <= k < indices.len() && indices[k] == i as usize;
        assert(after[indices[k] as int].campaign_id == before[i].campaign_id);
    }
}

/// Every candidate that advances scores at least the threshold, where that is above
/// zero; other thresholds hold nobody back.
pub proof fn law_advancing_reach_the_threshold(
    cascade: CascadeScorer,
    out: Seq<usize>,
    list: Seq<AdCandidate>,
    k: int,
)
    requires
        cascade.is_advance(out, list),
        0 <= k < out.len(),
    ensures
        out[k] < list.len(),
        cascade.top_k > 0 ==> out.len() <= cascade.top_k,
        !cascade.threshold.nan() && cascade.threshold.rank() > 0 ==> !list[out[k] as int].score.nan()
            && list[out[k] as int].score.rank() >= cascade.threshold.rank(),
{
}

/// The candidates that advance come in descending order of score, equal scores in the
/// order of the list, and what is no number last.
pub proof fn law_advancing_descend(
    cascade: CascadeScorer,
    out: Seq<usize>,
    list: Seq<AdCandidate>,
    k: int,
    l: int,
)
    requires
        cascade.is_advance(out, list),
        0 <= k < l < out.len(),
    ensures
        ({
            let a = list[out[k] as int].score;
            let b = list[out[l] as int].score;
            &&& !a.below(b)
            &&& a.nan() ==> b.nan()
            &&& !a.nan() && !b.nan() && a.rank() == b.rank() ==> out[k] < out[l]
        }),
{
    assert(precedes(list, out[k] as int, out[l] as int));
}

/// A candidate that reaches the threshold is left behind only where the cap is filled
/// with candidates that score no lower; below no cap nobody is.
pub proof fn law_left_behind_by_the_cap_only(
    cascade: CascadeScorer,
    out: Seq<usize>,
    list: Seq<AdCandidate>,
    i: int,
    k: int,
)
    requires
        cascade.is_advance(out, list),
        0 <= i < list.len(),
        i <= usize::MAX,
        !out.contains(i as usize),
        cascade.threshold.nan() || cascade.threshold.rank() <= 0 || (!list[i].score.nan()
            && list[i].score.rank() >= cascade.threshold.rank()),
    ensures
        cascade.top_k > 0,
        out.len() == cascade.top_k,
        0 <= k < out.len() ==> !list[out[k] as int].score.below(list[i].score),
{
    assert(cascade.passes(list[i].score));
    assert(precedes(list, out.last() as int, i));
    if 0 <= k < out.len() - 1 {
        assert(precedes(list, out[k] as int, out[out.len() - 1] as int));
    }
}

/// A candidate that advanced has its stage-2 score, and else is as it was.
pub proof fn law_advancing_get_their_score(
    before: Seq<AdCandidate>,
    after: Seq<AdCandidate>,
    indices: Seq<usize>,
    scores: Seq<Score>,
    k: int,
)
    requires
        rescored(before, after, indices, scores),
        0 <= k < indices.len(),
    ensures
        after.len() == before.len(),
        after[indices[k] as int].score == scores[k],
        after[indices[k] as int].campaign_id == before[indices[k] as int].campaign_id,
        after[indices[k] as int].creative_id == before[indices[k] as int].creative_id,
        after[indices[k] as int].bid_price_cents == before[indices[k] as int].bid_price_cents,
{
}

} // verus!
