//! Batching and failure handling of model inference.
//!
//! Candidates are scored in chunks; a chunk becomes a batch of feature rows, padded
//! to a fixed multiple. If any chunk fails, no score of the pass survives: the
//! whole batch goes to the fallback scorer.
use crate::model::candidate::AdCandidate;
use crate::path::{is_same_path, same_path};
use crate::score::Score;
use crate::scoring::features::{features_of, row_of, FeatureValue, ScoringFeatures, FEATURE_COUNT};
use crate::scoring::ScoringContext;
use crate::text::{blank, is_blank};
use vstd::prelude::*;

verus! {

/// Configuration of model inference.
#[derive(Debug, Clone)]
pub struct MLScorerConfig {
    /// Absolute path to the model file.
    pub model_path: String,
    /// Optional path to the parity fixture. When set, the parity check runs at
    /// startup, and the scorer is refused if it fails.
    pub parity_path: Option<String>,
    /// Name of the model's input tensor.
    pub input_tensor_name: String,
    /// Name of the model's output tensor.
    pub output_tensor_name: String,
    /// Number of session instances in the pool.
    pub pool_size: usize,
    /// Maximum batch size to submit per inference call.
    pub max_batch: usize,
    /// Pad inputs up to a multiple of this value.
    pub batch_pad_to: usize,
}

/// Why a configuration is refused.
#[derive(Debug, Clone, Copy, PartialEq, Eq, Structural)]
pub enum MLConfigError {
    ZeroPoolSize,
    ZeroMaxBatch,
    ZeroBatchPadTo,
}

impl MLScorerConfig {
    /// Checks that every count is at least one; the first that is not is reported.
    pub fn validate(&self) -> (r: Result<(), MLConfigError>)
        ensures
            r == (if self.pool_size == 0 {
                Err(MLConfigError::ZeroPoolSize)
            } else if self.max_batch == 0 {
                Err(MLConfigError::ZeroMaxBatch)
            } else if self.batch_pad_to == 0 {
                Err(MLConfigError::ZeroBatchPadTo)
            } else {
                Ok(())
            }),
    {
        if self.pool_size == 0 {
            return Err(MLConfigError::ZeroPoolSize);
        }
        if self.max_batch == 0 {
            return Err(MLConfigError::ZeroMaxBatch);
        }
        if self.batch_pad_to == 0 {
            return Err(MLConfigError::ZeroBatchPadTo);
        }
        Ok(())
    }
}

/// Picks sessions of a pool in turn.
#[derive(Debug, Clone, Copy)]
pub struct RoundRobin {
    pub next: usize,
}

impl RoundRobin {
    /// Starts with the first session.
    pub fn new() -> (r: Self)
        ensures
            r.next == 0,
    {
        RoundRobin { next: 0 }
    }

    /// The session to use, out of `n`.
    pub fn pick(&mut self, n: usize) -> (i: usize)
        requires
            n > 0,
        ensures
            i == old(self).next % n,
            i < n,
            final(self).next == (if old(self).next == usize::MAX {
                0
            } else {
                old(self).next + 1
            }),
    {
        let i: usize = self.next % n;
        self.next = self.next.wrapping_add(1);
        i
    }
}

/// Whether `rows` is the size of a batch of `n`: the least multiple of `pad_to` that
/// holds it.
pub open spec fn is_padded(rows: int, n: int, pad_to: int) -> bool {
    &&& rows % pad_to == 0
    &&& n <= rows < n + pad_to
}

/// The number of rows of a batch of `n` candidates, padded to a multiple.
pub fn padded_rows(n: usize, pad_to: usize) -> (rows: usize)
    requires
        pad_to > 0,
        n % pad_to == 0 || n - n % pad_to + pad_to <= usize::MAX,
    ensures
        is_padded(rows as int, n as int, pad_to as int),
{
    let rem: usize = n % pad_to;
    if rem == 0 {
        n
    } else {
        proof {
            let q = n as int / pad_to as int;
            vstd::arithmetic::div_mod::lemma_fundamental_div_mod(n as int, pad_to as int);
            assert(n - rem + pad_to == (q + 1) * pad_to) by (nonlinear_arith)
                requires
                    n == pad_to * q + rem,
            ;
            vstd::arithmetic::div_mod::lemma_mod_multiples_basic(q + 1, pad_to as int);
        }
        n - rem + pad_to
    }
}

/// Whether ranges are the chunks of `n` items: consecutive, from the first to the
/// last item, each of `max` items but for the last, which has what is left.
pub open spec fn are_chunks(chunks: Seq<(usize, usize)>, n: int, max: int) -> bool {
    &&& n == 0 <==> chunks.len() == 0
    &&& chunks.len() > 0 ==> chunks[0].0 == 0 && chunks.last().1 == n
    &&& forall|k: int|
        0 <= k < chunks.len() ==> (#[trigger] chunks[k]).0 < chunks[k].1 && chunks[k].1
            - chunks[k].0 <= max
    &&& forall|k: int|
        0 <= k < chunks.len() - 1 ==> (#[trigger] chunks[k]).1 - chunks[k].0 == max && chunks[k
            + 1].0 == chunks[k].1
}

/// Splits `n` items into chunks of at most `max`.
pub fn plan_chunks(n: usize, max: usize) -> (chunks: Vec<(usize, usize)>)
    requires
        max > 0,
    ensures
        are_chunks(chunks@, n as int, max as int),
{
    let mut chunks: Vec<(usize, usize)> = Vec::new();
    let mut start: usize = 0;
    while start < n
        invariant
            max > 0,
            start <= n,
            start == 0 <==> chunks@.len() == 0,
            chunks@.len() > 0 ==> chunks@[0].0 == 0 && chunks@.last().1 == start,
            start < n ==> forall|k: int|
                0 <= k < chunks@.len() ==> (#[trigger] chunks@[k]).1 - chunks@[k].0 == max,
            forall|k: int|
                0 <= k < chunks@.len() ==> (#[trigger] chunks@[k]).0 < chunks@[k].1 && chunks@[k].1
                    - chunks@[k].0 <= max,
            forall|k: int|
                0 <= k < chunks@.len() - 1 ==> (#[trigger] chunks@[k]).1 - chunks@[k].0 == max
                    && chunks@[k + 1].0 == chunks@[k].1,
        decreases n - start,
    {
        let end: usize = if n - start <= max {
            n
        } else {
            start + max
        };
        chunks.push((start, end));
        start = end;
    }
    chunks
}

/// The zero row.
pub open spec fn zero_row() -> Seq<FeatureValue> {
    Seq::new(FEATURE_COUNT as nat, |i: int| FeatureValue::Fraction { num: 0, den: 1 })
}

/// The row at position `i` of a batch: the features of a candidate, or padding.
pub open spec fn batch_row(
    candidates: Seq<AdCandidate>,
    ctx: ScoringContext<'_>,
    i: int,
) -> Seq<FeatureValue> {
    if i < candidates.len() {
        row_of(features_of(candidates[i], ctx))
    } else {
        zero_row()
    }
}

fn zeros() -> (row: Vec<FeatureValue>)
    ensures
        row@ == zero_row(),
{
    let mut row: Vec<FeatureValue> = Vec::with_capacity(FEATURE_COUNT);
    for i in 0..FEATURE_COUNT
        invariant
            row@ == zero_row().take(i as int),
    {
        row.push(FeatureValue::Fraction { num: 0, den: 1 });
        assert(zero_row().take(i + 1) =~= zero_row().take(i as int).push(
            FeatureValue::Fraction { num: 0, den: 1 },
        ));
    }
    assert(zero_row().take(FEATURE_COUNT as int) =~= zero_row());
    row
}

/// The feature rows of a batch: one per candidate, and zero rows up to `rows`.
pub fn batch_rows(
    candidates: &[AdCandidate],
    ctx: &ScoringContext<'_>,
    rows: usize,
) -> (out: Vec<Vec<FeatureValue>>)
    requires
        candidates@.len() <= rows,
    ensures
        out@.len() == rows,
        forall|i: int| 0 <= i < rows ==> (#[trigger] out@[i])@ == batch_row(candidates@, *ctx, i),
{
    let mut out: Vec<Vec<FeatureValue>> = Vec::new();
    let n: usize = candidates.len();
    for i in 0..rows
        invariant
            n == candidates@.len() <= rows,
            out@.len() == i,
            forall|j: int|
                0 <= j < i ==> (#[trigger] out@[j])@ == batch_row(candidates@, *ctx, j),
    {
        let mut row = zeros();
        if i < n {
            ScoringFeatures::extract(&candidates[i], ctx).pack_into(row.as_mut_slice());
        }
        assert(row@ =~= batch_row(candidates@, *ctx, i as int));
        out.push(row);
    }
    out
}

/// Why the output of a model is refused.
#[derive(Debug, Clone, Copy, PartialEq, Eq, Structural)]
pub enum OutputError {
    /// There are fewer scores than candidates.
    TooShort { got: usize, expected: usize },
    /// A score is no number.
    NotANumber,
}

/// Whether one of the first `n` scores is no number.
pub open spec fn any_nan(scores: Seq<Score>, n: int) -> bool {
    exists|i: int| 0 <= i < n && (#[trigger] scores[i]).nan()
}

/// What is wrong with a model's output for `n` candidates, if anything.
pub open spec fn output_error(scores: Seq<Score>, n: int) -> Option<OutputError> {
    if scores.len() < n {
        Some(OutputError::TooShort { got: scores.len() as usize, expected: n as usize })
    } else if any_nan(scores, n) {
        Some(OutputError::NotANumber)
    } else {
        None
    }
}

/// Checks a model's output for `n` candidates. Scores past the first `n` belong to
/// padding and are not looked at.
pub fn check_output(scores: &Vec<Score>, n: usize) -> (r: Result<(), OutputError>)
    ensures
        match r {
            Ok(_) => output_error(scores@, n as int) is None,
            Err(e) => output_error(scores@, n as int) == Some(e),
        },
{
    if scores.len() < n {
        return Err(OutputError::TooShort { got: scores.len(), expected: n });
    }
    for i in 0..n
        invariant
            n <= scores@.len(),
            forall|j: int| 0 <= j < i ==> !(#[trigger] scores@[j]).nan(),
    {
        if scores[i].is_nan() {
            return Err(OutputError::NotANumber);
        }
    }
    Ok(())
}

/// The candidates with the scores of the chunk from `start` to `end` replaced.
pub open spec fn chunk_scored(
    candidates: Seq<AdCandidate>,
    start: int,
    end: int,
    scores: Seq<Score>,
) -> Seq<AdCandidate> {
    Seq::new(
        candidates.len(),
        |i: int|
            if start <= i < end {
                AdCandidate { score: scores[i - start], ..candidates[i] }
            } else {
                candidates[i]
            },
    )
}

/// The candidates with all scores zero.
pub open spec fn unscored(candidates: Seq<AdCandidate>) -> Seq<AdCandidate> {
    candidates.map_values(|c: AdCandidate| AdCandidate { score: Score { bits: 0 }, ..c })
}

/// Takes the outcome of inference on the chunk from `start` to `end`: `None` where
/// inference failed. A usable output sets the scores of the chunk; otherwise every
/// score is reset, those of earlier chunks too, and `false` says that the whole
/// batch is to go to the fallback.
pub fn finish_chunk(
    candidates: &mut Vec<AdCandidate>,
    start: usize,
    end: usize,
    output: &Option<Vec<Score>>,
) -> (usable: bool)
    requires
        start <= end <= old(candidates)@.len(),
    ensures
        usable == (output is Some && output_error(output->0@, end - start) is None),
        final(candidates)@ == (if usable {
            chunk_scored(old(candidates)@, start as int, end as int, output->0@)
        } else {
            unscored(old(candidates)@)
        }),
{
    if let Some(scores) = output {
        if check_output(scores, end - start).is_ok() {
            for i in start..end
                invariant
                    start <= end <= candidates@.len(),
                    end - start <= scores@.len(),
                    candidates@ == chunk_scored(
                        old(candidates)@,
                        start as int,
                        i as int,
                        scores@,
                    ),
            {
                let mut c = candidates[i];
                c.score = scores[i - start];
                candidates.set(i, c);
                assert(candidates@ =~= chunk_scored(
                    old(candidates)@,
                    start as int,
                    i + 1,
                    scores@,
                ));
            }
            return true;
        }
    }
    reset_scores(candidates);
    false
}

/// Resets every score.
pub fn reset_scores(candidates: &mut Vec<AdCandidate>)
    ensures
        final(candidates)@ == unscored(old(candidates)@),
{
    let n: usize = candidates.len();
    for i in 0..n
        invariant
            n == candidates@.len() == old(candidates)@.len(),
            forall|j: int| 0 <= j < i ==> candidates@[j] == unscored(old(candidates)@)[j],
            forall|j: int| i <= j < n ==> candidates@[j] == old(candidates)@[j],
    {
        let mut c = candidates[i];
        c.score = Score::zero();
        candidates.set(i, c);
    }
    assert(candidates@ =~= unscored(old(candidates)@));
}

/// Why the parity check refuses a model.
#[derive(Debug, Clone, Copy, PartialEq, Eq, Structural)]
pub enum ParityError {
    /// A record has the wrong number of features.
    FeatureCount { got: usize },
    /// The model's score is too far from the expected one.
    Drift,
    /// There was no record.
    NoRecords,
}

/// The progress of a parity check.
#[derive(Debug, Clone, Copy)]
pub struct ParityCheck {
    pub records: usize,
}

impl ParityCheck {
    /// A check that has seen no record.
    pub fn new() -> (c: Self)
        ensures
            c.records == 0,
    {
        ParityCheck { records: 0 }
    }

    /// Whether a line of the fixture holds a record: blank lines do not.
    pub fn has_record(&self, line: &str) -> (b: bool)
        ensures
            b == !blank(line@),
    {
        !is_blank(line)
    }

    /// Whether a record can be run through the model.
    pub fn accept(&self, features: usize) -> (r: Result<(), ParityError>)
        ensures
            r == (if features == FEATURE_COUNT {
                Ok(())
            } else {
                Err(ParityError::FeatureCount { got: features })
            }),
    {
        if features != FEATURE_COUNT {
            return Err(ParityError::FeatureCount { got: features });
        }
        Ok(())
    }

    /// Takes the comparison of the model's score with the expected one.
    pub fn compared(&mut self, drifted: bool) -> (r: Result<(), ParityError>)
        requires
            old(self).records < usize::MAX,
        ensures
            r == (if drifted {
                Err(ParityError::Drift)
            } else {
                Ok(())
            }),
            final(self).records == (if drifted {
                old(self).records as int
            } else {
                old(self).records + 1
            }),
    {
        if drifted {
            return Err(ParityError::Drift);
        }
        self.records = self.records + 1;
        Ok(())
    }

    /// The result of the check: a fixture without records proves nothing.
    pub fn finish(&self) -> (r: Result<usize, ParityError>)
        ensures
            r == (if self.records == 0 {
                Err(ParityError::NoRecords)
            } else {
                Ok(self.records)
            }),
    {
        if self.records == 0 {
            return Err(ParityError::NoRecords);
        }
        Ok(self.records)
    }
}

/// What happened to a watched file.
#[derive(Debug, Clone, Copy, PartialEq, Eq, Structural)]
pub enum FileChange {
    Modified,
    Created,
    Other,
}

/// Whether one of the paths is the model's.
pub open spec fn touches(paths: Seq<String>, model_path: Seq<char>) -> bool {
    exists|i: int| 0 <= i < paths.len() && same_path((#[trigger] paths[i])@, model_path)
}

/// Whether a file event calls for the model to be loaded again: the model file was
/// modified or created.
pub fn should_reload(paths: &Vec<String>, model_path: &str, change: FileChange) -> (b: bool)
    ensures
        b == (touches(paths@, model_path@) && change != FileChange::Other),
{
    let n: usize = paths.len();
    let mut touched = false;
    for i in 0..n
        invariant
            n == paths@.len(),
            touched <==> exists|j: int|
                0 <= j < i && same_path((#[trigger] paths@[j])@, model_path@),
    {
        if is_same_path(paths[i].as_str(), model_path) {
            touched = true;
        }
    }
    touched && change != FileChange::Other
}

/// No partial score is ever left: a failed chunk leaves every candidate of the pass
/// at zero, whatever earlier chunks had set.
pub proof fn law_failure_leaves_no_partial_score(candidates: Seq<AdCandidate>, i: int)
    requires
        0 <= i < candidates.len(),
    ensures
        unscored(candidates)[i].score == (Score { bits: 0 }),
        unscored(candidates)[i].campaign_id == candidates[i].campaign_id,
        unscored(candidates)[i].bid_price_cents == candidates[i].bid_price_cents,
{
}

/// The chunks cover the candidates: every index lies in some chunk.
pub proof fn law_chunks_cover(chunks: Seq<(usize, usize)>, n: int, max: int, i: int)
    requires
        are_chunks(chunks, n, max),
        0 <= i < n,
    ensures
        exists|k: int| 0 <= k < chunks.len() && (#[trigger] chunks[k]).0 <= i < chunks[k].1,
{
    lemma_chunk_of(chunks, n, max, i, chunks.len() - 1);
}

proof fn lemma_chunk_of(chunks: Seq<(usize, usize)>, n: int, max: int, i: int, k: int)
    requires
        are_chunks(chunks, n, max),
        0 <= k < chunks.len(),
        0 <= i < chunks[k].1,
    ensures
        exists|j: int| 0 <= j < chunks.len() && (#[trigger] chunks[j]).0 <= i < chunks[j].1,
    decreases k,
{
    if i < chunks[k].0 {
        assert(k > 0);
        assert(chunks[k - 1].1 == chunks[(k - 1) + 1].0);
        lemma_chunk_of(chunks, n, max, i, k - 1);
    } else {
        assert(chunks[k].0 <= i < chunks[k].1);
    }
}

/// The candidates after the outputs of the first `m` chunks were taken over.
pub open spec fn after_chunks(
    candidates: Seq<AdCandidate>,
    chunks: Seq<(usize, usize)>,
    outputs: Seq<Seq<Score>>,
    m: nat,
) -> Seq<AdCandidate>
    decreases m,
{
    if m == 0 {
        candidates
    } else {
        chunk_scored(
            after_chunks(candidates, chunks, outputs, (m - 1) as nat),
            chunks[m - 1].0 as int,
            chunks[m - 1].1 as int,
            outputs[m - 1],
        )
    }
}

/// A pass whose chunks all succeed scores every candidate once: the candidate at
/// `i` has the score that its chunk's output gives it, and is otherwise as it was.
pub proof fn law_pass_scores_every_candidate(
    candidates: Seq<AdCandidate>,
    chunks: Seq<(usize, usize)>,
    outputs: Seq<Seq<Score>>,
    max: int,
    k: int,
    i: int,
)
    requires
        are_chunks(chunks, candidates.len() as int, max),
        0 <= k < chunks.len(),
        chunks[k].0 <= i < chunks[k].1,
    ensures
        0 <= i < candidates.len(),
        after_chunks(candidates, chunks, outputs, chunks.len())[i] == (AdCandidate {
            score: outputs[k][i - chunks[k].0],
            ..candidates[i]
        }),
{
    lemma_chunks_ascend(chunks, candidates.len() as int, max, k, chunks.len() - 1);
    lemma_after_chunks(candidates, chunks, outputs, max, k, i, chunks.len());
}

proof fn lemma_chunks_ascend(chunks: Seq<(usize, usize)>, n: int, max: int, a: int, b: int)
    requires
        are_chunks(chunks, n, max),
        0 <= a <= b < chunks.len(),
    ensures
        chunks[a].1 <= chunks[b].1,
        a < b ==> chunks[a].1 <= chunks[b].0,
    decreases b - a,
{
    if a < b {
        lemma_chunks_ascend(chunks, n, max, a, b - 1);
        assert(chunks[(b - 1) + 1].0 == chunks[b - 1].1);
    }
}

proof fn lemma_after_chunks(
    candidates: Seq<AdCandidate>,
    chunks: Seq<(usize, usize)>,
    outputs: Seq<Seq<Score>>,
    max: int,
    k: int,
    i: int,
    m: nat,
)
    requires
        are_chunks(chunks, candidates.len() as int, max),
        0 <= k < chunks.len(),
        chunks[k].0 <= i < chunks[k].1,
        i < candidates.len(),
        m <= chunks.len(),
    ensures
        after_chunks(candidates, chunks, outputs, m).len() == candidates.len(),
        after_chunks(candidates, chunks, outputs, m)[i] == (if k < m {
            AdCandidate { score: outputs[k][i - chunks[k].0], ..candidates[i] }
        } else {
            candidates[i]
        }),
    decreases m,
{
    if m > 0 {
        lemma_after_chunks(candidates, chunks, outputs, max, k, i, (m - 1) as nat);
        if m - 1 < k {
            lemma_chunks_ascend(chunks, candidates.len() as int, max, m - 1, k);
        } else if k < m - 1 {
            lemma_chunks_ascend(chunks, candidates.len() as int, max, k, m - 1);
        }
    }
}

/// The size of a padded batch is unique.
pub proof fn law_padding_is_unique(a: int, b: int, n: int, pad_to: int)
    requires
        pad_to > 0,
        is_padded(a, n, pad_to),
        is_padded(b, n, pad_to),
    ensures
        a == b,
{
    vstd::arithmetic::div_mod::lemma_fundamental_div_mod(a, pad_to);
    vstd::arithmetic::div_mod::lemma_fundamental_div_mod(b, pad_to);
    let (p, q) = (a / pad_to, b / pad_to);
    assert(p == q) by (nonlinear_arith)
        requires
            a == pad_to * p,
            b == pad_to * q,
            a - b < pad_to,
            b - a < pad_to,
            pad_to > 0,
    ;
}

/// A padded batch holds its candidates and less than one multiple more; a batch that
/// is a multiple already gets no padding.
pub proof fn law_padding_is_least(rows: int, n: int, pad_to: int)
    requires
        pad_to > 0,
        is_padded(rows, n, pad_to),
    ensures
        rows % pad_to == 0,
        rows >= n,
        rows - n < pad_to,
        n % pad_to == 0 ==> rows == n,
{
    if n % pad_to == 0 {
        law_padding_is_unique(rows, n, n, pad_to);
    }
}

/// The chunks stand one after the other: each begins a full chunk after the one
/// before it and ends a full chunk later, or at the end.
pub proof fn law_chunk_bounds(chunks: Seq<(usize, usize)>, n: int, max: int, k: int)
    requires
        are_chunks(chunks, n, max),
        0 <= k < chunks.len(),
    ensures
        chunks[k].0 == k * max,
        k + 1 < chunks.len() ==> chunks[k].1 == (k + 1) * max,
        k + 1 == chunks.len() ==> chunks[k].1 == n && n - k * max <= max,
        chunks[k].0 < chunks[k].1,
    decreases k,
{
    if k > 0 {
        law_chunk_bounds(chunks, n, max, k - 1);
        assert(chunks[k - 1 + 1].0 == chunks[k - 1].1);
        assert((k - 1 + 1) * max == k * max);
    }
    assert((k + 1) * max == k * max + max) by (nonlinear_arith);
    assert(0 * max == 0);
}

/// The rows of a batch: the features of the candidates, in their order, and then rows
/// of zeros, all of the same width.
pub proof fn law_batch_rows(candidates: Seq<AdCandidate>, ctx: ScoringContext<'_>, i: int, j: int)
    requires
        0 <= i,
        0 <= j < FEATURE_COUNT,
    ensures
        i < candidates.len() ==> batch_row(candidates, ctx, i) == row_of(
            features_of(candidates[i], ctx),
        ),
        i >= candidates.len() ==> batch_row(candidates, ctx, i).len() == FEATURE_COUNT && batch_row(
            candidates,
            ctx,
            i,
        )[j] == (FeatureValue::Fraction { num: 0, den: 1 }),
{
}

/// An output is usable exactly if it has a score for every candidate and each of these
/// is a number; a missing score is reported before one that is no number.
pub proof fn law_usable_outputs(scores: Seq<Score>, n: usize)
    requires
        scores.len() <= usize::MAX,
    ensures
        output_error(scores, n as int) is None <==> scores.len() >= n && forall|i: int|
            0 <= i < n ==> !(#[trigger] scores[i]).nan(),
        scores.len() < n ==> output_error(scores, n as int) == Some(
            OutputError::TooShort { got: scores.len() as usize, expected: n },
        ),
        scores.len() >= n && output_error(scores, n as int) is Some ==> output_error(
            scores,
            n as int,
        ) == Some(OutputError::NotANumber),
{
}

/// A chunk's output goes to the candidates of the chunk, in order, and to no other.
pub proof fn law_chunk_gets_its_output(
    candidates: Seq<AdCandidate>,
    start: int,
    end: int,
    scores: Seq<Score>,
    i: int,
)
    requires
        0 <= start <= end <= candidates.len(),
        0 <= i < candidates.len(),
    ensures
        ({
            let after = chunk_scored(candidates, start, end, scores);
            &&& after.len() == candidates.len()
            &&& start <= i < end ==> after[i].score == scores[i - start]
            &&& i < start || i >= end ==> after[i].score == candidates[i].score
            &&& after[i].campaign_id == candidates[i].campaign_id
            &&& after[i].creative_id == candidates[i].creative_id
            &&& after[i].bid_price_cents == candidates[i].bid_price_cents
        }),
{
}

/// A file event concerns the model exactly if one of its paths is the model's.
pub proof fn law_events_name_the_model(paths: Seq<String>, model_path: Seq<char>, i: int)
    requires
        0 <= i < paths.len(),
    ensures
        same_path(paths[i]@, model_path) ==> touches(paths, model_path),
        (forall|k: int| 0 <= k < paths.len() ==> !same_path((#[trigger] paths[k])@, model_path))
            ==> !touches(paths, model_path),
{
}

} // verus!
