//! The bid pipeline.
pub mod stages;

use crate::config::LatencyBudgetConfig;
use crate::model::context::{BidContext, PipelineOutcome};
use crate::model::openrtb::NoBidReason;
use crate::span::Span;
use vstd::prelude::*;

verus! {

/// Orchestrates the ordered sequence of pipeline stages.
///
/// Each stage is executed in order. Per-stage latency is checked against the
/// declared budget: an exceeded budget is reported, but the stage result is still
/// used. Hard abort is handled by the `pipeline_deadline_ms` check before each
/// stage: if the cumulative elapsed time has crossed the pipeline deadline the
/// stage is skipped and a NoBid is set immediately.
pub struct Pipeline {
    pub stages: Vec<&'static str>,
    pub budget: LatencyBudgetConfig,
}

/// What to do next for a request.
#[derive(Debug, Clone, Copy, PartialEq, Eq, Structural)]
pub enum PipelineStep {
    /// Run the stage at this position.
    Run(usize),
    /// The deadline was crossed before the next stage: the request is a no-bid.
    DeadlineExceeded,
    /// The pipeline is through.
    Finished,
}

/// How a stage that ran leaves the pipeline.
#[derive(Debug, Clone, Copy, PartialEq, Eq, Structural)]
pub enum StageVerdict {
    /// Go on with the next stage.
    Continue,
    /// The stage set a no-bid outcome: the pipeline is through.
    ShortCircuit,
    /// The stage failed: the pipeline is aborted with its error.
    Abort,
}

/// What is to be reported of a stage that ran.
#[derive(Debug, Clone, Copy, PartialEq, Eq, Structural)]
pub struct StageReport {
    /// The stage took longer than its declared budget.
    pub budget_exceeded: bool,
    pub verdict: StageVerdict,
}

/// Whether an outcome ends the pipeline early. A bid does not: later stages still
/// build its response.
pub open spec fn ends_early(outcome: PipelineOutcome) -> bool {
    outcome is NoBid
}

impl Pipeline {
    /// Whether the deadline has been reached at `now`.
    pub open spec fn past_deadline(self, ctx: BidContext, now: Span) -> bool {
        ctx.elapsed(now) >= self.budget.pipeline_deadline_ms
    }

    /// The step that follows after `done` stages have run.
    pub open spec fn step_after(self, ctx: BidContext, done: usize, now: Span) -> PipelineStep {
        if done >= self.stages@.len() {
            PipelineStep::Finished
        } else if self.past_deadline(ctx, now) {
            PipelineStep::DeadlineExceeded
        } else {
            PipelineStep::Run(done)
        }
    }

    /// Whether a stage that took so long is over its budget. A stage without a
    /// declared budget never is.
    pub open spec fn over_budget(self, name: Seq<char>, took: Span) -> bool {
        match self.budget.stage_budget(name) {
            Some(ms) => took.nanos > ms * 1_000_000,
            None => false,
        }
    }

    /// A pipeline without stages.
    pub fn new(budget: LatencyBudgetConfig) -> (p: Self)
        ensures
            p.stages@ == Seq::<&'static str>::empty(),
            p.budget == budget,
    {
        Pipeline { stages: Vec::new(), budget }
    }

    /// The pipeline with one more stage at its end.
    pub fn add_stage(self, name: &'static str) -> (p: Self)
        ensures
            p.stages@ == self.stages@.push(name),
            p.budget == self.budget,
    {
        let mut p = self;
        p.stages.push(name);
        p
    }

    /// Decides what follows after `done` stages have run. Where the deadline has
    /// been crossed, the outcome becomes a no-bid.
    pub fn next_step(&self, ctx: &mut BidContext, done: usize, now: Span) -> (step: PipelineStep)
        ensures
            step == self.step_after(*old(ctx), done, now),
            final(ctx).same_input(*old(ctx)),
            final(ctx).candidates == old(ctx).candidates,
            final(ctx).winners == old(ctx).winners,
            final(ctx).freq_cap_results == old(ctx).freq_cap_results,
            final(ctx).bid_response == old(ctx).bid_response,
            final(ctx).outcome == (if step == PipelineStep::DeadlineExceeded {
                PipelineOutcome::NoBid(NoBidReason(NoBidReason::PIPELINE_DEADLINE))
            } else {
                old(ctx).outcome
            }),
    {
        if done >= self.stages.len() {
            return PipelineStep::Finished;
        }
        if ctx.elapsed_ms(now) >= self.budget.pipeline_deadline_ms {
            ctx.outcome = PipelineOutcome::NoBid(NoBidReason(NoBidReason::PIPELINE_DEADLINE));
            return PipelineStep::DeadlineExceeded;
        }
        PipelineStep::Run(done)
    }

    /// Judges a stage that ran: whether it kept to its budget, and whether the
    /// pipeline goes on.
    pub fn stage_done(
        &self,
        name: &str,
        took: Span,
        failed: bool,
        outcome: PipelineOutcome,
    ) -> (report: StageReport)
        ensures
            report.budget_exceeded == self.over_budget(name@, took),
            report.verdict == (if failed {
                StageVerdict::Abort
            } else if ends_early(outcome) {
                StageVerdict::ShortCircuit
            } else {
                StageVerdict::Continue
            }),
    {
        let budget_exceeded = match self.budget.budget_for_stage(name) {
            Some(ms) => took.nanos > (ms as u128) * 1_000_000,
            None => false,
        };
        let verdict = if failed {
            StageVerdict::Abort
        } else {
            match outcome {
                PipelineOutcome::NoBid(_) => StageVerdict::ShortCircuit,
                _ => StageVerdict::Continue,
            }
        };
        StageReport { budget_exceeded, verdict }
    }
}

/// No stage starts once the deadline has been reached.
pub proof fn law_no_stage_past_the_deadline(p: Pipeline, ctx: BidContext, done: usize, now: Span)
    requires
        p.past_deadline(ctx, now),
    ensures
        !(p.step_after(ctx, done, now) is Run),
{
}

/// Stages run in their order, each at most once: the stage that is run after
/// `done` stages is the one at that position.
pub proof fn law_stages_run_in_order(p: Pipeline, ctx: BidContext, done: usize, now: Span)
    ensures
        match p.step_after(ctx, done, now) {
            PipelineStep::Run(i) => i == done && i < p.stages@.len(),
            _ => true,
        },
{
}

/// The deadline, once reached, stays reached.
pub proof fn law_deadline_is_final(p: Pipeline, ctx: BidContext, now: Span, later: Span)
    requires
        p.past_deadline(ctx, now),
        later.nanos >= now.nanos,
    ensures
        p.past_deadline(ctx, later),
{
    let (a, b) = (now.since(ctx.started_at), later.since(ctx.started_at));
    assert(a / 1_000_000 <= b / 1_000_000) by (nonlinear_arith)
        requires
            a <= b,
    ;
}

/// Only a stage with a declared budget exceeds it, and one that exceeds it would
/// also do so by taking longer.
pub proof fn law_budget_is_monotone(p: Pipeline, name: Seq<char>, took: Span, longer: Span)
    requires
        p.over_budget(name, took),
        longer.nanos >= took.nanos,
    ensures
        p.budget.stage_budget(name) is Some,
        p.over_budget(name, longer),
{
}

/// The deadline is reached exactly when its milliseconds have gone by, in full, since
/// the request was received.
pub proof fn law_deadline_in_nanoseconds(p: Pipeline, ctx: BidContext, now: Span)
    ensures
        ctx.started_at.nanos <= now.nanos ==> (p.past_deadline(ctx, now) <==> now.nanos
            - ctx.started_at.nanos >= p.budget.pipeline_deadline_ms * 1_000_000),
        ctx.started_at.nanos > now.nanos ==> (p.past_deadline(ctx, now)
            <==> p.budget.pipeline_deadline_ms == 0),
{
}

/// What follows after some stages: the next one while there is one and time is left;
/// a pipeline that has run all its stages has finished, however late it is.
pub proof fn law_what_follows(p: Pipeline, ctx: BidContext, done: usize, now: Span)
    requires
        ctx.started_at.nanos <= now.nanos,
    ensures
        ({
            let late = now.nanos - ctx.started_at.nanos >= p.budget.pipeline_deadline_ms
                * 1_000_000;
            let step = p.step_after(ctx, done, now);
            &&& step == PipelineStep::Finished <==> done >= p.stages@.len()
            &&& step == PipelineStep::Run(done) <==> done < p.stages@.len() && !late
            &&& step == PipelineStep::DeadlineExceeded <==> done < p.stages@.len() && late
        }),
{
    law_deadline_in_nanoseconds(p, ctx, now);
}

/// A stage is over its budget exactly if it took longer than the budget's
/// milliseconds: taking just as long is not.
pub proof fn law_stage_budget_in_nanoseconds(p: Pipeline, name: Seq<char>, ms: u64, took: Span)
    ensures
        p.budget.stage_budget(name) == Some(ms) ==> (p.over_budget(name, took) <==> took.nanos > ms
            * 1_000_000),
        p.budget.stage_budget(name) is None ==> !p.over_budget(name, took),
{
}

/// Only a no-bid ends the pipeline early, whatever its reason.
pub proof fn law_only_a_no_bid_ends_early(reason: NoBidReason)
    ensures
        ends_early(PipelineOutcome::NoBid(reason)),
        !ends_early(PipelineOutcome::Pending),
        !ends_early(PipelineOutcome::Bid),
{
}

} // verus!
