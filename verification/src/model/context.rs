//! Per-request state.
use crate::catalog::campaign_catalog::CampaignCatalog;
use crate::catalog::types::SegmentId;
use crate::model::candidate::{AdCandidate, ImpWinner};
use crate::model::openrtb::{BidRequest, BidResponse, NoBidReason};
use crate::span::Span;
use std::sync::Arc;
use vstd::prelude::*;

verus! {

/// Where a request stands.
#[derive(Debug, Clone, Copy, PartialEq, Eq, Structural)]
pub enum PipelineOutcome {
    Pending,
    NoBid(NoBidReason),
    Bid,
}

/// Per-request mutable state threaded through the pipeline.
pub struct BidContext {
    pub request: BidRequest,
    pub started_at: Span,
    pub outcome: PipelineOutcome,
    /// The catalog snapshot that the request is served from.
    pub catalog: Option<Arc<CampaignCatalog>>,
    /// The segments of the user.
    pub segment_ids: Vec<SegmentId>,
    /// The candidates of each impression.
    pub candidates: Vec<Vec<AdCandidate>>,
    /// The winners, at most one per impression.
    pub winners: Vec<ImpWinner>,
    /// (impression, campaign, capped) of every frequency-cap verdict.
    pub freq_cap_results: Vec<(usize, u32, bool)>,
    pub bid_response: Option<BidResponse>,
}

/// The candidate lists of all impressions.
pub open spec fn lists(candidates: Seq<Vec<AdCandidate>>) -> Seq<Seq<AdCandidate>> {
    candidates.map_values(|v: Vec<AdCandidate>| v@)
}

impl BidContext {
    /// What the request was received with, and what enrichment added to it, is the
    /// same in both contexts.
    pub open spec fn same_input(self, other: Self) -> bool {
        &&& self.request == other.request
        &&& self.started_at == other.started_at
        &&& self.catalog == other.catalog
        &&& self.segment_ids == other.segment_ids
    }

    /// Everything but the candidates is the same in both contexts.
    pub open spec fn same_but_candidates(self, other: Self) -> bool {
        &&& self.same_input(other)
        &&& self.outcome == other.outcome
        &&& self.winners == other.winners
        &&& self.freq_cap_results == other.freq_cap_results
        &&& self.bid_response == other.bid_response
    }

    /// A context for a request received at `started_at`.
    pub fn new(request: BidRequest, started_at: Span) -> (ctx: Self)
        ensures
            ctx.request == request,
            ctx.started_at == started_at,
            ctx.outcome == PipelineOutcome::Pending,
            ctx.catalog is None,
            ctx.segment_ids@ == Seq::<SegmentId>::empty(),
            ctx.candidates@ == Seq::<Vec<AdCandidate>>::empty(),
            ctx.winners@ == Seq::<ImpWinner>::empty(),
            ctx.freq_cap_results@ == Seq::<(usize, u32, bool)>::empty(),
            ctx.bid_response is None,
    {
        BidContext {
            request,
            started_at,
            outcome: PipelineOutcome::Pending,
            catalog: None,
            segment_ids: Vec::new(),
            candidates: Vec::new(),
            winners: Vec::new(),
            freq_cap_results: Vec::new(),
            bid_response: None,
        }
    }

    /// Whole milliseconds from the start of the request to `now`.
    pub open spec fn elapsed(self, now: Span) -> int {
        now.since(self.started_at) / 1_000_000
    }

    /// Milliseconds since the request was received; the largest value stands for
    /// all that lies above it.
    pub fn elapsed_ms(&self, now: Span) -> (ms: u64)
        ensures
            ms == (if self.elapsed(now) > u64::MAX {
                u64::MAX as int
            } else {
                self.elapsed(now)
            }),
    {
        let ms: u128 = now.elapsed_since(self.started_at).as_millis();
        if ms > u64::MAX as u128 {
            u64::MAX
        } else {
            ms as u64
        }
    }
}

/// The candidate lists stand in the order of the impressions, each as it is.
pub proof fn law_lists_are_the_candidates(candidates: Seq<Vec<AdCandidate>>, i: int)
    requires
        0 <= i < candidates.len(),
    ensures
        lists(candidates).len() == candidates.len(),
        lists(candidates)[i] == candidates[i]@,
{
}

/// Elapsed time is counted in whole milliseconds, rounded down.
pub proof fn law_elapsed_rounds_down(ctx: BidContext, now: Span)
    requires
        ctx.started_at.nanos <= now.nanos,
    ensures
        ctx.elapsed(now) * 1_000_000 <= now.nanos - ctx.started_at.nanos,
        now.nanos - ctx.started_at.nanos < (ctx.elapsed(now) + 1) * 1_000_000,
{
}

/// What contexts with the same input have in common.
pub proof fn law_same_input(a: BidContext, b: BidContext)
    ensures
        a.same_input(b) <==> a.request == b.request && a.started_at == b.started_at && a.catalog
            == b.catalog && a.segment_ids == b.segment_ids,
        a.same_but_candidates(b) ==> a.same_input(b) && a.outcome == b.outcome && a.winners
            == b.winners && a.freq_cap_results == b.freq_cap_results && a.bid_response
            == b.bid_response,
{
}

} // verus!
