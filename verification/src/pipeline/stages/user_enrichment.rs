//! Attaches what is known of the user.
use crate::catalog::campaign_catalog::CampaignCatalog;
use crate::catalog::types::SegmentId;
use crate::model::context::BidContext;
use crate::model::openrtb::{BidRequest, User};
use std::sync::Arc;
use vstd::prelude::*;

verus! {

/// Enriches the request context with user segment IDs and attaches the current
/// catalog snapshot.
///
/// Must run before candidate retrieval so that `ctx.segment_ids` and `ctx.catalog`
/// are populated. A missing `user.id` is not fatal: the pipeline continues with an
/// empty segment list.
pub struct UserEnrichmentStage;

/// The user id of a request.
pub open spec fn user_id_of(request: BidRequest) -> Option<String> {
    match request.user {
        Some(user) => user.id,
        None => None,
    }
}

/// The user id of a request, if it carries one.
pub fn user_id(request: &BidRequest) -> (id: Option<&String>)
    ensures
        match id {
            Some(s) => user_id_of(*request) == Some(*s),
            None => user_id_of(*request) is None,
        },
{
    match &request.user {
        Some(user) => user.id.as_ref(),
        None => None,
    }
}

impl UserEnrichmentStage {
    /// The stage's name.
    pub fn name(&self) -> (name: &'static str)
        ensures
            name@ == "user_enrichment"@,
    {
        "user_enrichment"
    }

    /// Attaches the catalog snapshot and, where they were fetched for the
    /// request's user, the segments. A failed fetch is not fatal: the segments stay
    /// as they are.
    pub fn execute(
        &self,
        ctx: &mut BidContext,
        catalog: Arc<CampaignCatalog>,
        fetched: Option<Vec<SegmentId>>,
    )
        ensures
            final(ctx).request == old(ctx).request,
            final(ctx).started_at == old(ctx).started_at,
            final(ctx).outcome == old(ctx).outcome,
            final(ctx).candidates == old(ctx).candidates,
            final(ctx).winners == old(ctx).winners,
            final(ctx).freq_cap_results == old(ctx).freq_cap_results,
            final(ctx).bid_response == old(ctx).bid_response,
            final(ctx).catalog == Some(catalog),
            final(ctx).segment_ids == (match fetched {
                Some(segments) => if user_id_of(old(ctx).request) is Some {
                    segments
                } else {
                    old(ctx).segment_ids
                },
                None => old(ctx).segment_ids,
            }),
    {
        ctx.catalog = Some(catalog);
        if user_id(&ctx.request).is_some() {
            if let Some(segments) = fetched {
                ctx.segment_ids = segments;
            }
        }
    }
}

/// The user id is that of the request's user.
pub proof fn law_user_id_is_the_users(request: BidRequest, user: User)
    ensures
        request.user == Some(user) ==> user_id_of(request) == user.id,
        request.user is None ==> user_id_of(request) is None,
{
}

} // verus!
