//! Rejects requests that must not be bid on.
use crate::model::context::{BidContext, PipelineOutcome};
use crate::model::openrtb::{
    json_member, json_members, json_str, json_text, BidRequest, NoBidReason, Regs, User,
};
use crate::text::is_empty_text;
use vstd::prelude::*;

verus! {

pub struct RequestValidationStage;

/// The consent string of a request: `user.ext.consent`, if it is a string.
pub open spec fn consent_of(request: BidRequest) -> Option<Seq<char>> {
    match request.user {
        Some(user) => match user.ext {
            Some(ext) => if json_members(ext).contains_key("consent"@) {
                json_text(json_members(ext)["consent"@])
            } else {
                None
            },
            None => None,
        },
        None => None,
    }
}

/// Whether the request falls under GDPR.
pub open spec fn under_gdpr(request: BidRequest) -> bool {
    match request.regs {
        Some(regs) => regs.gdpr == Some(1u8),
        None => false,
    }
}

/// Why a request with the given consent string is rejected, if it is: it lacks an
/// id or impressions, or falls under GDPR without a consent string.
pub open spec fn rejection(request: BidRequest, consent: Option<Seq<char>>) -> Option<NoBidReason> {
    if request.id@.len() == 0 || request.imp@.len() == 0 {
        Some(NoBidReason(NoBidReason::INVALID_REQUEST))
    } else if under_gdpr(request) && (consent is None || consent->0.len() == 0) {
        Some(NoBidReason(NoBidReason::REQUEST_BLOCKED_PRIVACY))
    } else {
        None
    }
}

/// Checks a request whose consent string is known.
pub fn validate(request: &BidRequest, consent: Option<&str>) -> (rejected: Option<NoBidReason>)
    ensures
        rejected == rejection(
            *request,
            match consent {
                Some(s) => Some(s@),
                None => None,
            },
        ),
{
    if is_empty_text(request.id.as_str()) {
        return Some(NoBidReason(NoBidReason::INVALID_REQUEST));
    }
    if request.imp.is_empty() {
        return Some(NoBidReason(NoBidReason::INVALID_REQUEST));
    }
    if let Some(regs) = &request.regs {
        if regs.gdpr == Some(1) {
            let has_consent = match consent {
                Some(s) => !is_empty_text(s),
                None => false,
            };
            if !has_consent {
                return Some(NoBidReason(NoBidReason::REQUEST_BLOCKED_PRIVACY));
            }
        }
    }
    None
}

fn consent(request: &BidRequest) -> (c: Option<&str>)
    ensures
        match c {
            Some(s) => consent_of(*request) == Some(s@),
            None => consent_of(*request) is None,
        },
{
    let user = match &request.user {
        Some(user) => user,
        None => {
            return None;
        },
    };
    let ext = match &user.ext {
        Some(ext) => ext,
        None => {
            return None;
        },
    };
    match json_member(ext, "consent") {
        Some(v) => json_str(v),
        None => None,
    }
}

impl RequestValidationStage {
    /// The stage's name.
    pub fn name(&self) -> (name: &'static str)
        ensures
            name@ == "request_validation"@,
    {
        "request_validation"
    }

    /// Sets a no-bid outcome where the request is rejected.
    pub fn execute(&self, ctx: &mut BidContext)
        ensures
            final(ctx).same_input(*old(ctx)),
            final(ctx).candidates == old(ctx).candidates,
            final(ctx).winners == old(ctx).winners,
            final(ctx).freq_cap_results == old(ctx).freq_cap_results,
            final(ctx).bid_response == old(ctx).bid_response,
            final(ctx).outcome == (match rejection(old(ctx).request, consent_of(old(ctx).request)) {
                Some(reason) => PipelineOutcome::NoBid(reason),
                None => old(ctx).outcome,
            }),
    {
        let rejected = validate(&ctx.request, consent(&ctx.request));
        if let Some(reason) = rejected {
            ctx.outcome = PipelineOutcome::NoBid(reason);
        }
    }
}

/// A request that falls under GDPR passes validation only with a consent string;
/// one that does not passes whatever its consent string is.
pub proof fn law_consent_matters_under_gdpr_only(
    request: BidRequest,
    consent: Option<Seq<char>>,
)
    requires
        request.id@.len() > 0,
        request.imp@.len() > 0,
    ensures
        rejection(request, consent) is None <==> !under_gdpr(request) || (consent is Some
            && consent->0.len() > 0),
{
}

/// When a request is rejected: as invalid without an id or without an impression,
/// whatever else it says, and otherwise for privacy exactly if its regulations set
/// the GDPR flag to one and its consent string is missing or empty.
pub proof fn law_when_requests_are_rejected(
    request: BidRequest,
    regs: Regs,
    consent: Option<Seq<char>>,
)
    ensures
        ({
            let complete = request.id@.len() > 0 && request.imp@.len() > 0;
            let consents = consent is Some && consent->0.len() > 0;
            let gdpr = request.regs == Some(regs) && regs.gdpr == Some(1u8);
            &&& !complete ==> rejection(request, consent) == Some(NoBidReason(2))
            &&& complete && gdpr && !consents ==> rejection(request, consent) == Some(
                NoBidReason(13),
            )
            &&& complete && consents ==> rejection(request, consent) is None
            &&& complete && request.regs is None ==> rejection(request, consent) is None
            &&& complete && request.regs == Some(regs) && regs.gdpr != Some(1u8) ==> rejection(
                request,
                consent,
            ) is None
        }),
{
}

/// The consent string is the text under "consent" in the user's extension.
pub proof fn law_consent_is_in_the_users_extension(
    request: BidRequest,
    user: User,
    ext: serde_json::Value,
)
    ensures
        request.user is None ==> consent_of(request) is None,
        request.user == Some(user) && user.ext is None ==> consent_of(request) is None,
        request.user == Some(user) && user.ext == Some(ext) && !json_members(ext).contains_key(
            "consent"@,
        ) ==> consent_of(request) is None,
        request.user == Some(user) && user.ext == Some(ext) && json_members(ext).contains_key(
            "consent"@,
        ) ==> consent_of(request) == json_text(json_members(ext)["consent"@]),
{
}

} // verus!
