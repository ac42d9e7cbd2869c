//! Resolves the pipeline outcome into a response.
use crate::model::candidate::ImpWinner;
use crate::model::context::{BidContext, PipelineOutcome};
use crate::model::openrtb::{Bid, BidRequest, BidResponse, NoBidReason, SeatBid, User};
use crate::notice::{NoNoticeUrl, NoticeUrlBuilder, WinNoticeRequest};
use crate::pipeline::stages::user_enrichment::{user_id, user_id_of};
use crate::text::{decimal, decimal_text, law_decimal_is_read_back, number_of};
use vstd::prelude::*;
use vstd::string::StringExecFns;

verus! {

/// Final stage: resolves the pipeline outcome into a decision. A request that is
/// still pending gets a no-bid; one with winners gets a response with one bid per
/// winner.
pub struct ResponseBuildStage;

/// The price of a winner in millionths of the currency unit.
pub open spec fn price_micros(winner: ImpWinner) -> int {
    winner.bid_price_cents * 10_000
}

/// Whether a notice request is the one for the given winner.
pub open spec fn is_notice_for(
    req: WinNoticeRequest<'_>,
    request: BidRequest,
    winner: ImpWinner,
) -> bool {
    &&& req.request_id@ == request.id@
    &&& req.imp_id@ == winner.imp_id@
    &&& req.campaign_id == winner.campaign_id
    &&& req.creative_id == winner.creative_id
    &&& req.clearing_price_micros == price_micros(winner)
    &&& req.user_id@ == (match user_id_of(request) {
        Some(id) => id@,
        None => ""@,
    })
}

/// Whether a bid is the one for the given winner, with the given notice URL.
pub open spec fn is_bid_for(
    bid: Bid,
    request: BidRequest,
    winner: ImpWinner,
    nurl: Option<String>,
) -> bool {
    &&& bid.id@ == request.id@ + "-"@ + winner.imp_id@
    &&& bid.impid@ == winner.imp_id@
    &&& bid.price_micros == price_micros(winner)
    &&& bid.cid is Some && bid.cid->0@ == decimal_text(winner.campaign_id as nat)
    &&& bid.crid is Some && bid.crid->0@ == decimal_text(winner.creative_id as nat)
    &&& bid.nurl == nurl
    &&& bid.cat@.len() == 0
    &&& bid.attr@.len() == 0
    &&& bid.adid is None && bid.burl is None && bid.lurl is None && bid.adm is None
    &&& bid.adomain is None && bid.bundle is None && bid.iurl is None && bid.tactic is None
    &&& bid.api is None && bid.protocol is None && bid.qagmediarating is None
    &&& bid.language is None && bid.dealid is None && bid.w is None && bid.h is None
    &&& bid.wratio is None && bid.hratio is None && bid.exp is None && bid.ext is None
}

/// Whether a response carries one bid per winner, with the given notice URLs.
pub open spec fn is_response(
    response: BidResponse,
    request: BidRequest,
    winners: Seq<ImpWinner>,
    nurls: Seq<Option<String>>,
) -> bool {
    &&& response.id@ == request.id@
    &&& response.bidid is None && response.customdata is None
    &&& response.nbr is None && response.ext is None
    &&& response.cur is Some && response.cur->0@ == "USD"@
    &&& response.seatbid@.len() == 1
    &&& response.seatbid@[0].seat is None
    &&& response.seatbid@[0].group == 0
    &&& response.seatbid@[0].ext is None
    &&& response.seatbid@[0].bid@.len() == winners.len()
    &&& forall|i: int|
        0 <= i < winners.len() ==> is_bid_for(
            #[trigger] response.seatbid@[0].bid@[i],
            request,
            winners[i],
            nurls[i],
        )
}

/// The notice request of a winner.
pub fn notice_request<'a>(request: &'a BidRequest, winner: &'a ImpWinner) -> (req: WinNoticeRequest<
    'a,
>)
    ensures
        is_notice_for(req, *request, *winner),
{
    let user: &'a str = match user_id(request) {
        Some(id) => id.as_str(),
        None => "",
    };
    WinNoticeRequest {
        request_id: request.id.as_str(),
        imp_id: winner.imp_id.as_str(),
        campaign_id: winner.campaign_id,
        creative_id: winner.creative_id,
        clearing_price_micros: winner.bid_price_cents as i64 * 10_000,
        user_id: user,
    }
}

fn bid_for(request: &BidRequest, winner: &ImpWinner, nurl: Option<String>) -> (bid: Bid)
    ensures
        is_bid_for(bid, *request, *winner, nurl),
{
    let mut id = request.id.clone();
    id.append("-");
    id.append(winner.imp_id.as_str());
    Bid {
        id,
        impid: winner.imp_id.clone(),
        price_micros: winner.bid_price_cents as i64 * 10_000,
        adid: None,
        nurl,
        burl: None,
        lurl: None,
        adm: None,
        adomain: None,
        bundle: None,
        iurl: None,
        cid: Some(decimal(winner.campaign_id as u64)),
        crid: Some(decimal(winner.creative_id as u64)),
        tactic: None,
        cat: Vec::new(),
        attr: Vec::new(),
        api: None,
        protocol: None,
        qagmediarating: None,
        language: None,
        dealid: None,
        w: None,
        h: None,
        wratio: None,
        hratio: None,
        exp: None,
        ext: None,
    }
}

/// The response with one bid per winner, with the given notice URLs.
pub fn build_response(
    request: &BidRequest,
    winners: &Vec<ImpWinner>,
    nurls: &Vec<Option<String>>,
) -> (response: BidResponse)
    requires
        winners@.len() == nurls@.len(),
    ensures
        is_response(response, *request, winners@, nurls@),
{
    let mut bids: Vec<Bid> = Vec::new();
    let n: usize = winners.len();
    for i in 0..n
        invariant
            n == winners@.len() == nurls@.len(),
            bids@.len() == i,
            forall|j: int|
                0 <= j < i ==> is_bid_for(
                    #[trigger] bids@[j],
                    *request,
                    winners@[j],
                    nurls@[j],
                ),
    {
        let nurl: Option<String> = match &nurls[i] {
            Some(url) => Some(url.clone()),
            None => None,
        };
        bids.push(bid_for(request, &winners[i], nurl));
    }
    let mut seatbid: Vec<SeatBid> = Vec::new();
    seatbid.push(SeatBid { bid: bids, seat: None, group: 0, ext: None });
    BidResponse {
        id: request.id.clone(),
        seatbid,
        bidid: None,
        cur: Some("USD".to_owned()),
        customdata: None,
        nbr: None,
        ext: None,
    }
}

/// Whether a notice URL is what a builder answers to the notice request of a
/// winner.
pub open spec fn answers<B: NoticeUrlBuilder>(
    builder: &B,
    request: BidRequest,
    winner: ImpWinner,
    nurl: Option<String>,
) -> bool {
    exists|req: WinNoticeRequest<'_>| #[trigger]
        is_notice_for(req, request, winner) && call_ensures(B::build, (builder, &req), nurl)
}

/// Whether notice URLs are what a builder answers to the notice requests of the
/// winners.
pub open spec fn answered<B: NoticeUrlBuilder>(
    builder: &B,
    request: BidRequest,
    winners: Seq<ImpWinner>,
    nurls: Seq<Option<String>>,
) -> bool {
    &&& nurls.len() == winners.len()
    &&& forall|i: int|
        0 <= i < winners.len() ==> answers(builder, request, winners[i], #[trigger] nurls[i])
}

impl ResponseBuildStage {
    /// The stage's name.
    pub fn name(&self) -> (name: &'static str)
        ensures
            name@ == "response_build"@,
    {
        "response_build"
    }

    /// Builds the response of a bid, asking the builder for the notice URL of each
    /// winner. A request that is still pending becomes a no-bid.
    pub fn execute<B: NoticeUrlBuilder>(&self, ctx: &mut BidContext, builder: &B)
        ensures
            final(ctx).same_input(*old(ctx)),
            final(ctx).candidates == old(ctx).candidates,
            final(ctx).winners == old(ctx).winners,
            final(ctx).freq_cap_results == old(ctx).freq_cap_results,
            final(ctx).outcome == (if old(ctx).outcome == PipelineOutcome::Pending {
                PipelineOutcome::NoBid(NoBidReason(NoBidReason::NO_ELIGIBLE_BIDS))
            } else {
                old(ctx).outcome
            }),
            final(ctx).outcome != PipelineOutcome::Pending,
            old(ctx).outcome != PipelineOutcome::Bid ==> final(ctx).bid_response
                == old(ctx).bid_response,
            old(ctx).outcome == PipelineOutcome::Bid ==> final(ctx).bid_response is Some
                && exists|nurls: Seq<Option<String>>| #[trigger]
                answered(builder, old(ctx).request, old(ctx).winners@, nurls) && is_response(
                    final(ctx).bid_response->0,
                    old(ctx).request,
                    old(ctx).winners@,
                    nurls,
                ),
    {
        match ctx.outcome {
            PipelineOutcome::Pending => {
                ctx.outcome = PipelineOutcome::NoBid(NoBidReason(NoBidReason::NO_ELIGIBLE_BIDS));
            },
            PipelineOutcome::NoBid(_) => {},
            PipelineOutcome::Bid => {
                let mut nurls: Vec<Option<String>> = Vec::new();
                let n: usize = ctx.winners.len();
                for i in 0..n
                    invariant
                        n == ctx.winners@.len(),
                        *ctx == *old(ctx),
                        nurls@.len() == i,
                        forall|j: int|
                            0 <= j < i ==> answers(
                                builder,
                                ctx.request,
                                ctx.winners@[j],
                                #[trigger] nurls@[j],
                            ),
                {
                    let req = notice_request(&ctx.request, &ctx.winners[i]);
                    let url = builder.build(&req);
                    nurls.push(url);
                    assert(is_notice_for(req, ctx.request, ctx.winners@[i as int]));
                    assert(answers(builder, ctx.request, ctx.winners@[i as int], url));
                }
                assert(answered(builder, ctx.request, ctx.winners@, nurls@));
                ctx.bid_response = Some(build_response(&ctx.request, &ctx.winners, &nurls));
            },
        }
    }
}

/// Without a configured notice URL, no bid carries one.
pub proof fn law_no_notice_url_configured(
    builder: &NoNoticeUrl,
    request: BidRequest,
    winners: Seq<ImpWinner>,
    nurls: Seq<Option<String>>,
    i: int,
)
    requires
        answered(builder, request, winners, nurls),
        0 <= i < winners.len(),
    ensures
        nurls[i] is None,
{
    assert(answers(builder, request, winners[i], nurls[i]));
}

/// The bid of a winner: it names the impression, offers the winner's price, a cent
/// being ten thousand millionths, and its campaign and creative ids read back as the
/// winner's.
pub proof fn law_bids_carry_their_winner(
    response: BidResponse,
    request: BidRequest,
    winners: Seq<ImpWinner>,
    nurls: Seq<Option<String>>,
    i: int,
)
    requires
        is_response(response, request, winners, nurls),
        0 <= i < winners.len(),
    ensures
        response.id@ == request.id@,
        response.seatbid@.len() == 1,
        response.seatbid@[0].bid@.len() == winners.len(),
        response.cur is Some && response.cur->0@ == seq!['U', 'S', 'D'],
        ({
            let bid = response.seatbid@[0].bid@[i];
            let n = request.id@.len() as int;
            &&& bid.impid@ == winners[i].imp_id@
            &&& bid.price_micros == 10_000 * winners[i].bid_price_cents
            &&& bid.cid is Some && number_of(bid.cid->0@) == winners[i].campaign_id
            &&& bid.crid is Some && number_of(bid.crid->0@) == winners[i].creative_id
            &&& bid.nurl == nurls[i]
            &&& bid.id@.len() == n + 1 + winners[i].imp_id@.len()
            &&& bid.id@.take(n) == request.id@
            &&& bid.id@[n] == '-'
            &&& bid.id@.skip(n + 1) == winners[i].imp_id@
        }),
{
    reveal_strlit("-");
    reveal_strlit("USD");
    assert("USD"@ =~= seq!['U', 'S', 'D']);
    let bid = response.seatbid@[0].bid@[i];
    assert(is_bid_for(bid, request, winners[i], nurls[i]));
    law_decimal_is_read_back(winners[i].campaign_id as nat);
    law_decimal_is_read_back(winners[i].creative_id as nat);
    let n = request.id@.len() as int;
    assert("-"@.len() == 1 && "-"@[0] == '-');
    assert(bid.id@.take(n) =~= request.id@);
    assert(bid.id@.skip(n + 1) =~= winners[i].imp_id@);
}

/// The notice request of a winner tells the winner's impression, campaign, creative and
/// price, and the request and user it was won for.
pub proof fn law_notices_carry_their_winner(
    req: WinNoticeRequest<'_>,
    request: BidRequest,
    winner: ImpWinner,
    user: User,
)
    requires
        is_notice_for(req, request, winner),
    ensures
        req.request_id@ == request.id@,
        req.imp_id@ == winner.imp_id@,
        req.campaign_id == winner.campaign_id,
        req.creative_id == winner.creative_id,
        req.clearing_price_micros == 10_000 * winner.bid_price_cents,
        request.user == Some(user) && user.id is Some ==> req.user_id@ == user.id->0@,
        request.user is None ==> req.user_id@.len() == 0,
        request.user == Some(user) && user.id is None ==> req.user_id@.len() == 0,
{
    reveal_strlit("");
}

} // verus!
