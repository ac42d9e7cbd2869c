use bidder_core::catalog::campaign_catalog::{CampaignCatalog, GeoIndex};
use bidder_core::catalog::types::{Campaign, Creative, DeviceTargetType, GeoKey, GeoKind};
use bidder_core::events::{EventPublisher, NoOpEventPublisher};
use bidder_core::exchange::OpenRtbGenericAdapter;
use bidder_core::frequency::{CapResult, FreqCapOutcome};
use bidder_core::model::candidate::{has_candidates, AdCandidate, ImpWinner};
use bidder_core::model::context::{BidContext, PipelineOutcome};
use bidder_core::model::openrtb::{
    AdEvent, AdFormat, Banner, BidRequest, BidResponse, ClickEvent, Device, DeviceType, Geo, Imp,
    NoBidReason, Regs, User, Video,
};
use bidder_core::notice::{NoNoticeUrl, NoticeUrlBuilder, WinNoticeRequest};
use bidder_core::pacing::local::LocalBudgetPacer;
use bidder_core::pacing::{BudgetPacer, PaceDecision};
use bidder_core::pipeline::stages::budget_pacing::BudgetPacingStage;
use bidder_core::pipeline::stages::candidate_limit::CandidateLimitStage;
use bidder_core::pipeline::stages::candidate_retrieval::CandidateRetrievalStage;
use bidder_core::pipeline::stages::freq_cap::FreqCapStage;
use bidder_core::pipeline::stages::ranking::RankingStage;
use bidder_core::pipeline::stages::request_validation::{validate, RequestValidationStage};
use bidder_core::pipeline::stages::response_build::ResponseBuildStage;
use bidder_core::pipeline::stages::scoring::ScoringStage;
use bidder_core::pipeline::stages::user_enrichment::UserEnrichmentStage;
use bidder_core::pipeline::{Pipeline, PipelineStep, StageVerdict};
use bidder_core::config::LatencyBudgetConfig;
use bidder_core::score::Score;
use bidder_core::span::Span;
use roaring::RoaringBitmap;
use std::collections::HashMap;
use std::sync::Arc;

fn score(v: f32) -> Score {
    Score::from_bits(v.to_bits())
}

fn imp(id: &str) -> Imp {
    Imp { id: id.to_string(), ..Imp::default() }
}

fn request(imps: Vec<Imp>) -> BidRequest {
    BidRequest { id: "test".to_string(), imp: imps, ..BidRequest::default() }
}

fn start() -> Span {
    Span::from_secs(100)
}

fn make_ctx(candidates: Vec<Vec<AdCandidate>>) -> BidContext {
    let mut ctx = BidContext::new(request(vec![imp("imp1"), imp("imp2")]), start());
    ctx.candidates = candidates;
    ctx
}

fn priced(campaign_id: u32, price: i32) -> AdCandidate {
    AdCandidate {
        campaign_id,
        creative_id: 1,
        bid_price_cents: price,
        score: score(0.0),
        daily_cap_imps: 10,
        hourly_cap_imps: 3,
    }
}

fn scored(campaign_id: u32, v: f32) -> AdCandidate {
    AdCandidate { score: score(v), ..priced(campaign_id, 100) }
}

fn prices(list: &Vec<AdCandidate>) -> Vec<i32> {
    let mut p: Vec<i32> = list.iter().map(|c| c.bid_price_cents).collect();
    p.sort_unstable();
    p
}

fn campaigns(list: &Vec<AdCandidate>) -> Vec<u32> {
    list.iter().map(|c| c.campaign_id).collect()
}

fn no_bid(code: u32) -> PipelineOutcome {
    PipelineOutcome::NoBid(NoBidReason(code))
}

#[test]
fn keeps_top_k_by_price() {
    let stage = CandidateLimitStage { top_k: 3 };
    let mut ctx = make_ctx(vec![vec![
        priced(1, 10),
        priced(2, 50),
        priced(3, 30),
        priced(4, 80),
        priced(5, 20),
    ]]);
    stage.execute(&mut ctx);
    assert_eq!(prices(&ctx.candidates[0]), vec![30, 50, 80]);
}

#[test]
fn noop_when_under_limit() {
    let stage = CandidateLimitStage { top_k: 10 };
    let mut ctx = make_ctx(vec![vec![priced(1, 100), priced(2, 200)]]);
    stage.execute(&mut ctx);
    assert_eq!(ctx.candidates[0].len(), 2);
}

#[test]
fn empty_lists_are_passed_over() {
    assert!(!has_candidates(&Vec::new()));
    assert!(has_candidates(&vec![priced(1, 10)]));
}

#[test]
fn noop_on_empty() {
    let stage = CandidateLimitStage { top_k: 5 };
    let mut ctx = make_ctx(vec![vec![]]);
    stage.execute(&mut ctx);
    assert_eq!(ctx.candidates[0].len(), 0);
}

#[test]
fn equal_prices_keep_the_lower_campaign() {
    let mut ctx = make_ctx(vec![vec![priced(3, 10), priced(1, 10), priced(2, 10)], vec![]]);
    CandidateLimitStage { top_k: 2 }.execute(&mut ctx);
    let mut kept = campaigns(&ctx.candidates[0]);
    kept.sort_unstable();
    assert_eq!(kept, vec![1, 2]);
    CandidateLimitStage { top_k: 0 }.execute(&mut ctx);
    assert!(ctx.candidates[0].is_empty());
}

#[test]
fn picks_highest_score() {
    let mut ctx = make_ctx(vec![vec![scored(1, 0.3), scored(2, 0.8), scored(3, 0.5)]]);
    RankingStage.execute(&mut ctx);
    assert_eq!(ctx.winners.len(), 1);
    assert_eq!(ctx.winners[0].campaign_id, 2);
    assert_eq!(ctx.outcome, PipelineOutcome::Bid);
}

#[test]
fn empty_candidates_gives_no_bid() {
    let mut ctx = make_ctx(vec![vec![]]);
    RankingStage.execute(&mut ctx);
    assert_eq!(ctx.winners.len(), 0);
    assert_eq!(ctx.outcome, no_bid(NoBidReason::NO_ELIGIBLE_BIDS));
}

#[test]
fn one_winner_per_impression() {
    let mut ctx = make_ctx(vec![
        vec![scored(1, 0.9), scored(2, 0.5)],
        vec![scored(3, 0.7), scored(4, 0.2)],
    ]);
    RankingStage.execute(&mut ctx);
    assert_eq!(ctx.winners.len(), 2);
    assert_eq!(ctx.winners[0].campaign_id, 1);
    assert_eq!(ctx.winners[1].campaign_id, 3);
    assert_eq!(ctx.winners[1].imp_id, "imp2");
}

#[test]
fn tie_broken_by_price() {
    let a = AdCandidate { score: score(0.5), ..priced(10, 50) };
    let b = AdCandidate { score: score(0.5), ..priced(20, 200) };
    let mut ctx = make_ctx(vec![vec![a, b]]);
    RankingStage.execute(&mut ctx);
    assert_eq!(ctx.winners[0].campaign_id, 20);
    let mut swapped = make_ctx(vec![vec![b, a]]);
    RankingStage.execute(&mut swapped);
    assert_eq!(swapped.winners[0].campaign_id, 20);
}

#[test]
fn full_ties_go_to_the_last_and_positions_name_unknown_impressions() {
    let mut ctx = make_ctx(vec![
        vec![],
        vec![scored(1, 0.5), scored(2, 0.5)],
        vec![scored(3, -1.0)],
    ]);
    RankingStage.execute(&mut ctx);
    assert_eq!(ctx.winners[0].campaign_id, 2);
    assert_eq!(ctx.winners[1].imp_id, "2");
}

#[test]
fn losers_get_their_reservation_back() {
    let mut pacer = LocalBudgetPacer::new();
    pacer.reload(vec![(1, 100), (2, 100)]);
    let mut ctx = make_ctx(vec![vec![scored(1, 0.9), scored(2, 0.5)], vec![]]);
    BudgetPacingStage.execute(&mut ctx, &mut pacer);
    assert_eq!(ctx.outcome, PipelineOutcome::Pending);
    RankingStage.execute(&mut ctx);
    RankingStage.release_losers(&ctx, &mut pacer);
    assert_eq!(pacer.check_and_reserve(1, 1), PaceDecision::Exhausted);
    assert_eq!(pacer.check_and_reserve(2, 100), PaceDecision::HasBudget);
}

#[test]
fn only_the_winners_of_a_request_are_charged() {
    let mut pacer = LocalBudgetPacer::new();
    pacer.reload(vec![(1, 150), (2, 250), (3, 0)]);
    let mut ctx = make_ctx(vec![
        vec![scored(1, 0.2), scored(2, 0.9), scored(3, 1.0)],
        vec![scored(1, 0.8), scored(2, 0.1)],
    ]);
    BudgetPacingStage.execute(&mut ctx, &mut pacer);
    RankingStage.execute(&mut ctx);
    RankingStage.release_losers(&ctx, &mut pacer);
    let winners: Vec<u32> = ctx.winners.iter().map(|w| w.campaign_id).collect();
    assert_eq!(winners, vec![2, 1]);
    // Each has one price of 100 less: 50 and 150 are left.
    assert_eq!(pacer.check_and_reserve(1, 50), PaceDecision::HasBudget);
    assert_eq!(pacer.check_and_reserve(1, 1), PaceDecision::Exhausted);
    assert_eq!(pacer.check_and_reserve(2, 149), PaceDecision::HasBudget);
    assert_eq!(pacer.check_and_reserve(2, 1), PaceDecision::HasBudget);
    assert_eq!(pacer.check_and_reserve(2, 1), PaceDecision::Exhausted);
}

#[test]
fn exhausted_campaigns_leave() {
    let mut pacer = LocalBudgetPacer::new();
    pacer.reload(vec![(1, 100), (2, 0)]);
    let mut ctx = make_ctx(vec![vec![priced(1, 10), priced(2, 10), priced(3, 10)], vec![priced(2, 1)]]);
    BudgetPacingStage.execute(&mut ctx, &mut pacer);
    assert_eq!(campaigns(&ctx.candidates[0]), vec![1]);
    assert!(ctx.candidates[1].is_empty());
    assert_eq!(ctx.outcome, PipelineOutcome::Pending);
    let mut none = make_ctx(vec![vec![priced(2, 10)]]);
    BudgetPacingStage.execute(&mut none, &mut pacer);
    assert_eq!(none.outcome, no_bid(NoBidReason::NO_ELIGIBLE_BIDS));
    let mut no_list = make_ctx(vec![]);
    BudgetPacingStage.execute(&mut no_list, &mut pacer);
    assert_eq!(no_list.outcome, no_bid(NoBidReason::NO_ELIGIBLE_BIDS));
}

fn gdpr(consent: Option<&str>) -> BidRequest {
    let mut r = request(vec![imp("i")]);
    r.regs = Some(Regs { gdpr: Some(1), ..Regs::default() });
    if let Some(text) = consent {
        let ext: serde_json::Value = serde_json::from_str(text).unwrap();
        r.user = Some(User { ext: Some(ext), ..User::default() });
    }
    r
}

fn validated(r: BidRequest) -> PipelineOutcome {
    let mut ctx = BidContext::new(r, start());
    RequestValidationStage.execute(&mut ctx);
    ctx.outcome
}

#[test]
fn invalid_requests_are_rejected() {
    assert_eq!(validated(request(vec![])), no_bid(NoBidReason::INVALID_REQUEST));
    let mut unnamed = request(vec![imp("i")]);
    unnamed.id = String::new();
    assert_eq!(validated(unnamed), no_bid(NoBidReason::INVALID_REQUEST));
    assert_eq!(validated(request(vec![imp("i")])), PipelineOutcome::Pending);
}

#[test]
fn gdpr_needs_consent() {
    let blocked = no_bid(NoBidReason::REQUEST_BLOCKED_PRIVACY);
    assert_eq!(validated(gdpr(None)), blocked);
    assert_eq!(validated(gdpr(Some("{\"consent\":\"\"}"))), blocked);
    assert_eq!(validated(gdpr(Some("{\"consent\":7}"))), blocked);
    assert_eq!(validated(gdpr(Some("{\"other\":\"x\"}"))), blocked);
    assert_eq!(validated(gdpr(Some("\"consent\""))), blocked);
    assert_eq!(validated(gdpr(Some("{\"consent\":\"BOEFEAy\"}"))), PipelineOutcome::Pending);
    let mut outside = gdpr(None);
    outside.regs = Some(Regs { gdpr: Some(0), ..Regs::default() });
    assert_eq!(validated(outside), PipelineOutcome::Pending);
    assert_eq!(validate(&gdpr(None), Some("x")), None);
}

#[test]
fn enrichment_attaches_catalog_and_segments() {
    let catalog = Arc::new(CampaignCatalog::default());
    let mut ctx = make_ctx(vec![]);
    UserEnrichmentStage.execute(&mut ctx, catalog.clone(), Some(vec![1, 2]));
    assert!(ctx.catalog.is_some());
    assert!(ctx.segment_ids.is_empty());
    ctx.request.user = Some(User { id: Some("u".to_string()), ..User::default() });
    UserEnrichmentStage.execute(&mut ctx, catalog.clone(), Some(vec![1, 2]));
    assert_eq!(ctx.segment_ids, vec![1, 2]);
    UserEnrichmentStage.execute(&mut ctx, catalog, None);
    assert_eq!(ctx.segment_ids, vec![1, 2]);
}

fn capped(campaign_id: u32, capped: bool) -> CapResult {
    CapResult { campaign_id, capped, day_count: None, hour_count: None }
}

#[test]
fn capped_campaigns_leave() {
    let mut ctx = make_ctx(vec![vec![priced(1, 1)], vec![priced(1, 1), priced(2, 1), priced(1, 2)]]);
    let outcome = FreqCapOutcome::Checked(vec![capped(1, true), capped(2, false)]);
    FreqCapStage.apply(&mut ctx, 1, outcome);
    assert_eq!(campaigns(&ctx.candidates[0]), vec![1]);
    assert_eq!(campaigns(&ctx.candidates[1]), vec![2]);
    assert_eq!(ctx.freq_cap_results, vec![(1, 1, true), (1, 2, false)]);
    FreqCapStage.apply(&mut ctx, 0, FreqCapOutcome::SkippedTimeout);
    assert_eq!(campaigns(&ctx.candidates[0]), vec![1]);
    assert_eq!(ctx.freq_cap_results.len(), 2);
}

#[test]
fn cap_queries_name_user_and_device() {
    let mut r = request(vec![imp("i")]);
    assert!(FreqCapStage.query(&r).is_none());
    r.user = Some(User { id: Some("u".to_string()), ..User::default() });
    let q = FreqCapStage.query(&r).unwrap();
    assert_eq!((q.user_id.as_str(), q.device_type_val), ("u", 0));
    r.device = Some(Device { devicetype: Some(DeviceType(4)), ..Device::default() });
    assert_eq!(FreqCapStage.query(&r).unwrap().device_type_val, 4);
}

fn bitmap(ids: &[u32]) -> RoaringBitmap {
    let mut bm = RoaringBitmap::new();
    for id in ids {
        bm.insert(*id);
    }
    bm
}

fn creative(id: u32, campaign_id: u32, ad_format: AdFormat) -> Creative {
    Creative {
        id,
        campaign_id,
        ad_format,
        click_url: "https://example.com".to_string(),
        image_url: None,
        width: Some(300),
        height: Some(250),
    }
}

fn campaign(id: u32) -> Campaign {
    Campaign {
        id,
        advertiser_id: 1,
        bid_floor_cents: 5,
        daily_budget_cents: 100_000,
        hourly_budget_cents: 10_000,
        daily_cap_imps: 10,
        hourly_cap_imps: 3,
    }
}

fn make_catalog() -> Arc<CampaignCatalog> {
    let mut records = HashMap::new();
    records.insert(1, campaign(1));
    let mut creatives = HashMap::new();
    creatives.insert(1, vec![creative(10, 1, AdFormat::Banner), creative(11, 1, AdFormat::Video)]);
    let mut geo = GeoIndex::new();
    geo.insert(GeoKey { kind: GeoKind::Country, code: "USA".to_string() }, bitmap(&[1]));
    geo.insert(GeoKey { kind: GeoKind::Metro, code: "501".to_string() }, bitmap(&[1]));
    let mut device = HashMap::new();
    device.insert(DeviceTargetType::Desktop.code(), bitmap(&[1]));
    let mut format = HashMap::new();
    format.insert(AdFormat::Banner.code(), bitmap(&[1]));
    format.insert(AdFormat::Video.code(), bitmap(&[1]));
    Arc::new(CampaignCatalog::new_for_test(
        records,
        creatives,
        HashMap::new(),
        geo,
        device,
        format,
        RoaringBitmap::new(),
        bitmap(&[1]),
    ))
}

fn golden_request() -> BidRequest {
    let mut video = imp("imp-video");
    video.video = Some(Video::default());
    let mut banner = imp("imp-banner");
    banner.banner = Some(Banner::default());
    let mut r = request(vec![video, banner]);
    r.device = Some(Device {
        devicetype: Some(DeviceType(2)),
        geo: Some(Geo {
            country: Some("USA".to_string()),
            metro: Some("501".to_string()),
            ..Geo::default()
        }),
        ..Device::default()
    });
    r
}

#[test]
fn retrieval_fills_every_impression() {
    let mut ctx = BidContext::new(golden_request(), start());
    CandidateRetrievalStage.execute(&mut ctx);
    assert!(ctx.candidates.is_empty());
    ctx.catalog = Some(make_catalog());
    CandidateRetrievalStage.execute(&mut ctx);
    assert_eq!(ctx.candidates.len(), 2);
    assert_eq!(ctx.candidates[0][0].creative_id, 11);
    assert_eq!(ctx.candidates[1][0].creative_id, 10);
    assert_eq!(ctx.candidates[1][0].bid_price_cents, 5);
    assert_eq!(ctx.candidates[1][0].hourly_cap_imps, 3);
    // On a device type that the campaign does not target there is nothing.
    ctx.request.device = Some(Device { devicetype: Some(DeviceType(5)), ..Device::default() });
    CandidateRetrievalStage.execute(&mut ctx);
    assert!(ctx.candidates[0].is_empty());
}

#[test]
fn retrieval_without_impressions_keeps_one_list() {
    let mut ctx = BidContext::new(request(vec![]), start());
    ctx.catalog = Some(make_catalog());
    CandidateRetrievalStage.execute(&mut ctx);
    assert_eq!(ctx.candidates.len(), 1);
    assert!(ctx.candidates[0].is_empty());
}

#[test]
fn retrieval_needs_a_record_and_a_fitting_creative() {
    let mut records = HashMap::new();
    records.insert(1, campaign(1));
    records.insert(2, campaign(2));
    let mut creatives = HashMap::new();
    creatives.insert(1, vec![creative(10, 1, AdFormat::Native)]);
    creatives.insert(3, vec![creative(30, 3, AdFormat::Banner)]);
    let catalog = CampaignCatalog::new_for_test(
        records,
        creatives,
        HashMap::new(),
        GeoIndex::new(),
        HashMap::new(),
        HashMap::new(),
        RoaringBitmap::new(),
        bitmap(&[1, 2, 3]),
    );
    let mut banner = imp("b");
    banner.banner = Some(Banner::default());
    let mut ctx = BidContext::new(request(vec![banner, imp("any")]), start());
    ctx.catalog = Some(Arc::new(catalog));
    CandidateRetrievalStage.execute(&mut ctx);
    assert!(ctx.candidates[0].is_empty());
    assert_eq!(campaigns(&ctx.candidates[1]), vec![1]);
}

fn latency_config() -> LatencyBudgetConfig {
    LatencyBudgetConfig {
        http_parse_ms: 2,
        request_validate_ms: 1,
        user_enrichment_ms: 5,
        candidate_retrieval_ms: 5,
        candidate_limit_ms: 1,
        scoring_ms: 2,
        frequency_cap_ms: 5,
        ranking_ms: 1,
        budget_pacing_ms: 2,
        response_build_ms: 2,
        pipeline_deadline_ms: 50,
        http_timeout_ms: 50,
        win_timeout_ms: 500,
    }
}

fn ms(n: u64) -> Span {
    Span { nanos: start().nanos + Span::from_millis(n).nanos }
}

#[test]
fn golden_request_produces_bid() {
    let mut pacer = LocalBudgetPacer::new();
    pacer.reload(vec![(1, 100_000)]);
    let limit = CandidateLimitStage { top_k: 20 };
    let pipeline = Pipeline::new(latency_config())
        .add_stage(RequestValidationStage.name())
        .add_stage(CandidateRetrievalStage.name())
        .add_stage(limit.name())
        .add_stage(BudgetPacingStage.name())
        .add_stage(RankingStage.name())
        .add_stage(ResponseBuildStage.name());
    let mut ctx = BidContext::new(golden_request(), start());
    ctx.catalog = Some(make_catalog());
    ctx.segment_ids = vec![];
    let mut done = 0;
    loop {
        let stage = match pipeline.next_step(&mut ctx, done, ms(1)) {
            PipelineStep::Run(i) => pipeline.stages[i],
            _ => break,
        };
        match stage {
            "request_validation" => RequestValidationStage.execute(&mut ctx),
            "candidate_retrieval" => CandidateRetrievalStage.execute(&mut ctx),
            "candidate_limit" => limit.execute(&mut ctx),
            "budget_pacing" => BudgetPacingStage.execute(&mut ctx, &mut pacer),
            "ranking" => RankingStage.execute(&mut ctx),
            _ => ResponseBuildStage.execute(&mut ctx, &NoNoticeUrl),
        }
        let report = pipeline.stage_done(stage, Span::from_micros(500), false, ctx.outcome);
        assert!(!report.budget_exceeded);
        if report.verdict != StageVerdict::Continue {
            break;
        }
        done += 1;
    }
    assert_eq!(ctx.outcome, PipelineOutcome::Bid, "expected Bid, got {:?}", ctx.outcome);
    assert!(!ctx.winners.is_empty(), "winners should be non-empty");
    assert!(ctx.bid_response.is_some(), "bid_response should be populated");
    let response = ctx.bid_response.unwrap();
    assert_eq!(response.seatbid[0].bid.len(), 2);
    assert_eq!(response.seatbid[0].bid[0].impid, "imp-video");
    assert_eq!(response.seatbid[0].bid[0].nurl, None);
}

#[test]
fn the_deadline_ends_a_request() {
    let pipeline = Pipeline::new(latency_config()).add_stage("ranking");
    let mut ctx = make_ctx(vec![]);
    assert_eq!(pipeline.next_step(&mut ctx, 0, ms(49)), PipelineStep::Run(0));
    assert_eq!(ctx.outcome, PipelineOutcome::Pending);
    assert_eq!(pipeline.next_step(&mut ctx, 1, ms(60)), PipelineStep::Finished);
    assert_eq!(pipeline.next_step(&mut ctx, 0, ms(50)), PipelineStep::DeadlineExceeded);
    assert_eq!(ctx.outcome, no_bid(NoBidReason::PIPELINE_DEADLINE));
    assert_eq!(ctx.elapsed_ms(ms(50)), 50);
    assert_eq!(ctx.elapsed_ms(Span::from_secs(1)), 0);
}

#[test]
fn stages_are_judged() {
    let pipeline = Pipeline::new(latency_config());
    let on_time = pipeline.stage_done("ranking", Span::from_millis(1), false, PipelineOutcome::Bid);
    assert!(!on_time.budget_exceeded);
    assert_eq!(on_time.verdict, StageVerdict::Continue);
    let late = Span { nanos: 1_000_001 };
    let rejected = pipeline.stage_done("ranking", late, false, no_bid(2));
    assert!(rejected.budget_exceeded);
    assert_eq!(rejected.verdict, StageVerdict::ShortCircuit);
    let failed = pipeline.stage_done("unknown", Span::from_secs(9), true, PipelineOutcome::Pending);
    assert!(!failed.budget_exceeded);
    assert_eq!(failed.verdict, StageVerdict::Abort);
}

struct EchoUrl;

impl NoticeUrlBuilder for EchoUrl {
    fn build(&self, req: &WinNoticeRequest<'_>) -> Option<String> {
        Some(format!(
            "{}|{}|{}|{}|{}|{}",
            req.request_id,
            req.imp_id,
            req.campaign_id,
            req.creative_id,
            req.clearing_price_micros,
            req.user_id
        ))
    }
}

#[test]
fn responses_carry_one_bid_per_winner() {
    let mut ctx = make_ctx(vec![]);
    ctx.request.user = Some(User { id: Some("u-1".to_string()), ..User::default() });
    ctx.winners = vec![ImpWinner {
        imp_id: "imp1".to_string(),
        campaign_id: 42,
        creative_id: 7,
        bid_price_cents: 123,
        score: score(0.5),
    }];
    ctx.outcome = PipelineOutcome::Bid;
    ResponseBuildStage.execute(&mut ctx, &EchoUrl);
    let response = ctx.bid_response.unwrap();
    assert_eq!(response.id, "test");
    assert_eq!(response.cur, Some("USD".to_string()));
    let bid = &response.seatbid[0].bid[0];
    assert_eq!(bid.id, "test-imp1");
    assert_eq!(bid.price_micros, 1_230_000);
    assert_eq!(bid.cid, Some("42".to_string()));
    assert_eq!(bid.crid, Some("7".to_string()));
    assert_eq!(bid.nurl, Some("test|imp1|42|7|1230000|u-1".to_string()));
}

#[test]
fn pending_requests_become_no_bids() {
    let mut ctx = make_ctx(vec![]);
    ResponseBuildStage.execute(&mut ctx, &NoNoticeUrl);
    assert_eq!(ctx.outcome, no_bid(NoBidReason::NO_ELIGIBLE_BIDS));
    assert!(ctx.bid_response.is_none());
    let mut rejected = make_ctx(vec![]);
    rejected.outcome = no_bid(2);
    ResponseBuildStage.execute(&mut rejected, &NoNoticeUrl);
    assert_eq!(rejected.outcome, no_bid(2));
    let r = BidResponse::no_bid("x".to_string(), NoBidReason(NoBidReason::BELOW_FLOOR));
    assert_eq!(r.nbr, Some(NoBidReason(12)));
    assert!(r.seatbid.is_empty());
}

#[test]
fn scoring_context_of_a_request() {
    let stage = ScoringStage { top_markets: vec!["602".to_string(), "501".to_string()] };
    let mut ctx = BidContext::new(golden_request(), start());
    ctx.segment_ids = vec![4, 5];
    let saturday = 2 * 86400 + 13 * 3600;
    let s = stage.context(&ctx, 1, saturday);
    assert_eq!(s.segment_ids, &[4, 5]);
    assert_eq!(s.device_type, Some(DeviceTargetType::Desktop));
    assert_eq!(s.ad_format, Some(AdFormat::Banner));
    assert_eq!(s.hour_of_day, 13);
    assert!(s.is_weekend);
    assert_eq!(s.user_id, "");
    assert!(s.is_top_market);
    let elsewhere = ScoringStage { top_markets: vec!["602".to_string()] };
    let s = elsewhere.context(&ctx, 9, 0);
    assert!(!s.is_top_market);
    assert!(!s.is_weekend);
    assert_eq!(s.ad_format, None);
}

#[test]
fn id_is_stable() {
    assert_eq!(OpenRtbGenericAdapter.id(), "openrtb-generic");
    assert_eq!(OpenRtbGenericAdapter.response_content_type(), "application/json");
}

#[test]
fn events_can_go_nowhere() {
    let click = ClickEvent {
        request_id: "r".to_string(),
        imp_id: "i".to_string(),
        campaign_id: "1".to_string(),
        timestamp_ms: 0,
    };
    NoOpEventPublisher.publish("t", &[1], AdEvent::Click(click));
}
