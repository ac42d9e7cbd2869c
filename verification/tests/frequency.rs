use bidder_core::breaker::{BreakerConfig, CircuitBreaker};
use bidder_core::frequency::in_process::{
    AtomicCounter, CheckPlan, InProcessConfig, InProcessFrequencyCapper,
};
use bidder_core::frequency::{CapResult, CapWindow, FreqCapOutcome};
use bidder_core::model::candidate::AdCandidate;
use bidder_core::score::Score;
use bidder_core::span::Span;

fn breaker() -> CircuitBreaker {
    CircuitBreaker::new(BreakerConfig::redis("test"))
}

fn candidate(campaign_id: u32, daily: u32, hourly: u32) -> AdCandidate {
    AdCandidate {
        campaign_id,
        creative_id: 1,
        bid_price_cents: 100,
        score: Score::from_bits(0.5f32.to_bits()),
        daily_cap_imps: daily,
        hourly_cap_imps: hourly,
    }
}

fn verdict(campaign_id: u32, capped: bool) -> CapResult {
    CapResult { campaign_id, capped, day_count: None, hour_count: None }
}

fn counted(campaign_id: u32, capped: bool, day: i64, hour: i64) -> CapResult {
    CapResult { campaign_id, capped, day_count: Some(day), hour_count: Some(hour) }
}

fn begin(
    capper: &InProcessFrequencyCapper,
    user: &str,
    candidates: &[AdCandidate],
) -> (Vec<CapResult>, Vec<AdCandidate>) {
    match capper.begin_check(&mut breaker(), Span::from_secs(1), user, candidates) {
        CheckPlan::Read { results, cold } => (results, cold),
        CheckPlan::Skip => panic!("the breaker is closed"),
    }
}

fn checked(outcome: FreqCapOutcome) -> Vec<CapResult> {
    match outcome {
        FreqCapOutcome::Checked(results) => results,
        other => panic!("expected Checked, got {:?}", other),
    }
}

#[test]
fn cold_miss_falls_through_to_fallback() {
    let mut capper = InProcessFrequencyCapper::new(InProcessConfig::default());
    let candidates = vec![candidate(42, 10, 3)];
    let (results, cold) = begin(&capper, "user-1", &candidates);
    // The cold candidate is handed to the fallback.
    assert_eq!(cold.len(), 1);
    let fallback = FreqCapOutcome::Checked(vec![verdict(42, false)]);
    let results = checked(capper.finish_check("user-1", results, fallback));
    assert_eq!(results.len(), 1);
    assert_eq!(results[0].campaign_id, 42);
    assert!(!results[0].capped);
}

#[test]
fn warm_hit_skips_fallback() {
    let mut capper = InProcessFrequencyCapper::new(InProcessConfig::default());
    capper.record_impression("user-2", 99);
    let candidates = vec![candidate(99, 10, 3)];
    let (results, cold) = begin(&capper, "user-2", &candidates);
    assert_eq!(results.len(), 1);
    assert!(!results[0].capped, "1 impression < 10/3 cap, not capped");
    assert!(cold.is_empty(), "fallback called for warm cache hit");
}

#[test]
fn warm_hit_caps_when_count_exceeds_threshold() {
    let mut capper = InProcessFrequencyCapper::new(InProcessConfig::default());
    for _ in 0..4 {
        capper.record_impression("user-3", 99);
    }
    let candidates = vec![candidate(99, 100, 3)];
    let (results, _) = begin(&capper, "user-3", &candidates);
    assert!(results[0].capped, "4 impressions exceeds hourly_cap=3");
}

#[test]
fn capacity_cap_blocks_new_users_but_not_existing() {
    let cfg = InProcessConfig { cap_capacity: 2, ..InProcessConfig::default() };
    let mut capper = InProcessFrequencyCapper::new(cfg);
    let mut ops = Vec::new();
    for r in [capper.record_impression("u-a", 1), capper.record_impression("u-b", 1)] {
        assert!(r.cached);
        ops.push(r.day);
        ops.push(r.hour);
    }
    assert_eq!(capper.len(), 2);
    let r = capper.record_impression("u-c", 1);
    assert!(!r.cached);
    ops.push(r.day);
    ops.push(r.hour);
    assert_eq!(capper.len(), 2, "new user must not be inserted");
    capper.record_impression("u-a", 2);
    assert!(capper.lookup("u-a", 2).is_some());
    // The writes for u-c are still due.
    let user_ids: Vec<String> = ops.into_iter().map(|op| op.user_id).collect();
    assert!(user_ids.iter().any(|u| u == "u-c"));
}

#[test]
fn record_impression_queues_writes() {
    let mut capper = InProcessFrequencyCapper::new(InProcessConfig::default());
    let r = capper.record_impression("user-4", 7);
    let (op1, op2) = (r.day, r.hour);
    assert_eq!(op1.user_id, "user-4");
    assert_eq!(op1.campaign_id, 7);
    assert_eq!(op2.user_id, "user-4");
    assert_eq!(op2.campaign_id, 7);
    let windows = [op1.window, op2.window];
    assert!(windows.contains(&CapWindow::Day));
    assert!(windows.contains(&CapWindow::Hour));
}

#[test]
fn an_open_breaker_skips_the_cache_too() {
    let mut capper = InProcessFrequencyCapper::new(InProcessConfig::default());
    capper.record_impression("u", 1);
    let mut b = breaker();
    for _ in 0..20 {
        b.record_outcome(true, Span::from_millis(1), Span::from_secs(1));
    }
    let plan = capper.begin_check(&mut b, Span::from_secs(2), "u", &[candidate(1, 10, 10)]);
    assert!(matches!(plan, CheckPlan::Skip));
}

#[test]
fn answers_warm_the_cache() {
    let cfg = InProcessConfig { cap_capacity: 1, ..InProcessConfig::default() };
    let mut capper = InProcessFrequencyCapper::new(cfg);
    let candidates = vec![candidate(1, 10, 3), candidate(2, 10, 3)];
    let (results, cold) = begin(&capper, "u", &candidates);
    assert_eq!(cold.len(), 2);
    let fallback = FreqCapOutcome::Checked(vec![counted(1, true, 4, 3), verdict(2, true)]);
    let results = checked(capper.finish_check("u", results, fallback));
    assert_eq!(results, vec![counted(1, true, 4, 3), verdict(2, true)]);
    assert_eq!(capper.lookup("u", 1), Some((4, 3)));
    // The answer for campaign 2 had no counts.
    assert_eq!(capper.lookup("u", 2), None);
    // Cached counts are kept, and a full cache takes up no other user.
    let fallback = FreqCapOutcome::Checked(vec![counted(1, false, 0, 0)]);
    capper.finish_check("u", Vec::new(), fallback);
    assert_eq!(capper.lookup("u", 1), Some((4, 3)));
    let fallback = FreqCapOutcome::Checked(vec![counted(1, false, 0, 0)]);
    capper.finish_check("v", Vec::new(), fallback);
    assert_eq!(capper.lookup("v", 1), None);
    assert_eq!(capper.len(), 1);
}

#[test]
fn an_answer_replaces_the_first_result_of_its_campaign() {
    let mut capper = InProcessFrequencyCapper::new(InProcessConfig::default());
    let results = vec![verdict(1, false), verdict(2, false), verdict(1, false)];
    let fallback = FreqCapOutcome::Checked(vec![verdict(1, true), verdict(9, true)]);
    let results = checked(capper.finish_check("u", results, fallback));
    let capped: Vec<bool> = results.iter().map(|r| r.capped).collect();
    assert_eq!(capped, vec![true, false, false]);
}

#[test]
fn an_unavailable_store_leaves_cold_candidates_uncapped() {
    let mut capper = InProcessFrequencyCapper::new(InProcessConfig::default());
    for _ in 0..3 {
        capper.record_impression("u", 1);
    }
    let (results, cold) = begin(&capper, "u", &[candidate(1, 10, 3), candidate(2, 0, 0)]);
    assert_eq!(cold.len(), 1);
    let results = checked(capper.finish_check("u", results, FreqCapOutcome::SkippedTimeout));
    let capped: Vec<bool> = results.iter().map(|r| r.capped).collect();
    assert_eq!(capped, vec![true, false]);
    assert_eq!(capper.lookup("u", 2), None);
}

#[test]
fn a_cap_of_zero_blocks_after_the_first_impression() {
    let mut capper = InProcessFrequencyCapper::new(InProcessConfig::default());
    let fallback = FreqCapOutcome::Checked(vec![counted(1, false, 0, 0)]);
    capper.finish_check("u", Vec::new(), fallback);
    let (results, cold) = begin(&capper, "u", &[candidate(1, 0, 0)]);
    assert!(cold.is_empty());
    assert!(!results[0].capped);
    capper.record_impression("u", 1);
    let (results, _) = begin(&capper, "u", &[candidate(1, 0, 0)]);
    assert!(results[0].capped);
}

#[test]
fn impressions_count_per_user_and_campaign() {
    let mut capper = InProcessFrequencyCapper::new(InProcessConfig::default());
    capper.record_impression("a", 1);
    capper.record_impression("a", 1);
    capper.record_impression("a", 2);
    capper.record_impression("b", 1);
    assert_eq!(capper.lookup("a", 1), Some((2, 2)));
    assert_eq!(capper.lookup("a", 2), Some((1, 1)));
    assert_eq!(capper.lookup("b", 1), Some((1, 1)));
    assert_eq!(capper.lookup("b", 2), None);
    assert_eq!(capper.lookup("c", 1), None);
}

#[test]
fn small_parts() {
    let mut c = AtomicCounter::default();
    assert_eq!(c.incr(), 1);
    assert_eq!(c.incr(), 2);
    assert_eq!(c.load(), 2);
    assert_eq!(CapWindow::Hour.suffix(), "h");
    assert_eq!(CapWindow::Day.suffix(), "d");
    assert_eq!(CapWindow::Week.suffix(), "w");
    let cfg = InProcessConfig::default();
    assert_eq!((cfg.cap_capacity, cfg.write_buffer_size), (500_000, 65_536));
    assert_eq!(cfg.flush_interval, Span::from_secs(1));
}
