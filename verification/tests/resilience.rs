use bidder_core::breaker::{BreakerConfig, BreakerState, CircuitBreaker, Window};
use bidder_core::config::KafkaDropPolicy;
use bidder_core::hedge::{hedge_allowed, HedgeBudget, RedisHedgeState};
use bidder_core::hedge_feedback::{
    p95_estimate_ms, FeedbackState, LoadShedTracker, RedisLatencyTracker,
};
use bidder_core::kafka_incident::{
    EffectivePolicy, IncidentMonitor, KafkaIncidentState, PolicyFlip,
};
use bidder_core::ratio::Ratio;
use bidder_core::span::Span;

fn fast_cfg() -> BreakerConfig {
    BreakerConfig {
        name: "test",
        min_calls: 3,
        error_rate_threshold: Ratio::new(5, 10),
        slow_call_ratio_threshold: Ratio::new(5, 10),
        slow_call_duration: Span::from_millis(100),
        open_duration: Span::from_millis(50),
        window_size: 10,
    }
}

fn at(ms: u64) -> Span {
    Span::from_millis(ms)
}

#[test]
fn starts_closed_and_allows_requests() {
    let mut cb = CircuitBreaker::new(fast_cfg());
    assert_eq!(cb.state(), BreakerState::Closed);
    assert!(cb.allow_request(at(0)));
}

#[test]
fn opens_after_error_rate_threshold() {
    let mut cb = CircuitBreaker::new(fast_cfg());
    for _ in 0..3 {
        cb.record_outcome(true, at(1), at(0));
    }
    assert_eq!(cb.state(), BreakerState::Open);
    assert!(!cb.allow_request(at(1)));
}

#[test]
fn opens_after_slow_call_ratio_threshold() {
    let mut cb = CircuitBreaker::new(fast_cfg());
    for _ in 0..3 {
        cb.record_outcome(false, at(200), at(0));
    }
    assert_eq!(cb.state(), BreakerState::Open);
}

#[test]
fn does_not_open_below_min_calls() {
    let mut cb = CircuitBreaker::new(fast_cfg());
    for _ in 0..2 {
        cb.record_outcome(true, at(1), at(0));
    }
    assert_eq!(cb.state(), BreakerState::Closed);
}

#[test]
fn transitions_open_to_half_open_after_duration() {
    let mut cb = CircuitBreaker::new(fast_cfg());
    for _ in 0..3 {
        cb.record_outcome(true, at(1), at(0));
    }
    assert_eq!(cb.state(), BreakerState::Open);
    assert!(cb.allow_request(at(60)));
    assert_eq!(cb.state(), BreakerState::HalfOpen);
}

#[test]
fn half_open_allows_only_one_probe() {
    let mut cb = CircuitBreaker::new(fast_cfg());
    for _ in 0..3 {
        cb.record_outcome(true, at(1), at(0));
    }
    assert!(cb.allow_request(at(60)));
    assert!(!cb.allow_request(at(60)));
}

#[test]
fn closes_after_successful_probe() {
    let mut cb = CircuitBreaker::new(fast_cfg());
    for _ in 0..3 {
        cb.record_outcome(true, at(1), at(0));
    }
    cb.allow_request(at(60));
    cb.record_outcome(false, at(1), at(61));
    assert_eq!(cb.state(), BreakerState::Closed);
    assert!(cb.is_closed_sync());
}

#[test]
fn reopens_after_failed_probe() {
    let mut cb = CircuitBreaker::new(fast_cfg());
    for _ in 0..3 {
        cb.record_outcome(true, at(1), at(0));
    }
    cb.allow_request(at(60));
    cb.record_outcome(true, at(1), at(61));
    assert_eq!(cb.state(), BreakerState::Open);
    assert!(!cb.allow_request(at(110)));
    assert!(cb.allow_request(at(111)));
    // A slow probe counts as a failed one.
    cb.record_outcome(false, at(100), at(112));
    assert_eq!(cb.state(), BreakerState::Open);
}

#[test]
fn a_rate_at_the_threshold_does_not_open() {
    let mut cb = CircuitBreaker::new(fast_cfg());
    for i in 0..4 {
        cb.record_outcome(i % 2 == 0, at(1), at(0));
        if i == 2 {
            // Two errors in three calls.
            assert_eq!(cb.state(), BreakerState::Open);
        }
    }
    let mut even = CircuitBreaker::new(fast_cfg());
    for error in [false, true, false, true] {
        even.record_outcome(error, at(1), at(0));
    }
    assert_eq!(even.state(), BreakerState::Closed);
    even.record_outcome(true, at(1), at(0));
    assert_eq!(even.state(), BreakerState::Open);
}

#[test]
fn the_window_tumbles() {
    let mut cb = CircuitBreaker::new(fast_cfg());
    for _ in 0..9 {
        cb.record_outcome(false, at(1), at(0));
    }
    assert_eq!(cb.window.snapshot(), (9, 0, 0));
    cb.record_outcome(false, at(1), at(0));
    assert_eq!(cb.window.snapshot(), (0, 0, 0));
    let mut w = Window::new();
    w.record(true, true);
    w.record(false, true);
    assert_eq!(w.snapshot(), (2, 1, 2));
    w.reset();
    assert_eq!(w.snapshot(), (0, 0, 0));
}

#[test]
fn dependency_defaults() {
    let redis = BreakerConfig::redis("r");
    assert_eq!(redis.min_calls, 20);
    assert_eq!(redis.slow_call_duration, Span::from_millis(16));
    assert_eq!(redis.open_duration, Span::from_secs(10));
    let kafka = BreakerConfig::kafka("k");
    assert_eq!(kafka.min_calls, 10);
    assert_eq!(kafka.slow_call_ratio_threshold, Ratio::new(8, 10));
    assert_eq!(kafka.open_duration, Span::from_secs(30));
}

#[test]
fn hedge_tokens_are_taken_and_restored() {
    let mut b = HedgeBudget::new(2);
    assert!(b.try_consume());
    assert!(b.try_consume());
    assert!(!b.try_consume());
    b.restore();
    assert_eq!(b.tokens, 1);
    b.restore();
    assert_eq!(b.tokens, 2);
    assert!(b.try_consume());
}

#[test]
fn hedge_budget_contracts_under_shedding() {
    let mut b = HedgeBudget::new(100);
    b.set_load_shed_rate(Ratio::new(1, 100));
    assert_eq!((b.tokens, b.capacity), (100, 100));
    b.set_load_shed_rate(Ratio::new(2, 100));
    assert_eq!((b.tokens, b.capacity), (20, 20));
    b.set_load_shed_rate(Ratio::new(2, 100));
    assert_eq!((b.tokens, b.capacity), (20, 20));
    b.set_load_shed_rate(Ratio::new(5, 100));
    assert_eq!(b.capacity, 20);
    b.set_load_shed_rate(Ratio::new(51, 1000));
    assert_eq!((b.tokens, b.capacity), (0, 0));
    assert!(!b.try_consume());
    b.set_load_shed_rate(Ratio::new(0, 1));
    assert_eq!(b.capacity, 100);
}

#[test]
fn no_token_comes_back_while_hedging_is_disabled() {
    let mut b = HedgeBudget::new(1);
    assert!(b.try_consume());
    b.set_load_shed_rate(Ratio::new(6, 100));
    b.restore();
    assert!(!b.try_consume());
    b.set_load_shed_rate(Ratio::new(0, 1));
    b.restore();
    b.restore();
    assert_eq!((b.tokens, b.capacity), (1, 1));
    let mut full = HedgeBudget::new(18446744073709551615);
    full.restore();
    assert_eq!(full.tokens, 18446744073709551615);
}

#[test]
fn tokens_do_not_return_with_the_rate() {
    let mut b = HedgeBudget::new(10);
    assert!(b.try_consume());
    b.set_load_shed_rate(Ratio::new(6, 100));
    b.set_load_shed_rate(Ratio::new(0, 1));
    assert_eq!((b.tokens, b.capacity), (0, 10));
    b.restore();
    assert_eq!(b.tokens, 1);
}

#[test]
fn drop_shares_need_no_headroom() {
    let max = 18446744073709551615u64;
    assert!(Ratio::new(1, 3).exceeded_among(max, max));
    assert!(!Ratio::new(1, 2).exceeded_among(max, max));
    assert!(!Ratio::new(2, 1).exceeded_among(max, 0));
    assert!(!Ratio::new(1, 100).exceeded_among(0, 0));
    assert!(Ratio::new(0, 1).exceeded_among(1, max));
    let mut s = KafkaIncidentState::new(KafkaDropPolicy::IncidentMode);
    let mut m = IncidentMonitor::new(&s, 1, Ratio::new(1, 3));
    s.published_total = max;
    s.dropped_total = max;
    let r = m.tick(&mut s);
    assert_eq!(r.total, 36893488147419103230);
    assert_eq!(s.effective_policy(), EffectivePolicy::RandomSample);
}

#[test]
fn hedging_needs_a_closed_breaker_and_a_token() {
    let mut cb = CircuitBreaker::new(fast_cfg());
    let mut b = HedgeBudget::new(1);
    assert!(hedge_allowed(&cb, &mut b));
    assert!(!hedge_allowed(&cb, &mut b));
    b.restore();
    for _ in 0..3 {
        cb.record_outcome(true, at(1), at(0));
    }
    assert!(!hedge_allowed(&cb, &mut b));
    assert_eq!(b.tokens, 1);
}

#[test]
fn hedge_trigger_has_a_floor() {
    let mut s = RedisHedgeState::new(10);
    assert_eq!(s.trigger(), Span::from_millis(8));
    s.update_p95(7);
    assert_eq!(s.trigger(), Span::from_millis(8));
    s.update_p95(21);
    assert_eq!(s.trigger(), Span::from_millis(21));
}

#[test]
fn load_shed_tracker_counts() {
    let mut t = LoadShedTracker::new();
    t.record_request();
    t.record_request();
    t.record_shed();
    let (req, shed) = t.snapshot();
    assert_eq!(req, 2);
    assert_eq!(shed, 1);
}

#[test]
fn redis_latency_tracker_drains() {
    let mut t = RedisLatencyTracker::new();
    t.record(Span::from_millis(5));
    t.record(Span::from_millis(15));
    let (count, sum_us) = t.drain();
    assert_eq!(count, 2);
    assert_eq!(sum_us, 20_000);
    let (count2, sum2) = t.drain();
    assert_eq!(count2, 0);
    assert_eq!(sum2, 0);
}

#[test]
fn redis_latency_tracker_preserves_sub_ms() {
    let mut t = RedisLatencyTracker::new();
    t.record(Span::from_micros(300));
    t.record(Span::from_micros(450));
    let (count, sum_us) = t.drain();
    assert_eq!(count, 2);
    assert_eq!(sum_us, 750);
}

#[test]
fn p95_estimates() {
    // 375 us on average: 0.6375 ms, rounded up.
    assert_eq!(p95_estimate_ms(2, 750), 1);
    // 10 ms on average: exactly 17 ms.
    assert_eq!(p95_estimate_ms(1, 10_000), 17);
    assert_eq!(p95_estimate_ms(1, 10_001), 18);
    assert_eq!(p95_estimate_ms(3, 0), 0);
    assert_eq!(p95_estimate_ms(1, u64::MAX), 31359464925306238);
}

#[test]
fn feedback_moves_the_hedge_state() {
    let mut hedge = RedisHedgeState::new(100);
    let mut load = LoadShedTracker::default();
    let mut latency = RedisLatencyTracker::default();
    let mut state = FeedbackState::new(Span::from_secs(1));
    for _ in 0..100 {
        load.record_request();
    }
    load.record_shed();
    load.record_shed();
    latency.record(Span::from_millis(10));
    let r = state.tick(&mut hedge, &load, &mut latency, Span::from_secs(1));
    assert_eq!(r.elapsed, None);
    assert!(!r.starved);
    assert_eq!(r.shed_rate, Ratio::new(2, 100));
    assert_eq!(hedge.budget.capacity, 20);
    assert_eq!(hedge.p95_ms, 17);
    assert_eq!(r.redis_p95_ms, 17);
    // An idle interval: no requests, no calls.
    let r = state.tick(&mut hedge, &load, &mut latency, Span::from_millis(2500));
    assert_eq!(r.elapsed, Some(Span::from_millis(1500)));
    assert!(!r.starved);
    assert_eq!(r.shed_rate, Ratio::new(0, 1));
    assert_eq!(hedge.budget.capacity, 100);
    assert_eq!(hedge.p95_ms, 17);
    assert_eq!(r.redis_p95_ms, 0);
    // A late one.
    let r = state.tick(&mut hedge, &load, &mut latency, Span::from_millis(4001));
    assert!(r.starved);
    assert!(r.log_starvation);
    let r = state.tick(&mut hedge, &load, &mut latency, Span::from_millis(6001));
    assert!(r.starved);
    assert!(!r.log_starvation);
    assert_eq!(state.starvations, 2);
}

#[test]
fn auto_flip_disabled_for_static_policies() {
    let s = KafkaIncidentState::new(KafkaDropPolicy::Newest);
    assert!(!s.auto_flip);
    assert_eq!(s.effective_policy(), EffectivePolicy::Newest);
}

#[test]
fn incident_mode_starts_at_base_with_auto_flip_on() {
    let s = KafkaIncidentState::new(KafkaDropPolicy::IncidentMode);
    assert!(s.auto_flip);
    assert_eq!(s.effective_policy(), EffectivePolicy::Newest);
}

#[test]
fn counters_increment() {
    let mut s = KafkaIncidentState::new(KafkaDropPolicy::Newest);
    s.record_published();
    s.record_published();
    s.record_dropped();
    let (p, d) = s.snapshot();
    assert_eq!((p, d), (2, 1));
}

fn sample(s: &mut KafkaIncidentState, m: &mut IncidentMonitor, published: u64, dropped: u64) {
    for _ in 0..published {
        s.record_published();
    }
    for _ in 0..dropped {
        s.record_dropped();
    }
    m.tick(s);
}

#[test]
fn sustained_drops_flip_and_revert() {
    let mut s = KafkaIncidentState::new(KafkaDropPolicy::IncidentMode);
    let mut m = IncidentMonitor::new(&s, 2, Ratio::new(1, 100));
    sample(&mut s, &mut m, 98, 2);
    assert_eq!(s.effective_policy(), EffectivePolicy::Newest);
    // A sample at the threshold starts the count anew.
    sample(&mut s, &mut m, 99, 1);
    sample(&mut s, &mut m, 98, 2);
    assert_eq!(s.effective_policy(), EffectivePolicy::Newest);
    sample(&mut s, &mut m, 98, 2);
    assert_eq!(s.effective_policy(), EffectivePolicy::RandomSample);
    assert!(m.in_incident);
    sample(&mut s, &mut m, 0, 0);
    assert_eq!(s.effective_policy(), EffectivePolicy::RandomSample);
    s.record_published();
    let r = m.tick(&mut s);
    assert_eq!(r.flip, Some(PolicyFlip::ToBase));
    assert_eq!((r.dropped, r.total, r.was_in_incident), (0, 1, true));
    assert_eq!(s.effective_policy(), EffectivePolicy::Newest);
}

fn run_ends(history: &[bool], over: bool, dwell: usize, n: usize) -> bool {
    dwell <= n && history[n - dwell..n].iter().all(|s| *s == over)
}

#[test]
fn the_policy_follows_the_history() {
    let dwell = 2;
    for bits in 0..256u32 {
        let mut s = KafkaIncidentState::new(KafkaDropPolicy::IncidentMode);
        let mut m = IncidentMonitor::new(&s, dwell as u32, Ratio::new(1, 2));
        let mut history: Vec<bool> = Vec::new();
        for i in 0..8 {
            let over = bits >> i & 1 == 1;
            history.push(over);
            if over {
                sample(&mut s, &mut m, 0, 1);
            } else {
                sample(&mut s, &mut m, 1, 0);
            }
            let n = history.len();
            let incident = (1..=n).any(|e| {
                run_ends(&history, true, dwell, e)
                    && (e + 1..=n).all(|f| !run_ends(&history, false, dwell, f))
            });
            let expected = if incident {
                EffectivePolicy::RandomSample
            } else {
                EffectivePolicy::Newest
            };
            assert_eq!(s.effective_policy(), expected);
        }
    }
}

#[test]
fn static_policies_never_flip() {
    let mut s = KafkaIncidentState::new(KafkaDropPolicy::Oldest);
    let mut m = IncidentMonitor::new(&s, 1, Ratio::new(1, 100));
    for _ in 0..5 {
        sample(&mut s, &mut m, 0, 10);
        assert_eq!(s.effective_policy(), EffectivePolicy::Oldest);
    }
}

#[test]
fn policy_numbers_round_trip() {
    for p in [EffectivePolicy::Newest, EffectivePolicy::Oldest, EffectivePolicy::RandomSample] {
        assert_eq!(EffectivePolicy::from_u8(p.to_u8()), p);
    }
    assert_eq!(EffectivePolicy::from_u8(200), EffectivePolicy::Newest);
    assert_eq!(
        EffectivePolicy::from(&KafkaDropPolicy::RandomSample),
        EffectivePolicy::RandomSample
    );
}
