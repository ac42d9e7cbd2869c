//! Periodic feedback that updates the hedge state from the observed load-shed
//! rate and Redis latencies.
//!
//! The HTTP layer counts accepted requests and shed ones in a `LoadShedTracker`;
//! the Redis call sites put call durations into a `RedisLatencyTracker`. Once per
//! interval `FeedbackState::tick` reads both and moves the hedge budget and the
//! p95 estimate.
use crate::counter::{counted, growth};
use crate::hedge::RedisHedgeState;
use crate::ratio::Ratio;
use crate::span::Span;
use vstd::prelude::*;

verus! {

/// Counts HTTP-layer accepts and shed-rejects. The feedback takes the difference
/// of the totals over an interval.
#[derive(Debug, Clone, Copy)]
pub struct LoadShedTracker {
    pub requests_total: u64,
    pub shed_total: u64,
}

impl LoadShedTracker {
    /// A tracker that has counted nothing.
    pub fn new() -> (t: Self)
        ensures
            t.requests_total == 0,
            t.shed_total == 0,
    {
        LoadShedTracker { requests_total: 0, shed_total: 0 }
    }

    /// Called on every accepted request, regardless of outcome.
    pub fn record_request(&mut self)
        ensures
            final(self).requests_total == counted(old(self).requests_total),
            final(self).shed_total == old(self).shed_total,
    {
        self.requests_total = self.requests_total.wrapping_add(1);
    }

    /// Called when the layer responds with 503 or 504 due to load-shedding.
    pub fn record_shed(&mut self)
        ensures
            final(self).requests_total == old(self).requests_total,
            final(self).shed_total == counted(old(self).shed_total),
    {
        self.shed_total = self.shed_total.wrapping_add(1);
    }

    /// Requests and shed requests so far.
    pub fn snapshot(&self) -> (totals: (u64, u64))
        ensures
            totals == (self.requests_total, self.shed_total),
    {
        (self.requests_total, self.shed_total)
    }
}

impl Default for LoadShedTracker {
    /// A tracker that has counted nothing.
    fn default() -> (t: Self)
        ensures
            t.requests_total == 0,
            t.shed_total == 0,
    {
        LoadShedTracker::new()
    }
}

/// Tracks Redis call durations as a coarse online estimate of p95: the number of
/// calls and the sum of their durations since the last drain.
#[derive(Debug, Clone, Copy)]
pub struct RedisLatencyTracker {
    pub count: u64,
    pub sum_us: u64,
}

impl RedisLatencyTracker {
    /// A tracker that has seen no call.
    pub fn new() -> (t: Self)
        ensures
            t.count == 0,
            t.sum_us == 0,
    {
        RedisLatencyTracker { count: 0, sum_us: 0 }
    }

    /// Counts one call. Whole microseconds are added, so calls under a millisecond
    /// are not lost.
    pub fn record(&mut self, dur: Span)
        ensures
            final(self).count == counted(old(self).count),
            final(self).sum_us == ((old(self).sum_us + dur.nanos / 1_000) % 0x1_0000_0000_0000_0000),
    {
        let us: u64 = (dur.as_micros() % 0x1_0000_0000_0000_0000) as u64;
        self.count = self.count.wrapping_add(1);
        self.sum_us = self.sum_us.wrapping_add(us);
    }

    /// Reset and return (count, sum_us) for the window just ended.
    pub fn drain(&mut self) -> (window: (u64, u64))
        ensures
            window == (old(self).count, old(self).sum_us),
            final(self).count == 0,
            final(self).sum_us == 0,
    {
        let window = (self.count, self.sum_us);
        self.count = 0;
        self.sum_us = 0;
        window
    }
}

impl Default for RedisLatencyTracker {
    /// A tracker that has seen no call.
    fn default() -> (t: Self)
        ensures
            t.count == 0,
            t.sum_us == 0,
    {
        RedisLatencyTracker::new()
    }
}

/// The share of shed requests in an interval; zero if there were no requests.
pub open spec fn shed_rate(requests: u64, shed: u64) -> Ratio {
    if requests > 0 {
        Ratio { num: shed, den: requests }
    } else {
        Ratio { num: 0, den: 1 }
    }
}

/// The p95 estimate in milliseconds: 1.7 times the mean, rounded up. The result is
/// the smallest number of milliseconds that is not below it.
pub open spec fn is_p95_estimate(ms: u64, count: u64, sum_us: u64) -> bool {
    &&& ms * 10_000 * count >= sum_us * 17
    &&& ms > 0 ==> (ms - 1) * 10_000 * count < sum_us * 17
}

/// Computes the p95 estimate of a window of calls.
pub fn p95_estimate_ms(count: u64, sum_us: u64) -> (ms: u64)
    requires
        count > 0,
    ensures
        is_p95_estimate(ms, count, sum_us),
{
    let scaled: u128 = (sum_us as u128) * 17;
    let unit: u128 = (count as u128) * 10_000;
    let whole: u128 = scaled / unit;
    proof {
        vstd::arithmetic::div_mod::lemma_fundamental_div_mod(scaled as int, unit as int);
        assert(whole <= scaled / 10_000) by (nonlinear_arith)
            requires
                unit * whole <= scaled,
                unit >= 10_000,
                whole >= 0,
        ;
    }
    let ms: u128 = if scaled % unit == 0 {
        whole
    } else {
        whole + 1
    };
    proof {
        assert(unit * ms == ms * 10_000 * count) by (nonlinear_arith)
            requires
                unit == count * 10_000,
        ;
        assert(unit * (ms - 1) == (ms - 1) * 10_000 * count) by (nonlinear_arith)
            requires
                unit == count * 10_000,
        ;
        assert(unit * (whole + 1) == unit * whole + unit) by (nonlinear_arith);
        assert(unit * (whole - 1) == unit * whole - unit) by (nonlinear_arith);
    }
    ms as u64
}

/// What a feedback tick observed, for gauges and logs.
#[derive(Debug, Clone, Copy, PartialEq, Eq, Structural)]
pub struct FeedbackReport {
    /// Time since the previous tick, if there was one.
    pub elapsed: Option<Span>,
    /// The tick came later than one and a half intervals after the previous one.
    pub starved: bool,
    /// This starvation is one to log: the first of every five.
    pub log_starvation: bool,
    /// The load-shed rate over the interval.
    pub shed_rate: Ratio,
    /// The p95 estimate of the interval, zero if there were no calls.
    pub redis_p95_ms: u64,
}

/// What the feedback remembers from one tick to the next.
#[derive(Debug, Clone, Copy)]
pub struct FeedbackState {
    pub interval: Span,
    pub last_tick: Option<Span>,
    pub prev_total: u64,
    pub prev_shed: u64,
    pub starvations: u64,
}

impl FeedbackState {
    /// Whether a tick at `now` comes too late after the previous one.
    pub open spec fn late(self, now: Span) -> bool {
        self.last_tick is Some && 2 * now.since(self.last_tick->0) > 3 * self.interval.nanos
    }

    /// The state before the first tick.
    pub fn new(interval: Span) -> (s: Self)
        ensures
            s.interval == interval,
            s.last_tick is None,
            s.prev_total == 0,
            s.prev_shed == 0,
            s.starvations == 0,
    {
        FeedbackState { interval, last_tick: None, prev_total: 0, prev_shed: 0, starvations: 0 }
    }

    /// One tick at `now`: sets the hedge budget by the load-shed rate since the
    /// previous tick, and, if there were Redis calls, the p95 estimate.
    pub fn tick(
        &mut self,
        hedge: &mut RedisHedgeState,
        load_shed: &LoadShedTracker,
        redis_latency: &mut RedisLatencyTracker,
        now: Span,
    ) -> (report: FeedbackReport)
        ensures
            final(self).interval == old(self).interval,
            final(self).last_tick == Some(now),
            final(self).prev_total == load_shed.requests_total,
            final(self).prev_shed == load_shed.shed_total,
            final(self).starvations == (if old(self).late(now) {
                counted(old(self).starvations)
            } else {
                old(self).starvations
            }),
            final(redis_latency).count == 0,
            final(redis_latency).sum_us == 0,
            report.shed_rate == shed_rate(
                growth(load_shed.requests_total, old(self).prev_total),
                growth(load_shed.shed_total, old(self).prev_shed),
            ),
            final(hedge).budget == old(hedge).budget.after_rate(report.shed_rate),
            if old(redis_latency).count > 0 {
                is_p95_estimate(
                    final(hedge).p95_ms,
                    old(redis_latency).count,
                    old(redis_latency).sum_us,
                ) && report.redis_p95_ms == final(hedge).p95_ms
            } else {
                final(hedge).p95_ms == old(hedge).p95_ms && report.redis_p95_ms == 0
            },
            match old(self).last_tick {
                Some(t) => report.elapsed is Some && report.elapsed->0.nanos == now.since(t),
                None => report.elapsed is None,
            },
            report.starved == old(self).late(now),
            report.log_starvation == (report.starved && final(self).starvations % 5 == 1),
    {
        let mut elapsed: Option<Span> = None;
        let mut starved = false;
        let mut log_starvation = false;
        if let Some(prev) = self.last_tick {
            let gap = now.elapsed_since(prev);
            elapsed = Some(gap);
            if gap.nanos > self.interval.nanos && gap.nanos - self.interval.nanos
                > self.interval.nanos / 2 {
                starved = true;
                self.starvations = self.starvations.wrapping_add(1);
                log_starvation = self.starvations % 5 == 1;
            }
        }
        self.last_tick = Some(now);

        let (cur_total, cur_shed) = load_shed.snapshot();
        let delta_total: u64 = cur_total.saturating_sub(self.prev_total);
        let delta_shed: u64 = cur_shed.saturating_sub(self.prev_shed);
        self.prev_total = cur_total;
        self.prev_shed = cur_shed;
        let rate = if delta_total > 0 {
            Ratio::new(delta_shed, delta_total)
        } else {
            Ratio::new(0, 1)
        };
        hedge.budget.set_load_shed_rate(rate);

        let (count, sum_us) = redis_latency.drain();
        let mut redis_p95_ms: u64 = 0;
        if count > 0 {
            redis_p95_ms = p95_estimate_ms(count, sum_us);
            hedge.update_p95(redis_p95_ms);
        }
        FeedbackReport { elapsed, starved, log_starvation, shed_rate: rate, redis_p95_ms }
    }
}

/// The p95 estimate of a window is unique.
pub proof fn law_p95_estimate_unique(a: u64, b: u64, count: u64, sum_us: u64)
    requires
        count > 0,
        is_p95_estimate(a, count, sum_us),
        is_p95_estimate(b, count, sum_us),
    ensures
        a == b,
{
    if a < b {
        assert(a * 10_000 * count <= (b - 1) * 10_000 * count) by (nonlinear_arith)
            requires
                a <= b - 1,
                count > 0,
        ;
    }
    if b < a {
        assert(b * 10_000 * count <= (a - 1) * 10_000 * count) by (nonlinear_arith)
            requires
                b <= a - 1,
                count > 0,
        ;
    }
}

/// Healthy latencies never read as zero: calls of at least one microsecond in all
/// give an estimate of at least one millisecond.
pub proof fn law_sub_millisecond_calls_count(ms: u64, count: u64, sum_us: u64)
    requires
        count > 0,
        sum_us > 0,
        is_p95_estimate(ms, count, sum_us),
    ensures
        ms >= 1,
{
    assert(ms == 0 ==> ms * 10_000 * count == 0) by (nonlinear_arith);
}

/// The rate of an interval is the requests shed in it over the requests in it: it lies
/// above a number of percent exactly if the shed ones outnumber that part.
pub proof fn law_shed_rate_is_the_interval_share(
    requests_before: u64,
    shed_before: u64,
    requests: u64,
    shed: u64,
    percent: u64,
)
    requires
        requests_before <= requests,
        shed_before <= shed,
    ensures
        ({
            let rate = shed_rate(growth(requests, requests_before), growth(shed, shed_before));
            &&& rate.den > 0
            &&& requests > requests_before ==> (rate.num * 100 > percent * rate.den <==> (shed
                - shed_before) * 100 > percent * (requests - requests_before))
            &&& requests == requests_before ==> rate.num == 0
        }),
{
}

/// The estimate is 1.7 times the mean: calls of ten milliseconds each give seventeen
/// milliseconds, and so in proportion.
pub proof fn law_p95_is_seventeen_tenths_of_the_mean(ms: u64, count: u64, sum_us: u64, tens: u64)
    requires
        count > 0,
        sum_us == count * 10_000 * tens,
        is_p95_estimate(ms, count, sum_us),
    ensures
        ms == 17 * tens,
{
    assert(sum_us * 17 == (17 * tens) * 10_000 * count) by (nonlinear_arith)
        requires
            sum_us == count * 10_000 * tens,
    ;
    if ms < 17 * tens {
        assert(ms * 10_000 * count < (17 * tens) * 10_000 * count) by (nonlinear_arith)
            requires
                ms < 17 * tens,
                count > 0,
        ;
    }
    if ms > 17 * tens {
        assert((ms - 1) * 10_000 * count >= (17 * tens) * 10_000 * count) by (nonlinear_arith)
            requires
                ms - 1 >= 17 * tens,
                count > 0,
        ;
    }
}

/// The estimate rounds up to the next millisecond: it is not below 1.7 times the mean,
/// and less than a millisecond above it.
pub proof fn law_p95_rounds_up(ms: u64, count: u64, sum_us: u64)
    requires
        count > 0,
        is_p95_estimate(ms, count, sum_us),
    ensures
        ms * 1_000 * count * 10 >= sum_us * 17,
        ms > 0 ==> ms * 1_000 * count * 10 < sum_us * 17 + 1_000 * count * 10,
{
    assert(ms * 1_000 * count * 10 == ms * 10_000 * count) by (nonlinear_arith);
    assert((ms - 1) * 10_000 * count == ms * 10_000 * count - 1_000 * count * 10)
        by (nonlinear_arith);
}

/// A tick is late exactly if more than one and a half intervals have passed since the
/// previous one; the first tick never is.
pub proof fn law_late_is_past_one_and_a_half_intervals(s: FeedbackState, prev: Span, now: Span)
    requires
        prev.nanos <= now.nanos,
    ensures
        s.last_tick == Some(prev) ==> (s.late(now) <==> 2 * (now.nanos - prev.nanos) > 3
            * s.interval.nanos),
        s.last_tick is None ==> !s.late(now),
{
}

} // verus!
