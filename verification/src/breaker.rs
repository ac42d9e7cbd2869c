//! Circuit breaker with error-rate and slow-call-ratio open conditions.
use crate::counter::counted;
use crate::ratio::Ratio;
use crate::span::Span;
use vstd::prelude::*;

verus! {

/// Circuit breaker state.
#[derive(Debug, Clone, Copy, PartialEq, Eq, Structural)]
pub enum BreakerState {
    Closed,
    Open,
    HalfOpen,
}

/// Configuration for a single circuit breaker instance.
#[derive(Debug, Clone, Copy)]
pub struct BreakerConfig {
    /// Name for metrics / tracing labels.
    pub name: &'static str,
    /// Minimum calls in the window before thresholds are evaluated.
    pub min_calls: u64,
    /// Error-rate threshold [0, 1] that opens the breaker.
    pub error_rate_threshold: Ratio,
    /// Slow-call ratio threshold [0, 1] that opens the breaker.
    pub slow_call_ratio_threshold: Ratio,
    /// A call is "slow" if its duration reaches this value.
    pub slow_call_duration: Span,
    /// How long the breaker stays open before transitioning to half-open.
    pub open_duration: Span,
    /// Window size (number of calls tracked).
    pub window_size: u64,
}

impl BreakerConfig {
    /// Sensible defaults for a Redis dependency with an 8 ms p99 budget.
    pub fn redis(name: &'static str) -> (cfg: Self)
        ensures
            cfg.name == name,
            cfg.min_calls == 20,
            cfg.error_rate_threshold == (Ratio { num: 5, den: 10 }),
            cfg.slow_call_ratio_threshold == (Ratio { num: 5, den: 10 }),
            cfg.slow_call_duration.nanos == 16_000_000,
            cfg.open_duration.nanos == 10_000_000_000,
            cfg.window_size == 100,
    {
        BreakerConfig {
            name,
            min_calls: 20,
            error_rate_threshold: Ratio::new(5, 10),
            slow_call_ratio_threshold: Ratio::new(5, 10),
            // Slow = p99 budget × 2
            slow_call_duration: Span::from_millis(16),
            open_duration: Span::from_secs(10),
            window_size: 100,
        }
    }

    /// Sensible defaults for a Kafka dependency.
    pub fn kafka(name: &'static str) -> (cfg: Self)
        ensures
            cfg.name == name,
            cfg.min_calls == 10,
            cfg.error_rate_threshold == (Ratio { num: 5, den: 10 }),
            cfg.slow_call_ratio_threshold == (Ratio { num: 8, den: 10 }),
            cfg.slow_call_duration.nanos == 100_000_000,
            cfg.open_duration.nanos == 30_000_000_000,
            cfg.window_size == 100,
    {
        BreakerConfig {
            name,
            min_calls: 10,
            error_rate_threshold: Ratio::new(5, 10),
            slow_call_ratio_threshold: Ratio::new(8, 10),
            slow_call_duration: Span::from_millis(100),
            open_duration: Span::from_secs(30),
            window_size: 100,
        }
    }
}

/// Fixed/tumbling-window call outcome counters. Counts reset when `calls` reaches
/// the window size; not a true sliding window.
#[derive(Debug, Clone, Copy)]
pub struct Window {
    pub calls: u64,
    pub errors: u64,
    pub slow_calls: u64,
}

impl Window {
    /// A window that has seen no call.
    pub open spec fn fresh() -> Self {
        Window { calls: 0, errors: 0, slow_calls: 0 }
    }

    /// The window after one more call.
    pub open spec fn after_call(self, error: bool, slow: bool) -> Self {
        Window {
            calls: counted(self.calls),
            errors: if error {
                counted(self.errors)
            } else {
                self.errors
            },
            slow_calls: if slow {
                counted(self.slow_calls)
            } else {
                self.slow_calls
            },
        }
    }

    /// A window that has seen no call.
    pub fn new() -> (w: Self)
        ensures
            w == Window::fresh(),
    {
        Window { calls: 0, errors: 0, slow_calls: 0 }
    }

    /// Counts one call.
    pub fn record(&mut self, error: bool, slow: bool)
        ensures
            *final(self) == old(self).after_call(error, slow),
    {
        self.calls = self.calls.wrapping_add(1);
        if error {
            self.errors = self.errors.wrapping_add(1);
        }
        if slow {
            self.slow_calls = self.slow_calls.wrapping_add(1);
        }
    }

    /// Forgets all calls.
    pub fn reset(&mut self)
        ensures
            *final(self) == Window::fresh(),
    {
        self.calls = 0;
        self.errors = 0;
        self.slow_calls = 0;
    }

    /// Calls, errors and slow calls.
    pub fn snapshot(&self) -> (counts: (u64, u64, u64))
        ensures
            counts == (self.calls, self.errors, self.slow_calls),
    {
        (self.calls, self.errors, self.slow_calls)
    }
}

/// Circuit breaker with error-rate + slow-call-ratio open conditions.
///
/// State transitions:
///   Closed  → Open      when error_rate > threshold OR slow_call_ratio > threshold (min_calls met)
///   Open    → HalfOpen  after open_duration elapses
///   HalfOpen → Closed   on one successful probe
///   HalfOpen → Open     on one failed or slow probe
#[derive(Debug, Clone, Copy)]
pub struct CircuitBreaker {
    pub cfg: BreakerConfig,
    pub window: Window,
    pub state: BreakerState,
    pub opened_at: Option<Span>,
    pub half_open_probe_in_flight: bool,
}

impl CircuitBreaker {
    /// Nanoseconds since the breaker last opened; zero if it never did.
    pub open spec fn open_for(self, now: Span) -> int {
        match self.opened_at {
            Some(t) => now.since(t),
            None => 0,
        }
    }

    /// Whether a window is reason to open: enough calls were made, and the share of
    /// errors or of slow calls lies above its threshold.
    pub open spec fn trips(self, w: Window) -> bool {
        &&& w.calls >= self.cfg.min_calls
        &&& self.cfg.error_rate_threshold.below(w.errors as int, w.calls as int)
            || self.cfg.slow_call_ratio_threshold.below(w.slow_calls as int, w.calls as int)
    }

    /// Whether a call of this duration counts as slow.
    pub open spec fn is_slow(self, duration: Span) -> bool {
        duration.nanos >= self.cfg.slow_call_duration.nanos
    }

    /// The breaker just opened.
    pub open spec fn opened(self, now: Span) -> Self {
        CircuitBreaker {
            state: BreakerState::Open,
            opened_at: Some(now),
            window: Window::fresh(),
            ..self
        }
    }

    /// Whether a request at `now` is allowed through.
    pub open spec fn allows(self, now: Span) -> bool {
        match self.state {
            BreakerState::Closed => true,
            BreakerState::Open => self.open_for(now) >= self.cfg.open_duration.nanos,
            BreakerState::HalfOpen => !self.half_open_probe_in_flight,
        }
    }

    /// The breaker after a request at `now` asked to go through.
    pub open spec fn after_request(self, now: Span) -> Self {
        match self.state {
            BreakerState::Closed => self,
            BreakerState::Open => if self.allows(now) {
                CircuitBreaker {
                    state: BreakerState::HalfOpen,
                    window: Window::fresh(),
                    half_open_probe_in_flight: true,
                    ..self
                }
            } else {
                self
            },
            BreakerState::HalfOpen => CircuitBreaker { half_open_probe_in_flight: true, ..self },
        }
    }

    /// The breaker after a call ended at `now`.
    pub open spec fn after_outcome(self, error: bool, duration: Span, now: Span) -> Self {
        let slow = self.is_slow(duration);
        let w = self.window.after_call(error, slow);
        match self.state {
            BreakerState::Closed => if self.trips(w) {
                self.opened(now)
            } else if w.calls >= self.cfg.window_size {
                CircuitBreaker { window: Window::fresh(), ..self }
            } else {
                CircuitBreaker { window: w, ..self }
            },
            BreakerState::HalfOpen => {
                let probed = CircuitBreaker { half_open_probe_in_flight: false, ..self };
                if error || slow {
                    probed.opened(now)
                } else {
                    CircuitBreaker {
                        state: BreakerState::Closed,
                        window: Window::fresh(),
                        ..probed
                    }
                }
            },
            BreakerState::Open => CircuitBreaker { window: w, ..self },
        }
    }

    /// A closed breaker that has seen no call.
    pub fn new(cfg: BreakerConfig) -> (b: Self)
        ensures
            b.cfg == cfg,
            b.window == Window::fresh(),
            b.state == BreakerState::Closed,
            b.opened_at is None,
            !b.half_open_probe_in_flight,
    {
        CircuitBreaker {
            cfg,
            window: Window::new(),
            state: BreakerState::Closed,
            opened_at: None,
            half_open_probe_in_flight: false,
        }
    }

    /// Returns `true` if the breaker allows a call through at `now`. Half-open
    /// allows exactly one probe at a time.
    pub fn allow_request(&mut self, now: Span) -> (allowed: bool)
        ensures
            allowed == old(self).allows(now),
            *final(self) == old(self).after_request(now),
    {
        if self.state == BreakerState::Closed {
            return true;
        }
        self.try_enter_half_open(now)
    }

    fn open_elapsed(&self, now: Span) -> (elapsed: Span)
        ensures
            elapsed.nanos == self.open_for(now),
    {
        match self.opened_at {
            Some(t) => now.elapsed_since(t),
            None => Span { nanos: 0 },
        }
    }

    fn try_enter_half_open(&mut self, now: Span) -> (allowed: bool)
        requires
            old(self).state != BreakerState::Closed,
        ensures
            allowed == old(self).allows(now),
            *final(self) == old(self).after_request(now),
    {
        if self.state == BreakerState::Open {
            let elapsed = self.open_elapsed(now);
            if elapsed.nanos >= self.cfg.open_duration.nanos {
                self.state = BreakerState::HalfOpen;
                self.half_open_probe_in_flight = false;
                self.window.reset();
            }
        }
        if self.state == BreakerState::HalfOpen && !self.half_open_probe_in_flight {
            self.half_open_probe_in_flight = true;
            true
        } else {
            false
        }
    }

    /// Record the outcome of a call that ended at `now`.
    pub fn record_outcome(&mut self, error: bool, duration: Span, now: Span)
        ensures
            *final(self) == old(self).after_outcome(error, duration, now),
    {
        let slow = duration.nanos >= self.cfg.slow_call_duration.nanos;
        self.window.record(error, slow);
        let (calls, errors, slows) = self.window.snapshot();
        match self.state {
            BreakerState::Closed => {
                if calls >= self.cfg.window_size {
                    self.window.reset();
                }
                if calls >= self.cfg.min_calls {
                    if self.cfg.error_rate_threshold.exceeded_by(errors, calls)
                        || self.cfg.slow_call_ratio_threshold.exceeded_by(slows, calls) {
                        self.state = BreakerState::Open;
                        self.opened_at = Some(now);
                        self.window.reset();
                    }
                }
            },
            BreakerState::HalfOpen => {
                self.half_open_probe_in_flight = false;
                if error || slow {
                    self.state = BreakerState::Open;
                    self.opened_at = Some(now);
                } else {
                    self.state = BreakerState::Closed;
                }
                self.window.reset();
            },
            BreakerState::Open => {},
        }
    }

    /// The current state.
    pub fn state(&self) -> (s: BreakerState)
        ensures
            s == self.state,
    {
        self.state
    }

    /// Whether the breaker is closed: the health gate of hedging.
    pub fn is_closed_sync(&self) -> (b: bool)
        ensures
            b == (self.state == BreakerState::Closed),
    {
        self.state == BreakerState::Closed
    }
}

/// A closed breaker lets every request through and stays as it is.
pub proof fn law_closed_allows(b: CircuitBreaker, now: Span)
    requires
        b.state == BreakerState::Closed,
    ensures
        b.allows(now),
        b.after_request(now) == b,
{
}

/// From the moment a breaker opens, no request is let through and no outcome
/// changes its state until the open duration has elapsed.
pub proof fn law_open_refuses_until_elapsed(
    b: CircuitBreaker,
    opened_at: Span,
    now: Span,
    error: bool,
    duration: Span,
)
    requires
        now.since(opened_at) < b.cfg.open_duration.nanos,
    ensures
        !b.opened(opened_at).allows(now),
        b.opened(opened_at).after_request(now) == b.opened(opened_at),
        ({
            let later = b.opened(opened_at).after_outcome(error, duration, now);
            later.state == BreakerState::Open && later.opened_at == Some(opened_at)
        }),
{
}

/// Once the open duration has elapsed, exactly one request is let through as a
/// probe: until its outcome is recorded, every other request is refused.
pub proof fn law_one_probe_at_a_time(b: CircuitBreaker, first: Span, second: Span)
    requires
        b.state != BreakerState::Closed,
        b.allows(first),
    ensures
        b.after_request(first).state == BreakerState::HalfOpen,
        !b.after_request(first).allows(second),
{
}

/// A probe that succeeds in time closes the breaker, and the next request goes
/// through; one that fails or is slow opens it again.
pub proof fn law_probe_decides(b: CircuitBreaker, error: bool, duration: Span, now: Span)
    requires
        b.state == BreakerState::HalfOpen,
    ensures
        !error && !b.is_slow(duration) ==> b.after_outcome(error, duration, now).state
            == BreakerState::Closed,
        error || b.is_slow(duration) ==> b.after_outcome(error, duration, now).state
            == BreakerState::Open && b.after_outcome(error, duration, now).opened_at == Some(now),
        !b.after_outcome(error, duration, now).half_open_probe_in_flight,
{
}

/// With fewer calls in the window than the minimum, no outcome opens a closed
/// breaker.
pub proof fn law_below_min_calls_stays_closed(
    b: CircuitBreaker,
    error: bool,
    duration: Span,
    now: Span,
)
    requires
        b.state == BreakerState::Closed,
        b.window.calls + 1 < b.cfg.min_calls,
    ensures
        b.after_outcome(error, duration, now).state == BreakerState::Closed,
{
}

/// The breaker after `n` failed calls in a row, all ending at `now`.
pub open spec fn after_failures(b: CircuitBreaker, n: nat, duration: Span, now: Span) -> CircuitBreaker
    decreases n,
{
    if n == 0 {
        b
    } else {
        after_failures(b, (n - 1) as nat, duration, now).after_outcome(true, duration, now)
    }
}

/// A closed breaker with a fresh window whose error threshold lies below one opens
/// on the failure that makes the minimum number of calls, and on no earlier one.
pub proof fn law_failures_open(b: CircuitBreaker, n: nat, duration: Span, now: Span)
    requires
        b.state == BreakerState::Closed,
        b.window == Window::fresh(),
        b.cfg.error_rate_threshold.num < b.cfg.error_rate_threshold.den,
        0 < b.cfg.min_calls <= b.cfg.window_size,
        n <= b.cfg.min_calls,
    ensures
        after_failures(b, n, duration, now).state == (if n == b.cfg.min_calls {
            BreakerState::Open
        } else {
            BreakerState::Closed
        }),
{
    lemma_failures(b, n, duration, now);
}

proof fn lemma_failures(b: CircuitBreaker, n: nat, duration: Span, now: Span)
    requires
        b.state == BreakerState::Closed,
        b.window == Window::fresh(),
        b.cfg.error_rate_threshold.num < b.cfg.error_rate_threshold.den,
        0 < b.cfg.min_calls <= b.cfg.window_size,
        n <= b.cfg.min_calls,
    ensures
        ({
            let after = after_failures(b, n, duration, now);
            &&& after.cfg == b.cfg
            &&& n < b.cfg.min_calls ==> after.state == BreakerState::Closed && after.window.calls
                == n && after.window.errors == n
            &&& n == b.cfg.min_calls ==> after.state == BreakerState::Open
        }),
    decreases n,
{
    if n > 0 {
        lemma_failures(b, (n - 1) as nat, duration, now);
        let threshold = b.cfg.error_rate_threshold;
        assert(threshold.below(n as int, n as int)) by (nonlinear_arith)
            requires
                threshold.num < threshold.den,
                n > 0,
        ;
    }
}

/// When a closed breaker opens: exactly if the call makes the minimum number of calls
/// and the share of errors lies above the error threshold or the share of slow calls
/// above the slow-call threshold. A call is slow from the configured duration on.
pub proof fn law_closed_opens_on_its_shares(
    b: CircuitBreaker,
    error: bool,
    duration: Span,
    now: Span,
)
    requires
        b.state == BreakerState::Closed,
        b.window.calls < u64::MAX,
        b.window.errors < u64::MAX,
        b.window.slow_calls < u64::MAX,
    ensures
        ({
            let after = b.after_outcome(error, duration, now);
            let slow = duration.nanos >= b.cfg.slow_call_duration.nanos;
            let calls = b.window.calls + 1;
            let errors = b.window.errors + if error {
                1int
            } else {
                0
            };
            let slows = b.window.slow_calls + if slow {
                1int
            } else {
                0
            };
            let (e, s) = (b.cfg.error_rate_threshold, b.cfg.slow_call_ratio_threshold);
            let opens = calls >= b.cfg.min_calls && (errors * e.den > e.num * calls || slows * s.den
                > s.num * calls);
            &&& opens <==> after.state == BreakerState::Open
            &&& !opens <==> after.state == BreakerState::Closed
            &&& opens ==> after.opened_at == Some(now) && after.window.calls == 0
                && after.window.errors == 0 && after.window.slow_calls == 0
            &&& !opens && calls < b.cfg.window_size ==> after.window.calls == calls
                && after.window.errors == errors && after.window.slow_calls == slows
            &&& !opens && calls >= b.cfg.window_size ==> after.window.calls == 0
                && after.window.errors == 0 && after.window.slow_calls == 0
            &&& after.cfg == b.cfg
        }),
{
}

/// An open breaker lets a probe through exactly once the configured duration has
/// passed since it opened, and is then half-open with a fresh window.
pub proof fn law_open_lets_a_probe_through_in_time(b: CircuitBreaker, opened: Span, now: Span)
    requires
        b.state == BreakerState::Open,
        b.opened_at == Some(opened),
        opened.nanos <= now.nanos,
    ensures
        b.allows(now) <==> now.nanos - opened.nanos >= b.cfg.open_duration.nanos,
        b.allows(now) ==> b.after_request(now).state == BreakerState::HalfOpen && b.after_request(
            now,
        ).half_open_probe_in_flight && b.after_request(now).window.calls == 0,
        !b.allows(now) ==> b.after_request(now) == b,
{
}

/// A half-open breaker lets a request through exactly if no probe is in flight.
pub proof fn law_half_open_takes_one_probe(b: CircuitBreaker, now: Span)
    requires
        b.state == BreakerState::HalfOpen,
    ensures
        b.allows(now) <==> !b.half_open_probe_in_flight,
        b.after_request(now).half_open_probe_in_flight,
        b.after_request(now).state == BreakerState::HalfOpen,
{
}

/// Outcomes that come in while the breaker is open do not move it.
pub proof fn law_open_ignores_outcomes(b: CircuitBreaker, error: bool, duration: Span, now: Span)
    requires
        b.state == BreakerState::Open,
    ensures
        b.after_outcome(error, duration, now).state == BreakerState::Open,
        b.after_outcome(error, duration, now).opened_at == b.opened_at,
{
}

/// A fast success closes a half-open breaker and a slow or failed call opens it, from
/// the configured duration on; either way the window starts afresh.
pub proof fn law_probe_is_judged_by_error_and_duration(
    b: CircuitBreaker,
    error: bool,
    duration: Span,
    now: Span,
)
    requires
        b.state == BreakerState::HalfOpen,
    ensures
        ({
            let after = b.after_outcome(error, duration, now);
            &&& after.state == BreakerState::Closed <==> !error && duration.nanos
                < b.cfg.slow_call_duration.nanos
            &&& after.state == BreakerState::Open <==> error || duration.nanos
                >= b.cfg.slow_call_duration.nanos
            &&& after.window.calls == 0 && after.window.errors == 0 && after.window.slow_calls == 0
        }),
{
}

/// A breaker that has opened refuses requests until the configured duration is over.
pub proof fn law_opened_refuses_for_the_duration(
    b: CircuitBreaker,
    error: bool,
    duration: Span,
    now: Span,
    later: Span,
)
    requires
        b.state != BreakerState::Open,
        b.after_outcome(error, duration, now).state == BreakerState::Open,
        now.nanos <= later.nanos,
    ensures
        b.after_outcome(error, duration, now).allows(later) <==> later.nanos >= now.nanos
            + b.cfg.open_duration.nanos,
{
}

} // verus!
