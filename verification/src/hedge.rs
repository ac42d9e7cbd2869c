//! Hedging of slow reads: how many may be hedged, and when.
use crate::breaker::{BreakerState, CircuitBreaker};
use crate::ratio::Ratio;
use crate::span::Span;
use vstd::prelude::*;

verus! {

/// Token bucket granting hedge eligibility.
///
/// The budget contracts when the HTTP layer sheds load:
///   - load_shed_rate > 1%  → drops to a fifth (10% of requests become 2%)
///   - load_shed_rate > 5%  → drops to 0%  (hedging fully disabled)
///
/// When the rate falls again the capacity is back at once. The tokens that were
/// clamped away are not: only the hedges still in flight put theirs back, one each.
#[derive(Debug, Clone, Copy)]
pub struct HedgeBudget {
    pub tokens: u64,
    /// The capacity under the current load.
    pub capacity: u64,
    /// The configured capacity.
    pub nominal: u64,
}

/// Whether a rate lies above a number of percent.
pub open spec fn above_percent(rate: Ratio, percent: int) -> bool {
    rate.num * 100 > percent * rate.den
}

/// The capacity that a load-shed rate leaves of the configured one.
pub open spec fn capacity_under(nominal: u64, rate: Ratio) -> u64 {
    if above_percent(rate, 5) {
        0
    } else if above_percent(rate, 1) {
        nominal / 5
    } else {
        nominal
    }
}

/// The smaller of two counts.
pub open spec fn least(a: u64, b: u64) -> u64 {
    if a <= b {
        a
    } else {
        b
    }
}

impl HedgeBudget {
    /// The budget after one token was taken.
    pub open spec fn after_consume(self) -> Self {
        HedgeBudget { tokens: (self.tokens - 1) as u64, ..self }
    }

    /// The budget after one token was put back, as far as the capacity allows.
    pub open spec fn after_restore(self) -> Self {
        HedgeBudget {
            tokens: if self.tokens < self.capacity {
                (self.tokens + 1) as u64
            } else {
                self.capacity
            },
            ..self
        }
    }

    /// The budget under a load-shed rate.
    pub open spec fn after_rate(self, rate: Ratio) -> Self {
        let capacity = capacity_under(self.nominal, rate);
        HedgeBudget { tokens: least(self.tokens, capacity), capacity, ..self }
    }

    /// A full bucket.
    pub fn new(capacity: u64) -> (b: Self)
        ensures
            b.tokens == capacity,
            b.capacity == capacity,
            b.nominal == capacity,
    {
        HedgeBudget { tokens: capacity, capacity, nominal: capacity }
    }

    /// Attempt to consume one hedge token. Returns `true` if the hedge is allowed.
    pub fn try_consume(&mut self) -> (allowed: bool)
        ensures
            allowed == (old(self).tokens > 0),
            *final(self) == (if allowed {
                old(self).after_consume()
            } else {
                *old(self)
            }),
    {
        if self.tokens == 0 {
            return false;
        }
        self.tokens = self.tokens - 1;
        true
    }

    /// Restore one token (call after the hedged request completes). A bucket never
    /// holds more than its capacity, so while hedging is disabled none comes back.
    pub fn restore(&mut self)
        ensures
            *final(self) == old(self).after_restore(),
    {
        if self.tokens < self.capacity {
            self.tokens = self.tokens + 1;
        } else {
            self.tokens = self.capacity;
        }
    }

    /// Adjust the effective capacity based on the HTTP load-shed rate, and clamp
    /// the tokens to it. Called periodically from the server's health monitoring
    /// loop.
    pub fn set_load_shed_rate(&mut self, rate: Ratio)
        ensures
            *final(self) == old(self).after_rate(rate),
    {
        let shed: u128 = (rate.num as u128) * 100;
        let effective: u64 = if shed > 5 * (rate.den as u128) {
            0
        } else if shed > rate.den as u128 {
            self.nominal / 5
        } else {
            self.nominal
        };
        if self.tokens > effective {
            self.tokens = effective;
        }
        self.capacity = effective;
    }
}

/// Decides whether a second attempt may be fired once the first has been pending
/// for the trigger duration: the breaker must be closed and a token left. The
/// token is taken only then; restore it when either attempt completes.
pub fn hedge_allowed(breaker: &CircuitBreaker, budget: &mut HedgeBudget) -> (allowed: bool)
    ensures
        allowed == (breaker.state == BreakerState::Closed && old(budget).tokens > 0),
        *final(budget) == (if allowed {
            old(budget).after_consume()
        } else {
            *old(budget)
        }),
{
    breaker.is_closed_sync() && budget.try_consume()
}

/// Shared hedge state for the Redis dependency.
#[derive(Debug, Clone, Copy)]
pub struct RedisHedgeState {
    pub budget: HedgeBudget,
    /// Current p95 latency of Redis calls, used to compute the trigger.
    pub p95_ms: u64,
}

impl RedisHedgeState {
    /// `nominal_budget_tokens` is how many requests per refill window can hedge
    /// under normal load (e.g., 10% of expected RPS × window_secs).
    pub fn new(nominal_budget_tokens: u64) -> (s: Self)
        ensures
            s.budget == (HedgeBudget {
                tokens: nominal_budget_tokens,
                capacity: nominal_budget_tokens,
                nominal: nominal_budget_tokens,
            }),
            s.p95_ms == 0,
    {
        RedisHedgeState { budget: HedgeBudget::new(nominal_budget_tokens), p95_ms: 0 }
    }

    /// Update the rolling p95 latency estimate.
    pub fn update_p95(&mut self, ms: u64)
        ensures
            final(self).p95_ms == ms,
            final(self).budget == old(self).budget,
    {
        self.p95_ms = ms;
    }

    /// Returns the hedge trigger: `max(p95, 8 ms floor)`.
    pub fn trigger(&self) -> (t: Span)
        ensures
            t.nanos == (if self.p95_ms >= 8 {
                self.p95_ms as int
            } else {
                8
            }) * 1_000_000,
    {
        if self.p95_ms >= 8 {
            Span::from_millis(self.p95_ms)
        } else {
            Span::from_millis(8)
        }
    }
}

/// A hedge that is fired and completes leaves the budget as it was, as long as
/// the bucket was not over its capacity.
pub proof fn law_consume_then_restore(b: HedgeBudget)
    requires
        0 < b.tokens <= b.capacity,
    ensures
        b.after_consume().after_restore() == b,
{
}

/// A load-shed rate above 5% disables hedging: no token is left, and none comes
/// back with a hedge that completes.
pub proof fn law_heavy_shedding_disables(b: HedgeBudget, rate: Ratio)
    requires
        above_percent(rate, 5),
    ensures
        b.after_rate(rate).tokens == 0,
        b.after_rate(rate).capacity == 0,
        b.after_rate(rate).after_restore() == b.after_rate(rate),
{
}

/// The capacity follows the last rate alone: what rates came before it leaves no
/// trace, and without shedding the configured capacity is back.
pub proof fn law_capacity_follows_rate(b: HedgeBudget, first: Ratio, second: Ratio)
    ensures
        b.after_rate(first).after_rate(second).capacity == b.after_rate(second).capacity,
        !above_percent(second, 1) ==> b.after_rate(first).after_rate(second).capacity == b.nominal,
{
    assert(above_percent(second, 5) ==> above_percent(second, 1));
}

/// A rate never adds tokens: of two rates in turn, the tokens that both capacities
/// allow stay. After a rate above 5% none is left, however calm the next one is,
/// until a hedge in flight puts its own back.
pub proof fn law_rates_add_no_tokens(b: HedgeBudget, first: Ratio, second: Ratio)
    ensures
        b.after_rate(second).tokens <= b.tokens,
        b.after_rate(first).after_rate(second).tokens == least(
            b.tokens,
            least(capacity_under(b.nominal, first), capacity_under(b.nominal, second)),
        ),
        above_percent(first, 5) ==> b.after_rate(first).after_rate(second).tokens == 0,
        above_percent(first, 5) && b.after_rate(second).capacity > 0 ==> b.after_rate(
            first,
        ).after_rate(second).after_restore().tokens == 1,
{
}

/// A bucket never holds more tokens than its capacity.
pub proof fn law_tokens_bounded(b: HedgeBudget, rate: Ratio)
    ensures
        b.after_restore().tokens <= b.capacity,
        b.after_rate(rate).tokens <= b.after_rate(rate).capacity,
        0 < b.tokens <= b.capacity ==> b.after_consume().tokens <= b.capacity,
{
}

/// The three levels of the budget: nothing above 5% shedding, a fifth of the
/// configured capacity above 1%, rounded down, and all of it otherwise.
pub proof fn law_capacity_levels(nominal: u64, rate: Ratio)
    ensures
        rate.num * 100 > rate.den * 5 ==> capacity_under(nominal, rate) == 0,
        rate.num * 100 <= rate.den * 5 && rate.num * 100 > rate.den ==> 5 * capacity_under(
            nominal,
            rate,
        ) <= nominal && nominal < 5 * capacity_under(nominal, rate) + 5,
        rate.num * 100 <= rate.den ==> capacity_under(nominal, rate) == nominal,
{
}

/// A rate sets the capacity and clamps the tokens to it; the configured capacity
/// stays.
pub proof fn law_rates_clamp_the_tokens(b: HedgeBudget, rate: Ratio)
    ensures
        b.after_rate(rate).capacity == capacity_under(b.nominal, rate),
        b.after_rate(rate).nominal == b.nominal,
        b.tokens <= capacity_under(b.nominal, rate) ==> b.after_rate(rate).tokens == b.tokens,
        b.tokens > capacity_under(b.nominal, rate) ==> b.after_rate(rate).tokens
            == capacity_under(b.nominal, rate),
{
}

/// A hedge takes one token, and its completion puts one back below the capacity;
/// neither touches the capacities.
pub proof fn law_one_token_per_hedge(b: HedgeBudget)
    ensures
        b.tokens > 0 ==> b.after_consume().tokens + 1 == b.tokens,
        b.tokens < b.capacity ==> b.after_restore().tokens == b.tokens + 1,
        b.tokens >= b.capacity ==> b.after_restore().tokens == b.capacity,
        b.after_consume().capacity == b.capacity && b.after_consume().nominal == b.nominal,
        b.after_restore().capacity == b.capacity && b.after_restore().nominal == b.nominal,
{
}

} // verus!
