//! In-process budget pacing.
use crate::catalog::types::CampaignId;
use crate::pacing::{credited, reloaded, reserved, BudgetPacer, PaceDecision};
use std::collections::HashMap;
use vstd::prelude::*;

verus! {

broadcast use vstd::std_specs::hash::group_hash_axioms;

/// In-process budget pacer using `i64` counters (in cents).
///
/// Budgets start at `daily_budget_cents` from the campaign catalog and are
/// decremented. A campaign with a missing entry is treated as having no budget
/// (conservative: prevents accidental over-spend on misconfiguration).
pub struct LocalBudgetPacer {
    // campaign_id → remaining budget cents (can go negative = overspent by in-flight bids)
    counters: HashMap<CampaignId, i64>,
}

impl LocalBudgetPacer {
    /// A pacer without budgets.
    pub fn new() -> (p: Self)
        ensures
            p.remaining() == Map::<CampaignId, i64>::empty(),
    {
        LocalBudgetPacer { counters: HashMap::new() }
    }
}

impl Default for LocalBudgetPacer {
    /// A pacer without budgets.
    fn default() -> (p: Self)
        ensures
            p.remaining() == Map::<CampaignId, i64>::empty(),
    {
        LocalBudgetPacer::new()
    }
}

/// The local decision: a campaign may bid while its budget is not used up. Whether
/// the bid itself still fits is not asked, so one bid can overshoot.
pub open spec fn local_decision(
    budgets: Map<CampaignId, i64>,
    campaign_id: CampaignId,
) -> PaceDecision {
    if budgets.contains_key(campaign_id) && budgets[campaign_id] > 0 {
        PaceDecision::HasBudget
    } else {
        PaceDecision::Exhausted
    }
}

impl BudgetPacer for LocalBudgetPacer {
    closed spec fn remaining(&self) -> Map<CampaignId, i64> {
        self.counters@
    }

    open spec fn admits(
        budgets: Map<CampaignId, i64>,
        campaign_id: CampaignId,
        bid_cents: i32,
        decision: PaceDecision,
    ) -> bool {
        decision == local_decision(budgets, campaign_id)
    }

    fn check_and_reserve(&mut self, campaign_id: CampaignId, bid_cents: i32) -> (d: PaceDecision)
        ensures
            d == local_decision(old(self).remaining(), campaign_id),
    {
        match self.counters.get(&campaign_id) {
            None => PaceDecision::Exhausted,
            Some(counter) => {
                let prev: i64 = *counter;
                if prev <= 0 {
                    PaceDecision::Exhausted
                } else {
                    self.counters.insert(campaign_id, prev.wrapping_sub(bid_cents as i64));
                    PaceDecision::HasBudget
                }
            },
        }
    }

    fn release(&mut self, campaign_id: CampaignId, bid_cents: i32) {
        if let Some(counter) = self.counters.get(&campaign_id) {
            let prev: i64 = *counter;
            self.counters.insert(campaign_id, prev.wrapping_add(bid_cents as i64));
        }
    }

    fn reload(&mut self, budgets: Vec<(CampaignId, i64)>) {
        let n: usize = budgets.len();
        for i in 0..n
            invariant
                n == budgets@.len(),
                self.remaining() == reloaded(old(self).remaining(), budgets@.take(i as int)),
        {
            assert(budgets@.take(i + 1).drop_last() =~= budgets@.take(i as int));
            let (id, budget_cents) = budgets[i];
            self.counters.insert(id, budget_cents);
        }
        assert(budgets@.take(n as int) =~= budgets@);
    }
}

/// A campaign without an entry cannot bid.
pub proof fn law_missing_campaign_is_exhausted(
    budgets: Map<CampaignId, i64>,
    campaign_id: CampaignId,
)
    requires
        !budgets.contains_key(campaign_id),
    ensures
        local_decision(budgets, campaign_id) == PaceDecision::Exhausted,
{
}

/// Releasing what was reserved restores every budget.
pub proof fn law_release_restores(
    budgets: Map<CampaignId, i64>,
    campaign_id: CampaignId,
    bid_cents: i32,
)
    ensures
        credited(
            reserved(budgets, campaign_id, bid_cents, PaceDecision::HasBudget),
            campaign_id,
            bid_cents as int,
        ) == budgets,
{
    assert(credited(
        reserved(budgets, campaign_id, bid_cents, PaceDecision::HasBudget),
        campaign_id,
        bid_cents as int,
    ) =~= budgets);
}

/// One bid can overshoot a budget, the next is refused: after a bid that used up
/// what was left, the campaign is exhausted until it is released or reloaded.
pub proof fn law_one_overshoot_then_blocked(
    budgets: Map<CampaignId, i64>,
    campaign_id: CampaignId,
    bid_cents: i32,
)
    requires
        local_decision(budgets, campaign_id) == PaceDecision::HasBudget,
        bid_cents >= budgets[campaign_id],
    ensures
        local_decision(
            reserved(budgets, campaign_id, bid_cents, PaceDecision::HasBudget),
            campaign_id,
        ) == PaceDecision::Exhausted,
{
}

/// A reservation touches the budget of its own campaign only.
pub proof fn law_reservation_is_local(
    budgets: Map<CampaignId, i64>,
    campaign_id: CampaignId,
    bid_cents: i32,
    decision: PaceDecision,
    other: CampaignId,
)
    requires
        other != campaign_id,
    ensures
        reserved(budgets, campaign_id, bid_cents, decision).contains_key(other)
            == budgets.contains_key(other),
        reserved(budgets, campaign_id, bid_cents, decision)[other] == budgets[other],
{
}

/// What is spent over the budget is never more than the one bid that overshot it:
/// a bid that may go out leaves at least the negative of its own price.
pub proof fn law_overspend_bounded(
    budgets: Map<CampaignId, i64>,
    campaign_id: CampaignId,
    bid_cents: i32,
)
    requires
        local_decision(budgets, campaign_id) == PaceDecision::HasBudget,
        bid_cents >= 0,
    ensures
        reserved(budgets, campaign_id, bid_cents, PaceDecision::HasBudget)[campaign_id]
            > -bid_cents,
{
}

/// A campaign may bid exactly while something is left of its budget: at zero and
/// below it may not, whatever the bid.
pub proof fn law_local_decision_is_what_is_left(
    budgets: Map<CampaignId, i64>,
    campaign_id: CampaignId,
)
    requires
        budgets.contains_key(campaign_id),
    ensures
        budgets[campaign_id] > 0 ==> local_decision(budgets, campaign_id)
            == PaceDecision::HasBudget,
        budgets[campaign_id] <= 0 ==> local_decision(budgets, campaign_id)
            == PaceDecision::Exhausted,
{
}

/// The local pacer decides as the books say, and in one way only.
pub proof fn law_local_pacer_admits_one_decision(
    budgets: Map<CampaignId, i64>,
    campaign_id: CampaignId,
    bid_cents: i32,
)
    ensures
        LocalBudgetPacer::admits(budgets, campaign_id, bid_cents, PaceDecision::HasBudget)
            <==> budgets.contains_key(campaign_id) && budgets[campaign_id] > 0,
        LocalBudgetPacer::admits(budgets, campaign_id, bid_cents, PaceDecision::Exhausted)
            <==> !budgets.contains_key(campaign_id) || budgets[campaign_id] <= 0,
{
}

} // verus!
