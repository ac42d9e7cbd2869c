//! Budget pacing.
pub mod local;

use crate::catalog::types::CampaignId;
use vstd::prelude::*;

verus! {

/// Budget pacing decision for a single candidate.
#[derive(Debug, Clone, Copy, PartialEq, Eq, Structural)]
pub enum PaceDecision {
    /// Campaign has budget.
    HasBudget,
    /// Campaign is exhausted for this pacing window.
    Exhausted,
}

/// A sum of money in 64 bits: beyond the range it wraps around.
pub open spec fn wrapped(cents: int) -> i64 {
    if cents > i64::MAX {
        (cents - 0x1_0000_0000_0000_0000) as i64
    } else if cents < i64::MIN {
        (cents + 0x1_0000_0000_0000_0000) as i64
    } else {
        cents as i64
    }
}

/// The remaining budgets after `cents` were added to a campaign's; a campaign
/// without an entry gets none.
pub open spec fn credited(
    budgets: Map<CampaignId, i64>,
    campaign_id: CampaignId,
    cents: int,
) -> Map<CampaignId, i64> {
    if budgets.contains_key(campaign_id) {
        budgets.insert(campaign_id, wrapped(budgets[campaign_id] + cents))
    } else {
        budgets
    }
}

/// The remaining budgets after a decision on a bid: a bid that may go out has been
/// taken off its campaign's budget.
pub open spec fn reserved(
    budgets: Map<CampaignId, i64>,
    campaign_id: CampaignId,
    bid_cents: i32,
    decision: PaceDecision,
) -> Map<CampaignId, i64> {
    match decision {
        PaceDecision::HasBudget => credited(budgets, campaign_id, -bid_cents),
        PaceDecision::Exhausted => budgets,
    }
}

/// The remaining budgets after a reload: each listed campaign has its listed value,
/// the last one if it is listed twice, and the others keep theirs.
pub open spec fn reloaded(
    budgets: Map<CampaignId, i64>,
    listed: Seq<(CampaignId, i64)>,
) -> Map<CampaignId, i64>
    decreases listed.len(),
{
    if listed.len() == 0 {
        budgets
    } else {
        reloaded(budgets, listed.drop_last()).insert(listed.last().0, listed.last().1)
    }
}

/// Controls whether a campaign is eligible to bid based on remaining budget.
///
/// What decides is left to the pacer; every pacer keeps the books alike.
pub trait BudgetPacer {
    /// Remaining budget in cents by campaign.
    spec fn remaining(&self) -> Map<CampaignId, i64>;

    /// Whether a pacer with these books may decide so on a bid.
    spec fn admits(
        budgets: Map<CampaignId, i64>,
        campaign_id: CampaignId,
        bid_cents: i32,
        decision: PaceDecision,
    ) -> bool;

    /// Check if campaign has remaining budget and reserve it.
    /// Atomic: if HasBudget, the budget has already been decremented.
    fn check_and_reserve(&mut self, campaign_id: CampaignId, bid_cents: i32) -> (d: PaceDecision)
        ensures
            Self::admits(old(self).remaining(), campaign_id, bid_cents, d),
            final(self).remaining() == reserved(old(self).remaining(), campaign_id, bid_cents, d),
    ;

    /// Release a previously reserved budget (on a lost bid or error).
    fn release(&mut self, campaign_id: CampaignId, bid_cents: i32)
        ensures
            final(self).remaining() == credited(
                old(self).remaining(),
                campaign_id,
                bid_cents as int,
            ),
    ;

    /// Reload budget values from the source of truth.
    fn reload(&mut self, budgets: Vec<(CampaignId, i64)>)
        ensures
            final(self).remaining() == reloaded(old(self).remaining(), budgets@),
    ;
}

/// A reload sets: a campaign has exactly the value that the list names last for it,
/// whatever was left before.
pub proof fn law_reload_sets_the_listed_value(
    budgets: Map<CampaignId, i64>,
    listed: Seq<(CampaignId, i64)>,
    i: int,
)
    requires
        0 <= i < listed.len(),
        forall|j: int| i < j < listed.len() ==> (#[trigger] listed[j]).0 != listed[i].0,
    ensures
        reloaded(budgets, listed).contains_key(listed[i].0),
        reloaded(budgets, listed)[listed[i].0] == listed[i].1,
    decreases listed.len(),
{
    if i < listed.len() - 1 {
        let init = listed.drop_last();
        assert(listed[listed.len() - 1].0 != listed[i].0);
        assert forall|j: int| i < j < init.len() implies (#[trigger] init[j]).0 != init[i].0 by {
            assert(listed[j].0 != listed[i].0);
        }
        law_reload_sets_the_listed_value(budgets, init, i);
    }
}

/// A reload keeps the budget of every campaign that the list does not name, and
/// brings in no campaign that it does not name.
pub proof fn law_reload_keeps_the_others(
    budgets: Map<CampaignId, i64>,
    listed: Seq<(CampaignId, i64)>,
    id: CampaignId,
)
    requires
        forall|j: int| 0 <= j < listed.len() ==> (#[trigger] listed[j]).0 != id,
    ensures
        reloaded(budgets, listed).contains_key(id) <==> budgets.contains_key(id),
        budgets.contains_key(id) ==> reloaded(budgets, listed)[id] == budgets[id],
    decreases listed.len(),
{
    if listed.len() > 0 {
        let init = listed.drop_last();
        assert(listed[listed.len() - 1].0 != id);
        assert forall|j: int| 0 <= j < init.len() implies (#[trigger] init[j]).0 != id by {
            assert(listed[j].0 != id);
        }
        law_reload_keeps_the_others(budgets, init, id);
    }
}

/// Reloading twice with one list is reloading once.
pub proof fn law_reload_is_idempotent(
    budgets: Map<CampaignId, i64>,
    listed: Seq<(CampaignId, i64)>,
    id: CampaignId,
)
    ensures
        reloaded(reloaded(budgets, listed), listed).contains_key(id) <==> reloaded(
            budgets,
            listed,
        ).contains_key(id),
        reloaded(budgets, listed).contains_key(id) ==> reloaded(
            reloaded(budgets, listed),
            listed,
        )[id] == reloaded(budgets, listed)[id],
    decreases listed.len(),
{
    if exists|j: int| 0 <= j < listed.len() && (#[trigger] listed[j]).0 == id {
        let i = lemma_last_named(listed, id);
        law_reload_sets_the_listed_value(budgets, listed, i);
        law_reload_sets_the_listed_value(reloaded(budgets, listed), listed, i);
    } else {
        law_reload_keeps_the_others(reloaded(budgets, listed), listed, id);
    }
}

proof fn lemma_last_named(listed: Seq<(CampaignId, i64)>, id: CampaignId) -> (i: int)
    requires
        exists|j: int| 0 <= j < listed.len() && (#[trigger] listed[j]).0 == id,
    ensures
        0 <= i < listed.len(),
        listed[i].0 == id,
        forall|j: int| i < j < listed.len() ==> (#[trigger] listed[j]).0 != id,
    decreases listed.len(),
{
    if listed.last().0 == id {
        listed.len() - 1
    } else {
        let init = listed.drop_last();
        let j = choose|j: int| 0 <= j < listed.len() && (#[trigger] listed[j]).0 == id;
        assert(init[j].0 == id);
        let i = lemma_last_named(init, id);
        assert forall|k: int| i < k < listed.len() implies (#[trigger] listed[k]).0 != id by {
            if k < init.len() {
                assert(init[k].0 != id);
            }
        }
        i
    }
}

/// A reservation takes exactly the bid off the campaign's budget, and a release puts
/// exactly the bid back, as long as the sums fit in 64 bits.
pub proof fn law_bids_are_taken_and_put_back_whole(
    budgets: Map<CampaignId, i64>,
    id: CampaignId,
    bid_cents: i32,
)
    requires
        budgets.contains_key(id),
    ensures
        i64::MIN <= budgets[id] - bid_cents <= i64::MAX ==> reserved(
            budgets,
            id,
            bid_cents,
            PaceDecision::HasBudget,
        )[id] == budgets[id] - bid_cents,
        i64::MIN <= budgets[id] + bid_cents <= i64::MAX ==> credited(
            budgets,
            id,
            bid_cents as int,
        )[id] == budgets[id] + bid_cents,
        reserved(budgets, id, bid_cents, PaceDecision::Exhausted) == budgets,
        reserved(budgets, id, bid_cents, PaceDecision::HasBudget).dom() == budgets.dom(),
{
    assert(reserved(budgets, id, bid_cents, PaceDecision::HasBudget).dom() =~= budgets.dom());
}

/// Neither a reservation nor a release opens a budget for a campaign without one.
pub proof fn law_no_entry_no_budget(
    budgets: Map<CampaignId, i64>,
    id: CampaignId,
    bid_cents: i32,
    decision: PaceDecision,
)
    requires
        !budgets.contains_key(id),
    ensures
        reserved(budgets, id, bid_cents, decision) == budgets,
        credited(budgets, id, bid_cents as int) == budgets,
{
}

/// A budget that leaves the 64-bit range comes back in at the other end; none of the
/// other campaigns is touched.
pub proof fn law_budgets_wrap_around(
    budgets: Map<CampaignId, i64>,
    id: CampaignId,
    cents: i32,
    other: CampaignId,
)
    requires
        budgets.contains_key(id),
    ensures
        budgets[id] + cents > i64::MAX ==> credited(budgets, id, cents as int)[id] == budgets[id]
            + cents - 0x1_0000_0000_0000_0000,
        budgets[id] + cents < i64::MIN ==> credited(budgets, id, cents as int)[id] == budgets[id]
            + cents + 0x1_0000_0000_0000_0000,
        other != id ==> credited(budgets, id, cents as int)[other] == budgets[other],
        credited(budgets, id, cents as int).dom() == budgets.dom(),
{
}

} // verus!
