//! Filters candidates whose campaign has no budget left.
use crate::catalog::types::CampaignId;
use crate::model::candidate::AdCandidate;
use crate::model::context::{lists, BidContext, PipelineOutcome};
use crate::model::openrtb::NoBidReason;
use crate::pacing::local::{law_local_pacer_admits_one_decision, LocalBudgetPacer};
use crate::pacing::{reserved, BudgetPacer, PaceDecision};
use vstd::prelude::*;

verus! {

pub struct BudgetPacingStage;

/// Whether a decision on one of the candidates found the campaign exhausted.
pub open spec fn exhausts(
    list: Seq<AdCandidate>,
    decisions: Seq<PaceDecision>,
    campaign_id: CampaignId,
) -> bool {
    exists|i: int|
        0 <= i < decisions.len() && #[trigger] decisions[i] == PaceDecision::Exhausted
            && list[i].campaign_id == campaign_id
}

/// The candidates of campaigns that no decision found exhausted, in their order.
pub open spec fn affordable(list: Seq<AdCandidate>, decisions: Seq<PaceDecision>) -> Seq<
    AdCandidate,
> {
    list.filter(|c: AdCandidate| !exhausts(list, decisions, c.campaign_id))
}

/// The remaining budgets after a decision on each candidate of a list: the price
/// of every candidate that may bid has been reserved.
pub open spec fn after_decisions(
    budgets: Map<CampaignId, i64>,
    list: Seq<AdCandidate>,
    decisions: Seq<PaceDecision>,
) -> Map<CampaignId, i64>
    decreases list.len(),
{
    if list.len() == 0 {
        budgets
    } else {
        reserved(
            after_decisions(budgets, list.drop_last(), decisions.drop_last()),
            list.last().campaign_id,
            list.last().bid_price_cents,
            decisions.last(),
        )
    }
}

/// The remaining budgets after decisions on several lists.
pub open spec fn after_all_decisions(
    budgets: Map<CampaignId, i64>,
    all: Seq<Seq<AdCandidate>>,
    decisions: Seq<Seq<PaceDecision>>,
) -> Map<CampaignId, i64>
    decreases all.len(),
{
    if all.len() == 0 {
        budgets
    } else {
        after_decisions(
            after_all_decisions(budgets, all.drop_last(), decisions.drop_last()),
            all.last(),
            decisions.last(),
        )
    }
}

/// Whether the pacer may decide so on the candidates of a list, one after the
/// other.
pub open spec fn decided<P: BudgetPacer>(
    budgets: Map<CampaignId, i64>,
    list: Seq<AdCandidate>,
    decisions: Seq<PaceDecision>,
) -> bool
    decreases list.len(),
{
    list.len() == 0 || (decided::<P>(budgets, list.drop_last(), decisions.drop_last()) && P::admits(
        after_decisions(budgets, list.drop_last(), decisions.drop_last()),
        list.last().campaign_id,
        list.last().bid_price_cents,
        decisions.last(),
    ))
}

/// Whether the pacer may decide so on several lists, one after the other.
pub open spec fn all_decided<P: BudgetPacer>(
    budgets: Map<CampaignId, i64>,
    all: Seq<Seq<AdCandidate>>,
    decisions: Seq<Seq<PaceDecision>>,
) -> bool
    decreases all.len(),
{
    all.len() == 0 || (all_decided::<P>(budgets, all.drop_last(), decisions.drop_last())
        && decided::<P>(
        after_all_decisions(budgets, all.drop_last(), decisions.drop_last()),
        all.last(),
        decisions.last(),
    ))
}

/// Whether there is one decision for each candidate.
pub open spec fn one_each(all: Seq<Seq<AdCandidate>>, decisions: Seq<Seq<PaceDecision>>) -> bool {
    &&& decisions.len() == all.len()
    &&& forall|i: int| 0 <= i < all.len() ==> (#[trigger] decisions[i]).len() == all[i].len()
}

/// Whether lists are what decisions leave of others.
pub open spec fn paced(
    before: Seq<Seq<AdCandidate>>,
    after: Seq<Seq<AdCandidate>>,
    decisions: Seq<Seq<PaceDecision>>,
) -> bool {
    &&& one_each(before, decisions)
    &&& after.len() == before.len()
    &&& forall|i: int|
        0 <= i < before.len() ==> #[trigger] after[i] == affordable(before[i], decisions[i])
}

/// Whether no list has a candidate.
pub open spec fn none_left(all: Seq<Seq<AdCandidate>>) -> bool {
    forall|i: int| 0 <= i < all.len() ==> (#[trigger] all[i]).len() == 0
}

fn is_exhausted(
    list: &Vec<AdCandidate>,
    decisions: &Vec<PaceDecision>,
    campaign_id: CampaignId,
) -> (b: bool)
    requires
        list@.len() == decisions@.len(),
    ensures
        b == exhausts(list@, decisions@, campaign_id),
{
    let n: usize = list.len();
    for i in 0..n
        invariant
            n == list@.len() == decisions@.len(),
            forall|j: int|
                0 <= j < i ==> !(#[trigger] decisions@[j] == PaceDecision::Exhausted
                    && list@[j].campaign_id == campaign_id),
    {
        if decisions[i] == PaceDecision::Exhausted && list[i].campaign_id == campaign_id {
            return true;
        }
    }
    false
}

/// Removes the candidates of campaigns that a decision found exhausted.
pub fn retain_affordable(list: &mut Vec<AdCandidate>, decisions: &Vec<PaceDecision>)
    requires
        old(list)@.len() == decisions@.len(),
    ensures
        final(list)@ == affordable(old(list)@, decisions@),
{
    let ghost all = list@;
    let ghost keep = |c: AdCandidate| !exhausts(all, decisions@, c.campaign_id);
    let mut kept: Vec<AdCandidate> = Vec::new();
    let n: usize = list.len();
    proof {
        reveal(Seq::filter);
    }
    assert(kept@ =~= all.take(0).filter(keep));
    for i in 0..n
        invariant
            n == list@.len() == decisions@.len(),
            list@ == all,
            keep == (|c: AdCandidate| !exhausts(all, decisions@, c.campaign_id)),
            kept@ == all.take(i as int).filter(keep),
    {
        proof {
            reveal(Seq::filter);
            assert(all.take(i + 1).drop_last() =~= all.take(i as int));
            assert(all.take(i + 1).last() == all[i as int]);
        }
        let c = list[i];
        if !is_exhausted(list, decisions, c.campaign_id) {
            kept.push(c);
        }
    }
    assert(all.take(n as int) =~= all);
    *list = kept;
}

/// Asks the pacer about each candidate in turn, handing it the campaign and the
/// bid price.
fn decide<P: BudgetPacer>(pacer: &mut P, list: &Vec<AdCandidate>) -> (decisions: Vec<PaceDecision>)
    ensures
        decisions@.len() == list@.len(),
        decided::<P>(old(pacer).remaining(), list@, decisions@),
        final(pacer).remaining() == after_decisions(
            old(pacer).remaining(),
            list@,
            decisions@,
        ),
{
    let mut decisions: Vec<PaceDecision> = Vec::new();
    let n: usize = list.len();
    for i in 0..n
        invariant
            n == list@.len(),
            decisions@.len() == i,
            decided::<P>(old(pacer).remaining(), list@.take(i as int), decisions@),
            pacer.remaining() == after_decisions(
                old(pacer).remaining(),
                list@.take(i as int),
                decisions@,
            ),
    {
        let ghost before = decisions@;
        let d = pacer.check_and_reserve(list[i].campaign_id, list[i].bid_price_cents);
        decisions.push(d);
        assert(list@.take(i + 1).drop_last() =~= list@.take(i as int));
        assert(decisions@.drop_last() =~= before);
    }
    assert(list@.take(n as int) =~= list@);
    decisions
}

impl BudgetPacingStage {
    /// The stage's name.
    pub fn name(&self) -> (name: &'static str)
        ensures
            name@ == "budget_pacing"@,
    {
        "budget_pacing"
    }

    /// Asks the pacer about every candidate, in order, and removes the candidates
    /// of exhausted campaigns from their list. If no candidate is left, the outcome
    /// is a no-bid.
    pub fn execute<P: BudgetPacer>(&self, ctx: &mut BidContext, pacer: &mut P)
        ensures
            final(ctx).same_input(*old(ctx)),
            final(ctx).winners == old(ctx).winners,
            final(ctx).freq_cap_results == old(ctx).freq_cap_results,
            final(ctx).bid_response == old(ctx).bid_response,
            exists|decisions: Seq<Seq<PaceDecision>>|
                #[trigger] paced(
                    lists(old(ctx).candidates@),
                    lists(final(ctx).candidates@),
                    decisions,
                ) && all_decided::<P>(
                    old(pacer).remaining(),
                    lists(old(ctx).candidates@),
                    decisions,
                ) && final(pacer).remaining() == after_all_decisions(
                    old(pacer).remaining(),
                    lists(old(ctx).candidates@),
                    decisions,
                ),
            final(ctx).outcome == (if none_left(lists(final(ctx).candidates@)) {
                PipelineOutcome::NoBid(NoBidReason(NoBidReason::NO_ELIGIBLE_BIDS))
            } else {
                old(ctx).outcome
            }),
    {
        let ghost before = lists(ctx.candidates@);
        let ghost mut all: Seq<Seq<PaceDecision>> = Seq::empty();
        let n: usize = ctx.candidates.len();
        let mut any_remaining = false;
        for i in 0..n
            invariant
                n == ctx.candidates@.len() == before.len(),
                before == lists(old(ctx).candidates@),
                ctx.same_but_candidates(*old(ctx)),
                one_each(before.take(i as int), all),
                forall|j: int|
                    0 <= j < i ==> (#[trigger] ctx.candidates@[j])@ == affordable(
                        before[j],
                        all[j],
                    ),
                forall|j: int| i <= j < n ==> (#[trigger] ctx.candidates@[j])@ == before[j],
                any_remaining <==> exists|j: int|
                    0 <= j < i && (#[trigger] ctx.candidates@[j])@.len() > 0,
                all_decided::<P>(old(pacer).remaining(), before.take(i as int), all),
                pacer.remaining() == after_all_decisions(
                    old(pacer).remaining(),
                    before.take(i as int),
                    all,
                ),
        {
            let ghost earlier = all;
            let ghost was = ctx.candidates@;
            let decisions = decide(pacer, &ctx.candidates[i]);
            retain_affordable(&mut ctx.candidates[i], &decisions);
            proof {
                all = all.push(decisions@);
                assert(before.take(i + 1).drop_last() =~= before.take(i as int));
                assert(all.drop_last() =~= earlier);
            }
            if ctx.candidates[i].len() > 0 {
                any_remaining = true;
            }
            assert forall|j: int| 0 <= j < i implies ctx.candidates@[j] == was[j] by {}
            assert(any_remaining <==> exists|j: int|
                0 <= j < i + 1 && (#[trigger] ctx.candidates@[j])@.len() > 0) by {
                if exists|j: int| 0 <= j < i && (#[trigger] was[j])@.len() > 0 {
                    let j = choose|j: int| 0 <= j < i && (#[trigger] was[j])@.len() > 0;
                    assert(ctx.candidates@[j]@.len() > 0);
                }
            }
        }
        assert(before.take(n as int) =~= before);
        let ghost after = lists(ctx.candidates@);
        assert(paced(before, after, all));
        assert(none_left(after) <==> !any_remaining) by {
            if any_remaining {
                let j = choose|j: int| 0 <= j < n && (#[trigger] ctx.candidates@[j])@.len() > 0;
                assert(after[j].len() > 0);
            }
        }
        if !any_remaining {
            ctx.outcome = PipelineOutcome::NoBid(NoBidReason(NoBidReason::NO_ELIGIBLE_BIDS));
        }
        assert(paced(lists(old(ctx).candidates@), lists(ctx.candidates@), all));
        assert(pacer.remaining() == after_all_decisions(
            old(pacer).remaining(),
            lists(old(ctx).candidates@),
            all,
        ));
    }
}

/// A list is left as it is where every candidate may bid.
pub proof fn law_all_with_budget_stay(list: Seq<AdCandidate>, decisions: Seq<PaceDecision>)
    requires
        forall|i: int|
            0 <= i < decisions.len() ==> #[trigger] decisions[i] == PaceDecision::HasBudget,
    ensures
        affordable(list, decisions) == list,
{
    let keep = |c: AdCandidate| !exhausts(list, decisions, c.campaign_id);
    lemma_filter_all(list, keep);
}

proof fn lemma_filter_all(list: Seq<AdCandidate>, keep: spec_fn(AdCandidate) -> bool)
    requires
        forall|c: AdCandidate| #[trigger] keep(c),
    ensures
        list.filter(keep) == list,
    decreases list.len(),
{
    reveal(Seq::filter);
    if list.len() > 0 {
        lemma_filter_all(list.drop_last(), keep);
        assert(list =~= list.drop_last().push(list.last()));
    }
}

/// No candidate of an exhausted campaign is left.
pub proof fn law_exhausted_campaigns_are_filtered(
    list: Seq<AdCandidate>,
    decisions: Seq<PaceDecision>,
    i: int,
)
    requires
        0 <= i < affordable(list, decisions).len(),
    ensures
        !exhausts(list, decisions, affordable(list, decisions)[i].campaign_id),
{
    let keep = |c: AdCandidate| !exhausts(list, decisions, c.campaign_id);
    list.lemma_filter_pred(keep, i);
}

/// The local pacer's decisions are determined: the same books and the same
/// candidates always give the same decisions.
pub proof fn law_local_decisions_are_determined(
    budgets: Map<CampaignId, i64>,
    list: Seq<AdCandidate>,
    a: Seq<PaceDecision>,
    b: Seq<PaceDecision>,
)
    requires
        a.len() == list.len(),
        b.len() == list.len(),
        decided::<LocalBudgetPacer>(budgets, list, a),
        decided::<LocalBudgetPacer>(budgets, list, b),
    ensures
        a == b,
    decreases list.len(),
{
    if list.len() > 0 {
        law_local_decisions_are_determined(
            budgets,
            list.drop_last(),
            a.drop_last(),
            b.drop_last(),
        );
        assert(a =~= a.drop_last().push(a.last()));
        assert(b =~= b.drop_last().push(b.last()));
    } else {
        assert(a =~= b);
    }
}

/// Filtering by two tests one after the other.
proof fn lemma_filter_twice(
    list: Seq<AdCandidate>,
    p: spec_fn(AdCandidate) -> bool,
    q: spec_fn(AdCandidate) -> bool,
    both: spec_fn(AdCandidate) -> bool,
)
    requires
        forall|c: AdCandidate| #[trigger] both(c) == (p(c) && q(c)),
    ensures
        list.filter(both) == list.filter(p).filter(q),
    decreases list.len(),
{
    reveal(Seq::filter);
    if list.len() > 0 {
        lemma_filter_twice(list.drop_last(), p, q, both);
        let c = list.last();
        assert(both(c) == (p(c) && q(c)));
        if p(c) {
            assert(list.drop_last().filter(p).push(c).drop_last() =~= list.drop_last().filter(p));
        }
    }
}

/// A further decision: a candidate that may bid stays, at the end, unless an earlier
/// decision found its campaign exhausted; an exhausted one takes every candidate of
/// its campaign with it, and no other.
pub proof fn law_decisions_drop_their_campaign(
    list: Seq<AdCandidate>,
    decisions: Seq<PaceDecision>,
    c: AdCandidate,
)
    requires
        list.len() == decisions.len(),
    ensures
        (forall|i: int|
            0 <= i < list.len() && #[trigger] decisions[i] == PaceDecision::Exhausted
                ==> list[i].campaign_id != c.campaign_id) ==> affordable(
            list.push(c),
            decisions.push(PaceDecision::HasBudget),
        ) == affordable(list, decisions).push(c),
        (exists|i: int|
            0 <= i < list.len() && #[trigger] decisions[i] == PaceDecision::Exhausted
                && list[i].campaign_id == c.campaign_id) ==> affordable(
            list.push(c),
            decisions.push(PaceDecision::HasBudget),
        ) == affordable(list, decisions),
        affordable(list.push(c), decisions.push(PaceDecision::Exhausted)) == affordable(
            list,
            decisions,
        ).filter(|x: AdCandidate| x.campaign_id != c.campaign_id),
        affordable(Seq::<AdCandidate>::empty(), decisions).len() == 0,
{
    reveal(Seq::filter);
    let longer = list.push(c);
    assert(longer.drop_last() =~= list);
    let has = decisions.push(PaceDecision::HasBudget);
    let out = decisions.push(PaceDecision::Exhausted);
    let before = |x: AdCandidate| !exhausts(list, decisions, x.campaign_id);
    let after_has = |x: AdCandidate| !exhausts(longer, has, x.campaign_id);
    let after_out = |x: AdCandidate| !exhausts(longer, out, x.campaign_id);
    let other = |x: AdCandidate| x.campaign_id != c.campaign_id;
    assert forall|x: AdCandidate| #[trigger] after_has(x) == before(x) by {
        if exhausts(list, decisions, x.campaign_id) {
            let i = choose|i: int|
                0 <= i < decisions.len() && #[trigger] decisions[i] == PaceDecision::Exhausted
                    && list[i].campaign_id == x.campaign_id;
            assert(has[i] == PaceDecision::Exhausted && longer[i].campaign_id == x.campaign_id);
        }
        if exhausts(longer, has, x.campaign_id) {
            let i = choose|i: int|
                0 <= i < has.len() && #[trigger] has[i] == PaceDecision::Exhausted
                    && longer[i].campaign_id == x.campaign_id;
            assert(decisions[i] == PaceDecision::Exhausted);
        }
    }
    assert(after_has =~= before);
    assert forall|x: AdCandidate| #[trigger] after_out(x) == (before(x) && other(x)) by {
        assert(out[list.len() as int] == PaceDecision::Exhausted);
        if exhausts(list, decisions, x.campaign_id) {
            let i = choose|i: int|
                0 <= i < decisions.len() && #[trigger] decisions[i] == PaceDecision::Exhausted
                    && list[i].campaign_id == x.campaign_id;
            assert(out[i] == PaceDecision::Exhausted && longer[i].campaign_id == x.campaign_id);
        }
        if exhausts(longer, out, x.campaign_id) && x.campaign_id != c.campaign_id {
            let i = choose|i: int|
                0 <= i < out.len() && #[trigger] out[i] == PaceDecision::Exhausted
                    && longer[i].campaign_id == x.campaign_id;
            assert(decisions[i] == PaceDecision::Exhausted);
        }
    }
    lemma_filter_twice(longer, before, other, after_out);
    assert(longer.filter(before).filter(other) == list.filter(before).filter(other)) by {
        assert(!other(c));
        if before(c) {
            assert(list.filter(before).push(c).drop_last() =~= list.filter(before));
        }
    }
}

/// A further decision takes the price off the candidate's own campaign if it may bid,
/// and nothing otherwise; every other campaign keeps its budget.
pub proof fn law_decisions_reserve_in_turn(
    budgets: Map<CampaignId, i64>,
    list: Seq<AdCandidate>,
    decisions: Seq<PaceDecision>,
    c: AdCandidate,
    decision: PaceDecision,
    other: CampaignId,
)
    ensures
        ({
            let before = after_decisions(budgets, list, decisions);
            let after = after_decisions(budgets, list.push(c), decisions.push(decision));
            let id = c.campaign_id;
            &&& after.dom() == before.dom()
            &&& decision == PaceDecision::Exhausted ==> after == before
            &&& decision == PaceDecision::HasBudget && before.contains_key(id) && i64::MIN
                <= before[id] - c.bid_price_cents <= i64::MAX ==> after[id] == before[id]
                - c.bid_price_cents
            &&& other != id ==> after[other] == before[other]
            &&& after_decisions(budgets, Seq::<AdCandidate>::empty(), decisions) == budgets
        }),
{
    assert(list.push(c).drop_last() =~= list);
    assert(decisions.push(decision).drop_last() =~= decisions);
}

/// The lists are decided on one after the other, each from what the ones before it
/// have left.
pub proof fn law_lists_are_decided_in_turn(
    budgets: Map<CampaignId, i64>,
    all: Seq<Seq<AdCandidate>>,
    decisions: Seq<Seq<PaceDecision>>,
    list: Seq<AdCandidate>,
    own: Seq<PaceDecision>,
)
    ensures
        after_all_decisions(budgets, all.push(list), decisions.push(own)) == after_decisions(
            after_all_decisions(budgets, all, decisions),
            list,
            own,
        ),
        after_all_decisions(budgets, Seq::<Seq<AdCandidate>>::empty(), decisions) == budgets,
        all_decided::<LocalBudgetPacer>(budgets, all.push(list), decisions.push(own))
            ==> all_decided::<LocalBudgetPacer>(budgets, all, decisions)
            && decided::<LocalBudgetPacer>(
            after_all_decisions(budgets, all, decisions),
            list,
            own,
        ),
{
    assert(all.push(list).drop_last() =~= all);
    assert(decisions.push(own).drop_last() =~= decisions);
}

/// The local pacer lets a candidate bid exactly while its campaign has something left
/// after the candidates before it.
pub proof fn law_local_pacer_decides_by_what_is_left(
    budgets: Map<CampaignId, i64>,
    list: Seq<AdCandidate>,
    decisions: Seq<PaceDecision>,
    c: AdCandidate,
    decision: PaceDecision,
)
    requires
        decided::<LocalBudgetPacer>(budgets, list.push(c), decisions.push(decision)),
    ensures
        ({
            let left = after_decisions(budgets, list, decisions);
            decision == PaceDecision::HasBudget <==> left.contains_key(c.campaign_id)
                && left[c.campaign_id] > 0
        }),
        decided::<LocalBudgetPacer>(budgets, list, decisions),
{
    assert(list.push(c).drop_last() =~= list);
    assert(decisions.push(decision).drop_last() =~= decisions);
    law_local_pacer_admits_one_decision(
        after_decisions(budgets, list, decisions),
        c.campaign_id,
        c.bid_price_cents,
    );
}

/// Every list is filtered by the decisions on its own candidates.
pub proof fn law_lists_are_filtered_by_their_own_decisions(
    before: Seq<Seq<AdCandidate>>,
    after: Seq<Seq<AdCandidate>>,
    decisions: Seq<Seq<PaceDecision>>,
    i: int,
    j: int,
)
    requires
        paced(before, after, decisions),
        0 <= i < before.len(),
        0 <= j < before[i].len(),
    ensures
        after.len() == before.len(),
        decisions.len() == before.len(),
        decisions[i].len() == before[i].len(),
        decisions[i][j] == PaceDecision::Exhausted ==> forall|k: int|
            0 <= k < after[i].len() ==> (#[trigger] after[i][k]).campaign_id
                != before[i][j].campaign_id,
        (forall|k: int|
            0 <= k < before[i].len() && before[i][k].campaign_id == before[i][j].campaign_id ==> (
            #[trigger] decisions[i][k]) == PaceDecision::HasBudget) ==> after[i].contains(
            before[i][j],
        ),
{
    let list = before[i];
    let own = decisions[i];
    assert(own.len() == list.len());
    assert(after[i] == affordable(list, own));
    if own[j] == PaceDecision::Exhausted {
        assert forall|k: int| 0 <= k < after[i].len() implies (
        #[trigger] after[i][k]).campaign_id != list[j].campaign_id by {
            law_exhausted_campaigns_are_filtered(list, own, k);
        }
    }
    if forall|k: int|
        0 <= k < list.len() && list[k].campaign_id == list[j].campaign_id ==> (#[trigger] own[k])
            == PaceDecision::HasBudget {
        let keep = |c: AdCandidate| !exhausts(list, own, c.campaign_id);
        assert(keep(list[j]));
        list.filter_lemma(keep);
        assert(list.contains(list[j]));
    }
}

/// There are no candidates left exactly if every list is empty.
pub proof fn law_one_candidate_is_enough(all: Seq<Seq<AdCandidate>>, i: int)
    requires
        0 <= i < all.len(),
    ensures
        all[i].len() > 0 ==> !none_left(all),
        (forall|k: int| 0 <= k < all.len() ==> (#[trigger] all[k]).len() == 0) ==> none_left(all),
{
}

} // verus!
