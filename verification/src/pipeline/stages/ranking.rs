//! Selects the winner of each impression.
use crate::catalog::types::CampaignId;
use crate::model::candidate::{AdCandidate, ImpWinner};
use crate::model::context::{lists, BidContext, PipelineOutcome};
use crate::model::openrtb::{BidRequest, NoBidReason};
use crate::pacing::local::law_release_restores;
use crate::pacing::{credited, BudgetPacer, PaceDecision};
use crate::pipeline::stages::budget_pacing::{
    affordable, after_all_decisions, after_decisions, exhausts, paced,
};
use crate::text::{decimal, decimal_text};
use vstd::prelude::*;

verus! {

/// Selects the highest-scoring candidate per impression.
///
/// Picks the candidate with the highest score, breaking ties by bid_price_cents.
/// Populates ctx.winners. If no impression has any candidate, sets
/// NoBid(NO_ELIGIBLE_BIDS).
pub struct RankingStage;

/// Whether `a` ranks strictly above `b`: by score, and by price where neither
/// score is the lower one.
pub open spec fn outranks(a: AdCandidate, b: AdCandidate) -> bool {
    b.score.below(a.score) || (!a.score.below(b.score) && a.bid_price_cents > b.bid_price_cents)
}

/// The index of the winner of a list: a candidate holds the lead until one comes
/// that it does not rank strictly above.
pub open spec fn best_index(list: Seq<AdCandidate>) -> int
    decreases list.len(),
{
    if list.len() <= 1 {
        0
    } else {
        let lead = best_index(list.drop_last());
        if outranks(list[lead], list.last()) {
            lead
        } else {
            list.len() - 1
        }
    }
}

/// The id under which a winner of the impression at `idx` is reported: the
/// impression's, or its position where the request has no such impression.
pub open spec fn imp_label(request: BidRequest, idx: int) -> Seq<char> {
    if idx < request.imp@.len() {
        request.imp@[idx].id@
    } else {
        decimal_text(idx as nat)
    }
}

/// Whether a winner is that of the given candidate list.
pub open spec fn wins(
    w: ImpWinner,
    request: BidRequest,
    idx: int,
    list: Seq<AdCandidate>,
) -> bool {
    let best = list[best_index(list)];
    &&& w.imp_id@ == imp_label(request, idx)
    &&& w.campaign_id == best.campaign_id
    &&& w.creative_id == best.creative_id
    &&& w.bid_price_cents == best.bid_price_cents
    &&& w.score == best.score
}

/// Whether winners are those of the given lists: one for each list that has a
/// candidate, in the order of the lists.
pub open spec fn winners_of(
    winners: Seq<ImpWinner>,
    request: BidRequest,
    all: Seq<Seq<AdCandidate>>,
) -> bool
    decreases all.len(),
{
    if all.len() == 0 {
        winners.len() == 0
    } else if all.last().len() == 0 {
        winners_of(winners, request, all.drop_last())
    } else {
        &&& winners.len() > 0
        &&& wins(winners.last(), request, all.len() - 1, all.last())
        &&& winners_of(winners.drop_last(), request, all.drop_last())
    }
}

fn is_above(a: &AdCandidate, b: &AdCandidate) -> (above: bool)
    ensures
        above == outranks(*a, *b),
{
    b.score.lt(a.score) || (!a.score.lt(b.score) && a.bid_price_cents > b.bid_price_cents)
}

/// The index of the winner of a list.
pub fn best(list: &Vec<AdCandidate>) -> (w: usize)
    requires
        list@.len() > 0,
    ensures
        w == best_index(list@),
        w < list@.len(),
{
    let mut lead: usize = 0;
    let n: usize = list.len();
    for i in 1..n
        invariant
            n == list@.len(),
            lead < i,
            lead == best_index(list@.take(i as int)),
    {
        assert(list@.take(i + 1).drop_last() =~= list@.take(i as int));
        assert(list@.take(i + 1)[lead as int] == list@[lead as int]);
        assert(list@.take(i + 1).last() == list@[i as int]);
        if !is_above(&list[lead], &list[i]) {
            lead = i;
        }
    }
    assert(list@.take(n as int) =~= list@);
    lead
}

/// The remaining budgets after what was reserved for the first `n` candidates of a
/// list, all but the one at `winner`, was released.
pub open spec fn after_releases(
    budgets: Map<CampaignId, i64>,
    list: Seq<AdCandidate>,
    winner: int,
    n: nat,
) -> Map<CampaignId, i64>
    decreases n,
{
    if n == 0 {
        budgets
    } else {
        let before = after_releases(budgets, list, winner, (n - 1) as nat);
        if n - 1 == winner {
            before
        } else {
            credited(before, list[n - 1].campaign_id, list[n - 1].bid_price_cents as int)
        }
    }
}

/// The remaining budgets after what was reserved for the losers of all lists was
/// released.
pub open spec fn after_all_releases(
    budgets: Map<CampaignId, i64>,
    all: Seq<Seq<AdCandidate>>,
) -> Map<CampaignId, i64>
    decreases all.len(),
{
    if all.len() == 0 {
        budgets
    } else {
        after_releases(
            after_all_releases(budgets, all.drop_last()),
            all.last(),
            best_index(all.last()),
            all.last().len(),
        )
    }
}

impl RankingStage {
    /// The stage's name.
    pub fn name(&self) -> (name: &'static str)
        ensures
            name@ == "ranking"@,
    {
        "ranking"
    }

    /// Adds the winner of each impression, and decides between bid and no-bid.
    pub fn execute(&self, ctx: &mut BidContext)
        ensures
            final(ctx).same_input(*old(ctx)),
            final(ctx).candidates == old(ctx).candidates,
            final(ctx).freq_cap_results == old(ctx).freq_cap_results,
            final(ctx).bid_response == old(ctx).bid_response,
            ({
                let earlier = old(ctx).winners@.len() as int;
                &&& final(ctx).winners@.len() >= earlier
                &&& final(ctx).winners@.take(earlier) == old(ctx).winners@
                &&& winners_of(
                    final(ctx).winners@.skip(earlier),
                    old(ctx).request,
                    lists(old(ctx).candidates@),
                )
            }),
            final(ctx).outcome == (if final(ctx).winners@.len() == 0 {
                PipelineOutcome::NoBid(NoBidReason(NoBidReason::NO_ELIGIBLE_BIDS))
            } else {
                PipelineOutcome::Bid
            }),
    {
        let ghost earlier = ctx.winners@.len() as int;
        let ghost all = lists(ctx.candidates@);
        let n: usize = ctx.candidates.len();
        assert(ctx.winners@.take(earlier) =~= old(ctx).winners@);
        for idx in 0..n
            invariant
                n == ctx.candidates@.len() == all.len(),
                all == lists(old(ctx).candidates@),
                ctx.same_input(*old(ctx)),
                ctx.candidates == old(ctx).candidates,
                ctx.freq_cap_results == old(ctx).freq_cap_results,
                ctx.bid_response == old(ctx).bid_response,
                earlier == old(ctx).winners@.len(),
                ctx.winners@.len() >= earlier,
                ctx.winners@.take(earlier) == old(ctx).winners@,
                winners_of(
                    ctx.winners@.skip(earlier),
                    ctx.request,
                    all.take(idx as int),
                ),
        {
            assert(all.take(idx + 1).drop_last() =~= all.take(idx as int));
            assert(all.take(idx + 1).last() == ctx.candidates@[idx as int]@);
            if ctx.candidates[idx].len() > 0 {
                let imp_id = if idx < ctx.request.imp.len() {
                    ctx.request.imp[idx].id.clone()
                } else {
                    decimal(idx as u64)
                };
                let w = ctx.candidates[idx][best(&ctx.candidates[idx])];
                let ghost before = ctx.winners@;
                ctx.winners.push(
                    ImpWinner {
                        imp_id,
                        campaign_id: w.campaign_id,
                        creative_id: w.creative_id,
                        bid_price_cents: w.bid_price_cents,
                        score: w.score,
                    },
                );
                assert(ctx.winners@.take(earlier) =~= before.take(earlier));
                assert(ctx.winners@.skip(earlier).drop_last() =~= before.skip(earlier));
            }
        }
        assert(all.take(n as int) =~= all);
        if ctx.winners.len() == 0 {
            ctx.outcome = PipelineOutcome::NoBid(NoBidReason(NoBidReason::NO_ELIGIBLE_BIDS));
        } else {
            ctx.outcome = PipelineOutcome::Bid;
        }
    }

    /// Releases what pacing reserved for the candidates that did not win: only the
    /// winner of each impression goes out as a bid.
    pub fn release_losers<P: BudgetPacer>(&self, ctx: &BidContext, pacer: &mut P)
        ensures
            final(pacer).remaining() == after_all_releases(
                old(pacer).remaining(),
                lists(ctx.candidates@),
            ),
    {
        let ghost all = lists(ctx.candidates@);
        let n: usize = ctx.candidates.len();
        for idx in 0..n
            invariant
                n == ctx.candidates@.len() == all.len(),
                all == lists(ctx.candidates@),
                pacer.remaining() == after_all_releases(
                    old(pacer).remaining(),
                    all.take(idx as int),
                ),
        {
            assert(all.take(idx + 1).drop_last() =~= all.take(idx as int));
            assert(all.take(idx + 1).last() == ctx.candidates@[idx as int]@);
            let list = &ctx.candidates[idx];
            let m: usize = list.len();
            if m > 0 {
                let winner = best(list);
                let ghost start = pacer.remaining();
                for i in 0..m
                    invariant
                        m == list@.len(),
                        pacer.remaining() == after_releases(
                            start,
                            list@,
                            winner as int,
                            i as nat,
                        ),
                {
                    if i != winner {
                        pacer.release(list[i].campaign_id, list[i].bid_price_cents);
                    }
                }
            }
        }
        assert(all.take(n as int) =~= all);
    }
}

/// The winner is the best: where every score is a number, no candidate of the list
/// ranks strictly above the winner.
pub proof fn law_winner_is_best(list: Seq<AdCandidate>)
    requires
        list.len() > 0,
        forall|i: int| 0 <= i < list.len() ==> !(#[trigger] list[i]).score.nan(),
    ensures
        0 <= best_index(list) < list.len(),
        forall|i: int| 0 <= i < list.len() ==> !outranks(#[trigger] list[i], list[best_index(list)]),
    decreases list.len(),
{
    if list.len() > 1 {
        let init = list.drop_last();
        law_winner_is_best(init);
        let lead = best_index(init);
        assert forall|i: int| 0 <= i < list.len() implies !outranks(
            #[trigger] list[i],
            list[best_index(list)],
        ) by {
            if i < list.len() - 1 {
                assert(!outranks(init[i], init[lead]));
            }
            assert(!list[lead].score.nan());
            assert(!list[list.len() - 1].score.nan());
        }
    }
}

/// The index of the winner lies in the list.
pub proof fn law_winner_is_a_candidate(list: Seq<AdCandidate>)
    requires
        list.len() > 0,
    ensures
        0 <= best_index(list) < list.len(),
    decreases list.len(),
{
    if list.len() > 1 {
        law_winner_is_a_candidate(list.drop_last());
    }
}

/// There is at most one winner per impression, and none only where no impression
/// has a candidate.
pub proof fn law_one_winner_per_impression(
    winners: Seq<ImpWinner>,
    request: BidRequest,
    all: Seq<Seq<AdCandidate>>,
)
    requires
        winners_of(winners, request, all),
    ensures
        winners.len() <= all.len(),
        winners.len() == 0 <==> forall|i: int| 0 <= i < all.len() ==> (#[trigger] all[i]).len() == 0,
    decreases all.len(),
{
    if all.len() > 0 {
        let init = all.drop_last();
        if all.last().len() == 0 {
            law_one_winner_per_impression(winners, request, init);
            assert(winners.len() == 0 ==> forall|i: int|
                0 <= i < all.len() ==> (#[trigger] all[i]).len() == 0) by {
                if winners.len() == 0 {
                    assert forall|i: int| 0 <= i < all.len() implies (#[trigger] all[i]).len()
                        == 0 by {
                        if i < init.len() {
                            assert(init[i].len() == 0);
                        }
                    }
                }
            }
            if forall|i: int| 0 <= i < all.len() ==> (#[trigger] all[i]).len() == 0 {
                assert forall|i: int| 0 <= i < init.len() implies (#[trigger] init[i]).len()
                    == 0 by {
                    assert(all[i].len() == 0);
                }
            }
        } else {
            law_one_winner_per_impression(winners.drop_last(), request, init);
            assert(all[all.len() - 1].len() > 0);
        }
    }
}

/// Every winner was a candidate: what is bid with is the campaign, the creative and
/// the price of a candidate that reached ranking.
pub proof fn law_winners_were_candidates(
    winners: Seq<ImpWinner>,
    request: BidRequest,
    all: Seq<Seq<AdCandidate>>,
    k: int,
) -> (at: (int, int))
    requires
        winners_of(winners, request, all),
        0 <= k < winners.len(),
    ensures
        0 <= at.0 < all.len(),
        0 <= at.1 < all[at.0].len(),
        winners[k].imp_id@ == imp_label(request, at.0),
        winners[k].campaign_id == all[at.0][at.1].campaign_id,
        winners[k].creative_id == all[at.0][at.1].creative_id,
        winners[k].bid_price_cents == all[at.0][at.1].bid_price_cents,
    decreases all.len(),
{
    let init = all.drop_last();
    if all.last().len() == 0 {
        law_winners_were_candidates(winners, request, init, k)
    } else if k < winners.len() - 1 {
        law_winners_were_candidates(winners.drop_last(), request, init, k)
    } else {
        law_winner_is_a_candidate(all.last());
        (all.len() - 1, best_index(all.last()))
    }
}

/// Two credits can be made in either order.
proof fn lemma_credits_commute(
    budgets: Map<CampaignId, i64>,
    a: CampaignId,
    x: int,
    b: CampaignId,
    y: int,
)
    requires
        -0x8000_0000 <= x <= 0x8000_0000,
        -0x8000_0000 <= y <= 0x8000_0000,
    ensures
        credited(credited(budgets, a, x), b, y) == credited(credited(budgets, b, y), a, x),
{
    assert(credited(credited(budgets, a, x), b, y) =~= credited(credited(budgets, b, y), a, x));
}

proof fn lemma_credit_before_releases(
    budgets: Map<CampaignId, i64>,
    list: Seq<AdCandidate>,
    winner: int,
    n: nat,
    id: CampaignId,
    cents: int,
)
    requires
        n <= list.len(),
        -0x8000_0000 <= cents <= 0x8000_0000,
    ensures
        after_releases(credited(budgets, id, cents), list, winner, n) == credited(
            after_releases(budgets, list, winner, n),
            id,
            cents,
        ),
    decreases n,
{
    if n > 0 {
        lemma_credit_before_releases(budgets, list, winner, (n - 1) as nat, id, cents);
        if n - 1 != winner {
            lemma_credits_commute(
                after_releases(budgets, list, winner, (n - 1) as nat),
                id,
                cents,
                list[n - 1].campaign_id,
                list[n - 1].bid_price_cents as int,
            );
        }
    }
}

/// Every candidate may bid.
pub open spec fn all_have_budget(n: nat) -> Seq<PaceDecision> {
    Seq::new(n, |i: int| PaceDecision::HasBudget)
}

proof fn lemma_prefix_charged(
    budgets: Map<CampaignId, i64>,
    list: Seq<AdCandidate>,
    winner: int,
    n: nat,
)
    requires
        n <= list.len(),
        0 <= winner,
    ensures
        after_releases(
            after_decisions(budgets, list.take(n as int), all_have_budget(n)),
            list,
            winner,
            n,
        ) == (if winner < n {
            credited(budgets, list[winner].campaign_id, -list[winner].bid_price_cents)
        } else {
            budgets
        }),
    decreases n,
{
    if n > 0 {
        let m = (n - 1) as nat;
        let last = list[m as int];
        let paced = after_decisions(budgets, list.take(m as int), all_have_budget(m));
        lemma_prefix_charged(budgets, list, winner, m);
        assert(list.take(n as int).drop_last() =~= list.take(m as int));
        assert(all_have_budget(n).drop_last() =~= all_have_budget(m));
        lemma_credit_before_releases(
            paced,
            list,
            winner,
            m,
            last.campaign_id,
            -last.bid_price_cents,
        );
        law_release_restores(
            after_releases(paced, list, winner, m),
            last.campaign_id,
            last.bid_price_cents,
        );
    }
}

/// Only the winner is charged: where every candidate of an impression had budget,
/// pacing and the release of the losers together take the winner's price off its
/// campaign's budget, and leave all else as it was.
pub proof fn law_only_the_winner_is_charged(
    budgets: Map<CampaignId, i64>,
    list: Seq<AdCandidate>,
)
    requires
        list.len() > 0,
    ensures
        after_releases(
            after_decisions(budgets, list, all_have_budget(list.len())),
            list,
            best_index(list),
            list.len(),
        ) == credited(
            budgets,
            list[best_index(list)].campaign_id,
            -list[best_index(list)].bid_price_cents,
        ),
{
    law_winner_is_a_candidate(list);
    lemma_prefix_charged(budgets, list, best_index(list), list.len());
    assert(list.take(list.len() as int) =~= list);
}

/// No campaign has two candidates in a list.
pub open spec fn distinct_campaigns(list: Seq<AdCandidate>) -> bool {
    forall|i: int, j: int|
        0 <= i < j < list.len() ==> (#[trigger] list[i]).campaign_id != (
        #[trigger] list[j]).campaign_id
}

/// The remaining budgets after the price of each list's winner was taken off its
/// campaign's.
pub open spec fn charged(
    budgets: Map<CampaignId, i64>,
    all: Seq<Seq<AdCandidate>>,
) -> Map<CampaignId, i64>
    decreases all.len(),
{
    if all.len() == 0 {
        budgets
    } else {
        let before = charged(budgets, all.drop_last());
        if all.last().len() == 0 {
            before
        } else {
            let winner = all.last()[best_index(all.last())];
            credited(before, winner.campaign_id, -winner.bid_price_cents)
        }
    }
}

proof fn lemma_credit_before_all_releases(
    budgets: Map<CampaignId, i64>,
    all: Seq<Seq<AdCandidate>>,
    id: CampaignId,
    cents: int,
)
    requires
        -0x8000_0000 <= cents <= 0x8000_0000,
    ensures
        after_all_releases(credited(budgets, id, cents), all) == credited(
            after_all_releases(budgets, all),
            id,
            cents,
        ),
    decreases all.len(),
{
    if all.len() > 0 {
        lemma_credit_before_all_releases(budgets, all.drop_last(), id, cents);
        lemma_credit_before_releases(
            after_all_releases(budgets, all.drop_last()),
            all.last(),
            best_index(all.last()),
            all.last().len(),
            id,
            cents,
        );
    }
}

proof fn lemma_decisions_before_all_releases(
    budgets: Map<CampaignId, i64>,
    list: Seq<AdCandidate>,
    decisions: Seq<PaceDecision>,
    all: Seq<Seq<AdCandidate>>,
)
    ensures
        after_all_releases(after_decisions(budgets, list, decisions), all) == after_decisions(
            after_all_releases(budgets, all),
            list,
            decisions,
        ),
    decreases list.len(),
{
    if list.len() > 0 {
        let (init, earlier) = (list.drop_last(), decisions.drop_last());
        lemma_decisions_before_all_releases(budgets, init, earlier, all);
        lemma_credit_before_all_releases(
            after_decisions(budgets, init, earlier),
            all,
            list.last().campaign_id,
            -list.last().bid_price_cents,
        );
    }
}

/// Where no campaign has two candidates, what was reserved for a list is what
/// was reserved for the candidates that stay.
proof fn lemma_reserved_for_those_that_stay(
    budgets: Map<CampaignId, i64>,
    list: Seq<AdCandidate>,
    decisions: Seq<PaceDecision>,
    n: int,
)
    requires
        distinct_campaigns(list),
        decisions.len() == list.len(),
        0 <= n <= list.len(),
    ensures
        ({
            let keep = |c: AdCandidate| !exhausts(list, decisions, c.campaign_id);
            let kept = list.take(n).filter(keep);
            after_decisions(budgets, list.take(n), decisions.take(n)) == after_decisions(
                budgets,
                kept,
                all_have_budget(kept.len()),
            )
        }),
    decreases n,
{
    reveal(Seq::filter);
    let keep = |c: AdCandidate| !exhausts(list, decisions, c.campaign_id);
    if n > 0 {
        lemma_reserved_for_those_that_stay(budgets, list, decisions, n - 1);
        let last = list[n - 1];
        let kept = list.take(n - 1).filter(keep);
        assert(list.take(n).drop_last() =~= list.take(n - 1));
        assert(decisions.take(n).drop_last() =~= decisions.take(n - 1));
        assert(exhausts(list, decisions, last.campaign_id) <==> decisions[n - 1]
            == PaceDecision::Exhausted);
        assert(kept.push(last).drop_last() =~= kept);
        assert(all_have_budget(kept.len() + 1).drop_last() =~= all_have_budget(kept.len()));
    }
}

/// Only the winners of a request are charged: where no campaign has two candidates
/// for one impression, pacing all impressions and releasing the losers of all
/// together take each winner's price off its campaign's budget, and leave all else
/// as it was.
pub proof fn law_only_winners_are_charged(
    budgets: Map<CampaignId, i64>,
    before: Seq<Seq<AdCandidate>>,
    after: Seq<Seq<AdCandidate>>,
    decisions: Seq<Seq<PaceDecision>>,
)
    requires
        paced(before, after, decisions),
        forall|i: int| 0 <= i < before.len() ==> distinct_campaigns(#[trigger] before[i]),
    ensures
        after_all_releases(after_all_decisions(budgets, before, decisions), after) == charged(
            budgets,
            after,
        ),
    decreases before.len(),
{
    if before.len() > 0 {
        let (init, rest) = (before.drop_last(), after.drop_last());
        let earlier = decisions.drop_last();
        let (list, kept) = (before.last(), after.last());
        assert forall|i: int| 0 <= i < init.len() implies #[trigger] rest[i] == affordable(
            init[i],
            earlier[i],
        ) by {
            assert(after[i] == affordable(before[i], decisions[i]));
        }
        assert forall|i: int| 0 <= i < init.len() implies (#[trigger] earlier[i]).len()
            == init[i].len() by {
            assert(decisions[i].len() == before[i].len());
        }
        assert forall|i: int| 0 <= i < init.len() implies distinct_campaigns(
            #[trigger] init[i],
        ) by {
            assert(distinct_campaigns(before[i]));
        }
        law_only_winners_are_charged(budgets, init, rest, earlier);
        let last = before.len() - 1;
        assert(after[last] == affordable(before[last], decisions[last]));
        assert(distinct_campaigns(before[last]));
        assert(decisions[last].len() == before[last].len());
        let paced_init = after_all_decisions(budgets, init, earlier);
        lemma_decisions_before_all_releases(paced_init, list, decisions.last(), rest);
        let settled = charged(budgets, rest);
        lemma_reserved_for_those_that_stay(
            settled,
            list,
            decisions.last(),
            list.len() as int,
        );
        assert(list.take(list.len() as int) =~= list);
        assert(decisions.last().take(list.len() as int) =~= decisions.last());
        assert(after_decisions(settled, list, decisions.last()) == after_decisions(
            settled,
            kept,
            all_have_budget(kept.len()),
        ));
        if kept.len() > 0 {
            law_only_the_winner_is_charged(settled, kept);
        }
    }
}

/// The winner has the highest score, and among the candidates of that score the
/// highest price: where every score is a number, no candidate scores above the
/// winner, and none that scores no lower is dearer.
pub proof fn law_winner_scores_highest(list: Seq<AdCandidate>, i: int)
    requires
        0 <= i < list.len(),
        forall|j: int| 0 <= j < list.len() ==> !(#[trigger] list[j]).score.nan(),
    ensures
        0 <= best_index(list) < list.len(),
        !list[best_index(list)].score.below(list[i].score),
        !list[i].score.below(list[best_index(list)].score) ==> list[i].bid_price_cents
            <= list[best_index(list)].bid_price_cents,
        list[i].score.rank() <= list[best_index(list)].score.rank(),
{
    law_winner_is_best(list);
    assert(!outranks(list[i], list[best_index(list)]));
}

/// Among candidates that tie with the winner in score and price, the winner comes
/// last.
pub proof fn law_last_of_equals_wins(list: Seq<AdCandidate>, i: int)
    requires
        0 <= i < list.len(),
        forall|j: int| 0 <= j < list.len() ==> !(#[trigger] list[j]).score.nan(),
        list[i].score.rank() == list[best_index(list)].score.rank(),
        list[i].bid_price_cents == list[best_index(list)].bid_price_cents,
    ensures
        i <= best_index(list),
    decreases list.len(),
{
    if list.len() > 1 {
        let init = list.drop_last();
        let lead = best_index(init);
        law_winner_is_best(init);
        law_winner_is_best(list);
        assert(!list[lead].score.nan());
        assert(!list[list.len() - 1].score.nan());
        if best_index(list) == lead && i < list.len() - 1 {
            assert forall|j: int| 0 <= j < init.len() implies !(#[trigger] init[j]).score.nan() by {
                assert(!list[j].score.nan());
            }
            law_last_of_equals_wins(init, i);
        }
    }
}

/// A winner is reported under the id of its impression; where the request has no
/// impression at the list's position, under the position in decimal.
pub proof fn law_winners_name_their_impression(request: BidRequest, idx: int)
    requires
        0 <= idx,
    ensures
        idx < request.imp@.len() ==> imp_label(request, idx) == request.imp@[idx].id@,
        idx >= request.imp@.len() ==> imp_label(request, idx) == decimal_text(idx as nat),
{
}

/// Every winner is the best of its impression: where the scores of a winner's list
/// are numbers, the winner carries the campaign, creative, price and score of a
/// candidate of that list that no other scores above, and that none of the same
/// score is dearer than.
pub proof fn law_every_winner_is_best(
    winners: Seq<ImpWinner>,
    request: BidRequest,
    all: Seq<Seq<AdCandidate>>,
    k: int,
) -> (at: (int, int))
    requires
        winners_of(winners, request, all),
        0 <= k < winners.len(),
        forall|i: int, j: int|
            0 <= i < all.len() && 0 <= j < all[i].len() ==> !(#[trigger] all[i][j]).score.nan(),
    ensures
        0 <= at.0 < all.len(),
        0 <= at.1 < all[at.0].len(),
        winners[k].campaign_id == all[at.0][at.1].campaign_id,
        winners[k].creative_id == all[at.0][at.1].creative_id,
        winners[k].bid_price_cents == all[at.0][at.1].bid_price_cents,
        winners[k].score == all[at.0][at.1].score,
        forall|j: int|
            0 <= j < all[at.0].len() ==> (#[trigger] all[at.0][j]).score.rank()
                <= winners[k].score.rank() && (all[at.0][j].score.rank() == winners[k].score.rank()
                ==> all[at.0][j].bid_price_cents <= winners[k].bid_price_cents),
    decreases all.len(),
{
    let init = all.drop_last();
    assert forall|i: int, j: int| 0 <= i < init.len() && 0 <= j < init[i].len() implies !(
    #[trigger] init[i][j]).score.nan() by {
        assert(!all[i][j].score.nan());
    }
    if all.last().len() == 0 {
        law_every_winner_is_best(winners, request, init, k)
    } else if k < winners.len() - 1 {
        law_every_winner_is_best(winners.drop_last(), request, init, k)
    } else {
        let list = all.last();
        let n = all.len() - 1;
        assert forall|j: int| 0 <= j < list.len() implies !(#[trigger] list[j]).score.nan() by {
            assert(!all[n][j].score.nan());
        }
        law_winner_is_a_candidate(list);
        assert forall|j: int| 0 <= j < all[n].len() implies (#[trigger] all[n][j]).score.rank()
            <= winners[k].score.rank() && (all[n][j].score.rank() == winners[k].score.rank()
            ==> all[n][j].bid_price_cents <= winners[k].bid_price_cents) by {
            law_winner_scores_highest(list, j);
        }
        (n, best_index(list))
    }
}

/// Of two candidates the one with the higher score is above, at equal scores the
/// dearer one; where a score is no number, the price alone decides.
pub proof fn law_scores_before_prices(a: AdCandidate, b: AdCandidate)
    ensures
        ({
            let numbers = !a.score.nan() && !b.score.nan();
            let tied = !numbers || a.score.rank() == b.score.rank();
            &&& numbers && a.score.rank() > b.score.rank() ==> outranks(a, b)
            &&& numbers && a.score.rank() < b.score.rank() ==> !outranks(a, b)
            &&& tied ==> (outranks(a, b) <==> a.bid_price_cents > b.bid_price_cents)
        }),
        !(outranks(a, b) && outranks(b, a)),
{
}

/// A further candidate wins exactly if the winner so far is not above it.
pub proof fn law_a_further_candidate_wins_unless_outranked(list: Seq<AdCandidate>, c: AdCandidate)
    requires
        list.len() > 0,
    ensures
        ({
            let so_far = list[best_index(list)];
            let winner = list.push(c)[best_index(list.push(c))];
            let numbers = !so_far.score.nan() && !c.score.nan();
            &&& numbers && so_far.score.rank() > c.score.rank() ==> winner == so_far
            &&& numbers && so_far.score.rank() < c.score.rank() ==> winner == c
            &&& !numbers || so_far.score.rank() == c.score.rank() ==> winner == (
            if so_far.bid_price_cents > c.bid_price_cents {
                so_far
            } else {
                c
            })
        }),
        best_index(seq![c]) == 0,
{
    assert(list.push(c).drop_last() =~= list);
    law_winner_is_a_candidate(list);
}

/// The impressions are ranked in turn: one with candidates has the winner that follows
/// those before it, named after the impression, and one without has none.
pub proof fn law_impressions_are_ranked_in_turn(
    winners: Seq<ImpWinner>,
    request: BidRequest,
    all: Seq<Seq<AdCandidate>>,
    list: Seq<AdCandidate>,
    w: ImpWinner,
)
    ensures
        list.len() == 0 ==> (winners_of(winners, request, all.push(list)) <==> winners_of(
            winners,
            request,
            all,
        )),
        list.len() > 0 && winners_of(winners.push(w), request, all.push(list)) ==> winners_of(
            winners,
            request,
            all,
        ) && w.campaign_id == list[best_index(list)].campaign_id && w.creative_id
            == list[best_index(list)].creative_id && w.bid_price_cents == list[best_index(
            list,
        )].bid_price_cents && w.score == list[best_index(list)].score && (all.len()
            < request.imp@.len() ==> w.imp_id@ == request.imp@[all.len() as int].id@),
        list.len() > 0 ==> !winners_of(Seq::<ImpWinner>::empty(), request, all.push(list)),
        winners_of(winners, request, Seq::<Seq<AdCandidate>>::empty()) <==> winners.len() == 0,
{
    assert(all.push(list).drop_last() =~= all);
    assert(winners.push(w).drop_last() =~= winners);
}

} // verus!
