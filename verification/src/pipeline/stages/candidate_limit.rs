//! Limits the number of candidates per impression.
use crate::model::candidate::AdCandidate;
use crate::model::context::BidContext;
use vstd::prelude::*;

verus! {

/// Trims each impression's candidate list to at most `top_k` entries: the
/// highest-priced ones. Score is zero at this point; pre-filtering by price avoids
/// scoring cheap campaigns that can't win. The final ranking uses score, not price.
pub struct CandidateLimitStage {
    pub top_k: usize,
}

/// Whether `a` gives way to `b`: it is cheaper or, at the same price, has the
/// higher campaign id.
pub open spec fn gives_way(a: AdCandidate, b: AdCandidate) -> bool {
    a.bid_price_cents < b.bid_price_cents || (a.bid_price_cents == b.bid_price_cents
        && a.campaign_id > b.campaign_id)
}

/// Whether `all` splits into the kept and the dropped candidates, and none of the
/// kept gives way to a dropped one.
pub open spec fn splits(
    all: Seq<AdCandidate>,
    kept: Seq<AdCandidate>,
    dropped: Seq<AdCandidate>,
) -> bool {
    &&& kept.to_multiset().add(dropped.to_multiset()) == all.to_multiset()
    &&& forall|i: int, j: int|
        0 <= i < kept.len() && 0 <= j < dropped.len() ==> !gives_way(
            #[trigger] kept[i],
            #[trigger] dropped[j],
        )
}

/// Whether a list is what the limit leaves of another: the list itself if it is
/// short enough, and otherwise the `top_k` best, in some order.
pub open spec fn limited(before: Seq<AdCandidate>, after: Seq<AdCandidate>, top_k: int) -> bool {
    if before.len() <= top_k {
        after == before
    } else {
        after.len() == top_k && exists|dropped: Seq<AdCandidate>| #[trigger]
            splits(before, after, dropped)
    }
}

fn yields(a: &AdCandidate, b: &AdCandidate) -> (y: bool)
    ensures
        y == gives_way(*a, *b),
{
    a.bid_price_cents < b.bid_price_cents || (a.bid_price_cents == b.bid_price_cents
        && a.campaign_id > b.campaign_id)
}

/// The index of a candidate that gives way to no fewer than any other does.
fn weakest(list: &Vec<AdCandidate>) -> (w: usize)
    requires
        list@.len() > 0,
    ensures
        w < list@.len(),
        forall|i: int| 0 <= i < list@.len() ==> !gives_way(#[trigger] list@[i], list@[w as int]),
{
    let mut w: usize = 0;
    let n: usize = list.len();
    for i in 1..n
        invariant
            n == list@.len(),
            w < n,
            forall|j: int| 0 <= j < i ==> !gives_way(#[trigger] list@[j], list@[w as int]),
    {
        if yields(&list[i], &list[w]) {
            w = i;
        }
    }
    w
}

/// The multiset of a list with one candidate more.
proof fn lemma_push(s: Seq<AdCandidate>, c: AdCandidate)
    ensures
        s.push(c).to_multiset() == s.to_multiset().insert(c),
{
    s.to_multiset_ensures();
}

/// Keeps the `top_k` best candidates of a list.
pub fn trim(list: &mut Vec<AdCandidate>, top_k: usize)
    ensures
        limited(old(list)@, final(list)@, top_k as int),
{
    let n: usize = list.len();
    if n <= top_k {
        return ;
    }
    let ghost all = list@;
    let mut kept: Vec<AdCandidate> = Vec::new();
    let ghost mut dropped: Seq<AdCandidate> = Seq::empty();
    assert(splits(all.take(0), kept@, dropped)) by {
        all.take(0).to_multiset_ensures();
        kept@.to_multiset_ensures();
        dropped.to_multiset_ensures();
        assert(kept@.to_multiset().add(dropped.to_multiset()) =~= all.take(0).to_multiset());
    }
    for i in 0..n
        invariant
            n == list@.len(),
            list@ == all,
            splits(all.take(i as int), kept@, dropped),
            kept@.len() == (if i < top_k {
                i as int
            } else {
                top_k as int
            }),
            dropped.len() == i - kept@.len(),
    {
        let c = list[i];
        let ghost before = kept@;
        proof {
            lemma_push(all.take(i as int), c);
            lemma_push(before, c);
            assert(all.take(i + 1) =~= all.take(i as int).push(c));
            assert(before.push(c).to_multiset().add(dropped.to_multiset()) =~= all.take(
                i + 1,
            ).to_multiset());
        }
        kept.push(c);
        if kept.len() > top_k {
            let w = weakest(&kept);
            proof {
                lemma_insert_and_drop(all.take(i + 1), before, c, dropped, w as int);
                dropped = dropped.push(kept@[w as int]);
            }
            kept.remove(w);
        }
    }
    assert(all.take(n as int) =~= all);
    *list = kept;
}

/// A new candidate may give way to a dropped one: then it is the weakest itself,
/// or as weak as it.
proof fn lemma_insert_and_drop(
    all: Seq<AdCandidate>,
    before: Seq<AdCandidate>,
    c: AdCandidate,
    dropped: Seq<AdCandidate>,
    w: int,
)
    requires
        before.push(c).to_multiset().add(dropped.to_multiset()) == all.to_multiset(),
        forall|i: int, j: int|
            0 <= i < before.len() && 0 <= j < dropped.len() ==> !gives_way(
                #[trigger] before[i],
                #[trigger] dropped[j],
            ),
        0 <= w <= before.len(),
        forall|i: int|
            0 <= i <= before.len() ==> !gives_way(
                #[trigger] before.push(c)[i],
                before.push(c)[w],
            ),
    ensures
        splits(all, before.push(c).remove(w), dropped.push(before.push(c)[w])),
{
    let kept = before.push(c);
    kept.to_multiset_ensures();
    lemma_push(dropped, kept[w]);
    assert(kept.contains(kept[w]));
    let (rest, more) = (kept.remove(w), dropped.push(kept[w]));
    assert(rest.to_multiset().add(more.to_multiset()) =~= kept.to_multiset().add(
        dropped.to_multiset(),
    ));
    assert forall|i: int, j: int| 0 <= i < rest.len() && 0 <= j < more.len() implies !gives_way(
        #[trigger] rest[i],
        #[trigger] more[j],
    ) by {
        let k = if i < w {
            i
        } else {
            i + 1
        };
        assert(rest[i] == kept[k]);
        if j < dropped.len() {
            assert(more[j] == dropped[j]);
            if k < before.len() {
                assert(kept[k] == before[k]);
            } else if w < before.len() {
                // The new candidate stays: the one that leaves gives way to no
                // dropped candidate, and the new one does not give way to it.
                assert(kept[w] == before[w]);
                assert(!gives_way(before[w], dropped[j]));
                assert(!gives_way(c, kept[w]));
            }
        }
    }
}

impl CandidateLimitStage {
    /// The stage's name.
    pub fn name(&self) -> (name: &'static str)
        ensures
            name@ == "candidate_limit"@,
    {
        "candidate_limit"
    }

    /// Limits every candidate list.
    pub fn execute(&self, ctx: &mut BidContext)
        ensures
            final(ctx).same_but_candidates(*old(ctx)),
            final(ctx).candidates@.len() == old(ctx).candidates@.len(),
            forall|i: int|
                0 <= i < old(ctx).candidates@.len() ==> limited(
                    old(ctx).candidates@[i]@,
                    (#[trigger] final(ctx).candidates@[i])@,
                    self.top_k as int,
                ),
    {
        let n: usize = ctx.candidates.len();
        for i in 0..n
            invariant
                n == ctx.candidates@.len() == old(ctx).candidates@.len(),
                ctx.same_but_candidates(*old(ctx)),
                forall|j: int|
                    0 <= j < i ==> limited(
                        old(ctx).candidates@[j]@,
                        (#[trigger] ctx.candidates@[j])@,
                        self.top_k as int,
                    ),
                forall|j: int| i <= j < n ==> ctx.candidates@[j] == old(ctx).candidates@[j],
        {
            trim(&mut ctx.candidates[i], self.top_k);
        }
    }
}

/// The limit holds, and adds nothing: no more than `top_k` candidates of a list
/// stay, and all of them are of the list.
pub proof fn law_limit_selects(before: Seq<AdCandidate>, after: Seq<AdCandidate>, top_k: int)
    requires
        limited(before, after, top_k),
        top_k >= 0,
    ensures
        after.len() <= top_k,
        forall|i: int| 0 <= i < after.len() ==> before.contains(#[trigger] after[i]),
{
    if before.len() > top_k {
        let dropped = choose|dropped: Seq<AdCandidate>| #[trigger] splits(before, after, dropped);
        before.to_multiset_ensures();
        after.to_multiset_ensures();
        assert forall|i: int| 0 <= i < after.len() implies before.contains(#[trigger] after[i]) by {
            assert(after.contains(after[i]));
            assert(after.to_multiset().count(after[i]) > 0);
            assert(before.to_multiset().count(after[i]) > 0);
        }
    } else {
        assert forall|i: int| 0 <= i < after.len() implies before.contains(#[trigger] after[i]) by {
            assert(before[i] == after[i]);
        }
    }
}

/// A candidate that all others give way to stays, as long as any may stay.
pub proof fn law_best_candidate_stays(
    before: Seq<AdCandidate>,
    after: Seq<AdCandidate>,
    top_k: int,
    best: AdCandidate,
)
    requires
        limited(before, after, top_k),
        top_k > 0,
        before.contains(best),
        forall|i: int|
            0 <= i < before.len() ==> (#[trigger] before[i] == best || gives_way(before[i], best)),
    ensures
        after.contains(best),
{
    if before.len() > top_k {
        let dropped = choose|dropped: Seq<AdCandidate>| #[trigger] splits(before, after, dropped);
        law_limit_selects(before, after, top_k);
        before.to_multiset_ensures();
        after.to_multiset_ensures();
        dropped.to_multiset_ensures();
        if !after.contains(best) {
            assert(before.to_multiset().count(best) > 0);
            assert(dropped.contains(best));
            let j = choose|j: int| 0 <= j < dropped.len() && dropped[j] == best;
            assert(before.contains(after[0]));
            let i = choose|i: int| 0 <= i < before.len() && before[i] == after[0];
            assert(!gives_way(after[0], dropped[j]));
            assert(after.contains(after[0]));
        }
    }
}

/// What the limit drops is no dearer than anything that it keeps; at the same price it
/// has no smaller campaign id.
pub proof fn law_dropped_are_no_dearer(
    before: Seq<AdCandidate>,
    after: Seq<AdCandidate>,
    top_k: int,
    i: int,
    c: AdCandidate,
)
    requires
        limited(before, after, top_k),
        0 <= i < after.len(),
        before.contains(c),
        !after.contains(c),
    ensures
        c.bid_price_cents <= after[i].bid_price_cents,
        c.bid_price_cents == after[i].bid_price_cents ==> after[i].campaign_id <= c.campaign_id,
{
    assert(before.len() > top_k);
    let dropped = choose|dropped: Seq<AdCandidate>| #[trigger] splits(before, after, dropped);
    before.to_multiset_ensures();
    after.to_multiset_ensures();
    dropped.to_multiset_ensures();
    assert(before.to_multiset().count(c) > 0);
    assert(dropped.contains(c));
    let j = choose|j: int| 0 <= j < dropped.len() && dropped[j] == c;
    assert(!gives_way(after[i], dropped[j]));
}

/// As many candidates stay as may: all of a list that is short enough, in their order,
/// and otherwise the limit. None stays more often than the list has it.
pub proof fn law_limit_keeps_as_many_as_it_may(
    before: Seq<AdCandidate>,
    after: Seq<AdCandidate>,
    top_k: int,
    c: AdCandidate,
)
    requires
        limited(before, after, top_k),
        top_k >= 0,
    ensures
        before.len() <= top_k ==> after == before,
        before.len() > top_k ==> after.len() == top_k,
        after.to_multiset().count(c) <= before.to_multiset().count(c),
{
    if before.len() > top_k {
        let dropped = choose|dropped: Seq<AdCandidate>| #[trigger] splits(before, after, dropped);
        assert(before.to_multiset().count(c) == after.to_multiset().count(c)
            + dropped.to_multiset().count(c));
    }
}

} // verus!
