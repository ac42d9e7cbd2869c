//! Filters candidates that the user has seen too often.
use crate::frequency::{CapResult, FreqCapOutcome};
use crate::model::candidate::AdCandidate;
use crate::model::context::BidContext;
use crate::model::openrtb::{BidRequest, Device, DeviceType};
use crate::pipeline::stages::user_enrichment::{user_id, user_id_of};
use vstd::prelude::*;

verus! {

pub struct FreqCapStage;

/// What is asked of the frequency capper, once per impression with candidates.
#[derive(Debug, Clone)]
pub struct CapQuery {
    pub user_id: String,
    pub device_type_val: u8,
}

/// The OpenRTB device type of a request, zero if it names none.
pub open spec fn device_value(request: BidRequest) -> u8 {
    match request.device {
        Some(device) => match device.devicetype {
            Some(dt) => dt.0,
            None => 0,
        },
        None => 0,
    }
}

/// Whether the results cap a campaign.
pub open spec fn caps(results: Seq<CapResult>, campaign_id: u32) -> bool {
    exists|i: int|
        0 <= i < results.len() && (#[trigger] results[i]).campaign_id == campaign_id
            && results[i].capped
}

/// The candidates of campaigns that the results do not cap, in their order.
pub open spec fn uncapped(list: Seq<AdCandidate>, results: Seq<CapResult>) -> Seq<AdCandidate> {
    list.filter(|c: AdCandidate| !caps(results, c.campaign_id))
}

/// The results of an impression as the context records them.
pub open spec fn recorded(imp_idx: usize, results: Seq<CapResult>) -> Seq<(usize, u32, bool)> {
    results.map_values(|r: CapResult| (imp_idx, r.campaign_id, r.capped))
}

fn is_capped(results: &Vec<CapResult>, campaign_id: u32) -> (b: bool)
    ensures
        b == caps(results@, campaign_id),
{
    let n: usize = results.len();
    for i in 0..n
        invariant
            n == results@.len(),
            forall|j: int|
                0 <= j < i ==> !((#[trigger] results@[j]).campaign_id == campaign_id
                    && results@[j].capped),
    {
        if results[i].campaign_id == campaign_id && results[i].capped {
            return true;
        }
    }
    false
}

/// Removes the candidates of capped campaigns.
pub fn retain_uncapped(list: &mut Vec<AdCandidate>, results: &Vec<CapResult>)
    ensures
        final(list)@ == uncapped(old(list)@, results@),
{
    let ghost all = list@;
    let mut kept: Vec<AdCandidate> = Vec::new();
    let n: usize = list.len();
    proof {
        reveal(Seq::filter);
    }
    assert(kept@ =~= uncapped(all.take(0), results@));
    for i in 0..n
        invariant
            n == list@.len(),
            list@ == all,
            kept@ == uncapped(all.take(i as int), results@),
    {
        proof {
            reveal(Seq::filter);
            assert(all.take(i + 1).drop_last() =~= all.take(i as int));
            assert(all.take(i + 1).last() == all[i as int]);
        }
        let c = list[i];
        if !is_capped(results, c.campaign_id) {
            kept.push(c);
        }
    }
    assert(all.take(n as int) =~= all);
    *list = kept;
}

impl FreqCapStage {
    /// The stage's name.
    pub fn name(&self) -> (name: &'static str)
        ensures
            name@ == "frequency_cap"@,
    {
        "frequency_cap"
    }

    /// What to ask the capper; nothing if the request names no user.
    pub fn query(&self, request: &BidRequest) -> (q: Option<CapQuery>)
        ensures
            match q {
                Some(query) => user_id_of(*request) == Some(query.user_id)
                    && query.device_type_val == device_value(*request),
                None => user_id_of(*request) is None,
            },
    {
        match user_id(request) {
            Some(id) => {
                let device_type_val: u8 = match &request.device {
                    Some(device) => match device.devicetype {
                        Some(dt) => dt.0,
                        None => 0,
                    },
                    None => 0,
                };
                Some(CapQuery { user_id: id.clone(), device_type_val })
            },
            None => None,
        }
    }

    /// Takes the capper's outcome for the candidates of one impression: records the
    /// verdicts and removes the capped candidates. A skipped check removes nothing.
    pub fn apply(&self, ctx: &mut BidContext, imp_idx: usize, outcome: FreqCapOutcome)
        requires
            imp_idx < old(ctx).candidates@.len(),
        ensures
            final(ctx).same_input(*old(ctx)),
            final(ctx).outcome == old(ctx).outcome,
            final(ctx).winners == old(ctx).winners,
            final(ctx).bid_response == old(ctx).bid_response,
            final(ctx).candidates@.len() == old(ctx).candidates@.len(),
            forall|i: int|
                0 <= i < old(ctx).candidates@.len() && i != imp_idx ==> (
                #[trigger] final(ctx).candidates@[i]) == old(ctx).candidates@[i],
            match outcome {
                FreqCapOutcome::Checked(results) => {
                    &&& final(ctx).candidates@[imp_idx as int]@ == uncapped(
                        old(ctx).candidates@[imp_idx as int]@,
                        results@,
                    )
                    &&& final(ctx).freq_cap_results@ == old(ctx).freq_cap_results@ + recorded(
                        imp_idx,
                        results@,
                    )
                },
                _ => {
                    &&& final(ctx).candidates@[imp_idx as int] == old(ctx).candidates@[imp_idx as int]
                    &&& final(ctx).freq_cap_results == old(ctx).freq_cap_results
                },
            },
    {
        if let FreqCapOutcome::Checked(results) = outcome {
            let n: usize = results.len();
            for i in 0..n
                invariant
                    n == results@.len(),
                    ctx.same_input(*old(ctx)),
                    ctx.outcome == old(ctx).outcome,
                    ctx.winners == old(ctx).winners,
                    ctx.bid_response == old(ctx).bid_response,
                    ctx.candidates == old(ctx).candidates,
                    ctx.freq_cap_results@ == old(ctx).freq_cap_results@ + recorded(
                        imp_idx,
                        results@.take(i as int),
                    ),
            {
                let r = results[i];
                ctx.freq_cap_results.push((imp_idx, r.campaign_id, r.capped));
                assert(recorded(imp_idx, results@.take(i + 1)) =~= recorded(
                    imp_idx,
                    results@.take(i as int),
                ).push((imp_idx, r.campaign_id, r.capped)));
            }
            assert(results@.take(n as int) =~= results@);
            retain_uncapped(&mut ctx.candidates[imp_idx], &results);
        }
    }
}

/// No candidate of a capped campaign is left, and no other is lost.
pub proof fn law_capped_campaigns_are_filtered(
    list: Seq<AdCandidate>,
    results: Seq<CapResult>,
    c: AdCandidate,
)
    ensures
        uncapped(list, results).contains(c) <==> list.contains(c) && !caps(results, c.campaign_id),
    decreases list.len(),
{
    reveal(Seq::filter);
    if list.len() > 0 {
        let init = list.drop_last();
        law_capped_campaigns_are_filtered(init, results, c);
        assert(list =~= init.push(list.last()));
        lemma_push_contains(init, list.last(), c);
        lemma_push_contains(uncapped(init, results), list.last(), c);
    }
}

proof fn lemma_push_contains(s: Seq<AdCandidate>, last: AdCandidate, c: AdCandidate)
    ensures
        s.push(last).contains(c) <==> s.contains(c) || c == last,
{
    if s.contains(c) {
        let i = choose|i: int| 0 <= i < s.len() && s[i] == c;
        assert(s.push(last)[i] == c);
    }
    if c == last {
        assert(s.push(last)[s.len() as int] == c);
    }
}

/// A candidate is dropped exactly if a verdict on its own campaign is that it is
/// capped; the others stay, in their order.
pub proof fn law_verdicts_drop_their_campaign(
    list: Seq<AdCandidate>,
    results: Seq<CapResult>,
    c: AdCandidate,
)
    ensures
        (exists|i: int|
            0 <= i < results.len() && (#[trigger] results[i]).campaign_id == c.campaign_id
                && results[i].capped) ==> uncapped(list.push(c), results) == uncapped(list, results),
        (forall|i: int|
            0 <= i < results.len() && (#[trigger] results[i]).campaign_id == c.campaign_id
                ==> !results[i].capped) ==> uncapped(list.push(c), results) == uncapped(
            list,
            results,
        ).push(c),
        uncapped(Seq::<AdCandidate>::empty(), results).len() == 0,
{
    reveal(Seq::filter);
    assert(list.push(c).drop_last() =~= list);
}

/// The context records every verdict, in order, under its impression and campaign.
pub proof fn law_verdicts_are_recorded(imp_idx: usize, results: Seq<CapResult>, i: int)
    requires
        0 <= i < results.len(),
    ensures
        recorded(imp_idx, results).len() == results.len(),
        (recorded(imp_idx, results)[i]).0 == imp_idx,
        (recorded(imp_idx, results)[i]).1 == results[i].campaign_id,
        (recorded(imp_idx, results)[i]).2 == results[i].capped,
{
}

/// The device type is the request's own.
pub proof fn law_device_value_is_the_requests(request: BidRequest, device: Device, dt: DeviceType)
    ensures
        request.device == Some(device) && device.devicetype == Some(dt) ==> device_value(request)
            == dt.0,
        request.device == Some(device) && device.devicetype is None ==> device_value(request) == 0,
        request.device is None ==> device_value(request) == 0,
{
}

} // verus!
