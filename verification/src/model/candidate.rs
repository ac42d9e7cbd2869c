//! Candidates and winners.
use crate::catalog::types::{CampaignId, CreativeId};
use crate::score::Score;
use vstd::prelude::*;

verus! {

/// A campaign+creative pair that has passed candidate retrieval.
/// Carried through scoring, freq-cap, and ranking stages.
#[derive(Debug, Clone, Copy)]
pub struct AdCandidate {
    pub campaign_id: CampaignId,
    pub creative_id: CreativeId,
    /// Bid price in cents (from campaign.bid_floor_cents, adjusted by pacer).
    pub bid_price_cents: i32,
    /// Score assigned by the scoring stage. Zero until scored.
    pub score: Score,
    /// 24h per-user impression cap. 0 = block after first impression.
    pub daily_cap_imps: u32,
    /// 1h per-user impression cap. 0 = block after first impression.
    pub hourly_cap_imps: u32,
}

/// Whether a candidate list is worth a scorer's or a capper's call: an empty list
/// is passed over.
pub fn has_candidates(list: &Vec<AdCandidate>) -> (b: bool)
    ensures
        b == (list@.len() > 0),
{
    list.len() > 0
}

/// The single winner selected per impression after ranking.
#[derive(Debug, Clone)]
pub struct ImpWinner {
    pub imp_id: String,
    pub campaign_id: CampaignId,
    pub creative_id: CreativeId,
    pub bid_price_cents: i32,
    pub score: Score,
}

} // verus!
