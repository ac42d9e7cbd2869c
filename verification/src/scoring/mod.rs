//! Scoring of candidates.
//!
//! Scorers themselves compute in floating point; what decides which scorer runs
//! on which candidates, what it is fed and what becomes of its output stands here.
pub mod ab_test;
pub mod cascade;
pub mod features;
pub mod ml;

use crate::catalog::types::{DeviceTargetType, SegmentId};
use crate::model::openrtb::AdFormat;
use vstd::prelude::*;

verus! {

/// Per-request features the scorer can read. Borrowed; lifetime tied to the
/// pipeline call.
#[derive(Debug, Clone, Copy)]
pub struct ScoringContext<'a> {
    pub segment_ids: &'a [SegmentId],
    pub device_type: Option<DeviceTargetType>,
    pub ad_format: Option<AdFormat>,
    /// 0–23, in UTC. The training pipeline must use the same timezone.
    pub hour_of_day: u8,
    /// Saturday or Sunday in UTC.
    pub is_weekend: bool,
    /// Anonymous-safe user identifier. Empty when the bid request omits user.id.
    pub user_id: &'a str,
    /// Top-market geo flag. `true` when the request's geo lands in the pre-defined
    /// top markets. False otherwise or when geo is missing.
    pub is_top_market: bool,
}

} // verus!
