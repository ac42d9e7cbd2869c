//! Frequency capping.
pub mod in_process;
pub mod store;

use vstd::prelude::*;

verus! {

#[derive(Debug, Clone, Copy, PartialEq, Eq, Hash, Structural)]
pub enum CapWindow {
    Hour,
    Day,
    Week,
}

impl CapWindow {
    /// The short name of the window in counter keys.
    pub fn suffix(&self) -> (s: &'static str)
        ensures
            s@ == (match *self {
                CapWindow::Hour => "h"@,
                CapWindow::Day => "d"@,
                CapWindow::Week => "w"@,
            }),
    {
        match self {
            CapWindow::Hour => "h",
            CapWindow::Day => "d",
            CapWindow::Week => "w",
        }
    }
}

/// Result of checking a single candidate against freq caps.
///
/// `day_count` / `hour_count` are populated when the verdict came from a source
/// that knows the underlying counter values. They let the in-process layer cache
/// the verdict at full fidelity instead of just remembering the boolean. `None`
/// when the source only knows the boolean.
#[derive(Debug, Clone, Copy, PartialEq, Eq, Structural)]
pub struct CapResult {
    pub campaign_id: u32,
    /// true = this candidate is capped and should be filtered out.
    pub capped: bool,
    pub day_count: Option<i64>,
    pub hour_count: Option<i64>,
}

/// The outcome of a frequency-cap check.
#[derive(Debug, Clone)]
pub enum FreqCapOutcome {
    /// Freq cap check completed; per-candidate results.
    Checked(Vec<CapResult>),
    /// The read timed out: the caller should proceed without filtering.
    SkippedTimeout,
    /// No user ID available: skip silently.
    SkippedNoUser,
}

/// An impression event to be recorded after a won bid.
#[derive(Debug, Clone)]
pub struct ImpressionEvent {
    pub user_id: String,
    pub campaign_id: u32,
    pub creative_id: u32,
    pub device_type: u8,
    pub hour_of_day: u8,
}

/// Whether `count` impressions reach a cap. A cap of zero blocks after the first
/// impression.
pub open spec fn reaches(count: i64, cap: u32) -> bool {
    count > 0 && count >= cap
}

} // verus!
