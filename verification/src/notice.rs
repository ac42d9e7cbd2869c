//! Win-notice URLs.
use vstd::prelude::*;

verus! {

/// Inputs needed to compute the win-notice URL embedded in a Bid response's `nurl`.
///
/// The bidder generates one URL per winning bid. The SSP fires a GET against it on
/// auction win, carrying these same fields back as query params plus a signing
/// token.
pub struct WinNoticeRequest<'a> {
    pub request_id: &'a str,
    pub imp_id: &'a str,
    pub campaign_id: u32,
    pub creative_id: u32,
    pub clearing_price_micros: i64,
    /// Anonymous-safe identifier the SSP echoes back in the win-notice. May be
    /// empty if the bid request had no user.id.
    pub user_id: &'a str,
}

/// Builds the per-bid `nurl` URL.
///
/// Returning `None` means "do not set nurl on this bid": used when no notice base
/// URL is configured.
pub trait NoticeUrlBuilder {
    fn build(&self, req: &WinNoticeRequest<'_>) -> (url: Option<String>);
}

/// Default no-op implementation used when notice URLs aren't configured.
/// Bid responses get `nurl: None` and SSPs simply don't fire the win-notice.
pub struct NoNoticeUrl;

impl NoticeUrlBuilder for NoNoticeUrl {
    fn build(&self, _req: &WinNoticeRequest<'_>) -> (url: Option<String>)
        ensures
            url is None,
    {
        None
    }
}

} // verus!
