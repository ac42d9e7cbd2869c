//! Exchange identities.
//!
//! An adapter translates between the wire bytes of one exchange and the bidder's
//! internal model. The pipeline itself never sees the wire format.
use vstd::prelude::*;

verus! {

/// Stable string identifier for an exchange. Used in metric labels, log fields and
/// secret lookup. Convention: lowercase, hyphen-separated, no whitespace.
pub type ExchangeId = &'static str;

/// HTTP `Content-Type` header to attach to a successful bid response.
pub type ResponseContentType = &'static str;

/// Adapter for every exchange that speaks vanilla OpenRTB 2.6 JSON.
#[derive(Debug, Clone, Copy)]
pub struct OpenRtbGenericAdapter;

impl OpenRtbGenericAdapter {
    /// Stable identifier for this exchange.
    pub fn id(&self) -> (id: ExchangeId)
        ensures
            id@ == "openrtb-generic"@,
    {
        "openrtb-generic"
    }

    /// The content type of encoded responses.
    pub fn response_content_type(&self) -> (ct: ResponseContentType)
        ensures
            ct@ == "application/json"@,
    {
        "application/json"
    }
}

} // verus!
