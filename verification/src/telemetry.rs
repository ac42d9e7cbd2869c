//! Where traces are exported to.
use crate::text::{blank, is_blank};
use vstd::prelude::*;
use vstd::string::StringExecFns;

verus! {

/// The URL that traces are posted to. A blank endpoint disables the export: logs
/// and metrics are still emitted, only traces are off.
pub fn trace_export_url(otlp_endpoint: &str) -> (url: Option<String>)
    ensures
        match url {
            Some(u) => !blank(otlp_endpoint@) && u@ == otlp_endpoint@ + "/v1/traces"@,
            None => blank(otlp_endpoint@),
        },
{
    if is_blank(otlp_endpoint) {
        return None;
    }
    let mut url = otlp_endpoint.to_owned();
    url.append("/v1/traces");
    Some(url)
}

} // verus!
