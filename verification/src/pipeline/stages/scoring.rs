//! Prepares what scorers read of a request.
use crate::clock::{day_hour, hour_of_day_at, is_weekend_at, weekday};
use crate::model::context::BidContext;
use crate::model::openrtb::{dominant_format, AdFormat, BidRequest, Device, Geo};
use crate::pipeline::stages::candidate_retrieval::{device_target, request_device};
use crate::pipeline::stages::user_enrichment::{user_id, user_id_of};
use crate::scoring::ScoringContext;
use crate::text::same_text;
use vstd::prelude::*;

verus! {

/// Scores the candidates of each impression.
#[derive(Debug, Clone)]
pub struct ScoringStage {
    /// Metro codes that count as top markets.
    pub top_markets: Vec<String>,
}

/// The metro code of a request.
pub open spec fn request_metro(request: BidRequest) -> Option<Seq<char>> {
    match request.device {
        Some(device) => match device.geo {
            Some(geo) => match geo.metro {
                Some(metro) => Some(metro@),
                None => None,
            },
            None => None,
        },
        None => None,
    }
}

impl ScoringStage {
    /// Whether the request's metro is one of the top markets.
    pub open spec fn in_top_market(self, request: BidRequest) -> bool {
        exists|i: int|
            0 <= i < self.top_markets@.len() && request_metro(request) == Some(
                (#[trigger] self.top_markets@[i])@,
            )
    }

    /// The stage's name.
    pub fn name(&self) -> (name: &'static str)
        ensures
            name@ == "scoring"@,
    {
        "scoring"
    }

    fn is_top_market(&self, request: &BidRequest) -> (b: bool)
        ensures
            b == self.in_top_market(*request),
    {
        let metro = match &request.device {
            Some(device) => match &device.geo {
                Some(geo) => match &geo.metro {
                    Some(metro) => metro,
                    None => {
                        return false;
                    },
                },
                None => {
                    return false;
                },
            },
            None => {
                return false;
            },
        };
        let n: usize = self.top_markets.len();
        for i in 0..n
            invariant
                n == self.top_markets@.len(),
                request_metro(*request) == Some(metro@),
                forall|j: int| 0 <= j < i ==> (#[trigger] self.top_markets@[j])@ != metro@,
        {
            if same_text(self.top_markets[i].as_str(), metro.as_str()) {
                assert(request_metro(*request) == Some(self.top_markets@[i as int]@));
                return true;
            }
        }
        false
    }

    /// What scorers read of the request for the impression at `imp_idx`, at a number
    /// of seconds since the Unix epoch.
    pub fn context<'a>(&self, ctx: &'a BidContext, imp_idx: usize, secs: u64) -> (s: ScoringContext<
        'a,
    >)
        ensures
            s.segment_ids@ == ctx.segment_ids@,
            s.device_type == request_device(ctx.request),
            s.ad_format == (if imp_idx < ctx.request.imp@.len() {
                dominant_format(ctx.request.imp@[imp_idx as int])
            } else {
                None
            }),
            s.hour_of_day == day_hour(secs as int),
            s.is_weekend == (weekday(secs as int) >= 5),
            s.user_id@ == (match user_id_of(ctx.request) {
                Some(id) => id@,
                None => ""@,
            }),
            s.is_top_market == self.in_top_market(ctx.request),
    {
        let ad_format: Option<AdFormat> = if imp_idx < ctx.request.imp.len() {
            AdFormat::from_imp(&ctx.request.imp[imp_idx])
        } else {
            None
        };
        let user: &'a str = match user_id(&ctx.request) {
            Some(id) => id.as_str(),
            None => "",
        };
        ScoringContext {
            segment_ids: ctx.segment_ids.as_slice(),
            device_type: device_target(&ctx.request),
            ad_format,
            hour_of_day: hour_of_day_at(secs),
            is_weekend: is_weekend_at(secs),
            user_id: user,
            is_top_market: self.is_top_market(&ctx.request),
        }
    }
}

/// A request is in a top market exactly if its device is located in a metro whose code
/// is among the configured ones.
pub proof fn law_top_markets_are_metros(
    stage: ScoringStage,
    request: BidRequest,
    device: Device,
    geo: Geo,
)
    ensures
        request.device is None ==> !stage.in_top_market(request),
        request.device == Some(device) && device.geo is None ==> !stage.in_top_market(request),
        request.device == Some(device) && device.geo == Some(geo) && geo.metro is None
            ==> !stage.in_top_market(request),
        request.device == Some(device) && device.geo == Some(geo) && geo.metro is Some ==> (
        stage.in_top_market(request) <==> exists|i: int|
            0 <= i < stage.top_markets@.len() && (#[trigger] stage.top_markets@[i])@
                == geo.metro->0@),
{
}

} // verus!
