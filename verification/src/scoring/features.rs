//! Scoring features and their layout.
//!
//! Features are exact here: fractions and the count under a logarithm. What feeds
//! a model turns each into the floating-point number that it denotes.
use crate::catalog::types::DeviceTargetType;
use crate::model::candidate::AdCandidate;
use crate::model::openrtb::AdFormat;
use crate::scoring::ScoringContext;
use vstd::prelude::*;

verus! {

/// The number of features of a candidate.
pub const FEATURE_COUNT: usize = 13;

/// The bid price, in cents, that maps to one.
pub const BID_PRICE_MAX_CENTS: u32 = 1000;

/// The value of one feature.
#[derive(Debug, Clone, Copy, PartialEq, Eq, Structural)]
pub enum FeatureValue {
    /// The fraction `num / den`.
    Fraction { num: u32, den: u32 },
    /// The natural logarithm of one more than this count.
    Log1p(usize),
}

/// Typed feature vector of a candidate.
#[derive(Debug, Clone, Copy, PartialEq, Eq, Structural)]
pub struct ScoringFeatures {
    /// Bid price in cents, limited to [0, BID_PRICE_MAX_CENTS].
    pub bid_price_cents: u32,
    /// Segment overlap in tenths.
    pub segment_overlap_tenths: u32,
    pub segment_count: usize,
    pub device_desktop: bool,
    pub device_mobile: bool,
    pub device_tablet: bool,
    pub device_ctv: bool,
    /// Hour of the day, at most 23.
    pub hour_of_day: u8,
    pub is_weekend: bool,
    pub geo_top_market: bool,
    /// One-hot ad format (audio = all-zeros sentinel).
    pub format_banner: bool,
    pub format_video: bool,
    pub format_native: bool,
}

/// A price limited to the range of the price feature.
pub open spec fn limited_price(cents: i32) -> int {
    if cents < 0 {
        0
    } else if cents > BID_PRICE_MAX_CENTS {
        BID_PRICE_MAX_CENTS as int
    } else {
        cents as int
    }
}

/// One or zero.
pub open spec fn flag(b: bool) -> FeatureValue {
    FeatureValue::Fraction {
        num: if b {
            1
        } else {
            0
        },
        den: 1,
    }
}

/// The features of a candidate in a request.
pub open spec fn features_of(candidate: AdCandidate, ctx: ScoringContext<'_>) -> ScoringFeatures {
    ScoringFeatures {
        bid_price_cents: limited_price(candidate.bid_price_cents) as u32,
        segment_overlap_tenths: if ctx.segment_ids@.len() == 0 {
            0
        } else {
            candidate.campaign_id % 10
        },
        segment_count: ctx.segment_ids@.len() as usize,
        device_desktop: ctx.device_type == Some(DeviceTargetType::Desktop),
        device_mobile: ctx.device_type == Some(DeviceTargetType::Mobile),
        device_tablet: ctx.device_type == Some(DeviceTargetType::Tablet),
        device_ctv: ctx.device_type == Some(DeviceTargetType::Ctv),
        hour_of_day: if ctx.hour_of_day > 23 {
            23
        } else {
            ctx.hour_of_day
        },
        is_weekend: ctx.is_weekend,
        geo_top_market: ctx.is_top_market,
        format_banner: ctx.ad_format == Some(AdFormat::Banner),
        format_video: ctx.ad_format == Some(AdFormat::Video),
        format_native: ctx.ad_format == Some(AdFormat::Native),
    }
}

/// The layout of the features in a model's input row.
pub open spec fn row_of(f: ScoringFeatures) -> Seq<FeatureValue> {
    seq![
        FeatureValue::Fraction { num: f.bid_price_cents, den: BID_PRICE_MAX_CENTS },
        FeatureValue::Fraction { num: f.segment_overlap_tenths, den: 10 },
        FeatureValue::Log1p(f.segment_count),
        flag(f.device_desktop),
        flag(f.device_mobile),
        flag(f.device_tablet),
        flag(f.device_ctv),
        FeatureValue::Fraction { num: f.hour_of_day as u32, den: 23 },
        flag(f.is_weekend),
        flag(f.geo_top_market),
        flag(f.format_banner),
        flag(f.format_video),
        flag(f.format_native),
    ]
}

fn flag_value(b: bool) -> (v: FeatureValue)
    ensures
        v == flag(b),
{
    FeatureValue::Fraction {
        num: if b {
            1
        } else {
            0
        },
        den: 1,
    }
}

impl ScoringFeatures {
    /// Extract per-candidate features. Called once per candidate per scoring pass.
    pub fn extract(candidate: &AdCandidate, ctx: &ScoringContext<'_>) -> (f: Self)
        ensures
            f == features_of(*candidate, *ctx),
    {
        let bid_price_cents: u32 = if candidate.bid_price_cents < 0 {
            0
        } else if candidate.bid_price_cents as u32 > BID_PRICE_MAX_CENTS {
            BID_PRICE_MAX_CENTS
        } else {
            candidate.bid_price_cents as u32
        };
        let segment_count: usize = ctx.segment_ids.len();
        let segment_overlap_tenths: u32 = if segment_count == 0 {
            0
        } else {
            candidate.campaign_id % 10
        };
        // Other device types and missing ones encode as all-zeros.
        let (desktop, mobile, tablet, ctv) = match ctx.device_type {
            Some(DeviceTargetType::Desktop) => (true, false, false, false),
            Some(DeviceTargetType::Mobile) => (false, true, false, false),
            Some(DeviceTargetType::Tablet) => (false, false, true, false),
            Some(DeviceTargetType::Ctv) => (false, false, false, true),
            _ => (false, false, false, false),
        };
        let hour_of_day: u8 = if ctx.hour_of_day > 23 {
            23
        } else {
            ctx.hour_of_day
        };
        // Audio and missing formats encode as all-zeros.
        let (banner, video, native) = match ctx.ad_format {
            Some(AdFormat::Banner) => (true, false, false),
            Some(AdFormat::Video) => (false, true, false),
            Some(AdFormat::Native) => (false, false, true),
            _ => (false, false, false),
        };
        ScoringFeatures {
            bid_price_cents,
            segment_overlap_tenths,
            segment_count,
            device_desktop: desktop,
            device_mobile: mobile,
            device_tablet: tablet,
            device_ctv: ctv,
            hour_of_day,
            is_weekend: ctx.is_weekend,
            geo_top_market: ctx.is_top_market,
            format_banner: banner,
            format_video: video,
            format_native: native,
        }
    }

    /// Pack the typed features into a fixed-order row at the start of `out`. The order
    /// is that of the model's input.
    pub fn pack_into(&self, out: &mut [FeatureValue])
        requires
            old(out)@.len() >= FEATURE_COUNT,
        ensures
            final(out)@ == row_of(*self) + old(out)@.skip(FEATURE_COUNT as int),
    {
        out[0] = FeatureValue::Fraction { num: self.bid_price_cents, den: BID_PRICE_MAX_CENTS };
        out[1] = FeatureValue::Fraction { num: self.segment_overlap_tenths, den: 10 };
        out[2] = FeatureValue::Log1p(self.segment_count);
        out[3] = flag_value(self.device_desktop);
        out[4] = flag_value(self.device_mobile);
        out[5] = flag_value(self.device_tablet);
        out[6] = flag_value(self.device_ctv);
        out[7] = FeatureValue::Fraction { num: self.hour_of_day as u32, den: 23 };
        out[8] = flag_value(self.is_weekend);
        out[9] = flag_value(self.geo_top_market);
        out[10] = flag_value(self.format_banner);
        out[11] = flag_value(self.format_video);
        out[12] = flag_value(self.format_native);
        assert(out@ =~= row_of(*self) + old(out)@.skip(FEATURE_COUNT as int));
    }
}

/// Whether a feature value is a fraction in [0, 1], or a logarithm.
pub open spec fn normalised(v: FeatureValue) -> bool {
    match v {
        FeatureValue::Fraction { num, den } => den > 0 && num <= den,
        FeatureValue::Log1p(_) => true,
    }
}

/// A row has `FEATURE_COUNT` values, and all its fractions lie in [0, 1].
pub proof fn law_rows_are_normalised(candidate: AdCandidate, ctx: ScoringContext<'_>)
    ensures
        row_of(features_of(candidate, ctx)).len() == FEATURE_COUNT,
        forall|i: int|
            0 <= i < FEATURE_COUNT ==> normalised(
                #[trigger] row_of(features_of(candidate, ctx))[i],
            ),
{
}

/// Device type and ad format are one-hot: at most one flag of each is set.
pub proof fn law_one_hot_flags_exclusive(candidate: AdCandidate, ctx: ScoringContext<'_>)
    ensures
        ({
            let f = features_of(candidate, ctx);
            &&& f.device_desktop ==> !f.device_mobile && !f.device_tablet && !f.device_ctv
            &&& f.device_mobile ==> !f.device_desktop && !f.device_tablet && !f.device_ctv
            &&& f.device_tablet ==> !f.device_desktop && !f.device_mobile && !f.device_ctv
            &&& f.device_ctv ==> !f.device_desktop && !f.device_mobile && !f.device_tablet
            &&& f.format_banner ==> !f.format_video && !f.format_native
            &&& f.format_video ==> !f.format_banner && !f.format_native
            &&& f.format_native ==> !f.format_banner && !f.format_video
        }),
{
}

/// The overlap, in tenths, that the feature-weighted scorer counts for a campaign:
/// one half where the user has no segments.
pub open spec fn weighted_overlap(campaign_id: u32, segments: int) -> u32 {
    if segments > 0 {
        campaign_id % 10
    } else {
        5
    }
}

/// The overlap, in tenths, that the feature-weighted scorer counts for a campaign.
pub fn weighted_overlap_tenths(campaign_id: u32, segments: usize) -> (tenths: u32)
    ensures
        tenths == weighted_overlap(campaign_id, segments as int),
        tenths <= 9,
{
    if segments > 0 {
        campaign_id % 10
    } else {
        5
    }
}

/// Which flag belongs to which device and which format: each position of the row is
/// one exactly for its own device type or ad format, and otherwise zero.
pub proof fn law_row_positions_name_device_and_format(
    candidate: AdCandidate,
    ctx: ScoringContext<'_>,
)
    ensures
        ({
            let row = row_of(features_of(candidate, ctx));
            let one = FeatureValue::Fraction { num: 1, den: 1 };
            let zero = FeatureValue::Fraction { num: 0, den: 1 };
            let device = ctx.device_type;
            let format = ctx.ad_format;
            &&& row[3] == one <==> device == Some(DeviceTargetType::Desktop)
            &&& row[4] == one <==> device == Some(DeviceTargetType::Mobile)
            &&& row[5] == one <==> device == Some(DeviceTargetType::Tablet)
            &&& row[6] == one <==> device == Some(DeviceTargetType::Ctv)
            &&& row[8] == one <==> ctx.is_weekend
            &&& row[9] == one <==> ctx.is_top_market
            &&& row[10] == one <==> format == Some(AdFormat::Banner)
            &&& row[11] == one <==> format == Some(AdFormat::Video)
            &&& row[12] == one <==> format == Some(AdFormat::Native)
            &&& forall|i: int|
                (3 <= i <= 6 || 8 <= i <= 12) && #[trigger] row[i] != one ==> row[i] == zero
        }),
{
}

/// The numeric features of a row: the price as a fraction of the largest price, cut
/// off at zero and one; the campaign's overlap in tenths, none for a user without
/// segments; the number of segments under a logarithm; and the hour as a fraction
/// of the last hour.
pub proof fn law_row_positions_carry_the_numbers(
    candidate: AdCandidate,
    ctx: ScoringContext<'_>,
)
    requires
        ctx.segment_ids@.len() <= usize::MAX,
    ensures
        ({
            let row = row_of(features_of(candidate, ctx));
            let price = candidate.bid_price_cents;
            let segments = ctx.segment_ids@.len();
            &&& price <= 0 ==> row[0] == (FeatureValue::Fraction { num: 0, den: 1000 })
            &&& 0 <= price <= 1000 ==> row[0] == (FeatureValue::Fraction {
                num: price as u32,
                den: 1000,
            })
            &&& price >= 1000 ==> row[0] == (FeatureValue::Fraction { num: 1000, den: 1000 })
            &&& segments == 0 ==> row[1] == (FeatureValue::Fraction { num: 0, den: 10 })
            &&& segments > 0 ==> row[1] == (FeatureValue::Fraction {
                num: candidate.campaign_id % 10,
                den: 10,
            })
            &&& row[2] == FeatureValue::Log1p(segments as usize)
            &&& ctx.hour_of_day <= 23 ==> row[7] == (FeatureValue::Fraction {
                num: ctx.hour_of_day as u32,
                den: 23,
            })
            &&& ctx.hour_of_day > 23 ==> row[7] == (FeatureValue::Fraction { num: 23, den: 23 })
        }),
{
}

/// Each typed feature tells its own fact of the request.
pub proof fn law_features_tell_the_request(candidate: AdCandidate, ctx: ScoringContext<'_>)
    ensures
        ({
            let f = features_of(candidate, ctx);
            &&& f.device_desktop <==> ctx.device_type == Some(DeviceTargetType::Desktop)
            &&& f.device_mobile <==> ctx.device_type == Some(DeviceTargetType::Mobile)
            &&& f.device_tablet <==> ctx.device_type == Some(DeviceTargetType::Tablet)
            &&& f.device_ctv <==> ctx.device_type == Some(DeviceTargetType::Ctv)
            &&& f.format_banner <==> ctx.ad_format == Some(AdFormat::Banner)
            &&& f.format_video <==> ctx.ad_format == Some(AdFormat::Video)
            &&& f.format_native <==> ctx.ad_format == Some(AdFormat::Native)
            &&& f.is_weekend == ctx.is_weekend
            &&& f.geo_top_market == ctx.is_top_market
            &&& 0 <= candidate.bid_price_cents <= 1000 ==> f.bid_price_cents
                == candidate.bid_price_cents
            &&& ctx.hour_of_day <= 23 ==> f.hour_of_day == ctx.hour_of_day
        }),
{
}

/// The overlap of the feature-weighted scorer: the last digit of the campaign id in
/// tenths, and one half for a user without segments.
pub proof fn law_weighted_overlap(campaign_id: u32, segments: int)
    ensures
        segments > 0 ==> (campaign_id - weighted_overlap(campaign_id, segments)) % 10 == 0,
        weighted_overlap(campaign_id, segments) < 10,
        segments <= 0 ==> 2 * weighted_overlap(campaign_id, segments) == 10,
{
}

} // verus!
