//! Campaigns, creatives and the dimensions they target.
use crate::model::openrtb::AdFormat;
use vstd::prelude::*;

verus! {

pub type CampaignId = u32;

pub type SegmentId = u32;

pub type CreativeId = u32;

/// Geo targeting dimension key: (geo_kind, geo_code).
#[derive(Debug, Clone)]
pub struct GeoKey {
    pub kind: GeoKind,
    pub code: String,
}

#[derive(Debug, Clone, Copy, PartialEq, Eq, Hash, Structural)]
pub enum GeoKind {
    Country,
    Metro,
}

/// Device type targeting dimension.
#[derive(Debug, Clone, Copy, PartialEq, Eq, Hash, Structural)]
pub enum DeviceTargetType {
    Desktop,
    Mobile,
    Tablet,
    Ctv,
    Other,
}

impl DeviceTargetType {
    /// The targeting type of an OpenRTB `device.devicetype`: mobile and phone,
    /// personal computer, tablet, and the three kinds of connected screens.
    pub open spec fn of_openrtb(v: u8) -> Self {
        if v == 1 || v == 4 {
            DeviceTargetType::Mobile
        } else if v == 2 {
            DeviceTargetType::Desktop
        } else if v == 3 || v == 6 || v == 7 {
            DeviceTargetType::Ctv
        } else if v == 5 {
            DeviceTargetType::Tablet
        } else {
            DeviceTargetType::Other
        }
    }

    /// Map from OpenRTB `device.devicetype` u8 to the targeting enum.
    pub fn from_openrtb(v: u8) -> (d: Self)
        ensures
            d == Self::of_openrtb(v),
    {
        match v {
            1 | 4 => DeviceTargetType::Mobile,
            2 => DeviceTargetType::Desktop,
            3 | 6 | 7 => DeviceTargetType::Ctv,
            5 => DeviceTargetType::Tablet,
            _ => DeviceTargetType::Other,
        }
    }

    /// The number under which the device type is indexed.
    pub open spec fn index(self) -> u8 {
        match self {
            DeviceTargetType::Desktop => 0,
            DeviceTargetType::Mobile => 1,
            DeviceTargetType::Tablet => 2,
            DeviceTargetType::Ctv => 3,
            DeviceTargetType::Other => 4,
        }
    }

    /// The number under which the device type is indexed.
    pub fn code(self) -> (c: u8)
        ensures
            c == self.index(),
    {
        match self {
            DeviceTargetType::Desktop => 0,
            DeviceTargetType::Mobile => 1,
            DeviceTargetType::Tablet => 2,
            DeviceTargetType::Ctv => 3,
            DeviceTargetType::Other => 4,
        }
    }
}

/// In-memory campaign record (stripped to fields used on the hot path).
#[derive(Debug, Clone, Copy)]
pub struct Campaign {
    pub id: CampaignId,
    pub advertiser_id: u64,
    pub bid_floor_cents: i32,
    pub daily_budget_cents: i64,
    pub hourly_budget_cents: i64,
    /// 24h per-user impression cap. 0 = block after first impression.
    pub daily_cap_imps: u32,
    /// 1h per-user impression cap. 0 = block after first impression.
    pub hourly_cap_imps: u32,
}

/// Creative variant loaded alongside the campaign catalog.
#[derive(Debug, Clone)]
pub struct Creative {
    pub id: CreativeId,
    pub campaign_id: CampaignId,
    pub ad_format: AdFormat,
    pub click_url: String,
    pub image_url: Option<String>,
    pub width: Option<i32>,
    pub height: Option<i32>,
}

/// Device types are told apart by the number under which they are indexed: they are
/// numbered from zero.
pub proof fn law_device_numbers_differ(a: DeviceTargetType, b: DeviceTargetType)
    ensures
        a.index() == b.index() ==> a == b,
        a.index() == 0 <==> a == DeviceTargetType::Desktop,
        a.index() == 1 <==> a == DeviceTargetType::Mobile,
        a.index() == 2 <==> a == DeviceTargetType::Tablet,
        a.index() == 3 <==> a == DeviceTargetType::Ctv,
        a.index() == 4 <==> a == DeviceTargetType::Other,
{
}

/// The OpenRTB device types: mobile devices and phones are mobile, personal computers
/// desktop, tablets tablet; televisions, connected devices and set-top boxes are
/// connected screens, and all else is other.
pub proof fn law_openrtb_device_types(v: u8)
    ensures
        DeviceTargetType::of_openrtb(v) == DeviceTargetType::Mobile <==> v == 1 || v == 4,
        DeviceTargetType::of_openrtb(v) == DeviceTargetType::Desktop <==> v == 2,
        DeviceTargetType::of_openrtb(v) == DeviceTargetType::Tablet <==> v == 5,
        DeviceTargetType::of_openrtb(v) == DeviceTargetType::Ctv <==> v == 3 || v == 6 || v == 7,
        DeviceTargetType::of_openrtb(v) == DeviceTargetType::Other <==> v == 0 || v >= 8,
{
}

} // verus!
