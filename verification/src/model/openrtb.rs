//! OpenRTB 2.6 bid requests and responses, and the events of a bid's life.
//!
//! Free-form extension objects stay `serde_json::Value`s. Quantities that the
//! exchange sends as fractional numbers are carried as bit patterns (`Real`) or,
//! where the bidder computes them, as integers.
use vstd::prelude::*;

verus! {

/// `serde_json::Value`, a parsed JSON value.
#[verifier::external_type_specification]
#[verifier::external_body]
pub struct ExJsonValue(serde_json::Value);

/// The members of a JSON object, by key; a value that is no object has none.
pub uninterp spec fn json_members(v: serde_json::Value) -> Map<Seq<char>, serde_json::Value>;

/// The text of a JSON string; other values have none.
pub uninterp spec fn json_text(v: serde_json::Value) -> Option<Seq<char>>;

/// `serde_json::Value::get` with a string key: the member `key`, if the value is
/// an object that has such a member.
#[verifier::external_body]
pub(crate) fn json_member<'a>(v: &'a serde_json::Value, key: &str) -> (member: Option<
    &'a serde_json::Value,
>)
    ensures
        match member {
            Some(m) => json_members(*v).contains_key(key@) && *m == json_members(*v)[key@],
            None => !json_members(*v).contains_key(key@),
        },
{
    v.get(key)
}

/// `serde_json::Value::as_str`: the text of the value, if it is a string.
#[verifier::external_body]
pub(crate) fn json_str<'a>(v: &'a serde_json::Value) -> (text: Option<&'a str>)
    ensures
        match text {
            Some(t) => json_text(*v) == Some(t@),
            None => json_text(*v) is None,
        },
{
    v.as_str()
}

/// A fractional number, held as the bit pattern of an IEEE-754 double.
#[derive(Debug, Clone, Copy, PartialEq, Eq, Structural)]
pub struct Real {
    pub bits: u64,
}

#[derive(Debug, Clone, Default)]
pub struct BidRequest {
    pub id: String,
    pub imp: Vec<Imp>,
    pub site: Option<Site>,
    pub app: Option<App>,
    pub dooh: Option<Dooh>,
    pub device: Option<Device>,
    pub user: Option<User>,
    pub at: Option<AuctionType>,
    pub tmax: Option<u32>,
    pub wseat: Vec<String>,
    pub bseat: Vec<String>,
    pub cur: Option<Vec<String>>,
    pub wlang: Vec<String>,
    pub bcat: Vec<String>,
    pub badv: Vec<String>,
    pub bapp: Vec<String>,
    pub source: Option<Source>,
    pub regs: Option<Regs>,
    pub test: u8,
    pub ext: Option<serde_json::Value>,
}

#[derive(Debug, Clone, Copy, PartialEq, Eq, Structural)]
pub struct AuctionType(pub u8);

impl AuctionType {
    pub const FIRST_PRICE: u8 = 1;

    pub const SECOND_PRICE: u8 = 2;

    pub const FIXED_PRICE: u8 = 3;
}

#[derive(Debug, Clone, Default)]
pub struct Imp {
    pub id: String,
    pub banner: Option<Banner>,
    pub video: Option<Video>,
    pub audio: Option<Audio>,
    pub native: Option<Native>,
    pub pmp: Option<Pmp>,
    pub displaymanager: Option<String>,
    pub displaymanagerver: Option<String>,
    pub instl: u8,
    pub tagid: Option<String>,
    pub bidfloor: Option<Real>,
    pub bidfloorcur: Option<String>,
    pub clickbrowser: u8,
    pub secure: u8,
    pub iframebuster: Vec<String>,
    pub rwdd: Option<u8>,
    pub ssai: Option<u8>,
    pub exp: Option<u32>,
    pub ext: Option<serde_json::Value>,
}

#[derive(Debug, Clone, Default)]
pub struct Banner {
    pub format: Vec<Format>,
    pub w: Option<i32>,
    pub h: Option<i32>,
    pub wmax: Option<i32>,
    pub hmax: Option<i32>,
    pub wmin: Option<i32>,
    pub hmin: Option<i32>,
    pub btype: Vec<u32>,
    pub battr: Vec<u32>,
    pub pos: Option<u32>,
    pub mimes: Vec<String>,
    pub topframe: Option<u8>,
    pub expdir: Vec<u32>,
    pub api: Vec<u32>,
    pub id: Option<String>,
    pub vcm: Option<u8>,
    pub ext: Option<serde_json::Value>,
}

#[derive(Debug, Clone, Default)]
pub struct Format {
    pub w: Option<i32>,
    pub h: Option<i32>,
    pub wratio: Option<i32>,
    pub hratio: Option<i32>,
    pub wmin: Option<i32>,
    pub ext: Option<serde_json::Value>,
}

#[derive(Debug, Clone, Default)]
pub struct Video {
    pub mimes: Vec<String>,
    pub minduration: Option<i32>,
    pub maxduration: Option<i32>,
    pub protocols: Vec<u32>,
    pub w: Option<i32>,
    pub h: Option<i32>,
    pub startdelay: Option<i32>,
    pub placement: Option<u32>,
    pub plcmt: Option<u32>,
    pub linearity: Option<u32>,
    pub skip: Option<u8>,
    pub skipmin: Option<i32>,
    pub skipafter: Option<i32>,
    pub sequence: Option<i32>,
    pub battr: Vec<u32>,
    pub maxextended: Option<i32>,
    pub minbitrate: Option<i32>,
    pub maxbitrate: Option<i32>,
    pub boxingallowed: Option<u8>,
    pub playbackmethod: Vec<u32>,
    pub playbackend: Vec<u32>,
    pub delivery: Vec<u32>,
    pub pos: Option<u32>,
    pub companionad: Vec<Banner>,
    pub api: Vec<u32>,
    pub companiontype: Vec<u32>,
    pub ext: Option<serde_json::Value>,
}

#[derive(Debug, Clone, Default)]
pub struct Audio {
    pub mimes: Vec<String>,
    pub minduration: Option<i32>,
    pub maxduration: Option<i32>,
    pub protocols: Vec<u32>,
    pub startdelay: Option<i32>,
    pub sequence: Option<i32>,
    pub battr: Vec<u32>,
    pub maxextended: Option<i32>,
    pub minbitrate: Option<i32>,
    pub maxbitrate: Option<i32>,
    pub delivery: Vec<u32>,
    pub companionad: Vec<Banner>,
    pub api: Vec<u32>,
    pub companiontype: Vec<u32>,
    pub maxseq: Option<i32>,
    pub feed: Option<u32>,
    pub stitched: Option<u8>,
    pub nvol: Option<u32>,
    pub ext: Option<serde_json::Value>,
}

#[derive(Debug, Clone, Default)]
pub struct Native {
    pub request: String,
    pub ver: Option<String>,
    pub api: Vec<u32>,
    pub battr: Vec<u32>,
    pub ext: Option<serde_json::Value>,
}

#[derive(Debug, Clone, Default)]
pub struct Pmp {
    pub private_auction: u8,
    pub deals: Vec<Deal>,
    pub ext: Option<serde_json::Value>,
}

#[derive(Debug, Clone)]
pub struct Deal {
    pub id: String,
    pub bidfloor: Option<Real>,
    pub bidfloorcur: Option<String>,
    pub at: Option<AuctionType>,
    pub wseat: Vec<String>,
    pub wadomain: Vec<String>,
    pub ext: Option<serde_json::Value>,
}

#[derive(Debug, Clone, Default)]
pub struct Site {
    pub id: Option<String>,
    pub name: Option<String>,
    pub domain: Option<String>,
    pub cat: Vec<String>,
    pub sectioncat: Vec<String>,
    pub pagecat: Vec<String>,
    pub page: Option<String>,
    pub ref_: Option<String>,
    pub search: Option<String>,
    pub mobile: Option<u8>,
    pub privacypolicy: Option<u8>,
    pub publisher: Option<Publisher>,
    pub content: Option<Content>,
    pub keywords: Option<String>,
    pub ext: Option<serde_json::Value>,
}

#[derive(Debug, Clone, Default)]
pub struct App {
    pub id: Option<String>,
    pub name: Option<String>,
    pub bundle: Option<String>,
    pub domain: Option<String>,
    pub storeurl: Option<String>,
    pub cat: Vec<String>,
    pub sectioncat: Vec<String>,
    pub pagecat: Vec<String>,
    pub ver: Option<String>,
    pub privacypolicy: Option<u8>,
    pub paid: Option<u8>,
    pub publisher: Option<Publisher>,
    pub content: Option<Content>,
    pub keywords: Option<String>,
    pub ext: Option<serde_json::Value>,
}

#[derive(Debug, Clone, Default)]
pub struct Dooh {
    pub id: Option<String>,
    pub name: Option<String>,
    pub venuetype: Vec<String>,
    pub venuetypetax: Option<u32>,
    pub publisher: Option<Publisher>,
    pub domain: Option<String>,
    pub keywords: Option<String>,
    pub content: Option<Content>,
    pub ext: Option<serde_json::Value>,
}

#[derive(Debug, Clone, Default)]
pub struct Publisher {
    pub id: Option<String>,
    pub name: Option<String>,
    pub cat: Vec<String>,
    pub domain: Option<String>,
    pub ext: Option<serde_json::Value>,
}

#[derive(Debug, Clone, Default)]
pub struct Content {
    pub id: Option<String>,
    pub episode: Option<i32>,
    pub title: Option<String>,
    pub series: Option<String>,
    pub season: Option<String>,
    pub artist: Option<String>,
    pub genre: Option<String>,
    pub album: Option<String>,
    pub isrc: Option<String>,
    pub producer: Option<Producer>,
    pub url: Option<String>,
    pub cat: Vec<String>,
    pub prodq: Option<u32>,
    pub videoquality: Option<u32>,
    pub context: Option<u32>,
    pub contentrating: Option<String>,
    pub userrating: Option<String>,
    pub qagmediarating: Option<u32>,
    pub keywords: Option<String>,
    pub livestream: Option<u8>,
    pub sourcerelationship: Option<u8>,
    pub len: Option<i32>,
    pub language: Option<String>,
    pub embeddable: Option<u8>,
    pub data: Option<Vec<Data>>,
    pub ext: Option<serde_json::Value>,
}

#[derive(Debug, Clone, Default)]
pub struct Producer {
    pub id: Option<String>,
    pub name: Option<String>,
    pub cat: Vec<String>,
    pub domain: Option<String>,
    pub ext: Option<serde_json::Value>,
}

#[derive(Debug, Clone, Default)]
pub struct Device {
    pub ua: Option<String>,
    pub geo: Option<Geo>,
    pub dnt: Option<u8>,
    pub lmt: Option<u8>,
    pub ip: Option<String>,
    pub ipv6: Option<String>,
    pub devicetype: Option<DeviceType>,
    pub make: Option<String>,
    pub model: Option<String>,
    pub os: Option<String>,
    pub osv: Option<String>,
    pub hwv: Option<String>,
    pub h: Option<i32>,
    pub w: Option<i32>,
    pub ppi: Option<i32>,
    pub pxratio: Option<Real>,
    pub js: Option<u8>,
    pub geofetch: Option<u8>,
    pub flashver: Option<String>,
    pub language: Option<String>,
    pub carrier: Option<String>,
    pub mccmnc: Option<String>,
    pub connectiontype: Option<u32>,
    pub ifa: Option<String>,
    pub didsha1: Option<String>,
    pub didmd5: Option<String>,
    pub dpidsha1: Option<String>,
    pub dpidmd5: Option<String>,
    pub macsha1: Option<String>,
    pub macmd5: Option<String>,
    pub ext: Option<serde_json::Value>,
}

#[derive(Debug, Clone, Copy, PartialEq, Eq, Hash, Structural)]
pub struct DeviceType(pub u8);

impl DeviceType {
    pub const MOBILE: u8 = 1;

    pub const PC: u8 = 2;

    pub const TV: u8 = 3;

    pub const PHONE: u8 = 4;

    pub const TABLET: u8 = 5;

    pub const CONNECTED_DEVICE: u8 = 6;

    pub const SET_TOP_BOX: u8 = 7;

    pub const OOH: u8 = 8;
}

#[derive(Debug, Clone, Default)]
pub struct Geo {
    pub lat: Option<Real>,
    pub lon: Option<Real>,
    pub geo_type: Option<u32>,
    pub accuracy: Option<i32>,
    pub lastfix: Option<i32>,
    pub ipservice: Option<u32>,
    pub country: Option<String>,
    pub region: Option<String>,
    pub regionfips104: Option<String>,
    pub metro: Option<String>,
    pub city: Option<String>,
    pub zip: Option<String>,
    pub utcoffset: Option<i32>,
    pub ext: Option<serde_json::Value>,
}

#[derive(Debug, Clone, Default)]
pub struct User {
    pub id: Option<String>,
    pub buyeruid: Option<String>,
    pub yob: Option<i32>,
    pub gender: Option<String>,
    pub keywords: Option<String>,
    pub customdata: Option<String>,
    pub geo: Option<Geo>,
    pub data: Vec<Data>,
    pub eids: Option<Vec<Eid>>,
    pub ext: Option<serde_json::Value>,
}

#[derive(Debug, Clone, Default)]
pub struct Data {
    pub id: Option<String>,
    pub name: Option<String>,
    pub segment: Vec<Segment>,
    pub ext: Option<serde_json::Value>,
}

#[derive(Debug, Clone, Default)]
pub struct Segment {
    pub id: Option<String>,
    pub name: Option<String>,
    pub value: Option<String>,
    pub ext: Option<serde_json::Value>,
}

#[derive(Debug, Clone, Default)]
pub struct Eid {
    pub source: String,
    pub uids: Vec<Uid>,
    pub ext: Option<serde_json::Value>,
}

#[derive(Debug, Clone, Default)]
pub struct Uid {
    pub id: String,
    pub atype: Option<u32>,
    pub ext: Option<serde_json::Value>,
}

#[derive(Debug, Clone, Default)]
pub struct Source {
    pub fd: Option<u8>,
    pub tid: Option<String>,
    pub pchain: Option<String>,
    pub schain: Option<serde_json::Value>,
    pub ext: Option<serde_json::Value>,
}

#[derive(Debug, Clone, Default)]
pub struct Regs {
    pub coppa: Option<u8>,
    pub gdpr: Option<u8>,
    pub us_privacy: Option<String>,
    pub gpp: Option<String>,
    pub gpp_sid: Vec<i32>,
    pub ext: Option<serde_json::Value>,
}

#[derive(Debug, Clone)]
pub struct BidResponse {
    pub id: String,
    pub seatbid: Vec<SeatBid>,
    pub bidid: Option<String>,
    pub cur: Option<String>,
    pub customdata: Option<String>,
    pub nbr: Option<NoBidReason>,
    pub ext: Option<serde_json::Value>,
}

#[derive(Debug, Clone, Default)]
pub struct SeatBid {
    pub bid: Vec<Bid>,
    pub seat: Option<String>,
    pub group: u8,
    pub ext: Option<serde_json::Value>,
}

#[derive(Debug, Clone)]
pub struct Bid {
    pub id: String,
    pub impid: String,
    /// Price in millionths of the currency unit.
    pub price_micros: i64,
    pub adid: Option<String>,
    pub nurl: Option<String>,
    pub burl: Option<String>,
    pub lurl: Option<String>,
    pub adm: Option<String>,
    pub adomain: Option<Vec<String>>,
    pub bundle: Option<String>,
    pub iurl: Option<String>,
    pub cid: Option<String>,
    pub crid: Option<String>,
    pub tactic: Option<String>,
    pub cat: Vec<String>,
    pub attr: Vec<u32>,
    pub api: Option<u32>,
    pub protocol: Option<u32>,
    pub qagmediarating: Option<u32>,
    pub language: Option<String>,
    pub dealid: Option<String>,
    pub w: Option<i32>,
    pub h: Option<i32>,
    pub wratio: Option<i32>,
    pub hratio: Option<i32>,
    pub exp: Option<u32>,
    pub ext: Option<serde_json::Value>,
}

impl BidResponse {
    /// The response that declines to bid, for the given reason.
    pub fn no_bid(request_id: String, reason: NoBidReason) -> (r: Self)
        ensures
            r.id == request_id,
            r.seatbid@.len() == 0,
            r.bidid is None,
            r.cur is None,
            r.customdata is None,
            r.nbr == Some(reason),
            r.ext is None,
    {
        BidResponse {
            id: request_id,
            seatbid: Vec::new(),
            bidid: None,
            cur: None,
            customdata: None,
            nbr: Some(reason),
            ext: None,
        }
    }
}

/// An OpenRTB no-bid reason code.
#[derive(Debug, Clone, Copy, PartialEq, Eq, Structural)]
pub struct NoBidReason(pub u32);

impl NoBidReason {
    pub const UNKNOWN_ERROR: u32 = 0;

    pub const TECHNICAL_ERROR: u32 = 1;

    pub const INVALID_REQUEST: u32 = 2;

    pub const KNOWN_WEB_SPIDER: u32 = 3;

    pub const SUSPECTED_NON_HUMAN: u32 = 4;

    pub const CLOUD_DATA_CENTER: u32 = 5;

    pub const UNSUPPORTED_DEVICE: u32 = 6;

    pub const BLOCKED_PUBLISHER: u32 = 7;

    pub const UNMATCHED_USER: u32 = 8;

    pub const DAILY_REACH_LIMIT: u32 = 9;

    pub const BUSINESS_RULES: u32 = 10;

    pub const NO_ELIGIBLE_BIDS: u32 = 11;

    pub const BELOW_FLOOR: u32 = 12;

    pub const REQUEST_BLOCKED_PRIVACY: u32 = 13;

    pub const FREQUENCY_CAP: u32 = 14;

    pub const BELOW_BID_FLOOR_PMP: u32 = 15;

    pub const LOST_TO_HIGHER_BID: u32 = 100;

    pub const LOST_TO_PMP_BID: u32 = 101;

    pub const SEAT_BLOCKED: u32 = 102;

    pub const PIPELINE_DEADLINE: u32 = 103;
}

/// The ad format of an impression or a creative.
#[derive(Debug, Clone, Copy, PartialEq, Eq, Hash, Structural)]
pub enum AdFormat {
    Banner,
    Video,
    Audio,
    Native,
}

/// The dominant format of an impression: the first of banner, video, audio and
/// native that it offers.
pub open spec fn dominant_format(imp: Imp) -> Option<AdFormat> {
    if imp.banner is Some {
        Some(AdFormat::Banner)
    } else if imp.video is Some {
        Some(AdFormat::Video)
    } else if imp.audio is Some {
        Some(AdFormat::Audio)
    } else if imp.native is Some {
        Some(AdFormat::Native)
    } else {
        None
    }
}

impl AdFormat {
    /// The number under which the format is indexed.
    pub open spec fn index(self) -> u8 {
        match self {
            AdFormat::Banner => 0,
            AdFormat::Video => 1,
            AdFormat::Audio => 2,
            AdFormat::Native => 3,
        }
    }

    /// The number under which the format is indexed.
    pub fn code(self) -> (c: u8)
        ensures
            c == self.index(),
    {
        match self {
            AdFormat::Banner => 0,
            AdFormat::Video => 1,
            AdFormat::Audio => 2,
            AdFormat::Native => 3,
        }
    }

    /// The dominant format of an impression, if it offers any.
    pub fn from_imp(imp: &Imp) -> (format: Option<Self>)
        ensures
            format == dominant_format(*imp),
    {
        if imp.banner.is_some() {
            Some(AdFormat::Banner)
        } else if imp.video.is_some() {
            Some(AdFormat::Video)
        } else if imp.audio.is_some() {
            Some(AdFormat::Audio)
        } else if imp.native.is_some() {
            Some(AdFormat::Native)
        } else {
            None
        }
    }
}

/// What happens to a bid, from the offer to the conversion.
#[derive(Debug, Clone)]
pub enum AdEvent {
    Bid(BidEvent),
    Win(WinEvent),
    Impression(ImpressionEvent),
    Click(ClickEvent),
    VideoQuartile(VideoQuartileEvent),
    Conversion(ConversionEvent),
    ViewabilityMeasured(ViewabilityEvent),
}

#[derive(Debug, Clone)]
pub struct BidEvent {
    pub request_id: String,
    pub imp_id: String,
    pub campaign_id: String,
    pub bid_price: Real,
    pub timestamp_ms: u64,
}

#[derive(Debug, Clone)]
pub struct WinEvent {
    pub request_id: String,
    pub imp_id: String,
    pub campaign_id: String,
    pub clearing_price: Real,
    pub timestamp_ms: u64,
}

#[derive(Debug, Clone)]
pub struct ImpressionEvent {
    pub request_id: String,
    pub imp_id: String,
    pub campaign_id: String,
    pub timestamp_ms: u64,
}

#[derive(Debug, Clone)]
pub struct ClickEvent {
    pub request_id: String,
    pub imp_id: String,
    pub campaign_id: String,
    pub timestamp_ms: u64,
}

#[derive(Debug, Clone)]
pub struct VideoQuartileEvent {
    pub request_id: String,
    pub imp_id: String,
    pub campaign_id: String,
    pub quartile: u8,
    pub timestamp_ms: u64,
}

#[derive(Debug, Clone)]
pub struct ConversionEvent {
    pub request_id: String,
    pub imp_id: String,
    pub campaign_id: String,
    pub conversion_type: String,
    pub timestamp_ms: u64,
}

#[derive(Debug, Clone)]
pub struct ViewabilityEvent {
    pub request_id: String,
    pub imp_id: String,
    pub campaign_id: String,
    pub viewable_fraction: Real,
    pub timestamp_ms: u64,
}

/// Formats are told apart by the number under which they are indexed: they are
/// numbered from zero.
pub proof fn law_format_numbers_differ(a: AdFormat, b: AdFormat)
    ensures
        a.index() == b.index() ==> a == b,
        a.index() == 0 <==> a == AdFormat::Banner,
        a.index() == 1 <==> a == AdFormat::Video,
        a.index() == 2 <==> a == AdFormat::Audio,
        a.index() == 3 <==> a == AdFormat::Native,
{
}

/// The format of an impression is one that it offers, and it offers none that comes
/// earlier among banner, video, audio and native.
pub proof fn law_dominant_format_is_the_first_offered(imp: Imp)
    ensures
        dominant_format(imp) == Some(AdFormat::Banner) <==> imp.banner is Some,
        dominant_format(imp) == Some(AdFormat::Video) <==> imp.banner is None && imp.video is Some,
        dominant_format(imp) == Some(AdFormat::Audio) <==> imp.banner is None && imp.video is None
            && imp.audio is Some,
        dominant_format(imp) == Some(AdFormat::Native) <==> imp.banner is None && imp.video is None
            && imp.audio is None && imp.native is Some,
{
}

} // verus!
