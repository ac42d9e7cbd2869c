use bidder_core::catalog::campaign_catalog::{CampaignCatalog, CandidateRequest, GeoIndex};
use bidder_core::catalog::loader::{
    build, parse_ad_format, parse_device_type, CampaignRow, CatalogRows, CreativeRow,
    DeviceIndexRow, FormatIndexRow, GeoIndexRow, RefreshAlert, RefreshState, SegmentIndexRow,
    SegmentRow,
};
use bidder_core::catalog::types::{Campaign, DeviceTargetType, GeoKey, GeoKind};
use bidder_core::model::openrtb::AdFormat;
use roaring::RoaringBitmap;
use std::collections::HashMap;

fn bitmap(ids: &[u32]) -> RoaringBitmap {
    let mut bm = RoaringBitmap::new();
    for id in ids {
        bm.insert(*id);
    }
    bm
}

fn make_catalog() -> CampaignCatalog {
    let mut segment_to_campaigns: HashMap<u32, RoaringBitmap> = HashMap::new();
    segment_to_campaigns.insert(10, bitmap(&[1, 2]));
    segment_to_campaigns.insert(20, bitmap(&[2, 3]));
    let mut device_to_campaigns: HashMap<u8, RoaringBitmap> = HashMap::new();
    device_to_campaigns.insert(DeviceTargetType::Mobile.code(), bitmap(&[1, 2, 3]));
    let mut format_to_campaigns: HashMap<u8, RoaringBitmap> = HashMap::new();
    format_to_campaigns.insert(AdFormat::Banner.code(), bitmap(&[1, 3]));
    // Campaigns 1, 2 and 3 all target mobile; campaign 2 has no format row.
    CampaignCatalog {
        campaigns: HashMap::new(),
        creatives: HashMap::new(),
        segment_to_campaigns,
        geo_to_campaigns: GeoIndex::new(),
        device_to_campaigns,
        format_to_campaigns,
        daypart_active_now: RoaringBitmap::new(),
        all_campaigns: bitmap(&[1, 2, 3]),
        device_unrestricted: RoaringBitmap::new(),
        format_unrestricted: bitmap(&[2]),
    }
}

fn open_request<'a>() -> CandidateRequest<'a> {
    CandidateRequest { segment_ids: &[], geo_keys: None, device_type: None, ad_format: None }
}

fn ids(bm: &RoaringBitmap) -> Vec<u32> {
    bm.iter().collect()
}

#[test]
fn no_restrictions_returns_all() {
    let cat = make_catalog();
    let result = cat.candidates_for(&open_request());
    assert_eq!(result.len(), 3);
}

#[test]
fn segment_union_then_device_intersection() {
    let cat = make_catalog();
    let req = CandidateRequest {
        segment_ids: &[10, 20],
        geo_keys: None,
        device_type: Some(DeviceTargetType::Mobile),
        ad_format: None,
    };
    let result = cat.candidates_for(&req);
    assert_eq!(result.len(), 3);
}

#[test]
fn format_intersection_narrows_results() {
    let cat = make_catalog();
    let req = CandidateRequest {
        segment_ids: &[10],
        geo_keys: None,
        device_type: None,
        ad_format: Some(AdFormat::Banner),
    };
    let result = cat.candidates_for(&req);
    let ids: Vec<u32> = result.iter().collect();
    assert_eq!(ids, vec![1, 2]);
}

#[test]
fn unknown_device_returns_empty() {
    let cat = make_catalog();
    let req = CandidateRequest {
        segment_ids: &[],
        geo_keys: None,
        device_type: Some(DeviceTargetType::Ctv),
        ad_format: None,
    };
    assert!(cat.candidates_for(&req).is_empty());
}

#[test]
fn unrestricted_campaign_survives_device_filter() {
    let mut device_to_campaigns: HashMap<u8, RoaringBitmap> = HashMap::new();
    device_to_campaigns.insert(DeviceTargetType::Mobile.code(), bitmap(&[1]));
    let all_campaigns = bitmap(&[1, 99]);
    let device_restricted: RoaringBitmap =
        device_to_campaigns.values().fold(RoaringBitmap::new(), |mut acc, bm| {
            acc |= bm;
            acc
        });
    let device_unrestricted = &all_campaigns - &device_restricted;
    let cat = CampaignCatalog {
        campaigns: HashMap::new(),
        creatives: HashMap::new(),
        segment_to_campaigns: HashMap::new(),
        geo_to_campaigns: GeoIndex::new(),
        device_to_campaigns,
        format_to_campaigns: HashMap::new(),
        daypart_active_now: RoaringBitmap::new(),
        all_campaigns,
        device_unrestricted,
        format_unrestricted: RoaringBitmap::new(),
    };
    let req = CandidateRequest {
        segment_ids: &[],
        geo_keys: None,
        device_type: Some(DeviceTargetType::Desktop),
        ad_format: None,
    };
    let result = cat.candidates_for(&req);
    assert!(result.contains(99), "unrestricted campaign must survive device filter");
    assert!(!result.contains(1), "mobile-only campaign must be excluded on desktop");
}

#[test]
fn anonymous_traffic_with_no_filters_returns_all_unchanged() {
    let cat = make_catalog();
    let result = cat.candidates_for(&open_request());
    let expected: Vec<u32> = cat.all_campaigns.iter().collect();
    let got: Vec<u32> = result.iter().collect();
    assert_eq!(got, expected);
}

#[test]
fn lazy_universe_seeded_by_first_filter_skips_segment_clone() {
    let cat = make_catalog();
    let req = CandidateRequest {
        segment_ids: &[],
        geo_keys: None,
        device_type: Some(DeviceTargetType::Mobile),
        ad_format: None,
    };
    let result = cat.candidates_for(&req);
    let ids: Vec<u32> = result.iter().collect();
    assert_eq!(ids, vec![1, 2, 3]);
}

#[test]
fn empty_catalog_returns_empty() {
    let cat = CampaignCatalog::default();
    assert!(cat.candidates_for(&open_request()).is_empty());
}

#[test]
fn openrtb_device_mapping() {
    assert_eq!(DeviceTargetType::from_openrtb(1), DeviceTargetType::Mobile);
    assert_eq!(DeviceTargetType::from_openrtb(4), DeviceTargetType::Mobile);
    assert_eq!(DeviceTargetType::from_openrtb(2), DeviceTargetType::Desktop);
    assert_eq!(DeviceTargetType::from_openrtb(5), DeviceTargetType::Tablet);
    assert_eq!(DeviceTargetType::from_openrtb(3), DeviceTargetType::Ctv);
    assert_eq!(DeviceTargetType::from_openrtb(6), DeviceTargetType::Ctv);
    assert_eq!(DeviceTargetType::from_openrtb(7), DeviceTargetType::Ctv);
    assert_eq!(DeviceTargetType::from_openrtb(0), DeviceTargetType::Other);
    assert_eq!(DeviceTargetType::from_openrtb(255), DeviceTargetType::Other);
}

#[test]
fn geo_and_daypart_narrow() {
    let mut cat = make_catalog();
    cat.geo_to_campaigns.insert(
        GeoKey { kind: GeoKind::Country, code: "USA".to_string() },
        bitmap(&[1, 3]),
    );
    cat.geo_to_campaigns.insert(
        GeoKey { kind: GeoKind::Metro, code: "501".to_string() },
        bitmap(&[2]),
    );
    let keys = [GeoKey { kind: GeoKind::Country, code: "USA".to_string() }];
    let mut req = open_request();
    req.geo_keys = Some(&keys);
    assert_eq!(ids(&cat.candidates_for(&req)), vec![1, 3]);
    let both = [
        GeoKey { kind: GeoKind::Country, code: "USA".to_string() },
        GeoKey { kind: GeoKind::Metro, code: "501".to_string() },
    ];
    req.geo_keys = Some(&both);
    assert_eq!(ids(&cat.candidates_for(&req)), vec![1, 2, 3]);
    let wrong_kind = [GeoKey { kind: GeoKind::Metro, code: "USA".to_string() }];
    req.geo_keys = Some(&wrong_kind);
    assert!(cat.candidates_for(&req).is_empty());
    cat.daypart_active_now = bitmap(&[3]);
    req.geo_keys = Some(&keys);
    assert_eq!(ids(&cat.candidates_for(&req)), vec![3]);
}

#[test]
fn unrestricted_sets_follow_from_the_indices() {
    let mut device: HashMap<u8, RoaringBitmap> = HashMap::new();
    device.insert(DeviceTargetType::Mobile.code(), bitmap(&[1]));
    device.insert(DeviceTargetType::Tablet.code(), bitmap(&[2]));
    let cat = CampaignCatalog::new_for_test(
        HashMap::new(),
        HashMap::new(),
        HashMap::new(),
        GeoIndex::new(),
        device,
        HashMap::new(),
        RoaringBitmap::new(),
        bitmap(&[1, 2, 3]),
    );
    assert_eq!(ids(&cat.device_unrestricted), vec![3]);
    assert_eq!(ids(&cat.format_unrestricted), vec![1, 2, 3]);
    assert!(cat.is_empty());
    assert_eq!(cat.len(), 0);
}

fn campaign_row(id: i64, floor: i32) -> CampaignRow {
    CampaignRow {
        id,
        advertiser_id: 7,
        bid_floor_cents: floor,
        daily_budget_cents: 1000 + id,
        hourly_budget_cents: 100,
        daily_cap_imps: 10,
        hourly_cap_imps: 3,
    }
}

fn creative_row(id: i64, campaign_id: i64, format: &str) -> CreativeRow {
    CreativeRow {
        id,
        campaign_id,
        ad_format: format.to_string(),
        click_url: format!("https://example.com/{}", id),
        image_url: None,
        width: Some(300),
        height: None,
    }
}

fn rows() -> CatalogRows {
    CatalogRows {
        campaigns: vec![campaign_row(1, 5), campaign_row(2, 6), campaign_row(1, 9)],
        creatives: vec![
            creative_row(10, 1, "BANNER"),
            creative_row(11, 1, "hologram"),
            creative_row(12, 1, "video"),
        ],
        segments: vec![
            SegmentRow { id: 4, name: "cars".to_string() },
            SegmentRow { id: 5, name: "boats".to_string() },
        ],
        segment_index: vec![
            SegmentIndexRow { segment_id: 4, campaign_ids: vec![1] },
            SegmentIndexRow { segment_id: 4, campaign_ids: vec![2] },
        ],
        geo_index: vec![
            GeoIndexRow {
                geo_kind: "country".to_string(),
                geo_code: "USA".to_string(),
                campaign_ids: vec![1, 2],
            },
            GeoIndexRow {
                geo_kind: "metro".to_string(),
                geo_code: "501".to_string(),
                campaign_ids: vec![2],
            },
        ],
        device_index: vec![
            DeviceIndexRow { device_type: "MOBILE".to_string(), campaign_ids: vec![1] },
            DeviceIndexRow { device_type: "mobile".to_string(), campaign_ids: vec![1] },
            DeviceIndexRow { device_type: "toaster".to_string(), campaign_ids: vec![2] },
        ],
        format_index: vec![FormatIndexRow {
            ad_format: "native".to_string(),
            campaign_ids: vec![2],
        }],
        daypart_active_now: vec![1, 2],
    }
}

#[test]
fn rows_become_a_catalog() {
    let (cat, registry) = build(rows());
    assert_eq!(cat.len(), 2);
    let one: &Campaign = cat.campaign(1).unwrap();
    assert_eq!(one.bid_floor_cents, 9);
    assert_eq!(one.daily_cap_imps, 10);
    assert!(cat.campaign(3).is_none());
    let creatives: Vec<u32> = cat.creatives_for(1).iter().map(|c| c.id).collect();
    assert_eq!(creatives, vec![10, 12]);
    assert_eq!(cat.creatives_for(1)[0].click_url, "https://example.com/10");
    assert!(cat.creatives_for(2).is_empty());
    assert_eq!(ids(cat.segment_to_campaigns.get(&4).unwrap()), vec![2]);
    assert_eq!(ids(&cat.all_campaigns), vec![1, 2]);
    assert_eq!(ids(&cat.device_unrestricted), vec![2]);
    assert_eq!(ids(&cat.format_unrestricted), vec![1]);
    assert_eq!(ids(&cat.daypart_active_now), vec![1, 2]);
    assert_eq!(registry.len(), 2);
    assert_eq!(
        registry.resolve(&["boats".to_string(), "planes".to_string(), "cars".to_string()]),
        vec![5, 4]
    );
    let mut seeds = cat.budget_seeds();
    seeds.sort_unstable();
    assert_eq!(seeds, vec![(1, 1001), (2, 1002)]);
    let geo = GeoKey { kind: GeoKind::Country, code: "USA".to_string() };
    assert_eq!(ids(cat.geo_to_campaigns.get(&geo).unwrap()), vec![1, 2]);
}

#[test]
fn database_keys_are_taken_modulo_their_width() {
    let mut r = rows();
    r.campaigns.push(campaign_row(0x1_0000_0007, 1));
    let (cat, _) = build(r);
    assert!(cat.campaign(7).is_some());
    assert_eq!(cat.campaign(7).unwrap().id, 7);
}

#[test]
fn names_of_formats_and_devices() {
    assert_eq!(parse_ad_format("BANNER"), Some(AdFormat::Banner));
    assert_eq!(parse_ad_format("video"), Some(AdFormat::Video));
    assert_eq!(parse_ad_format("AUDIO"), Some(AdFormat::Audio));
    assert_eq!(parse_ad_format("native"), Some(AdFormat::Native));
    assert_eq!(parse_ad_format("Banner"), None);
    assert_eq!(parse_device_type("desktop"), Some(DeviceTargetType::Desktop));
    assert_eq!(parse_device_type("MOBILE"), Some(DeviceTargetType::Mobile));
    assert_eq!(parse_device_type("tablet"), Some(DeviceTargetType::Tablet));
    assert_eq!(parse_device_type("CTV"), Some(DeviceTargetType::Ctv));
    assert_eq!(parse_device_type("other"), Some(DeviceTargetType::Other));
    assert_eq!(parse_device_type(""), None);
}

#[test]
fn refresh_circuit_opens_after_max_failures() {
    let mut s = RefreshState::new(2);
    assert_eq!(s.failed(), RefreshAlert::RefreshFailed);
    assert_eq!(s.failed(), RefreshAlert::CircuitOpen);
    assert_eq!(s.failed(), RefreshAlert::CircuitOpen);
    s.succeeded();
    assert_eq!(s.consecutive_failures, 0);
    assert_eq!(s.failed(), RefreshAlert::RefreshFailed);
}
