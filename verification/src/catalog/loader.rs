//! Builds a catalog snapshot from database rows.
use crate::catalog::bitmap::{bitmap_insert, bitmap_new, bitmap_union_with, ids};
use crate::catalog::campaign_catalog::{
    law_candidates_within_catalog, listed, listed_anywhere, unlisted, CampaignCatalog, GeoIndex, Targeting,
};
use crate::catalog::types::{
    law_device_numbers_differ, Campaign, CampaignId, Creative, DeviceTargetType, GeoKey, GeoKind,
    SegmentId,
};
use crate::model::openrtb::{law_format_numbers_differ, AdFormat};
use crate::targeting::SegmentRegistry;
use crate::text::same_text;
use roaring::RoaringBitmap;
use std::collections::HashMap;
use vstd::prelude::*;

verus! {

broadcast use vstd::std_specs::hash::group_hash_axioms;

/// A row of the campaign table.
pub struct CampaignRow {
    pub id: i64,
    pub advertiser_id: i64,
    pub bid_floor_cents: i32,
    pub daily_budget_cents: i64,
    pub hourly_budget_cents: i64,
    pub daily_cap_imps: i32,
    pub hourly_cap_imps: i32,
}

/// A row of the creative table.
pub struct CreativeRow {
    pub id: i64,
    pub campaign_id: i64,
    pub ad_format: String,
    pub click_url: String,
    pub image_url: Option<String>,
    pub width: Option<i32>,
    pub height: Option<i32>,
}

/// A row of the segment table.
pub struct SegmentRow {
    pub id: i32,
    pub name: String,
}

/// The campaigns that target one segment.
pub struct SegmentIndexRow {
    pub segment_id: i32,
    pub campaign_ids: Vec<i64>,
}

/// The campaigns that target one geo.
pub struct GeoIndexRow {
    pub geo_kind: String,
    pub geo_code: String,
    pub campaign_ids: Vec<i64>,
}

/// The campaigns that target one device type.
pub struct DeviceIndexRow {
    pub device_type: String,
    pub campaign_ids: Vec<i64>,
}

/// The campaigns that target one ad format.
pub struct FormatIndexRow {
    pub ad_format: String,
    pub campaign_ids: Vec<i64>,
}

/// Everything that one catalog snapshot is built from.
pub struct CatalogRows {
    pub campaigns: Vec<CampaignRow>,
    pub creatives: Vec<CreativeRow>,
    pub segments: Vec<SegmentRow>,
    pub segment_index: Vec<SegmentIndexRow>,
    pub geo_index: Vec<GeoIndexRow>,
    pub device_index: Vec<DeviceIndexRow>,
    pub format_index: Vec<FormatIndexRow>,
    /// Campaigns whose daypart covers the current hour of the week.
    pub daypart_active_now: Vec<i64>,
}

/// The ad format of a database value: its name in upper or in lower case.
pub open spec fn format_named(s: Seq<char>) -> Option<AdFormat> {
    if s == "BANNER"@ || s == "banner"@ {
        Some(AdFormat::Banner)
    } else if s == "VIDEO"@ || s == "video"@ {
        Some(AdFormat::Video)
    } else if s == "AUDIO"@ || s == "audio"@ {
        Some(AdFormat::Audio)
    } else if s == "NATIVE"@ || s == "native"@ {
        Some(AdFormat::Native)
    } else {
        None
    }
}

/// The device type of a database value: its name in upper or in lower case.
pub open spec fn device_named(s: Seq<char>) -> Option<DeviceTargetType> {
    if s == "DESKTOP"@ || s == "desktop"@ {
        Some(DeviceTargetType::Desktop)
    } else if s == "MOBILE"@ || s == "mobile"@ {
        Some(DeviceTargetType::Mobile)
    } else if s == "TABLET"@ || s == "tablet"@ {
        Some(DeviceTargetType::Tablet)
    } else if s == "CTV"@ || s == "ctv"@ {
        Some(DeviceTargetType::Ctv)
    } else if s == "OTHER"@ || s == "other"@ {
        Some(DeviceTargetType::Other)
    } else {
        None
    }
}

/// Parses an ad format as the database spells it; other values give `None`.
pub fn parse_ad_format(s: &str) -> (f: Option<AdFormat>)
    ensures
        f == format_named(s@),
{
    if same_text(s, "BANNER") || same_text(s, "banner") {
        Some(AdFormat::Banner)
    } else if same_text(s, "VIDEO") || same_text(s, "video") {
        Some(AdFormat::Video)
    } else if same_text(s, "AUDIO") || same_text(s, "audio") {
        Some(AdFormat::Audio)
    } else if same_text(s, "NATIVE") || same_text(s, "native") {
        Some(AdFormat::Native)
    } else {
        None
    }
}

/// Parses a device type as the database spells it; other values give `None`.
pub fn parse_device_type(s: &str) -> (d: Option<DeviceTargetType>)
    ensures
        d == device_named(s@),
{
    if same_text(s, "DESKTOP") || same_text(s, "desktop") {
        Some(DeviceTargetType::Desktop)
    } else if same_text(s, "MOBILE") || same_text(s, "mobile") {
        Some(DeviceTargetType::Mobile)
    } else if same_text(s, "TABLET") || same_text(s, "tablet") {
        Some(DeviceTargetType::Tablet)
    } else if same_text(s, "CTV") || same_text(s, "ctv") {
        Some(DeviceTargetType::Ctv)
    } else if same_text(s, "OTHER") || same_text(s, "other") {
        Some(DeviceTargetType::Other)
    } else {
        None
    }
}

/// The campaign ids of a list of database keys.
pub open spec fn id_set(keys: Seq<i64>) -> Set<u32> {
    keys.map_values(|k: i64| k as u32).to_set()
}

fn id_bitmap(keys: &Vec<i64>) -> (bm: RoaringBitmap)
    ensures
        ids(bm) == id_set(keys@),
{
    let mut bm = bitmap_new();
    let n: usize = keys.len();
    for i in 0..n
        invariant
            n == keys@.len(),
            forall|id: u32| #[trigger]
                ids(bm).contains(id) <==> exists|j: int|
                    0 <= j < i && (#[trigger] keys@[j]) as u32 == id,
    {
        bitmap_insert(&mut bm, #[verifier::truncate] (keys[i] as u32));
    }
    let ghost mapped = keys@.map_values(|k: i64| k as u32);
    assert forall|id: u32| #[trigger] ids(bm).contains(id) <==> mapped.to_set().contains(id) by {
        if ids(bm).contains(id) {
            let j = choose|j: int| 0 <= j < n && (#[trigger] keys@[j]) as u32 == id;
            assert(mapped[j] == id);
        }
        if mapped.to_set().contains(id) {
            let j = choose|j: int| 0 <= j < mapped.len() && mapped[j] == id;
            assert(keys@[j] as u32 == id);
        }
    }
    assert(ids(bm) =~= id_set(keys@));
    bm
}

/// The ids that an index lists under each of its keys.
pub open spec fn index_sets<K>(index: Map<K, RoaringBitmap>) -> Map<K, Set<u32>> {
    index.map_values(|bm: RoaringBitmap| ids(bm))
}

/// The campaign of a row.
pub open spec fn campaign_of(row: CampaignRow) -> Campaign {
    Campaign {
        id: row.id as u32,
        advertiser_id: row.advertiser_id as u64,
        bid_floor_cents: row.bid_floor_cents,
        daily_budget_cents: row.daily_budget_cents,
        hourly_budget_cents: row.hourly_budget_cents,
        daily_cap_imps: row.daily_cap_imps as u32,
        hourly_cap_imps: row.hourly_cap_imps as u32,
    }
}

/// The campaigns of the rows by id; the last row of an id counts.
pub open spec fn campaign_table(rows: Seq<CampaignRow>) -> Map<CampaignId, Campaign>
    decreases rows.len(),
{
    if rows.len() == 0 {
        Map::empty()
    } else {
        campaign_table(rows.drop_last()).insert(rows.last().id as u32, campaign_of(rows.last()))
    }
}

fn build_campaigns(rows: Vec<CampaignRow>) -> (built: (HashMap<CampaignId, Campaign>, RoaringBitmap))
    ensures
        built.0@ == campaign_table(rows@),
        ids(built.1) == built.0@.dom(),
{
    let mut campaigns: HashMap<CampaignId, Campaign> = HashMap::with_capacity(rows.len());
    let mut all_campaigns = bitmap_new();
    let n: usize = rows.len();
    for i in 0..n
        invariant
            n == rows@.len(),
            campaigns@ == campaign_table(rows@.take(i as int)),
            ids(all_campaigns) == campaigns@.dom(),
    {
        assert(rows@.take(i + 1).drop_last() =~= rows@.take(i as int));
        let row = &rows[i];
        let id: u32 = #[verifier::truncate] (row.id as u32);
        bitmap_insert(&mut all_campaigns, id);
        campaigns.insert(
            id,
            Campaign {
                id,
                advertiser_id: #[verifier::truncate] (row.advertiser_id as u64),
                bid_floor_cents: row.bid_floor_cents,
                daily_budget_cents: row.daily_budget_cents,
                hourly_budget_cents: row.hourly_budget_cents,
                daily_cap_imps: #[verifier::truncate] (row.daily_cap_imps as u32),
                hourly_cap_imps: #[verifier::truncate] (row.hourly_cap_imps as u32),
            },
        );
        assert(ids(all_campaigns) =~= campaigns@.dom());
    }
    assert(rows@.take(n as int) =~= rows@);
    (campaigns, all_campaigns)
}

/// Whether a row is a creative of the campaign with a known ad format.
pub open spec fn creative_row_of(row: CreativeRow, campaign_id: CampaignId) -> bool {
    row.campaign_id as u32 == campaign_id && format_named(row.ad_format@) is Some
}

/// The creative of a row with a known ad format.
pub open spec fn creative_of(row: CreativeRow) -> Creative {
    Creative {
        id: row.id as u32,
        campaign_id: row.campaign_id as u32,
        ad_format: format_named(row.ad_format@)->0,
        click_url: row.click_url,
        image_url: row.image_url,
        width: row.width,
        height: row.height,
    }
}

/// The creatives of a campaign in row order; rows of an unknown format are left
/// out.
pub open spec fn creative_list(rows: Seq<CreativeRow>, campaign_id: CampaignId) -> Seq<Creative> {
    rows.filter(|r: CreativeRow| creative_row_of(r, campaign_id)).map_values(
        |r: CreativeRow| creative_of(r),
    )
}

/// Whether a creative map holds the creatives of the rows.
pub open spec fn creatives_built(
    creatives: Map<CampaignId, Vec<Creative>>,
    rows: Seq<CreativeRow>,
) -> bool {
    forall|cid: CampaignId|
        if creative_list(rows, cid).len() == 0 {
            !(#[trigger] creatives.contains_key(cid))
        } else {
            creatives.contains_key(cid) && creatives[cid]@ == creative_list(rows, cid)
        }
}

fn build_creatives(rows: Vec<CreativeRow>) -> (creatives: HashMap<CampaignId, Vec<Creative>>)
    ensures
        creatives_built(creatives@, rows@),
{
    let ghost all = rows@;
    let mut creatives: HashMap<CampaignId, Vec<Creative>> = HashMap::new();
    proof {
        reveal(Seq::filter);
    }
    for row in it: rows
        invariant
            it.seq() == all,
            creatives_built(creatives@, all.take(it.index() as int)),
    {
        let ghost i = it.index() as int;
        let ghost before = creatives@;
        assert(row == all[i]);
        proof {
            reveal(Seq::filter);
            assert(all.take(i + 1).drop_last() =~= all.take(i));
            assert(all.take(i + 1).last() == row);
        }
        if let Some(ad_format) = parse_ad_format(row.ad_format.as_str()) {
            let cid: u32 = #[verifier::truncate] (row.campaign_id as u32);
            let mut list = match creatives.remove(&cid) {
                Some(list) => list,
                None => Vec::new(),
            };
            assert(list@ =~= creative_list(all.take(i), cid));
            list.push(
                Creative {
                    id: #[verifier::truncate] (row.id as u32),
                    campaign_id: cid,
                    ad_format,
                    click_url: row.click_url,
                    image_url: row.image_url,
                    width: row.width,
                    height: row.height,
                },
            );
            assert(list@ =~= creative_list(all.take(i + 1), cid));
            creatives.insert(cid, list);
        }
        assert forall|cid: CampaignId|
            if creative_list(all.take(i + 1), cid).len() == 0 {
                !(#[trigger] creatives@.contains_key(cid))
            } else {
                creatives@.contains_key(cid) && creatives@[cid]@ == creative_list(
                    all.take(i + 1),
                    cid,
                )
            } by {
            if !creative_row_of(row, cid) {
                assert(creative_list(all.take(i + 1), cid) =~= creative_list(all.take(i), cid));
                assert(before.contains_key(cid) == creatives@.contains_key(cid));
            }
        }
    }
    assert(all.take(all.len() as int) =~= all);
    creatives
}

/// The ids by segment name; the last row of a name counts.
pub open spec fn name_table(rows: Seq<SegmentRow>) -> Map<Seq<char>, SegmentId>
    decreases rows.len(),
{
    if rows.len() == 0 {
        Map::empty()
    } else {
        name_table(rows.drop_last()).insert(rows.last().name@, rows.last().id as u32)
    }
}

fn build_registry(rows: Vec<SegmentRow>) -> (registry: SegmentRegistry)
    ensures
        registry.wf(),
        registry@ == name_table(rows@),
{
    let ghost all = rows@;
    let mut registry = SegmentRegistry::default();
    for row in it: rows
        invariant
            it.seq() == all,
            registry.wf(),
            registry@ == name_table(all.take(it.index() as int)),
    {
        assert(all.take(it.index() + 1).drop_last() =~= all.take(it.index() as int));
        let id: u32 = #[verifier::truncate] (row.id as u32);
        registry.insert(row.name, id);
    }
    assert(all.take(all.len() as int) =~= all);
    registry
}

/// The campaigns by segment; the last row of a segment counts.
pub open spec fn segment_table(rows: Seq<SegmentIndexRow>) -> Map<SegmentId, Set<u32>>
    decreases rows.len(),
{
    if rows.len() == 0 {
        Map::empty()
    } else {
        segment_table(rows.drop_last()).insert(
            rows.last().segment_id as u32,
            id_set(rows.last().campaign_ids@),
        )
    }
}

fn build_segment_index(rows: Vec<SegmentIndexRow>) -> (index: HashMap<SegmentId, RoaringBitmap>)
    ensures
        index_sets(index@) == segment_table(rows@),
{
    let mut index: HashMap<SegmentId, RoaringBitmap> = HashMap::with_capacity(rows.len());
    let n: usize = rows.len();
    assert(index_sets(index@) =~= segment_table(rows@.take(0)));
    for i in 0..n
        invariant
            n == rows@.len(),
            index_sets(index@) == segment_table(rows@.take(i as int)),
    {
        let ghost before = index@;
        assert(rows@.take(i + 1).drop_last() =~= rows@.take(i as int));
        let bm = id_bitmap(&rows[i].campaign_ids);
        index.insert(#[verifier::truncate] (rows[i].segment_id as u32), bm);
        assert(index_sets(index@) =~= index_sets(before).insert(
            rows@[i as int].segment_id as u32,
            ids(bm),
        ));
    }
    assert(rows@.take(n as int) =~= rows@);
    index
}

/// The kind of geo code that the database calls `name`.
pub open spec fn geo_kind_named(name: Seq<char>) -> GeoKind {
    if name == "country"@ {
        GeoKind::Country
    } else {
        GeoKind::Metro
    }
}

/// The campaigns by geo code of one kind; the last row of a code counts.
pub open spec fn geo_table(rows: Seq<GeoIndexRow>, kind: GeoKind) -> Map<Seq<char>, Set<u32>>
    decreases rows.len(),
{
    if rows.len() == 0 {
        Map::empty()
    } else if geo_kind_named(rows.last().geo_kind@) == kind {
        geo_table(rows.drop_last(), kind).insert(
            rows.last().geo_code@,
            id_set(rows.last().campaign_ids@),
        )
    } else {
        geo_table(rows.drop_last(), kind)
    }
}

fn build_geo_index(rows: Vec<GeoIndexRow>) -> (index: GeoIndex)
    ensures
        forall|kind: GeoKind| index_sets(#[trigger] index.of_kind(kind)) == geo_table(rows@, kind),
{
    let ghost all = rows@;
    let mut index = GeoIndex::new();
    assert forall|kind: GeoKind| index_sets(#[trigger] index.of_kind(kind)) == geo_table(
        all.take(0),
        kind,
    ) by {
        assert(index_sets(index.of_kind(kind)) =~= Map::empty());
    }
    for row in it: rows
        invariant
            it.seq() == all,
            forall|kind: GeoKind|
                index_sets(#[trigger] index.of_kind(kind)) == geo_table(
                    all.take(it.index() as int),
                    kind,
                ),
    {
        let ghost i = it.index() as int;
        let ghost before = index;
        assert(all.take(i + 1).drop_last() =~= all.take(i));
        let kind = if same_text(row.geo_kind.as_str(), "country") {
            GeoKind::Country
        } else {
            GeoKind::Metro
        };
        let bm = id_bitmap(&row.campaign_ids);
        let ghost code = row.geo_code@;
        index.insert(GeoKey { kind, code: row.geo_code }, bm);
        assert forall|k: GeoKind| index_sets(#[trigger] index.of_kind(k)) == geo_table(
            all.take(i + 1),
            k,
        ) by {
            assert(index_sets(before.of_kind(k)) == geo_table(all.take(i), k));
            if k == kind {
                assert(index_sets(index.of_kind(k)) =~= index_sets(before.of_kind(k)).insert(
                    code,
                    ids(bm),
                ));
            }
        }
    }
    assert(all.take(all.len() as int) =~= all);
    index
}

/// A table with more ids listed under a key.
pub open spec fn add_ids(table: Map<u8, Set<u32>>, key: u8, more: Set<u32>) -> Map<u8, Set<u32>> {
    if table.contains_key(key) {
        table.insert(key, table[key].union(more))
    } else {
        table.insert(key, more)
    }
}

/// Adds the ids of a bitmap to those that an index lists under a key.
fn index_ids(index: &mut HashMap<u8, RoaringBitmap>, key: u8, more: RoaringBitmap)
    ensures
        index_sets(final(index)@) == add_ids(index_sets(old(index)@), key, ids(more)),
{
    let ghost before = index@;
    let mut bm = more;
    if let Some(earlier) = index.remove(&key) {
        bitmap_union_with(&mut bm, &earlier);
        assert(ids(bm) =~= ids(earlier).union(ids(more)));
    }
    index.insert(key, bm);
    assert(index_sets(index@) =~= add_ids(index_sets(before), key, ids(more)));
}

/// The campaigns by device type: all rows that name a type count, and rows with an
/// unknown type are left out.
pub open spec fn device_table(rows: Seq<DeviceIndexRow>) -> Map<u8, Set<u32>>
    decreases rows.len(),
{
    if rows.len() == 0 {
        Map::empty()
    } else {
        let table = device_table(rows.drop_last());
        match device_named(rows.last().device_type@) {
            Some(device) => add_ids(table, device.index(), id_set(rows.last().campaign_ids@)),
            None => table,
        }
    }
}

fn build_device_index(rows: Vec<DeviceIndexRow>) -> (index: HashMap<u8, RoaringBitmap>)
    ensures
        index_sets(index@) == device_table(rows@),
{
    let mut index: HashMap<u8, RoaringBitmap> = HashMap::with_capacity(5);
    let n: usize = rows.len();
    assert(index_sets(index@) =~= device_table(rows@.take(0)));
    for i in 0..n
        invariant
            n == rows@.len(),
            index_sets(index@) == device_table(rows@.take(i as int)),
    {
        assert(rows@.take(i + 1).drop_last() =~= rows@.take(i as int));
        if let Some(device) = parse_device_type(rows[i].device_type.as_str()) {
            index_ids(&mut index, device.code(), id_bitmap(&rows[i].campaign_ids));
        }
    }
    assert(rows@.take(n as int) =~= rows@);
    index
}

/// The campaigns by ad format: all rows that name a format count, and rows with an
/// unknown format are left out.
pub open spec fn format_table(rows: Seq<FormatIndexRow>) -> Map<u8, Set<u32>>
    decreases rows.len(),
{
    if rows.len() == 0 {
        Map::empty()
    } else {
        let table = format_table(rows.drop_last());
        match format_named(rows.last().ad_format@) {
            Some(format) => add_ids(table, format.index(), id_set(rows.last().campaign_ids@)),
            None => table,
        }
    }
}

fn build_format_index(rows: Vec<FormatIndexRow>) -> (index: HashMap<u8, RoaringBitmap>)
    ensures
        index_sets(index@) == format_table(rows@),
{
    let mut index: HashMap<u8, RoaringBitmap> = HashMap::with_capacity(4);
    let n: usize = rows.len();
    assert(index_sets(index@) =~= format_table(rows@.take(0)));
    for i in 0..n
        invariant
            n == rows@.len(),
            index_sets(index@) == format_table(rows@.take(i as int)),
    {
        assert(rows@.take(i + 1).drop_last() =~= rows@.take(i as int));
        if let Some(format) = parse_ad_format(rows[i].ad_format.as_str()) {
            index_ids(&mut index, format.code(), id_bitmap(&rows[i].campaign_ids));
        }
    }
    assert(rows@.take(n as int) =~= rows@);
    index
}

/// Whether a catalog holds exactly what the rows say.
pub open spec fn built_from(c: CampaignCatalog, rows: CatalogRows) -> bool {
    &&& c.wf()
    &&& c.campaigns@ == campaign_table(rows.campaigns@)
    &&& ids(c.all_campaigns) == c.campaigns@.dom()
    &&& creatives_built(c.creatives@, rows.creatives@)
    &&& index_sets(c.segment_to_campaigns@) == segment_table(rows.segment_index@)
    &&& forall|kind: GeoKind|
        index_sets(#[trigger] c.geo_to_campaigns.of_kind(kind)) == geo_table(rows.geo_index@, kind)
    &&& index_sets(c.device_to_campaigns@) == device_table(rows.device_index@)
    &&& index_sets(c.format_to_campaigns@) == format_table(rows.format_index@)
    &&& ids(c.daypart_active_now) == id_set(rows.daypart_active_now@)
}

/// Builds a fresh catalog and segment registry from the rows of one load.
pub fn build(rows: CatalogRows) -> (built: (CampaignCatalog, SegmentRegistry))
    ensures
        built_from(built.0, rows),
        built.1.wf(),
        built.1@ == name_table(rows.segments@),
{
    let registry = build_registry(rows.segments);
    let (campaigns, all_campaigns) = build_campaigns(rows.campaigns);
    let creatives = build_creatives(rows.creatives);
    let segment_to_campaigns = build_segment_index(rows.segment_index);
    let geo_to_campaigns = build_geo_index(rows.geo_index);
    let device_to_campaigns = build_device_index(rows.device_index);
    let format_to_campaigns = build_format_index(rows.format_index);
    let daypart_active_now = id_bitmap(&rows.daypart_active_now);
    let device_unrestricted = unlisted(&all_campaigns, &device_to_campaigns);
    let format_unrestricted = unlisted(&all_campaigns, &format_to_campaigns);
    let catalog = CampaignCatalog {
        campaigns,
        creatives,
        segment_to_campaigns,
        geo_to_campaigns,
        device_to_campaigns,
        format_to_campaigns,
        daypart_active_now,
        all_campaigns,
        device_unrestricted,
        format_unrestricted,
    };
    (catalog, registry)
}

/// What a refresh attempt calls for.
#[derive(Debug, Clone, Copy, PartialEq, Eq, Structural)]
pub enum RefreshAlert {
    /// The attempt failed; the next one may succeed.
    RefreshFailed,
    /// Too many attempts in a row failed: the bidder runs on a stale catalog.
    CircuitOpen,
}

/// Counts the consecutive failures of the background refresh. While attempts
/// fail, the catalog of the last success stays live.
#[derive(Debug, Clone, Copy)]
pub struct RefreshState {
    pub consecutive_failures: u32,
    pub max_failures: u32,
}

impl RefreshState {
    /// A state without failures.
    pub fn new(max_failures: u32) -> (s: Self)
        ensures
            s.consecutive_failures == 0,
            s.max_failures == max_failures,
    {
        RefreshState { consecutive_failures: 0, max_failures }
    }

    /// An attempt succeeded: the count starts again.
    pub fn succeeded(&mut self)
        ensures
            final(self).consecutive_failures == 0,
            final(self).max_failures == old(self).max_failures,
    {
        self.consecutive_failures = 0;
    }

    /// An attempt failed: the circuit is open once the configured number of
    /// failures in a row is reached.
    pub fn failed(&mut self) -> (alert: RefreshAlert)
        requires
            old(self).consecutive_failures < u32::MAX,
        ensures
            final(self).consecutive_failures == old(self).consecutive_failures + 1,
            final(self).max_failures == old(self).max_failures,
            alert == (if final(self).consecutive_failures >= final(self).max_failures {
                RefreshAlert::CircuitOpen
            } else {
                RefreshAlert::RefreshFailed
            }),
    {
        self.consecutive_failures = self.consecutive_failures + 1;
        if self.consecutive_failures >= self.max_failures {
            RefreshAlert::CircuitOpen
        } else {
            RefreshAlert::RefreshFailed
        }
    }
}

/// Every set of a table lies within `all`.
pub open spec fn table_within<K>(table: Map<K, Set<u32>>, all: Set<u32>) -> bool {
    forall|k: K| #[trigger] table.contains_key(k) ==> table[k].subset_of(all)
}

proof fn lemma_segment_table_within(rows: Seq<SegmentIndexRow>, all: Set<u32>)
    requires
        forall|i: int| 0 <= i < rows.len() ==> id_set((#[trigger] rows[i]).campaign_ids@).subset_of(all),
    ensures
        table_within(segment_table(rows), all),
    decreases rows.len(),
{
    if rows.len() > 0 {
        lemma_segment_table_within(rows.drop_last(), all);
    }
}

proof fn lemma_geo_table_within(rows: Seq<GeoIndexRow>, kind: GeoKind, all: Set<u32>)
    requires
        forall|i: int| 0 <= i < rows.len() ==> id_set((#[trigger] rows[i]).campaign_ids@).subset_of(all),
    ensures
        table_within(geo_table(rows, kind), all),
    decreases rows.len(),
{
    if rows.len() > 0 {
        lemma_geo_table_within(rows.drop_last(), kind, all);
    }
}

proof fn lemma_device_table_within(rows: Seq<DeviceIndexRow>, all: Set<u32>)
    requires
        forall|i: int| 0 <= i < rows.len() ==> id_set((#[trigger] rows[i]).campaign_ids@).subset_of(all),
    ensures
        table_within(device_table(rows), all),
    decreases rows.len(),
{
    if rows.len() > 0 {
        lemma_device_table_within(rows.drop_last(), all);
    }
}

proof fn lemma_format_table_within(rows: Seq<FormatIndexRow>, all: Set<u32>)
    requires
        forall|i: int| 0 <= i < rows.len() ==> id_set((#[trigger] rows[i]).campaign_ids@).subset_of(all),
    ensures
        table_within(format_table(rows), all),
    decreases rows.len(),
{
    if rows.len() > 0 {
        lemma_format_table_within(rows.drop_last(), all);
    }
}

/// Whether every targeting row names only campaigns that have a campaign row.
pub open spec fn rows_joined(rows: CatalogRows) -> bool {
    let all = campaign_table(rows.campaigns@).dom();
    &&& forall|i: int|
        0 <= i < rows.segment_index@.len() ==> id_set(
            (#[trigger] rows.segment_index@[i]).campaign_ids@,
        ).subset_of(all)
    &&& forall|i: int|
        0 <= i < rows.geo_index@.len() ==> id_set(
            (#[trigger] rows.geo_index@[i]).campaign_ids@,
        ).subset_of(all)
    &&& forall|i: int|
        0 <= i < rows.device_index@.len() ==> id_set(
            (#[trigger] rows.device_index@[i]).campaign_ids@,
        ).subset_of(all)
    &&& forall|i: int|
        0 <= i < rows.format_index@.len() ==> id_set(
            (#[trigger] rows.format_index@[i]).campaign_ids@,
        ).subset_of(all)
    &&& id_set(rows.daypart_active_now@).subset_of(all)
}

/// A catalog built from rows whose targeting names only loaded campaigns retrieves
/// only campaigns that it has a record of.
pub proof fn law_built_candidates_have_records(
    c: CampaignCatalog,
    rows: CatalogRows,
    t: Targeting,
    id: u32,
)
    requires
        built_from(c, rows),
        rows_joined(rows),
        c.eligible(t, id),
    ensures
        c.indices_within(),
        c.campaigns@.contains_key(id),
{
    let all = ids(c.all_campaigns);
    lemma_segment_table_within(rows.segment_index@, all);
    lemma_device_table_within(rows.device_index@, all);
    lemma_format_table_within(rows.format_index@, all);
    assert forall|k: SegmentId, i: u32| #[trigger]
        listed(c.segment_to_campaigns@, k, i) implies all.contains(i) by {
        assert(index_sets(c.segment_to_campaigns@).contains_key(k));
    }
    assert forall|k: u8, i: u32| #[trigger]
        listed(c.device_to_campaigns@, k, i) implies all.contains(i) by {
        assert(index_sets(c.device_to_campaigns@).contains_key(k));
    }
    assert forall|k: u8, i: u32| #[trigger]
        listed(c.format_to_campaigns@, k, i) implies all.contains(i) by {
        assert(index_sets(c.format_to_campaigns@).contains_key(k));
    }
    assert forall|kind: GeoKind, code: Seq<char>, i: u32| #[trigger]
        c.geo_to_campaigns.targets(kind, code, i) implies all.contains(i) by {
        lemma_geo_table_within(rows.geo_index@, kind, all);
        assert(index_sets(c.geo_to_campaigns.of_kind(kind)).contains_key(code));
    }
    law_candidates_within_catalog(c, t, id);
}

/// Of two rows for one campaign, the later one is the record that counts.
pub proof fn law_last_campaign_row_counts(rows: Seq<CampaignRow>, row: CampaignRow)
    ensures
        campaign_table(rows.push(row)).contains_key(row.id as u32),
        campaign_table(rows.push(row))[row.id as u32] == campaign_of(row),
        forall|id: u32|
            id != row.id as u32 ==> (#[trigger] campaign_table(rows.push(row)).contains_key(id)
                <==> campaign_table(rows).contains_key(id)),
{
    assert(rows.push(row).drop_last() =~= rows);
}

/// A record carries its row field by field, each in its own place; ids and caps are
/// taken over where they are not negative and fit.
pub proof fn law_records_carry_their_row(row: CampaignRow)
    ensures
        ({
            let c = campaign_of(row);
            &&& 0 <= row.id <= u32::MAX ==> c.id == row.id
            &&& row.advertiser_id >= 0 ==> c.advertiser_id == row.advertiser_id
            &&& c.bid_floor_cents == row.bid_floor_cents
            &&& c.daily_budget_cents == row.daily_budget_cents
            &&& c.hourly_budget_cents == row.hourly_budget_cents
            &&& row.daily_cap_imps >= 0 ==> c.daily_cap_imps == row.daily_cap_imps
            &&& row.hourly_cap_imps >= 0 ==> c.hourly_cap_imps == row.hourly_cap_imps
        }),
{
}

/// There is a record for exactly the campaigns that have a row.
pub proof fn law_records_are_the_rows(rows: Seq<CampaignRow>, id: u32)
    ensures
        campaign_table(rows).contains_key(id) <==> exists|i: int|
            0 <= i < rows.len() && (#[trigger] rows[i]).id as u32 == id,
    decreases rows.len(),
{
    if rows.len() > 0 {
        let init = rows.drop_last();
        law_records_are_the_rows(init, id);
        if exists|i: int| 0 <= i < init.len() && (#[trigger] init[i]).id as u32 == id {
            let i = choose|i: int| 0 <= i < init.len() && (#[trigger] init[i]).id as u32 == id;
            assert(rows[i].id as u32 == id);
        }
        if rows.last().id as u32 == id {
            assert(rows[rows.len() - 1].id as u32 == id);
        }
        if exists|i: int| 0 <= i < rows.len() && (#[trigger] rows[i]).id as u32 == id {
            let i = choose|i: int| 0 <= i < rows.len() && (#[trigger] rows[i]).id as u32 == id;
            if i < init.len() {
                assert(init[i].id as u32 == id);
            }
        }
    }
}

/// A list of database keys stands for the campaigns that it names.
pub proof fn law_id_sets_hold_the_keys(keys: Seq<i64>, id: u32)
    ensures
        id_set(keys).contains(id) <==> exists|i: int|
            0 <= i < keys.len() && (#[trigger] keys[i]) as u32 == id,
{
    let mapped = keys.map_values(|k: i64| k as u32);
    if id_set(keys).contains(id) {
        let i = choose|i: int| 0 <= i < mapped.len() && mapped[i] == id;
        assert(keys[i] as u32 == id);
    }
    if exists|i: int| 0 <= i < keys.len() && (#[trigger] keys[i]) as u32 == id {
        let i = choose|i: int| 0 <= i < keys.len() && (#[trigger] keys[i]) as u32 == id;
        assert(mapped[i] == id);
    }
}

/// A further row of the segment index sets the campaigns of its segment to those it
/// names, and leaves the other segments as they are.
pub proof fn law_segment_rows_set_their_segment(
    rows: Seq<SegmentIndexRow>,
    row: SegmentIndexRow,
    other: SegmentId,
)
    ensures
        ({
            let after = segment_table(rows.push(row));
            let key = row.segment_id as u32;
            &&& after.contains_key(key)
            &&& after[key] == id_set(row.campaign_ids@)
            &&& other != key ==> after.contains_key(other) == segment_table(rows).contains_key(
                other,
            ) && after[other] == segment_table(rows)[other]
            &&& segment_table(Seq::<SegmentIndexRow>::empty()).dom() == Set::<u32>::empty()
        }),
{
    assert(rows.push(row).drop_last() =~= rows);
}

/// A further row of the geo index sets the campaigns of its code among the codes of
/// its kind: countries where the kind is called "country", metros otherwise. Codes of
/// the other kind, and other codes, stay as they are.
pub proof fn law_geo_rows_set_their_code(
    rows: Seq<GeoIndexRow>,
    row: GeoIndexRow,
    kind: GeoKind,
    other: Seq<char>,
)
    ensures
        ({
            let after = geo_table(rows.push(row), kind);
            let before = geo_table(rows, kind);
            let own = (kind == GeoKind::Country) == (row.geo_kind@ == "country"@);
            &&& own ==> after.contains_key(row.geo_code@) && after[row.geo_code@] == id_set(
                row.campaign_ids@,
            )
            &&& !own ==> after == before
            &&& other != row.geo_code@ ==> after.contains_key(other) == before.contains_key(other)
                && after[other] == before[other]
            &&& geo_table(Seq::<GeoIndexRow>::empty(), kind).dom() == Set::<Seq<char>>::empty()
        }),
{
    assert(rows.push(row).drop_last() =~= rows);
}

/// A further row of the device index adds the campaigns it names to those of its
/// device type, and to no other; a row with an unknown type adds nothing.
pub proof fn law_device_rows_add_to_their_type(
    rows: Seq<DeviceIndexRow>,
    row: DeviceIndexRow,
    device: DeviceTargetType,
    id: u32,
)
    ensures
        ({
            let after = device_table(rows.push(row));
            let before = device_table(rows);
            let was = before.contains_key(device.index()) && before[device.index()].contains(id);
            let is = after.contains_key(device.index()) && after[device.index()].contains(id);
            let named = device_named(row.device_type@) == Some(device) && exists|i: int|
                0 <= i < row.campaign_ids@.len() && (#[trigger] row.campaign_ids@[i]) as u32 == id;
            &&& is <==> was || named
            &&& device_table(Seq::<DeviceIndexRow>::empty()).dom() == Set::<u8>::empty()
        }),
{
    assert(rows.push(row).drop_last() =~= rows);
    law_id_sets_hold_the_keys(row.campaign_ids@, id);
    if device_named(row.device_type@) is Some {
        let named = device_named(row.device_type@)->0;
        law_device_numbers_differ(named, device);
    }
}

/// A further row of the format index adds the campaigns it names to those of its
/// format, and to no other; a row with an unknown format adds nothing.
pub proof fn law_format_rows_add_to_their_format(
    rows: Seq<FormatIndexRow>,
    row: FormatIndexRow,
    format: AdFormat,
    id: u32,
)
    ensures
        ({
            let after = format_table(rows.push(row));
            let before = format_table(rows);
            let was = before.contains_key(format.index()) && before[format.index()].contains(id);
            let is = after.contains_key(format.index()) && after[format.index()].contains(id);
            let named = format_named(row.ad_format@) == Some(format) && exists|i: int|
                0 <= i < row.campaign_ids@.len() && (#[trigger] row.campaign_ids@[i]) as u32 == id;
            &&& is <==> was || named
            &&& format_table(Seq::<FormatIndexRow>::empty()).dom() == Set::<u8>::empty()
        }),
{
    assert(rows.push(row).drop_last() =~= rows);
    law_id_sets_hold_the_keys(row.campaign_ids@, id);
    if format_named(row.ad_format@) is Some {
        let named = format_named(row.ad_format@)->0;
        law_format_numbers_differ(named, format);
    }
}

/// A further segment row gives its name its id, and leaves the other names alone.
pub proof fn law_segment_names_get_their_id(
    rows: Seq<SegmentRow>,
    row: SegmentRow,
    other: Seq<char>,
)
    ensures
        ({
            let after = name_table(rows.push(row));
            &&& after.contains_key(row.name@)
            &&& after[row.name@] == row.id as u32
            &&& other != row.name@ ==> after.contains_key(other) == name_table(rows).contains_key(
                other,
            ) && after[other] == name_table(rows)[other]
            &&& name_table(Seq::<SegmentRow>::empty()).dom() == Set::<Seq<char>>::empty()
        }),
{
    assert(rows.push(row).drop_last() =~= rows);
}

/// A further creative row adds one creative, with the row's fields, at the end of its
/// own campaign's list, and nothing to any other campaign's; a row of an unknown
/// format adds nothing.
pub proof fn law_creative_rows_go_to_their_campaign(
    rows: Seq<CreativeRow>,
    row: CreativeRow,
    campaign_id: CampaignId,
)
    ensures
        ({
            let after = creative_list(rows.push(row), campaign_id);
            let before = creative_list(rows, campaign_id);
            let own = row.campaign_id as u32 == campaign_id && format_named(row.ad_format@) is Some;
            &&& !own ==> after == before
            &&& own ==> after.len() == before.len() + 1 && after.drop_last() == before
            &&& own ==> after.last().id == row.id as u32 && after.last().campaign_id
                == campaign_id && Some(after.last().ad_format) == format_named(row.ad_format@)
            &&& own ==> after.last().click_url == row.click_url && after.last().image_url
                == row.image_url && after.last().width == row.width && after.last().height
                == row.height
            &&& creative_list(Seq::<CreativeRow>::empty(), campaign_id).len() == 0
        }),
{
    reveal(Seq::filter);
    assert(rows.push(row).drop_last() =~= rows);
    let own = |r: CreativeRow| creative_row_of(r, campaign_id);
    if creative_row_of(row, campaign_id) {
        assert(creative_list(rows.push(row), campaign_id) =~= creative_list(
            rows,
            campaign_id,
        ).push(creative_of(row)));
        assert(creative_list(rows.push(row), campaign_id).drop_last() =~= creative_list(
            rows,
            campaign_id,
        ));
    } else {
        assert(creative_list(rows.push(row), campaign_id) =~= creative_list(rows, campaign_id));
    }
}

/// Every index of a built catalog lists what its own table lists, and its universe and
/// its dayparts are those of the rows.
pub proof fn law_built_indices_list_their_tables(
    c: CampaignCatalog,
    rows: CatalogRows,
    segment: SegmentId,
    code: Seq<char>,
    key: u8,
    id: u32,
)
    requires
        built_from(c, rows),
    ensures
        c.segment_to_campaigns@.contains_key(segment) && ids(
            c.segment_to_campaigns@[segment],
        ).contains(id) <==> segment_table(rows.segment_index@).contains_key(segment)
            && segment_table(rows.segment_index@)[segment].contains(id),
        c.geo_to_campaigns.country@.contains_key(code) && ids(
            c.geo_to_campaigns.country@[code],
        ).contains(id) <==> geo_table(rows.geo_index@, GeoKind::Country).contains_key(code)
            && geo_table(rows.geo_index@, GeoKind::Country)[code].contains(id),
        c.geo_to_campaigns.metro@.contains_key(code) && ids(
            c.geo_to_campaigns.metro@[code],
        ).contains(id) <==> geo_table(rows.geo_index@, GeoKind::Metro).contains_key(code)
            && geo_table(rows.geo_index@, GeoKind::Metro)[code].contains(id),
        c.device_to_campaigns@.contains_key(key) && ids(c.device_to_campaigns@[key]).contains(id)
            <==> device_table(rows.device_index@).contains_key(key) && device_table(
            rows.device_index@,
        )[key].contains(id),
        c.format_to_campaigns@.contains_key(key) && ids(c.format_to_campaigns@[key]).contains(id)
            <==> format_table(rows.format_index@).contains_key(key) && format_table(
            rows.format_index@,
        )[key].contains(id),
        ids(c.all_campaigns).contains(id) <==> exists|i: int|
            0 <= i < rows.campaigns@.len() && (#[trigger] rows.campaigns@[i]).id as u32 == id,
        ids(c.daypart_active_now).contains(id) <==> exists|i: int|
            0 <= i < rows.daypart_active_now@.len() && (
            #[trigger] rows.daypart_active_now@[i]) as u32 == id,
{
    law_records_are_the_rows(rows.campaigns@, id);
    law_id_sets_hold_the_keys(rows.daypart_active_now@, id);
    assert(index_sets(c.geo_to_campaigns.of_kind(GeoKind::Country)) == geo_table(
        rows.geo_index@,
        GeoKind::Country,
    ));
    assert(index_sets(c.geo_to_campaigns.of_kind(GeoKind::Metro)) == geo_table(
        rows.geo_index@,
        GeoKind::Metro,
    ));
    assert(index_sets(c.segment_to_campaigns@).contains_key(segment)
        == c.segment_to_campaigns@.contains_key(segment));
    assert(index_sets(c.device_to_campaigns@).contains_key(key)
        == c.device_to_campaigns@.contains_key(key));
    assert(index_sets(c.format_to_campaigns@).contains_key(key)
        == c.format_to_campaigns@.contains_key(key));
}

/// A campaign serves on a device type that the database names for it, and on no
/// other once it names any: the built catalog's device constraint follows the rows.
pub proof fn law_built_devices_follow_the_rows(
    c: CampaignCatalog,
    rows: CatalogRows,
    device: DeviceTargetType,
    id: u32,
)
    requires
        built_from(c, rows),
        ids(c.all_campaigns).contains(id),
    ensures
        device_table(rows.device_index@).contains_key(device.index()) && device_table(
            rows.device_index@,
        )[device.index()].contains(id) ==> c.device_match(device, id),
        (forall|k: u8|
            device_table(rows.device_index@).contains_key(k) ==> !(
            #[trigger] device_table(rows.device_index@)[k]).contains(id)) ==> c.device_match(
            device,
            id,
        ),
{
    let table = device_table(rows.device_index@);
    assert(index_sets(c.device_to_campaigns@).contains_key(device.index())
        == c.device_to_campaigns@.contains_key(device.index()));
    if forall|k: u8| table.contains_key(k) ==> !(#[trigger] table[k]).contains(id) {
        assert forall|k: u8| !(#[trigger] listed(c.device_to_campaigns@, k, id)) by {
            assert(index_sets(c.device_to_campaigns@).contains_key(k)
                == c.device_to_campaigns@.contains_key(k));
            assert(table.contains_key(k) ==> !table[k].contains(id));
        }
        assert(!listed_anywhere(c.device_to_campaigns@, id));
    }
}

/// The database's names of ad formats, in upper or in lower case.
pub proof fn law_format_names(s: Seq<char>)
    ensures
        format_named(s) == Some(AdFormat::Banner) <==> s == "BANNER"@ || s == "banner"@,
        format_named(s) == Some(AdFormat::Video) <==> s == "VIDEO"@ || s == "video"@,
        format_named(s) == Some(AdFormat::Audio) <==> s == "AUDIO"@ || s == "audio"@,
        format_named(s) == Some(AdFormat::Native) <==> s == "NATIVE"@ || s == "native"@,
{
    reveal_strlit("BANNER");
    reveal_strlit("banner");
    reveal_strlit("VIDEO");
    reveal_strlit("video");
    reveal_strlit("AUDIO");
    reveal_strlit("audio");
    reveal_strlit("NATIVE");
    reveal_strlit("native");
    assert("BANNER"@[0] == 'B' && "banner"@[0] == 'b');
    assert("VIDEO"@[0] == 'V' && "video"@[0] == 'v');
    assert("AUDIO"@[0] == 'A' && "audio"@[0] == 'a');
    assert("NATIVE"@[0] == 'N' && "native"@[0] == 'n');
}

/// The database's names of device types, in upper or in lower case.
pub proof fn law_device_names(s: Seq<char>)
    ensures
        device_named(s) == Some(DeviceTargetType::Desktop) <==> s == "DESKTOP"@ || s == "desktop"@,
        device_named(s) == Some(DeviceTargetType::Mobile) <==> s == "MOBILE"@ || s == "mobile"@,
        device_named(s) == Some(DeviceTargetType::Tablet) <==> s == "TABLET"@ || s == "tablet"@,
        device_named(s) == Some(DeviceTargetType::Ctv) <==> s == "CTV"@ || s == "ctv"@,
        device_named(s) == Some(DeviceTargetType::Other) <==> s == "OTHER"@ || s == "other"@,
{
    reveal_strlit("DESKTOP");
    reveal_strlit("desktop");
    reveal_strlit("MOBILE");
    reveal_strlit("mobile");
    reveal_strlit("TABLET");
    reveal_strlit("tablet");
    reveal_strlit("CTV");
    reveal_strlit("ctv");
    reveal_strlit("OTHER");
    reveal_strlit("other");
    assert("DESKTOP"@[0] == 'D' && "desktop"@[0] == 'd');
    assert("MOBILE"@[0] == 'M' && "mobile"@[0] == 'm');
    assert("TABLET"@[0] == 'T' && "tablet"@[0] == 't');
    assert("CTV"@[0] == 'C' && "ctv"@[0] == 'c');
    assert("OTHER"@[0] == 'O' && "other"@[0] == 'o');
}

/// A campaign that has several rows has the record of the last of them.
pub proof fn law_record_is_of_the_last_row(rows: Seq<CampaignRow>, i: int)
    requires
        0 <= i < rows.len(),
        forall|j: int|
            i < j < rows.len() ==> (#[trigger] rows[j]).id as u32 != rows[i].id as u32,
    ensures
        campaign_table(rows).contains_key(rows[i].id as u32),
        campaign_table(rows)[rows[i].id as u32] == campaign_of(rows[i]),
    decreases rows.len(),
{
    if i < rows.len() - 1 {
        let init = rows.drop_last();
        assert(init[i] == rows[i]);
        assert forall|j: int| i < j < init.len() implies (#[trigger] init[j]).id as u32
            != init[i].id as u32 by {
            assert(init[j] == rows[j]);
        }
        law_record_is_of_the_last_row(init, i);
        assert(rows[rows.len() - 1].id as u32 != rows[i].id as u32);
    }
}

/// A built catalog has the records of the campaign rows and, under each campaign, the
/// creatives of its rows.
pub proof fn law_built_records_and_creatives(
    c: CampaignCatalog,
    rows: CatalogRows,
    i: int,
    id: CampaignId,
)
    requires
        built_from(c, rows),
        0 <= i < rows.campaigns@.len(),
        forall|j: int|
            i < j < rows.campaigns@.len() ==> (#[trigger] rows.campaigns@[j]).id as u32
                != rows.campaigns@[i].id as u32,
    ensures
        c.campaigns@.contains_key(rows.campaigns@[i].id as u32),
        c.campaigns@[rows.campaigns@[i].id as u32] == campaign_of(rows.campaigns@[i]),
        c.creatives_of(id) == creative_list(rows.creatives@, id),
{
    law_record_is_of_the_last_row(rows.campaigns@, i);
    assert(c.creatives@.contains_key(id) == (creative_list(rows.creatives@, id).len() != 0));
    assert(c.creatives_of(id) =~= creative_list(rows.creatives@, id));
}

} // verus!
