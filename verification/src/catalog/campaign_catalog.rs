//! Immutable snapshot of the campaign catalog and its inverted indices.
use crate::catalog::bitmap::{
    bitmap_clone, bitmap_difference, bitmap_intersect_with, bitmap_is_empty, bitmap_new,
    bitmap_union_with, ids,
};
use crate::catalog::types::{
    Campaign, CampaignId, Creative, DeviceTargetType, GeoKey, GeoKind, SegmentId,
};
use crate::model::openrtb::AdFormat;
use roaring::RoaringBitmap;
use std::collections::HashMap;
use vstd::hash_map::StringHashMap;
use vstd::prelude::*;

verus! {

broadcast use vstd::std_specs::hash::group_hash_axioms;

/// Campaigns by geo code, one table per kind of code.
pub struct GeoIndex {
    pub country: StringHashMap<RoaringBitmap>,
    pub metro: StringHashMap<RoaringBitmap>,
}

impl GeoIndex {
    /// The table of one kind of code.
    pub open spec fn of_kind(self, kind: GeoKind) -> Map<Seq<char>, RoaringBitmap> {
        match kind {
            GeoKind::Country => self.country@,
            GeoKind::Metro => self.metro@,
        }
    }

    /// Whether campaign `id` targets the geo `(kind, code)`.
    pub open spec fn targets(self, kind: GeoKind, code: Seq<char>, id: u32) -> bool {
        listed(self.of_kind(kind), code, id)
    }

    /// An index without entries.
    pub fn new() -> (g: Self)
        ensures
            forall|kind: GeoKind| #[trigger] g.of_kind(kind) == Map::<Seq<char>, RoaringBitmap>::empty(),
    {
        let g = GeoIndex { country: StringHashMap::new(), metro: StringHashMap::new() };
        assert forall|kind: GeoKind|
            #[trigger] g.of_kind(kind) == Map::<Seq<char>, RoaringBitmap>::empty() by {
            match kind {
                GeoKind::Country => {},
                GeoKind::Metro => {},
            }
        }
        g
    }

    /// Sets the campaigns of one geo key, replacing those it had.
    pub fn insert(&mut self, key: GeoKey, bm: RoaringBitmap)
        ensures
            final(self).of_kind(key.kind) == old(self).of_kind(key.kind).insert(key.code@, bm),
            forall|kind: GeoKind|
                kind != key.kind ==> #[trigger] final(self).of_kind(kind) == old(self).of_kind(kind),
    {
        match key.kind {
            GeoKind::Country => self.country.insert(key.code, bm),
            GeoKind::Metro => self.metro.insert(key.code, bm),
        }
    }

    /// The campaigns of one geo key.
    pub fn get(&self, key: &GeoKey) -> (bm: Option<&RoaringBitmap>)
        ensures
            match bm {
                Some(b) => self.of_kind(key.kind).contains_key(key.code@)
                    && *b == self.of_kind(key.kind)[key.code@],
                None => !self.of_kind(key.kind).contains_key(key.code@),
            },
    {
        match key.kind {
            GeoKind::Country => self.country.get(key.code.as_str()),
            GeoKind::Metro => self.metro.get(key.code.as_str()),
        }
    }
}

/// Whether an index lists campaign `id` under `key`.
pub open spec fn listed<K>(index: Map<K, RoaringBitmap>, key: K, id: u32) -> bool {
    index.contains_key(key) && ids(index[key]).contains(id)
}

/// Whether an index lists campaign `id` under any key.
pub open spec fn listed_anywhere<K>(index: Map<K, RoaringBitmap>, id: u32) -> bool {
    exists|key: K| #[trigger] listed(index, key, id)
}

/// Immutable snapshot of the campaign catalog + inverted indices.
///
/// Device and format indices are keyed by `DeviceTargetType::code` and
/// `AdFormat::code`. All indices are read-only for the lifetime of a snapshot:
/// `candidates_for` always returns a new bitmap.
pub struct CampaignCatalog {
    /// All active campaigns, keyed by ID.
    pub campaigns: HashMap<CampaignId, Campaign>,
    /// Creatives per campaign.
    pub creatives: HashMap<CampaignId, Vec<Creative>>,
    pub segment_to_campaigns: HashMap<SegmentId, RoaringBitmap>,
    pub geo_to_campaigns: GeoIndex,
    pub device_to_campaigns: HashMap<u8, RoaringBitmap>,
    pub format_to_campaigns: HashMap<u8, RoaringBitmap>,
    /// Campaigns active at the current hour of the week. An empty bitmap means
    /// that no daypart constraint is checked.
    pub daypart_active_now: RoaringBitmap,
    /// All campaign IDs: the universe when a request carries no constraint.
    pub all_campaigns: RoaringBitmap,
    /// Campaigns with no device-targeting rows, which serve on any device type.
    pub device_unrestricted: RoaringBitmap,
    /// Campaigns with no format-targeting rows, which serve on any ad format.
    pub format_unrestricted: RoaringBitmap,
}

/// Input to `candidates_for`. Built per-request from the parsed `BidRequest`.
pub struct CandidateRequest<'a> {
    pub segment_ids: &'a [SegmentId],
    pub geo_keys: Option<&'a [GeoKey]>,
    pub device_type: Option<DeviceTargetType>,
    pub ad_format: Option<AdFormat>,
}

/// The constraints of a candidate request.
pub struct Targeting {
    pub segments: Seq<SegmentId>,
    pub geo: Option<Seq<(GeoKind, Seq<char>)>>,
    pub device: Option<DeviceTargetType>,
    pub format: Option<AdFormat>,
}

/// Geo keys as pairs of kind and code.
pub open spec fn geo_pairs(keys: Seq<GeoKey>) -> Seq<(GeoKind, Seq<char>)> {
    keys.map_values(|k: GeoKey| (k.kind, k.code@))
}

impl<'a> View for CandidateRequest<'a> {
    type V = Targeting;

    open spec fn view(&self) -> Targeting {
        Targeting {
            segments: self.segment_ids@,
            geo: match self.geo_keys {
                Some(keys) => Some(geo_pairs(keys@)),
                None => None,
            },
            device: self.device_type,
            format: self.ad_format,
        }
    }
}

impl Targeting {
    /// Whether the request restricts candidates by geo.
    pub open spec fn by_geo(self) -> bool {
        self.geo is Some && self.geo->0.len() > 0
    }
}

impl CampaignCatalog {
    /// Campaign `id` targets one of the user's segments.
    pub open spec fn segment_match(self, segments: Seq<SegmentId>, id: u32) -> bool {
        exists|i: int|
            0 <= i < segments.len() && #[trigger] listed(
                self.segment_to_campaigns@,
                segments[i],
                id,
            )
    }

    /// Campaign `id` targets one of the request's geo keys.
    pub open spec fn geo_match(self, keys: Seq<(GeoKind, Seq<char>)>, id: u32) -> bool {
        exists|i: int|
            0 <= i < keys.len() && #[trigger] self.geo_to_campaigns.targets(
                keys[i].0,
                keys[i].1,
                id,
            )
    }

    /// Campaign `id` serves on devices of this type.
    pub open spec fn device_match(self, device: DeviceTargetType, id: u32) -> bool {
        ids(self.device_unrestricted).contains(id) || listed(
            self.device_to_campaigns@,
            device.index(),
            id,
        )
    }

    /// Campaign `id` serves this ad format.
    pub open spec fn format_match(self, format: AdFormat, id: u32) -> bool {
        ids(self.format_unrestricted).contains(id) || listed(
            self.format_to_campaigns@,
            format.index(),
            id,
        )
    }

    /// Whether any targeting dimension restricts the candidates of a request.
    pub open spec fn restricted(self, t: Targeting) -> bool {
        ||| t.segments.len() > 0
        ||| t.by_geo()
        ||| t.device is Some
        ||| t.format is Some
        ||| ids(self.daypart_active_now) != Set::<u32>::empty()
    }

    /// Campaign `id` meets every constraint of the request.
    pub open spec fn meets_constraints(self, t: Targeting, id: u32) -> bool {
        &&& t.segments.len() > 0 ==> self.segment_match(t.segments, id)
        &&& t.by_geo() ==> self.geo_match(t.geo->0, id)
        &&& t.device is Some ==> self.device_match(t.device->0, id)
        &&& t.format is Some ==> self.format_match(t.format->0, id)
        &&& ids(self.daypart_active_now) != Set::<u32>::empty() ==> ids(
            self.daypart_active_now,
        ).contains(id)
    }

    /// Campaign `id` is a candidate for the request: the catalog is not empty
    /// and the campaign meets every constraint that the request carries; a
    /// request without constraints is open to all campaigns.
    pub open spec fn eligible(self, t: Targeting, id: u32) -> bool {
        &&& ids(self.all_campaigns) != Set::<u32>::empty()
        &&& if self.restricted(t) {
            self.meets_constraints(t, id)
        } else {
            ids(self.all_campaigns).contains(id)
        }
    }

    /// The unrestricted sets hold exactly the campaigns that have no row in the
    /// device and in the format index.
    pub open spec fn wf(self) -> bool {
        &&& forall|id: u32|
            #[trigger] ids(self.device_unrestricted).contains(id) <==> ids(
                self.all_campaigns,
            ).contains(id) && !listed_anywhere(self.device_to_campaigns@, id)
        &&& forall|id: u32|
            #[trigger] ids(self.format_unrestricted).contains(id) <==> ids(
                self.all_campaigns,
            ).contains(id) && !listed_anywhere(self.format_to_campaigns@, id)
    }

    /// Every index lists only campaigns of the catalog.
    pub open spec fn indices_within(self) -> bool {
        &&& forall|k: SegmentId, id: u32| #[trigger]
            listed(self.segment_to_campaigns@, k, id) ==> ids(self.all_campaigns).contains(id)
        &&& forall|kind: GeoKind, code: Seq<char>, id: u32| #[trigger]
            self.geo_to_campaigns.targets(kind, code, id) ==> ids(self.all_campaigns).contains(id)
        &&& forall|k: u8, id: u32| #[trigger]
            listed(self.device_to_campaigns@, k, id) ==> ids(self.all_campaigns).contains(id)
        &&& forall|k: u8, id: u32| #[trigger]
            listed(self.format_to_campaigns@, k, id) ==> ids(self.all_campaigns).contains(id)
        &&& forall|id: u32| #[trigger]
            ids(self.daypart_active_now).contains(id) ==> ids(self.all_campaigns).contains(id)
    }

    fn segment_union(&self, segments: &[SegmentId]) -> (union: RoaringBitmap)
        ensures
            forall|id: u32| ids(union).contains(id) <==> self.segment_match(segments@, id),
    {
        let mut union = bitmap_new();
        let n = segments.len();
        for i in 0..n
            invariant
                n == segments@.len(),
                forall|id: u32|
                    ids(union).contains(id) <==> exists|j: int|
                        0 <= j < i && #[trigger] listed(
                            self.segment_to_campaigns@,
                            segments@[j],
                            id,
                        ),
        {
            let seg: u32 = segments[i];
            let ghost before = ids(union);
            if let Some(bm) = self.segment_to_campaigns.get(&seg) {
                bitmap_union_with(&mut union, bm);
            }
            assert forall|id: u32| ids(union).contains(id) <==> exists|j: int|
                0 <= j < i + 1 && #[trigger] listed(
                    self.segment_to_campaigns@,
                    segments@[j],
                    id,
                ) by {
                let now = listed(self.segment_to_campaigns@, segments@[i as int], id);
                assert(ids(union).contains(id) <==> before.contains(id) || now);
            }
        }
        union
    }

    fn geo_union(&self, keys: &[GeoKey]) -> (union: RoaringBitmap)
        ensures
            forall|id: u32| ids(union).contains(id) <==> self.geo_match(geo_pairs(keys@), id),
    {
        let mut union = bitmap_new();
        let n = keys.len();
        for i in 0..n
            invariant
                n == keys@.len(),
                forall|id: u32|
                    ids(union).contains(id) <==> exists|j: int|
                        0 <= j < i && #[trigger] self.geo_to_campaigns.targets(
                            geo_pairs(keys@)[j].0,
                            geo_pairs(keys@)[j].1,
                            id,
                        ),
        {
            let ghost before = ids(union);
            if let Some(bm) = self.geo_to_campaigns.get(&keys[i]) {
                bitmap_union_with(&mut union, bm);
            }
            assert forall|id: u32| ids(union).contains(id) <==> exists|j: int|
                0 <= j < i + 1 && #[trigger] self.geo_to_campaigns.targets(
                    geo_pairs(keys@)[j].0,
                    geo_pairs(keys@)[j].1,
                    id,
                ) by {
                let now = self.geo_to_campaigns.targets(
                    geo_pairs(keys@)[i as int].0,
                    geo_pairs(keys@)[i as int].1,
                    id,
                );
                assert(ids(union).contains(id) <==> before.contains(id) || now);
            }
        }
        union
    }

    /// Candidate retrieval via bitmap intersection.
    ///
    /// The campaigns that meet every constraint of the request, as a new bitmap.
    /// Campaigns without device or format rows pass the respective filter. The
    /// result is empty if the catalog has no campaigns loaded.
    pub fn candidates_for(&self, req: &CandidateRequest<'_>) -> (result: RoaringBitmap)
        ensures
            forall|id: u32| #[trigger] ids(result).contains(id) <==> self.eligible(req@, id),
    {
        if bitmap_is_empty(&self.all_campaigns) {
            return bitmap_new();
        }
        // `None` stands for the whole universe: it is not cloned until it is known
        // that no filter narrows it.
        let mut result: Option<RoaringBitmap> = if req.segment_ids.len() == 0 {
            None
        } else {
            Some(self.segment_union(req.segment_ids))
        };
        if let Some(keys) = req.geo_keys {
            if keys.len() > 0 {
                let union = self.geo_union(keys);
                result = Some(narrow(result, union));
            }
        }
        if let Some(device) = req.device_type {
            let mut allowed = bitmap_clone(&self.device_unrestricted);
            if let Some(bm) = self.device_to_campaigns.get(&device.code()) {
                bitmap_union_with(&mut allowed, bm);
            }
            result = Some(narrow(result, allowed));
        }
        if let Some(format) = req.ad_format {
            let mut allowed = bitmap_clone(&self.format_unrestricted);
            if let Some(bm) = self.format_to_campaigns.get(&format.code()) {
                bitmap_union_with(&mut allowed, bm);
            }
            result = Some(narrow(result, allowed));
        }
        if !bitmap_is_empty(&self.daypart_active_now) {
            result = Some(narrow(result, bitmap_clone(&self.daypart_active_now)));
        }
        match result {
            Some(bm) => bm,
            None => bitmap_clone(&self.all_campaigns),
        }
    }

    /// Constructs a catalog from raw maps; the unrestricted sets follow from the
    /// device and format indices.
    pub fn new_for_test(
        campaigns: HashMap<CampaignId, Campaign>,
        creatives: HashMap<CampaignId, Vec<Creative>>,
        segment_to_campaigns: HashMap<SegmentId, RoaringBitmap>,
        geo_to_campaigns: GeoIndex,
        device_to_campaigns: HashMap<u8, RoaringBitmap>,
        format_to_campaigns: HashMap<u8, RoaringBitmap>,
        daypart_active_now: RoaringBitmap,
        all_campaigns: RoaringBitmap,
    ) -> (c: Self)
        ensures
            c.wf(),
            c.campaigns == campaigns,
            c.creatives == creatives,
            c.segment_to_campaigns == segment_to_campaigns,
            c.geo_to_campaigns == geo_to_campaigns,
            c.device_to_campaigns == device_to_campaigns,
            c.format_to_campaigns == format_to_campaigns,
            c.daypart_active_now == daypart_active_now,
            c.all_campaigns == all_campaigns,
    {
        let device_unrestricted = unlisted(&all_campaigns, &device_to_campaigns);
        let format_unrestricted = unlisted(&all_campaigns, &format_to_campaigns);
        CampaignCatalog {
            campaigns,
            creatives,
            segment_to_campaigns,
            geo_to_campaigns,
            device_to_campaigns,
            format_to_campaigns,
            daypart_active_now,
            all_campaigns,
            device_unrestricted,
            format_unrestricted,
        }
    }

    /// The record of an active campaign.
    pub fn campaign(&self, id: CampaignId) -> (c: Option<&Campaign>)
        ensures
            match c {
                Some(found) => self.campaigns@.contains_key(id) && *found == self.campaigns@[id],
                None => !self.campaigns@.contains_key(id),
            },
    {
        self.campaigns.get(&id)
    }

    /// The creatives of a campaign, in load order.
    pub open spec fn creatives_of(self, id: CampaignId) -> Seq<Creative> {
        if self.creatives@.contains_key(id) {
            self.creatives@[id]@
        } else {
            Seq::empty()
        }
    }

    /// The creatives of a campaign; none if it has no entry.
    pub fn creatives_for(&self, campaign_id: CampaignId) -> (creatives: &[Creative])
        ensures
            creatives@ == self.creatives_of(campaign_id),
    {
        match self.creatives.get(&campaign_id) {
            Some(list) => list.as_slice(),
            None => {
                let none: &[Creative] = &[];
                assert(none@ =~= Seq::<Creative>::empty());
                none
            },
        }
    }

    /// The number of active campaigns.
    pub fn len(&self) -> (n: usize)
        ensures
            n == self.campaigns@.len(),
    {
        self.campaigns.len()
    }

    /// Whether no campaign is active.
    pub fn is_empty(&self) -> (b: bool)
        ensures
            b == (self.campaigns@.len() == 0),
    {
        self.campaigns.len() == 0
    }

    /// Returns `(campaign_id, daily_budget_cents)` for every active campaign,
    /// each campaign once and in no particular order.
    pub fn budget_seeds(&self) -> (seeds: Vec<(CampaignId, i64)>)
        ensures
            seeds@.len() == self.campaigns@.len(),
            forall|i: int, j: int|
                0 <= i < j < seeds@.len() ==> (#[trigger] seeds@[i]).0 != (#[trigger] seeds@[j]).0,
            forall|i: int|
                0 <= i < seeds@.len() ==> self.campaigns@.contains_key((#[trigger] seeds@[i]).0)
                    && seeds@[i].1 == self.campaigns@[seeds@[i].0].daily_budget_cents,
            forall|id: CampaignId|
                self.campaigns@.contains_key(id) ==> exists|i: int|
                    0 <= i < seeds@.len() && (#[trigger] seeds@[i]).0 == id,
    {
        let mut seeds: Vec<(CampaignId, i64)> = Vec::new();
        let ghost order = vstd::std_specs::iter::IteratorSpec::remaining(
            &vstd::std_specs::hash::spec_keys_iter(&self.campaigns),
        );
        for key in it: self.campaigns.keys()
            invariant
                it.seq() == order,
                order.unref().to_set() == self.campaigns@.dom(),
                order.no_duplicates(),
                order.len() == self.campaigns@.len(),
                seeds@.len() == it.index(),
                forall|i: int|
                    0 <= i < seeds@.len() ==> (#[trigger] seeds@[i]).0 == *order[i]
                        && self.campaigns@.contains_key(seeds@[i].0)
                        && seeds@[i].1 == self.campaigns@[seeds@[i].0].daily_budget_cents,
        {
            assert(order.unref()[it.index() as int] == *key);
            assert(order.unref().to_set().contains(*key));
            if let Some(c) = self.campaigns.get(key) {
                seeds.push((*key, c.daily_budget_cents));
            }
        }
        assert forall|id: CampaignId| self.campaigns@.contains_key(id) implies exists|i: int|
            0 <= i < seeds@.len() && (#[trigger] seeds@[i]).0 == id by {
            assert(order.unref().to_set().contains(id));
            let i = choose|i: int| 0 <= i < order.unref().len() && order.unref()[i] == id;
            assert(seeds@[i].0 == id);
        }
        seeds
    }
}

impl Default for CampaignCatalog {
    /// A catalog without campaigns.
    fn default() -> (c: Self)
        ensures
            c.wf(),
            c.campaigns@ == Map::<CampaignId, Campaign>::empty(),
            c.creatives@ == Map::<CampaignId, Vec<Creative>>::empty(),
            c.segment_to_campaigns@ == Map::<SegmentId, RoaringBitmap>::empty(),
            forall|kind: GeoKind| #[trigger]
                c.geo_to_campaigns.of_kind(kind) == Map::<Seq<char>, RoaringBitmap>::empty(),
            c.device_to_campaigns@ == Map::<u8, RoaringBitmap>::empty(),
            c.format_to_campaigns@ == Map::<u8, RoaringBitmap>::empty(),
            ids(c.daypart_active_now) == Set::<u32>::empty(),
            ids(c.all_campaigns) == Set::<u32>::empty(),
    {
        CampaignCatalog {
            campaigns: HashMap::new(),
            creatives: HashMap::new(),
            segment_to_campaigns: HashMap::new(),
            geo_to_campaigns: GeoIndex::new(),
            device_to_campaigns: HashMap::new(),
            format_to_campaigns: HashMap::new(),
            daypart_active_now: bitmap_new(),
            all_campaigns: bitmap_new(),
            device_unrestricted: bitmap_new(),
            format_unrestricted: bitmap_new(),
        }
    }
}

/// The campaigns of `all` that an index lists under no key.
pub(crate) fn unlisted(all: &RoaringBitmap, index: &HashMap<u8, RoaringBitmap>) -> (bm: RoaringBitmap)
    ensures
        forall|id: u32| #[trigger]
            ids(bm).contains(id) <==> ids(*all).contains(id) && !listed_anywhere(index@, id),
{
    let mut restricted = bitmap_new();
    let ghost order = vstd::std_specs::iter::IteratorSpec::remaining(
        &vstd::std_specs::hash::spec_values_iter(index),
    );
    for bm in it: index.values()
        invariant
            it.seq() == order,
            forall|id: u32| #[trigger]
                ids(restricted).contains(id) <==> exists|j: int|
                    0 <= j < it.index() && #[trigger] ids(*order[j]).contains(id),
    {
        bitmap_union_with(&mut restricted, bm);
    }
    assert forall|id: u32| #[trigger] ids(restricted).contains(id) <==> listed_anywhere(
        index@,
        id,
    ) by {
        if listed_anywhere(index@, id) {
            let key = choose|key: u8| #[trigger] listed(index@, key, id);
            assert(index@.values().contains(index@[key]));
            assert(order.unref().to_set().contains(index@[key]));
            let j = choose|j: int| 0 <= j < order.unref().len() && order.unref()[j] == index@[key];
            assert(ids(*order[j]).contains(id));
        }
        if ids(restricted).contains(id) {
            let j = choose|j: int| 0 <= j < order.len() && #[trigger] ids(*order[j]).contains(id);
            assert(order.unref()[j] == *order[j]);
            assert(order.unref().to_set().contains(*order[j]));
            assert(index@.values().contains(*order[j]));
            let key = choose|key: u8| index@.contains_key(key) && index@[key] == *order[j];
            assert(listed(index@, key, id));
        }
    }
    bitmap_difference(all, &restricted)
}

/// Narrows the candidates found so far to those in `filter`; without earlier
/// constraints the filter itself is the result.
fn narrow(found: Option<RoaringBitmap>, filter: RoaringBitmap) -> (bm: RoaringBitmap)
    ensures
        forall|id: u32| #[trigger]
            ids(bm).contains(id) <==> ids(filter).contains(id) && (found is Some ==> ids(
                found->0,
            ).contains(id)),
{
    match found {
        Some(mut bm) => {
            bitmap_intersect_with(&mut bm, &filter);
            bm
        },
        None => filter,
    }
}

/// The request without its segments.
pub open spec fn without_segments(t: Targeting) -> Targeting {
    Targeting { segments: Seq::empty(), ..t }
}

/// The request without its geo constraint.
pub open spec fn without_geo(t: Targeting) -> Targeting {
    Targeting { geo: None, ..t }
}

/// The request without its device constraint.
pub open spec fn without_device(t: Targeting) -> Targeting {
    Targeting { device: None, ..t }
}

/// The request without its format constraint.
pub open spec fn without_format(t: Targeting) -> Targeting {
    Targeting { format: None, ..t }
}

/// A campaign of the catalog that has no device-targeting rows is a candidate on
/// any device type exactly where it is one without the device constraint.
pub proof fn law_device_unrestricted_serves_anywhere(
    c: CampaignCatalog,
    t: Targeting,
    id: u32,
)
    requires
        c.wf(),
        ids(c.all_campaigns).contains(id),
        !listed_anywhere(c.device_to_campaigns@, id),
    ensures
        c.eligible(t, id) <==> c.eligible(without_device(t), id),
{
}

/// A campaign of the catalog that has no format-targeting rows is a candidate for
/// any ad format exactly where it is one without the format constraint.
pub proof fn law_format_unrestricted_serves_anywhere(
    c: CampaignCatalog,
    t: Targeting,
    id: u32,
)
    requires
        c.wf(),
        ids(c.all_campaigns).contains(id),
        !listed_anywhere(c.format_to_campaigns@, id),
    ensures
        c.eligible(t, id) <==> c.eligible(without_format(t), id),
{
}

/// A campaign that has device-targeting rows is a candidate on a device type only
/// if one of its rows names that type.
pub proof fn law_device_rows_restrict(
    c: CampaignCatalog,
    t: Targeting,
    device: DeviceTargetType,
    id: u32,
)
    requires
        c.wf(),
        listed_anywhere(c.device_to_campaigns@, id),
        t.device == Some(device),
        c.eligible(t, id),
    ensures
        listed(c.device_to_campaigns@, device.index(), id),
{
}

/// Where every index lists only campaigns of the catalog, so do the candidates of
/// every request.
pub proof fn law_candidates_within_catalog(
    c: CampaignCatalog,
    t: Targeting,
    id: u32,
)
    requires
        c.wf(),
        c.indices_within(),
        c.eligible(t, id),
    ensures
        ids(c.all_campaigns).contains(id),
{
    if t.by_geo() {
        let i = choose|i: int|
            0 <= i < t.geo->0.len() && #[trigger] c.geo_to_campaigns.targets(
                t.geo->0[i].0,
                t.geo->0[i].1,
                id,
            );
        assert(c.geo_to_campaigns.targets(
            t.geo->0[i].0,
            t.geo->0[i].1,
            id,
        ));
    }
}

/// Where every index lists only campaigns of the catalog, a constraint never adds
/// a candidate: what a request retrieves, the request without any one of its
/// constraints retrieves too.
pub proof fn law_constraints_only_narrow(
    c: CampaignCatalog,
    t: Targeting,
    id: u32,
)
    requires
        c.wf(),
        c.indices_within(),
        c.eligible(t, id),
    ensures
        c.eligible(without_segments(t), id),
        c.eligible(without_geo(t), id),
        c.eligible(without_device(t), id),
        c.eligible(without_format(t), id),
{
    law_candidates_within_catalog(c, t, id);
}

/// A candidate targets the user: where the user has segments, every candidate is
/// listed in the segment index under one of them.
pub proof fn law_candidates_target_a_segment(c: CampaignCatalog, t: Targeting, id: u32)
    requires
        c.eligible(t, id),
        t.segments.len() > 0,
    ensures
        exists|i: int|
            0 <= i < t.segments.len() && c.segment_to_campaigns@.contains_key(
                #[trigger] t.segments[i],
            ) && ids(c.segment_to_campaigns@[t.segments[i]]).contains(id),
{
    let i = choose|i: int|
        0 <= i < t.segments.len() && #[trigger] listed(
            c.segment_to_campaigns@,
            t.segments[i],
            id,
        );
    assert(c.segment_to_campaigns@.contains_key(t.segments[i]));
}

/// Segments are alternatives: for a request with the segments of two users, the
/// candidates are those of the one and those of the other.
pub proof fn law_segments_are_alternatives(
    c: CampaignCatalog,
    t: Targeting,
    left: Seq<SegmentId>,
    right: Seq<SegmentId>,
    id: u32,
)
    requires
        left.len() > 0,
        right.len() > 0,
    ensures
        c.eligible(Targeting { segments: left + right, ..t }, id) <==> c.eligible(
            Targeting { segments: left, ..t },
            id,
        ) || c.eligible(Targeting { segments: right, ..t }, id),
{
    let both = left + right;
    if c.segment_match(both, id) {
        let i = choose|i: int|
            0 <= i < both.len() && #[trigger] listed(c.segment_to_campaigns@, both[i], id);
        if i < left.len() {
            assert(listed(c.segment_to_campaigns@, left[i], id));
        } else {
            assert(listed(c.segment_to_campaigns@, right[i - left.len()], id));
        }
    }
    if c.segment_match(left, id) {
        let i = choose|i: int|
            0 <= i < left.len() && #[trigger] listed(c.segment_to_campaigns@, left[i], id);
        assert(listed(c.segment_to_campaigns@, both[i], id));
    }
    if c.segment_match(right, id) {
        let i = choose|i: int|
            0 <= i < right.len() && #[trigger] listed(c.segment_to_campaigns@, right[i], id);
        assert(listed(c.segment_to_campaigns@, both[left.len() + i], id));
    }
}

/// Geo keys are alternatives in the same way.
pub proof fn law_geo_keys_are_alternatives(
    c: CampaignCatalog,
    t: Targeting,
    left: Seq<(GeoKind, Seq<char>)>,
    right: Seq<(GeoKind, Seq<char>)>,
    id: u32,
)
    requires
        left.len() > 0,
        right.len() > 0,
    ensures
        c.eligible(Targeting { geo: Some(left + right), ..t }, id) <==> c.eligible(
            Targeting { geo: Some(left), ..t },
            id,
        ) || c.eligible(Targeting { geo: Some(right), ..t }, id),
{
    let both = left + right;
    let index = c.geo_to_campaigns;
    if c.geo_match(both, id) {
        let i = choose|i: int|
            0 <= i < both.len() && #[trigger] index.targets(both[i].0, both[i].1, id);
        if i < left.len() {
            assert(index.targets(left[i].0, left[i].1, id));
        } else {
            let k = i - left.len();
            assert(index.targets(right[k].0, right[k].1, id));
        }
    }
    if c.geo_match(left, id) {
        let i = choose|i: int|
            0 <= i < left.len() && #[trigger] index.targets(left[i].0, left[i].1, id);
        assert(index.targets(both[i].0, both[i].1, id));
    }
    if c.geo_match(right, id) {
        let i = choose|i: int|
            0 <= i < right.len() && #[trigger] index.targets(right[i].0, right[i].1, id);
        let k = left.len() + i;
        assert(index.targets(both[k].0, both[k].1, id));
    }
}

/// A candidate targets the geo: where the request has one geo key, every candidate is
/// listed under it in the table of its kind.
pub proof fn law_candidates_target_the_geo(
    c: CampaignCatalog,
    t: Targeting,
    kind: GeoKind,
    code: Seq<char>,
    id: u32,
)
    requires
        c.eligible(t, id),
        t.geo == Some(seq![(kind, code)]),
    ensures
        kind == GeoKind::Country ==> c.geo_to_campaigns.country@.contains_key(code) && ids(
            c.geo_to_campaigns.country@[code],
        ).contains(id),
        kind == GeoKind::Metro ==> c.geo_to_campaigns.metro@.contains_key(code) && ids(
            c.geo_to_campaigns.metro@[code],
        ).contains(id),
{
    let keys = t.geo->0;
    let i = choose|i: int|
        0 <= i < keys.len() && #[trigger] c.geo_to_campaigns.targets(keys[i].0, keys[i].1, id);
    assert(keys[i] == (kind, code));
}

/// A candidate serves the device and the format: where the request names one, every
/// candidate is unrestricted or listed under its number.
pub proof fn law_candidates_serve_device_and_format(c: CampaignCatalog, t: Targeting, id: u32)
    requires
        c.eligible(t, id),
    ensures
        t.device is Some ==> ids(c.device_unrestricted).contains(id) || (
        c.device_to_campaigns@.contains_key(t.device->0.index()) && ids(
            c.device_to_campaigns@[t.device->0.index()],
        ).contains(id)),
        t.format is Some ==> ids(c.format_unrestricted).contains(id) || (
        c.format_to_campaigns@.contains_key(t.format->0.index()) && ids(
            c.format_to_campaigns@[t.format->0.index()],
        ).contains(id)),
{
}

/// Dayparts: while any campaign is active in the current hour of the week, every
/// candidate is.
pub proof fn law_candidates_are_in_their_daypart(
    c: CampaignCatalog,
    t: Targeting,
    id: u32,
    active: u32,
)
    requires
        c.eligible(t, id),
        ids(c.daypart_active_now).contains(active),
    ensures
        ids(c.daypart_active_now).contains(id),
{
}

/// Nothing more is asked of a candidate: in a catalog with campaigns, a campaign that
/// is listed under a segment of the user, under a geo key of the request, under the
/// device type and under the format, as far as the request has them, and that is
/// active now, is a candidate.
pub proof fn law_meeting_every_constraint_suffices(
    c: CampaignCatalog,
    t: Targeting,
    id: u32,
    any: u32,
    segment: int,
    key: int,
)
    requires
        ids(c.all_campaigns).contains(any),
        ids(c.all_campaigns).contains(id),
        t.segments.len() > 0 ==> 0 <= segment < t.segments.len()
            && c.segment_to_campaigns@.contains_key(t.segments[segment]) && ids(
            c.segment_to_campaigns@[t.segments[segment]],
        ).contains(id),
        t.geo is Some && t.geo->0.len() > 0 ==> 0 <= key < t.geo->0.len()
            && c.geo_to_campaigns.targets(t.geo->0[key].0, t.geo->0[key].1, id),
        t.device is Some ==> ids(c.device_unrestricted).contains(id) || (
        c.device_to_campaigns@.contains_key(t.device->0.index()) && ids(
            c.device_to_campaigns@[t.device->0.index()],
        ).contains(id)),
        t.format is Some ==> ids(c.format_unrestricted).contains(id) || (
        c.format_to_campaigns@.contains_key(t.format->0.index()) && ids(
            c.format_to_campaigns@[t.format->0.index()],
        ).contains(id)),
        ids(c.daypart_active_now) == Set::<u32>::empty() || ids(c.daypart_active_now).contains(id),
    ensures
        c.eligible(t, id),
{
    if t.segments.len() > 0 {
        assert(listed(c.segment_to_campaigns@, t.segments[segment], id));
    }
}

/// Without any constraint the candidates are all campaigns of the catalog.
pub proof fn law_no_constraint_retrieves_all(c: CampaignCatalog, t: Targeting, id: u32)
    requires
        t.segments.len() == 0,
        t.geo is None || t.geo->0.len() == 0,
        t.device is None,
        t.format is None,
        ids(c.daypart_active_now) == Set::<u32>::empty(),
    ensures
        c.eligible(t, id) <==> ids(c.all_campaigns).contains(id),
{
}

/// An empty catalog has no candidates, whatever its indices say.
pub proof fn law_empty_catalog_retrieves_nothing(c: CampaignCatalog, t: Targeting, id: u32)
    requires
        ids(c.all_campaigns) == Set::<u32>::empty(),
    ensures
        !c.eligible(t, id),
{
}

/// A campaign is unrestricted in device exactly if it is in the catalog and no device
/// type lists it, and in the same way for formats.
pub proof fn law_unrestricted_means_unlisted(c: CampaignCatalog, id: u32, key: u8)
    requires
        c.wf(),
    ensures
        c.device_to_campaigns@.contains_key(key) && ids(c.device_to_campaigns@[key]).contains(id)
            ==> !ids(c.device_unrestricted).contains(id),
        c.format_to_campaigns@.contains_key(key) && ids(c.format_to_campaigns@[key]).contains(id)
            ==> !ids(c.format_unrestricted).contains(id),
        !ids(c.all_campaigns).contains(id) ==> !ids(c.device_unrestricted).contains(id) && !ids(
            c.format_unrestricted,
        ).contains(id),
        (forall|k: u8|
            c.device_to_campaigns@.contains_key(k) ==> !ids(
                #[trigger] c.device_to_campaigns@[k],
            ).contains(id)) && ids(c.all_campaigns).contains(id) ==> ids(
            c.device_unrestricted,
        ).contains(id),
        (forall|k: u8|
            c.format_to_campaigns@.contains_key(k) ==> !ids(
                #[trigger] c.format_to_campaigns@[k],
            ).contains(id)) && ids(c.all_campaigns).contains(id) ==> ids(
            c.format_unrestricted,
        ).contains(id),
{
    if c.device_to_campaigns@.contains_key(key) && ids(c.device_to_campaigns@[key]).contains(id) {
        assert(listed(c.device_to_campaigns@, key, id));
    }
    if c.format_to_campaigns@.contains_key(key) && ids(c.format_to_campaigns@[key]).contains(id) {
        assert(listed(c.format_to_campaigns@, key, id));
    }
}

/// The creatives of a campaign are its entry, and none without one.
pub proof fn law_creatives_are_the_entry(c: CampaignCatalog, id: CampaignId)
    ensures
        c.creatives@.contains_key(id) ==> c.creatives_of(id) == c.creatives@[id]@,
        !c.creatives@.contains_key(id) ==> c.creatives_of(id).len() == 0,
{
}

/// A geo key stands for its kind and its code.
pub proof fn law_geo_pairs_are_the_keys(keys: Seq<GeoKey>, i: int)
    requires
        0 <= i < keys.len(),
    ensures
        geo_pairs(keys).len() == keys.len(),
        geo_pairs(keys)[i] == (keys[i].kind, keys[i].code@),
{
}

/// A request constrains candidates by its own segments, geo keys, device type and
/// format, and by nothing else.
pub proof fn law_requests_constrain_as_they_say(req: CandidateRequest<'_>)
    ensures
        req@.segments == req.segment_ids@,
        req@.device == req.device_type,
        req@.format == req.ad_format,
        req.geo_keys is None <==> req@.geo is None,
        req.geo_keys is Some ==> req@.geo->0.len() == req.geo_keys->0@.len() && forall|i: int|
            0 <= i < req@.geo->0.len() ==> (#[trigger] req@.geo->0[i]).0
                == req.geo_keys->0@[i].kind && req@.geo->0[i].1 == req.geo_keys->0@[i].code@,
{
}

} // verus!
