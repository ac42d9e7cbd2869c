//! Finds the candidates of each impression.
use crate::catalog::bitmap::{bitmap_to_vec, ids};
use crate::catalog::campaign_catalog::{
    geo_pairs, CampaignCatalog, CandidateRequest, Targeting,
};
use crate::catalog::types::{CampaignId, Creative, DeviceTargetType, GeoKey, GeoKind, SegmentId};
use crate::model::candidate::AdCandidate;
use crate::model::context::{lists, BidContext};
use crate::model::openrtb::{dominant_format, AdFormat, BidRequest, Device, Geo, Imp};
use crate::score::Score;
use vstd::prelude::*;

verus! {

/// Runs bitmap intersection for each impression and populates `ctx.candidates`.
///
/// For each imp, derives targeting dimensions from the request (geo, device,
/// ad format) and asks the catalog for candidates. The resulting campaign IDs
/// are expanded into `AdCandidate` entries using the catalog's campaign map.
///
/// Candidates have bid_price_cents set to campaign.bid_floor_cents. Score starts
/// at zero until scoring.
pub struct CandidateRetrievalStage;

/// The geo keys of a request: country and metro of `device.geo`, as far as given.
pub open spec fn request_geo(request: BidRequest) -> Option<Seq<(GeoKind, Seq<char>)>> {
    match request.device {
        Some(device) => match device.geo {
            Some(geo) => {
                let country = match geo.country {
                    Some(code) => seq![(GeoKind::Country, code@)],
                    None => Seq::empty(),
                };
                let metro = match geo.metro {
                    Some(code) => seq![(GeoKind::Metro, code@)],
                    None => Seq::empty(),
                };
                Some(country + metro)
            },
            None => None,
        },
        None => None,
    }
}

/// The targeting device type of a request, if it names a device type.
pub open spec fn request_device(request: BidRequest) -> Option<DeviceTargetType> {
    match request.device {
        Some(device) => match device.devicetype {
            Some(dt) => Some(DeviceTargetType::of_openrtb(dt.0)),
            None => None,
        },
        None => None,
    }
}

/// The constraints under which candidates for an impression are retrieved.
pub open spec fn imp_targeting(
    request: BidRequest,
    segments: Seq<SegmentId>,
    imp: Imp,
) -> Targeting {
    Targeting {
        segments,
        geo: request_geo(request),
        device: request_device(request),
        format: dominant_format(imp),
    }
}

/// Whether a creative can serve an impression of the given format. An impression
/// without a recognized format takes any creative.
pub open spec fn fits(creative: Creative, format: Option<AdFormat>) -> bool {
    format is None || format == Some(creative.ad_format)
}

/// The first creative that fits.
pub open spec fn first_fit(creatives: Seq<Creative>, format: Option<AdFormat>) -> Option<Creative>
    decreases creatives.len(),
{
    if creatives.len() == 0 {
        None
    } else if fits(creatives[0], format) {
        Some(creatives[0])
    } else {
        first_fit(creatives.drop_first(), format)
    }
}

/// Whether a campaign can be offered: it is eligible, has a record and has a
/// creative that fits.
pub open spec fn servable(catalog: CampaignCatalog, t: Targeting, id: CampaignId) -> bool {
    &&& catalog.eligible(t, id)
    &&& catalog.campaigns@.contains_key(id)
    &&& first_fit(catalog.creatives_of(id), t.format) is Some
}

/// The candidate that a servable campaign gives.
pub open spec fn candidate_of(
    catalog: CampaignCatalog,
    t: Targeting,
    id: CampaignId,
) -> AdCandidate {
    let campaign = catalog.campaigns@[id];
    AdCandidate {
        campaign_id: id,
        creative_id: first_fit(catalog.creatives_of(id), t.format)->0.id,
        bid_price_cents: campaign.bid_floor_cents,
        score: Score { bits: 0 },
        daily_cap_imps: campaign.daily_cap_imps,
        hourly_cap_imps: campaign.hourly_cap_imps,
    }
}

/// Whether a list is the retrieval of the given constraints: the candidates of all
/// servable campaigns, by ascending campaign id.
pub open spec fn is_retrieval(
    out: Seq<AdCandidate>,
    catalog: CampaignCatalog,
    t: Targeting,
) -> bool {
    &&& forall|i: int, j: int|
        0 <= i < j < out.len() ==> (#[trigger] out[i]).campaign_id < (
        #[trigger] out[j]).campaign_id
    &&& forall|i: int|
        0 <= i < out.len() ==> servable(catalog, t, (#[trigger] out[i]).campaign_id) && out[i]
            == candidate_of(catalog, t, out[i].campaign_id)
    &&& forall|id: CampaignId| #[trigger]
        servable(catalog, t, id) ==> exists|i: int|
            0 <= i < out.len() && (#[trigger] out[i]).campaign_id == id
}

/// Whether candidate lists are the retrievals of all impressions.
pub open spec fn all_retrieved(
    out: Seq<Seq<AdCandidate>>,
    catalog: CampaignCatalog,
    request: BidRequest,
    segments: Seq<SegmentId>,
) -> bool {
    forall|i: int|
        0 <= i < request.imp@.len() ==> is_retrieval(
            #[trigger] out[i],
            catalog,
            imp_targeting(request, segments, request.imp@[i]),
        )
}

fn find_creative(creatives: &[Creative], format: Option<AdFormat>) -> (found: Option<&Creative>)
    ensures
        match found {
            Some(c) => first_fit(creatives@, format) == Some(*c),
            None => first_fit(creatives@, format) is None,
        },
{
    let n: usize = creatives.len();
    let mut i: usize = 0;
    assert(creatives@.skip(0) =~= creatives@);
    while i < n
        invariant
            i <= n == creatives@.len(),
            first_fit(creatives@, format) == first_fit(creatives@.skip(i as int), format),
        decreases n - i,
    {
        let creative = &creatives[i];
        let fit = match format {
            Some(fmt) => creative.ad_format == fmt,
            None => true,
        };
        if fit {
            return Some(creative);
        }
        assert(creatives@.skip(i as int).drop_first() =~= creatives@.skip(i + 1));
        i += 1;
    }
    None
}

/// The candidates of one impression.
pub fn retrieve(
    catalog: &CampaignCatalog,
    req: &CandidateRequest<'_>,
) -> (out: Vec<AdCandidate>)
    ensures
        is_retrieval(out@, *catalog, req@),
{
    let bitmap = catalog.candidates_for(req);
    let found = bitmap_to_vec(&bitmap);
    let mut out: Vec<AdCandidate> = Vec::new();
    let n: usize = found.len();
    assert forall|m: int| 0 <= m < n implies catalog.eligible(req@, #[trigger] found@[m]) by {
        assert(found@.contains(found@[m]));
        assert(ids(bitmap).contains(found@[m]));
    }
    for k in 0..n
        invariant
            n == found@.len(),
            forall|i: int, j: int| 0 <= i < j < found@.len() ==> found@[i] < found@[j],
            forall|m: int| 0 <= m < n ==> catalog.eligible(req@, #[trigger] found@[m]),
            forall|i: int, j: int|
                0 <= i < j < out@.len() ==> (#[trigger] out@[i]).campaign_id < (
                #[trigger] out@[j]).campaign_id,
            forall|i: int|
                0 <= i < out@.len() ==> servable(*catalog, req@, (#[trigger] out@[i]).campaign_id)
                    && out@[i] == candidate_of(*catalog, req@, out@[i].campaign_id),
            forall|i: int, m: int|
                0 <= i < out@.len() && k <= m < n ==> (#[trigger] out@[i]).campaign_id
                    < #[trigger] found@[m],
            forall|m: int|
                0 <= m < k && servable(*catalog, req@, #[trigger] found@[m]) ==> exists|i: int|
                    0 <= i < out@.len() && (#[trigger] out@[i]).campaign_id == found@[m],
    {
        let cid: u32 = found[k];
        let ghost before = out@;
        if let Some(campaign) = catalog.campaign(cid) {
            if let Some(creative) = find_creative(catalog.creatives_for(cid), req.ad_format) {
                out.push(
                    AdCandidate {
                        campaign_id: cid,
                        creative_id: creative.id,
                        bid_price_cents: campaign.bid_floor_cents,
                        score: Score::zero(),
                        daily_cap_imps: campaign.daily_cap_imps,
                        hourly_cap_imps: campaign.hourly_cap_imps,
                    },
                );
                assert(out@[before.len() as int].campaign_id == cid);
            }
        }
        assert forall|m: int|
            0 <= m < k + 1 && servable(*catalog, req@, #[trigger] found@[m]) implies exists|i: int|
            0 <= i < out@.len() && (#[trigger] out@[i]).campaign_id == found@[m] by {
            if m < k {
                let i = choose|i: int|
                    0 <= i < before.len() && (#[trigger] before[i]).campaign_id == found@[m];
                assert(out@[i] == before[i]);
            }
        }
    }
    assert forall|id: CampaignId| #[trigger] servable(*catalog, req@, id) implies exists|i: int|
        0 <= i < out@.len() && (#[trigger] out@[i]).campaign_id == id by {
        assert(ids(bitmap).contains(id));
        let m = choose|m: int| 0 <= m < found@.len() && found@[m] == id;
        assert(servable(*catalog, req@, found@[m]));
    }
    out
}

fn geo_keys(request: &BidRequest) -> (keys: Option<Vec<GeoKey>>)
    ensures
        match keys {
            Some(k) => request_geo(*request) == Some(geo_pairs(k@)),
            None => request_geo(*request) is None,
        },
{
    let device = match &request.device {
        Some(device) => device,
        None => {
            return None;
        },
    };
    let geo = match &device.geo {
        Some(geo) => geo,
        None => {
            return None;
        },
    };
    let mut keys: Vec<GeoKey> = Vec::new();
    if let Some(country) = &geo.country {
        keys.push(GeoKey { kind: GeoKind::Country, code: country.clone() });
    }
    if let Some(metro) = &geo.metro {
        keys.push(GeoKey { kind: GeoKind::Metro, code: metro.clone() });
    }
    assert(geo_pairs(keys@) =~= request_geo(*request)->0);
    Some(keys)
}

/// The targeting device type of a request, if it names a device type.
pub fn device_target(request: &BidRequest) -> (d: Option<DeviceTargetType>)
    ensures
        d == request_device(*request),
{
    match &request.device {
        Some(device) => match device.devicetype {
            Some(dt) => Some(DeviceTargetType::from_openrtb(dt.0)),
            None => None,
        },
        None => None,
    }
}

impl CandidateRetrievalStage {
    /// The stage's name.
    pub fn name(&self) -> (name: &'static str)
        ensures
            name@ == "candidate_retrieval"@,
    {
        "candidate_retrieval"
    }

    /// Populates the candidate list of every impression from the catalog snapshot.
    /// Without a snapshot, or with an empty one, nothing changes.
    pub fn execute(&self, ctx: &mut BidContext)
        ensures
            final(ctx).same_but_candidates(*old(ctx)),
            if old(ctx).catalog is None || old(ctx).catalog->0.campaigns@.len() == 0 {
                final(ctx).candidates == old(ctx).candidates
            } else {
                let n = old(ctx).request.imp@.len();
                &&& n > 0 ==> final(ctx).candidates@.len() == n
                &&& all_retrieved(
                    lists(final(ctx).candidates@),
                    *old(ctx).catalog->0,
                    old(ctx).request,
                    old(ctx).segment_ids@,
                )
                &&& n == 0 ==> lists(final(ctx).candidates@) == seq![
                    if old(ctx).candidates@.len() > 0 {
                        old(ctx).candidates@[0]@
                    } else {
                        Seq::empty()
                    },
                ]
            },
    {
        let catalog = match &ctx.catalog {
            Some(c) => c.clone(),
            None => {
                return ;
            },
        };
        if catalog.is_empty() {
            return ;
        }
        let keys = geo_keys(&ctx.request);
        let device_type = device_target(&ctx.request);
        let n: usize = ctx.request.imp.len();

        // One list per impression, and one list where there is none.
        let wanted: usize = if n == 0 {
            1
        } else {
            n
        };
        ctx.candidates.truncate(wanted);
        while ctx.candidates.len() < wanted
            invariant
                wanted == (if n == 0 {
                    1
                } else {
                    n as int
                }),
                ctx.candidates@.len() <= wanted,
                ctx.same_but_candidates(*old(ctx)),
                n == 0 && old(ctx).candidates@.len() > 0 ==> ctx.candidates@.len() == 1
                    && ctx.candidates@[0] == old(ctx).candidates@[0],
                n == 0 && old(ctx).candidates@.len() == 0 && ctx.candidates@.len() > 0
                    ==> ctx.candidates@[0]@ == Seq::<AdCandidate>::empty(),
            decreases wanted - ctx.candidates@.len(),
        {
            ctx.candidates.push(Vec::new());
        }
        let ghost sized = ctx.candidates@;
        for i in 0..n
            invariant
                n == ctx.request.imp@.len(),
                i == 0 ==> ctx.candidates@ == sized,
                ctx.same_but_candidates(*old(ctx)),
                ctx.catalog == Some(catalog),
                ctx.candidates@.len() == wanted,
                n > 0 ==> wanted == n,
                match keys {
                    Some(k) => request_geo(ctx.request) == Some(geo_pairs(k@)),
                    None => request_geo(ctx.request) is None,
                },
                device_type == request_device(ctx.request),
                forall|j: int|
                    0 <= j < i ==> is_retrieval(
                        (#[trigger] ctx.candidates@[j])@,
                        *catalog,
                        imp_targeting(ctx.request, ctx.segment_ids@, ctx.request.imp@[j]),
                    ),
        {
            let req = CandidateRequest {
                segment_ids: ctx.segment_ids.as_slice(),
                geo_keys: match &keys {
                    Some(k) => Some(k.as_slice()),
                    None => None,
                },
                device_type,
                ad_format: AdFormat::from_imp(&ctx.request.imp[i]),
            };
            let found = retrieve(&catalog, &req);
            assert(req@ == imp_targeting(ctx.request, ctx.segment_ids@, ctx.request.imp@[i as int]));
            ctx.candidates.set(i, found);
        }
        assert(n == 0 ==> lists(ctx.candidates@) =~= seq![ctx.candidates@[0]@]);
    }
}

/// The creative of a candidate is one of its campaign's and serves the format of
/// the impression.
pub proof fn law_creative_serves_format(creatives: Seq<Creative>, format: Option<AdFormat>)
    ensures
        match first_fit(creatives, format) {
            Some(c) => creatives.contains(c) && fits(c, format),
            None => forall|i: int| 0 <= i < creatives.len() ==> !fits(#[trigger] creatives[i], format),
        },
    decreases creatives.len(),
{
    if creatives.len() > 0 && !fits(creatives[0], format) {
        let rest = creatives.drop_first();
        law_creative_serves_format(rest, format);
        match first_fit(rest, format) {
            Some(c) => {
                let i = choose|i: int| 0 <= i < rest.len() && rest[i] == c;
                assert(creatives[i + 1] == c);
            },
            None => {
                assert forall|i: int| 0 <= i < creatives.len() implies !fits(
                    #[trigger] creatives[i],
                    format,
                ) by {
                    if i > 0 {
                        assert(!fits(rest[i - 1], format));
                    }
                }
            },
        }
    } else if creatives.len() > 0 {
        assert(creatives.contains(creatives[0]));
    }
}

/// The retrieval of an impression is unique: the same catalog and the same
/// constraints give the same list.
pub proof fn law_retrieval_is_unique(
    a: Seq<AdCandidate>,
    b: Seq<AdCandidate>,
    catalog: CampaignCatalog,
    t: Targeting,
)
    requires
        is_retrieval(a, catalog, t),
        is_retrieval(b, catalog, t),
    ensures
        a == b,
{
    let ida = a.map_values(|c: AdCandidate| c.campaign_id);
    let idb = b.map_values(|c: AdCandidate| c.campaign_id);
    lemma_ids_are_servable(a, catalog, t);
    lemma_ids_are_servable(b, catalog, t);
    lemma_ascending_unique(ida, idb);
    assert forall|i: int| 0 <= i < a.len() implies a[i] == b[i] by {
        assert(ida[i] == idb[i]);
    }
    assert(a.len() == ida.len() && b.len() == idb.len());
    assert(a =~= b);
}

/// The campaigns of a retrieval are the servable ones.
proof fn lemma_ids_are_servable(a: Seq<AdCandidate>, catalog: CampaignCatalog, t: Targeting)
    requires
        is_retrieval(a, catalog, t),
    ensures
        ({
            let ids = a.map_values(|c: AdCandidate| c.campaign_id);
            &&& forall|id: CampaignId| #[trigger] ids.contains(id) <==> servable(catalog, t, id)
            &&& forall|i: int, j: int| 0 <= i < j < ids.len() ==> ids[i] < ids[j]
        }),
{
    let ids = a.map_values(|c: AdCandidate| c.campaign_id);
    assert forall|id: CampaignId| #[trigger] ids.contains(id) <==> servable(catalog, t, id) by {
        if ids.contains(id) {
            let i = choose|i: int| 0 <= i < ids.len() && ids[i] == id;
            assert(a[i].campaign_id == id);
        }
        if servable(catalog, t, id) {
            let i = choose|i: int| 0 <= i < a.len() && (#[trigger] a[i]).campaign_id == id;
            assert(ids[i] == id);
        }
    }
    assert forall|i: int, j: int| 0 <= i < j < ids.len() implies ids[i] < ids[j] by {
        assert(a[i].campaign_id < a[j].campaign_id);
    }
}

/// Two strictly ascending sequences with the same elements are the same.
proof fn lemma_ascending_unique(a: Seq<u32>, b: Seq<u32>)
    requires
        forall|i: int, j: int| 0 <= i < j < a.len() ==> a[i] < a[j],
        forall|i: int, j: int| 0 <= i < j < b.len() ==> b[i] < b[j],
        forall|x: u32| a.contains(x) <==> b.contains(x),
    ensures
        a == b,
    decreases a.len(),
{
    if a.len() == 0 {
        if b.len() > 0 {
            assert(b.contains(b[0]));
        }
        assert(a =~= b);
    } else {
        assert(a.contains(a.last()));
        let j = choose|j: int| 0 <= j < b.len() && b[j] == a.last();
        assert(b.contains(b.last()));
        let i = choose|i: int| 0 <= i < a.len() && a[i] == b.last();
        assert(a.last() == b.last());
        let (init_a, init_b) = (a.drop_last(), b.drop_last());
        assert forall|x: u32| init_a.contains(x) <==> init_b.contains(x) by {
            lemma_init_contains(a, x);
            lemma_init_contains(b, x);
        }
        lemma_ascending_unique(init_a, init_b);
        assert(a =~= init_a.push(a.last()));
        assert(b =~= init_b.push(b.last()));
    }
}

proof fn lemma_init_contains(s: Seq<u32>, x: u32)
    requires
        s.len() > 0,
        forall|i: int, j: int| 0 <= i < j < s.len() ==> s[i] < s[j],
    ensures
        s.drop_last().contains(x) <==> s.contains(x) && x != s.last(),
{
    if s.drop_last().contains(x) {
        let i = choose|i: int| 0 <= i < s.drop_last().len() && s.drop_last()[i] == x;
        assert(s[i] == x);
    }
    if s.contains(x) && x != s.last() {
        let i = choose|i: int| 0 <= i < s.len() && s[i] == x;
        assert(s.drop_last()[i] == x);
    }
}

/// The geo constraint of an impression is the country and the metro of the
/// request's device: a campaign meets it exactly if the country table lists it under
/// the country or the metro table lists it under the metro, and there is a
/// constraint exactly if either is given.
pub proof fn law_geo_is_country_or_metro(
    catalog: CampaignCatalog,
    request: BidRequest,
    segments: Seq<SegmentId>,
    imp: Imp,
    device: Device,
    geo: Geo,
    id: CampaignId,
)
    requires
        request.device == Some(device),
        device.geo == Some(geo),
    ensures
        ({
            let t = imp_targeting(request, segments, imp);
            let index = catalog.geo_to_campaigns;
            let by_country = geo.country is Some && index.targets(
                GeoKind::Country,
                geo.country->0@,
                id,
            );
            let by_metro = geo.metro is Some && index.targets(GeoKind::Metro, geo.metro->0@, id);
            let given = geo.country is Some || geo.metro is Some;
            &&& t.by_geo() <==> given
            &&& given ==> (catalog.geo_match(t.geo->0, id) <==> by_country || by_metro)
            &&& given && catalog.eligible(t, id) ==> by_country || by_metro
            &&& by_country <==> geo.country is Some && index.country@.contains_key(
                geo.country->0@,
            ) && ids(index.country@[geo.country->0@]).contains(id)
            &&& by_metro <==> geo.metro is Some && index.metro@.contains_key(geo.metro->0@) && ids(
                index.metro@[geo.metro->0@],
            ).contains(id)
        }),
{
    let t = imp_targeting(request, segments, imp);
    let index = catalog.geo_to_campaigns;
    let keys = t.geo->0;
    if geo.country is Some {
        assert(keys[0] == (GeoKind::Country, geo.country->0@));
    }
    if geo.metro is Some {
        assert(keys.last() == (GeoKind::Metro, geo.metro->0@));
    }
    if geo.country is Some && index.targets(GeoKind::Country, geo.country->0@, id) {
        assert(index.targets(keys[0].0, keys[0].1, id));
    }
    if geo.metro is Some && index.targets(GeoKind::Metro, geo.metro->0@, id) {
        let last = keys.len() - 1;
        assert(index.targets(keys[last].0, keys[last].1, id));
    }
}

/// A request whose device tells no geo puts no geo constraint on its impressions.
pub proof fn law_no_geo_no_constraint(request: BidRequest, segments: Seq<SegmentId>, imp: Imp)
    requires
        request.device is None || request.device->0.geo is None,
    ensures
        !imp_targeting(request, segments, imp).by_geo(),
{
}

/// The other constraints of an impression: the user's segments as they are, the
/// device type that the request names, and the format that the impression offers
/// first.
pub proof fn law_impression_constraints(request: BidRequest, segments: Seq<SegmentId>, imp: Imp)
    ensures
        ({
            let t = imp_targeting(request, segments, imp);
            &&& t.segments == segments
            &&& t.device is Some <==> request.device is Some
                && request.device->0.devicetype is Some
            &&& t.device is Some ==> t.device->0 == DeviceTargetType::of_openrtb(
                (request.device->0.devicetype->0).0,
            )
            &&& imp.banner is Some ==> t.format == Some(AdFormat::Banner)
            &&& imp.banner is None && imp.video is Some ==> t.format == Some(AdFormat::Video)
            &&& imp.banner is None && imp.video is None && imp.audio is Some ==> t.format == Some(
                AdFormat::Audio,
            )
            &&& imp.banner is None && imp.video is None && imp.audio is None && imp.native is Some
                ==> t.format == Some(AdFormat::Native)
            &&& imp.banner is None && imp.video is None && imp.audio is None && imp.native is None
                ==> t.format is None
        }),
{
}

/// What a retrieved candidate carries: it is an eligible campaign with a record; its
/// price is the record's bid floor and its caps are the record's; its creative is the
/// first of the campaign's that serves the format; it is not scored yet.
pub proof fn law_candidates_carry_their_record(
    out: Seq<AdCandidate>,
    catalog: CampaignCatalog,
    t: Targeting,
    k: int,
)
    requires
        is_retrieval(out, catalog, t),
        0 <= k < out.len(),
    ensures
        catalog.eligible(t, out[k].campaign_id),
        catalog.campaigns@.contains_key(out[k].campaign_id),
        ({
            let record = catalog.campaigns@[out[k].campaign_id];
            &&& out[k].bid_price_cents == record.bid_floor_cents
            &&& out[k].daily_cap_imps == record.daily_cap_imps
            &&& out[k].hourly_cap_imps == record.hourly_cap_imps
            &&& out[k].score.bits == 0
        }),
        catalog.creatives@.contains_key(out[k].campaign_id),
        ({
            let list = catalog.creatives@[out[k].campaign_id]@;
            exists|i: int|
                0 <= i < list.len() && out[k].creative_id == (#[trigger] list[i]).id && (
                t.format is None || t.format == Some(list[i].ad_format)) && forall|j: int|
                    0 <= j < i ==> t.format is Some && t.format != Some(
                        (#[trigger] list[j]).ad_format,
                    )
        }),
{
    let id = out[k].campaign_id;
    let list = catalog.creatives_of(id);
    assert(servable(catalog, t, out[k].campaign_id));
    let i = lemma_first_fit_at(list, t.format);
    assert(catalog.creatives@[id]@[i] == list[i]);
}

proof fn lemma_first_fit_at(creatives: Seq<Creative>, format: Option<AdFormat>) -> (i: int)
    requires
        first_fit(creatives, format) is Some,
    ensures
        0 <= i < creatives.len(),
        first_fit(creatives, format) == Some(creatives[i]),
        format is None || format == Some(creatives[i].ad_format),
        forall|j: int|
            0 <= j < i ==> format is Some && format != Some((#[trigger] creatives[j]).ad_format),
    decreases creatives.len(),
{
    if fits(creatives[0], format) {
        0
    } else {
        let rest = creatives.drop_first();
        let i = lemma_first_fit_at(rest, format);
        assert forall|j: int| 0 <= j < i + 1 implies format is Some && format != Some(
            (#[trigger] creatives[j]).ad_format,
        ) by {
            if j > 0 {
                assert(rest[j - 1] == creatives[j]);
            }
        }
        i + 1
    }
}

/// No servable campaign is missed: an eligible campaign with a record and a creative
/// of the format, or any creative where the impression has no format, is retrieved.
pub proof fn law_servable_campaigns_are_retrieved(
    out: Seq<AdCandidate>,
    catalog: CampaignCatalog,
    t: Targeting,
    id: CampaignId,
    i: int,
)
    requires
        is_retrieval(out, catalog, t),
        catalog.eligible(t, id),
        catalog.campaigns@.contains_key(id),
        catalog.creatives@.contains_key(id),
        0 <= i < catalog.creatives@[id]@.len(),
        t.format is None || t.format == Some(catalog.creatives@[id]@[i].ad_format),
    ensures
        exists|k: int| 0 <= k < out.len() && (#[trigger] out[k]).campaign_id == id,
{
    let list = catalog.creatives_of(id);
    law_creative_serves_format(list, t.format);
    assert(fits(list[i], t.format));
    assert(servable(catalog, t, id));
}

/// Candidates come by ascending campaign id, so no campaign comes twice.
pub proof fn law_retrieval_ascends(
    out: Seq<AdCandidate>,
    catalog: CampaignCatalog,
    t: Targeting,
    i: int,
    j: int,
)
    requires
        is_retrieval(out, catalog, t),
        0 <= i < j < out.len(),
    ensures
        out[i].campaign_id < out[j].campaign_id,
{
}

} // verus!
