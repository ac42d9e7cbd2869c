use bidder_core::catalog::types::DeviceTargetType;
use bidder_core::model::candidate::AdCandidate;
use bidder_core::model::openrtb::AdFormat;
use bidder_core::ratio::Ratio;
use bidder_core::score::Score;
use bidder_core::scoring::ab_test::{fnv1a, ABTestScorer, Arm};
use bidder_core::scoring::cascade::{stage2_batch, write_back, CascadeScorer};
use bidder_core::scoring::features::{
    weighted_overlap_tenths, FeatureValue, ScoringFeatures, FEATURE_COUNT,
};
use bidder_core::scoring::ml::{
    batch_rows, check_output, finish_chunk, padded_rows, plan_chunks, should_reload, FileChange,
    MLConfigError, MLScorerConfig, OutputError, ParityCheck, ParityError, RoundRobin,
};
use bidder_core::scoring::ScoringContext;

fn score(v: f32) -> Score {
    Score::from_bits(v.to_bits())
}

fn ctx() -> ScoringContext<'static> {
    ScoringContext {
        segment_ids: &[],
        device_type: None,
        ad_format: None,
        hour_of_day: 12,
        is_weekend: false,
        user_id: "",
        is_top_market: false,
    }
}

fn candidate() -> AdCandidate {
    AdCandidate {
        campaign_id: 5,
        creative_id: 1,
        bid_price_cents: 500,
        score: score(0.0),
        daily_cap_imps: u32::MAX,
        hourly_cap_imps: u32::MAX,
    }
}

fn scored(id: u32, v: f32) -> AdCandidate {
    AdCandidate { campaign_id: id, score: score(v), ..candidate() }
}

fn value(v: &FeatureValue) -> f32 {
    match v {
        FeatureValue::Fraction { num, den } => *num as f32 / *den as f32,
        FeatureValue::Log1p(n) => (*n as f32 + 1.0).ln(),
    }
}

fn experiment(share: Ratio, seed: &str) -> ABTestScorer {
    ABTestScorer { treatment_share: share, hash_seed: seed.to_string() }
}

#[test]
fn empty_user_id_always_goes_to_control() {
    let scorer = experiment(Ratio::new(1, 1), "test");
    assert_eq!(scorer.pick_arm(""), Arm::Control);
}

#[test]
fn hashing_is_stable() {
    let scorer = experiment(Ratio::new(5, 10), "experiment-1");
    let a = scorer.pick_arm("user-42");
    let b = scorer.pick_arm("user-42");
    assert_eq!(a, b, "same user must always map to same arm");
}

#[test]
fn different_seeds_route_independently() {
    let s1 = experiment(Ratio::new(5, 10), "seed-A");
    let s2 = experiment(Ratio::new(5, 10), "seed-B");
    let mut differ = 0;
    for u in 0..1000 {
        let user = format!("u{}", u);
        if s1.pick_arm(&user) != s2.pick_arm(&user) {
            differ += 1;
        }
    }
    assert!(
        differ > 100,
        "different seeds should yield different assignments for >10% of users; got {}",
        differ
    );
}

#[test]
fn treatment_share_approximates_target() {
    let scorer = experiment(Ratio::new(10, 100), "rollout");
    let mut treatment = 0;
    let n = 10_000;
    for u in 0..n {
        if scorer.pick_arm(&format!("u{}", u)) == Arm::Treatment {
            treatment += 1;
        }
    }
    let actual = treatment as f32 / n as f32;
    assert!(
        (actual - 0.10).abs() < 0.02,
        "treatment_share=0.10 should yield ~10% assignments; got {}",
        actual
    );
}

#[test]
fn fnv1a_reference_values() {
    // FNV-1a of "|" and of "a|b".
    assert_eq!(fnv1a("", ""), 0xaf63f14c8602103b);
    assert_eq!(fnv1a("a", "b"), 0xe726b11905478f76);
}

#[test]
fn shares_at_the_ends() {
    let none = experiment(Ratio::new(0, 1), "x");
    let all = experiment(Ratio::new(1, 1), "x");
    for u in 0..100 {
        let user = format!("u{}", u);
        assert_eq!(none.pick_arm(&user), Arm::Control);
        assert_eq!(all.pick_arm(&user), Arm::Treatment);
    }
    assert_eq!(Arm::Control.label(), "control");
    assert_eq!(Arm::Treatment.label(), "treatment");
}

fn plus_one(batch: &mut Vec<AdCandidate>) {
    for c in batch.iter_mut() {
        c.score = score(f32::from_bits(c.score.bits) + 1.0);
    }
}

fn cascade(c: &CascadeScorer, candidates: &mut Vec<AdCandidate>) -> Vec<usize> {
    let advance = c.advance(candidates);
    let mut batch = stage2_batch(candidates, &advance);
    plus_one(&mut batch);
    write_back(candidates, &advance, &batch);
    advance
}

#[test]
fn top_k_limits_stage2() {
    let c = CascadeScorer { top_k: 2, threshold: score(0.0) };
    let mut candidates =
        vec![scored(1, 0.34), scored(2, 0.5), scored(3, 0.7), scored(4, 0.32)];
    cascade(&c, &mut candidates);
    let advanced =
        candidates.iter().filter(|c| f32::from_bits(c.score.bits) > 1.0).count();
    assert_eq!(advanced, 2, "exactly top_k=2 candidates should advance");
    assert_eq!(f32::from_bits(candidates[2].score.bits), 1.7);
    assert_eq!(f32::from_bits(candidates[0].score.bits), 0.34);
}

#[test]
fn threshold_filters_below() {
    let c = CascadeScorer { top_k: 0, threshold: score(100.0) };
    let mut candidates = vec![scored(1, 0.34), scored(2, 0.5)];
    cascade(&c, &mut candidates);
    for c in &candidates {
        assert!(
            f32::from_bits(c.score.bits) <= 1.0,
            "no candidate should advance when threshold is unreachable"
        );
    }
}

#[test]
fn advancing_candidates_in_order() {
    let list = vec![
        scored(0, 0.5),
        scored(1, 0.9),
        scored(2, -0.5),
        scored(3, 0.5),
        scored(4, f32::NAN),
    ];
    let all = CascadeScorer { top_k: 0, threshold: score(0.0) };
    assert_eq!(all.advance(&list), vec![1, 0, 3, 2, 4]);
    let half = CascadeScorer { top_k: 0, threshold: score(0.5) };
    assert_eq!(half.advance(&list), vec![1, 0, 3]);
    let two = CascadeScorer { top_k: 2, threshold: score(0.5) };
    assert_eq!(two.advance(&list), vec![1, 0]);
    assert!(two.advance(&Vec::new()).is_empty());
}

#[test]
fn pack_layout_matches_feature_count() {
    let f = ScoringFeatures::extract(&candidate(), &ctx());
    let mut row = [FeatureValue::Fraction { num: 0, den: 1 }; FEATURE_COUNT];
    f.pack_into(&mut row);
    assert_eq!(row.len(), FEATURE_COUNT);
    // bid_price_norm = 500 / 1000 = 0.5
    assert!((value(&row[0]) - 0.5).abs() < 1e-6);
}

#[test]
fn is_weekend_propagates_into_feature_vector() {
    let mut c = ctx();
    c.is_weekend = true;
    let f = ScoringFeatures::extract(&candidate(), &c);
    assert_eq!(f.is_weekend, true);
    c.is_weekend = false;
    let f = ScoringFeatures::extract(&candidate(), &c);
    assert_eq!(f.is_weekend, false);
}

#[test]
fn device_one_hot_exclusive() {
    let mut c = ctx();
    c.device_type = Some(DeviceTargetType::Mobile);
    let f = ScoringFeatures::extract(&candidate(), &c);
    assert_eq!(f.device_desktop, false);
    assert_eq!(f.device_mobile, true);
    assert_eq!(f.device_tablet, false);
    assert_eq!(f.device_ctv, false);
}

#[test]
fn feature_values() {
    let c = ScoringContext {
        segment_ids: &[1, 2, 3],
        device_type: Some(DeviceTargetType::Ctv),
        ad_format: Some(AdFormat::Video),
        hour_of_day: 99,
        is_weekend: true,
        user_id: "u",
        is_top_market: true,
    };
    let mut cand = candidate();
    cand.bid_price_cents = 5000;
    let mut row = [FeatureValue::Fraction { num: 0, den: 1 }; FEATURE_COUNT];
    ScoringFeatures::extract(&cand, &c).pack_into(&mut row);
    let got: Vec<f32> = row.iter().map(value).collect();
    let ln4 = 4.0f32.ln();
    assert_eq!(
        got,
        vec![1.0, 0.5, ln4, 0.0, 0.0, 0.0, 1.0, 1.0, 1.0, 1.0, 0.0, 1.0, 0.0]
    );
    cand.bid_price_cents = -3;
    assert_eq!(ScoringFeatures::extract(&cand, &c).bid_price_cents, 0);
    assert_eq!(ScoringFeatures::extract(&cand, &ctx()).segment_overlap_tenths, 0);
    assert_eq!(weighted_overlap_tenths(17, 2), 7);
    assert_eq!(weighted_overlap_tenths(17, 0), 5);
}

fn ml_config(pool_size: usize, max_batch: usize, batch_pad_to: usize) -> MLScorerConfig {
    MLScorerConfig {
        model_path: "/dev/null".to_string(),
        parity_path: None,
        input_tensor_name: "features".to_string(),
        output_tensor_name: "pctr".to_string(),
        pool_size,
        max_batch,
        batch_pad_to,
    }
}

#[test]
fn rejects_zero_pool_size() {
    assert!(ml_config(0, 8, 8).validate().is_err());
    assert_eq!(ml_config(0, 0, 8).validate(), Err(MLConfigError::ZeroPoolSize));
    assert_eq!(ml_config(1, 0, 0).validate(), Err(MLConfigError::ZeroMaxBatch));
    assert_eq!(ml_config(1, 1, 0).validate(), Err(MLConfigError::ZeroBatchPadTo));
    assert_eq!(ml_config(1, 1, 1).validate(), Ok(()));
}

#[test]
fn sessions_in_turn() {
    let mut r = RoundRobin::new();
    let picks: Vec<usize> = (0..5).map(|_| r.pick(3)).collect();
    assert_eq!(picks, vec![0, 1, 2, 0, 1]);
    let mut last = RoundRobin { next: usize::MAX };
    last.pick(3);
    assert_eq!(last.next, 0);
}

#[test]
fn batches_are_padded_and_chunked() {
    assert_eq!(padded_rows(0, 8), 0);
    assert_eq!(padded_rows(1, 8), 8);
    assert_eq!(padded_rows(8, 8), 8);
    assert_eq!(padded_rows(9, 8), 16);
    assert_eq!(plan_chunks(0, 4), vec![]);
    assert_eq!(plan_chunks(10, 4), vec![(0, 4), (4, 8), (8, 10)]);
    assert_eq!(plan_chunks(8, 4), vec![(0, 4), (4, 8)]);
    let rows = batch_rows(&[candidate()], &ctx(), 2);
    assert_eq!(rows.len(), 2);
    assert_eq!(value(&rows[0][0]), 0.5);
    assert_eq!(rows[1], vec![FeatureValue::Fraction { num: 0, den: 1 }; FEATURE_COUNT]);
}

#[test]
fn model_output_is_checked() {
    let ok = vec![score(0.1), score(0.2), score(f32::NAN)];
    assert_eq!(check_output(&ok, 2), Ok(()));
    assert_eq!(check_output(&ok, 3), Err(OutputError::NotANumber));
    assert_eq!(check_output(&ok, 4), Err(OutputError::TooShort { got: 3, expected: 4 }));
}

#[test]
fn a_failed_chunk_leaves_no_partial_score() {
    let mut list = vec![scored(1, 0.9), scored(2, 0.8), scored(3, 0.7)];
    assert!(finish_chunk(&mut list, 0, 2, &Some(vec![score(0.1), score(0.2), score(0.3)])));
    let got: Vec<f32> = list.iter().map(|c| f32::from_bits(c.score.bits)).collect();
    assert_eq!(got, vec![0.1, 0.2, 0.7]);
    assert!(!finish_chunk(&mut list, 2, 3, &None));
    for c in &list {
        assert_eq!(c.score, Score::zero());
    }
    assert!(!finish_chunk(&mut list, 0, 3, &Some(vec![score(0.1)])));
}

#[test]
fn a_pass_scores_every_candidate() {
    let mut list: Vec<AdCandidate> = (0..5).map(|i| scored(i, 9.0)).collect();
    let outputs = [vec![0.1, 0.2], vec![0.3, 0.4], vec![0.5, 7.0]];
    for (chunk, out) in plan_chunks(list.len(), 2).into_iter().zip(outputs) {
        let scores: Vec<Score> = out.into_iter().map(score).collect();
        assert!(finish_chunk(&mut list, chunk.0, chunk.1, &Some(scores)));
    }
    let got: Vec<f32> = list.iter().map(|c| f32::from_bits(c.score.bits)).collect();
    assert_eq!(got, vec![0.1, 0.2, 0.3, 0.4, 0.5]);
}

#[test]
fn parity_checks() {
    let mut p = ParityCheck::new();
    assert_eq!(p.finish(), Err(ParityError::NoRecords));
    assert!(!p.has_record(" \t"));
    assert!(p.has_record(" {}"));
    assert_eq!(p.accept(12), Err(ParityError::FeatureCount { got: 12 }));
    assert_eq!(p.accept(13), Ok(()));
    assert_eq!(p.compared(false), Ok(()));
    assert_eq!(p.compared(true), Err(ParityError::Drift));
    assert_eq!(p.finish(), Ok(1));
}

#[test]
fn model_reload_on_change() {
    let paths = vec!["/m/other".to_string(), "/m/model.onnx".to_string()];
    assert!(should_reload(&paths, "/m/model.onnx", FileChange::Modified));
    assert!(should_reload(&paths, "/m/model.onnx", FileChange::Created));
    assert!(!should_reload(&paths, "/m/model.onnx", FileChange::Other));
    assert!(!should_reload(&paths, "/m/new.onnx", FileChange::Modified));
    assert!(should_reload(&paths, "/m//model.onnx", FileChange::Modified));
    assert!(!should_reload(&paths, "m/model.onnx", FileChange::Modified));
}

#[test]
fn scores_compare_as_numbers() {
    let values = [-f32::INFINITY, -1.5, -0.0, 0.0, 1e-40, 0.5, 2.0, f32::INFINITY, f32::NAN];
    for a in values {
        for b in values {
            assert_eq!(score(a).lt(score(b)), a < b);
            assert_eq!(score(a).ge(score(b)), a >= b);
        }
        assert_eq!(score(a).is_nan(), a.is_nan());
    }
}
