use bidder_core::clock::{
    current_hour_of_day, current_hour_of_week, hour_of_day_at, hour_of_week_at, is_weekend_at,
    unix_secs, unix_secs_at,
};
use bidder_core::config::{
    default_batch_pad_to, default_input_tensor_name, default_max_batch, default_output_tensor_name,
    default_pool_size, LatencyBudgetConfig,
};
use bidder_core::path::is_same_path;
use bidder_core::targeting::{refreshed, SegmentRegistry};
use bidder_core::telemetry::trace_export_url;
use bidder_core::text::{decimal, is_blank, is_empty_text, is_white_space};
use std::path::Path;
use std::time::{Duration, UNIX_EPOCH};

#[test]
fn merge_keeps_existing_ids() {
    let mut a = SegmentRegistry::default();
    assert!(a.is_empty());
    a.insert("cars".to_string(), 1);
    a.insert("boats".to_string(), 2);
    let mut b = SegmentRegistry::default();
    b.insert("cars".to_string(), 9);
    b.insert("planes".to_string(), 3);
    let copy = a.clone();
    a.merge(b);
    assert_eq!(a.len(), 3);
    let names = vec!["cars".to_string(), "boats".to_string(), "planes".to_string()];
    assert_eq!(a.resolve(&names), vec![1, 2, 3]);
    assert_eq!(copy.resolve(&names), vec![1, 2]);
    a.insert("cars".to_string(), 7);
    assert_eq!(a.len(), 3);
    assert_eq!(a.resolve(&names[0..1]), vec![7]);
}

#[test]
fn a_refresh_keeps_the_current_registry() {
    let mut current = SegmentRegistry::default();
    current.insert("cars".to_string(), 1);
    let mut loaded = SegmentRegistry::default();
    loaded.insert("cars".to_string(), 9);
    loaded.insert("planes".to_string(), 3);
    let next = refreshed(&current, loaded);
    let names = vec!["planes".to_string(), "cars".to_string()];
    assert_eq!(next.resolve(&names), vec![3, 1]);
    assert_eq!(current.resolve(&names), vec![1]);
}

#[test]
fn paths_compare_by_components() {
    let paths = [
        "", ".", "./", "..", "/", "//", "/.", "a", "./a", "a/", "a/.", "a//b", "a/b", "a/./b",
        "/a", "//a", "/./a", "a/../b", ".a", "..a", "/m/model.onnx", "/m//model.onnx",
        "/m/./model.onnx/", "m/model.onnx", "/m/other", "/m/m\u{f6}del",
    ];
    for a in paths {
        for b in paths {
            assert_eq!(is_same_path(a, b), Path::new(a) == Path::new(b), "{a:?} {b:?}");
        }
    }
    assert!(is_same_path("/m/model.onnx", "/m//model.onnx"));
}

#[test]
fn white_space_is_that_of_unicode() {
    for c in '\0'..=char::MAX {
        assert_eq!(is_white_space(c), c.is_whitespace(), "{c:?}");
    }
    for s in ["", " ", "\t\u{2003}", " x", "\u{200b}"] {
        assert_eq!(is_blank(s), s.trim().is_empty());
    }
}

#[test]
fn hours_of_day_and_week() {
    // Thursday, 1970-01-01 00:00 UTC.
    assert_eq!(hour_of_day_at(0), 0);
    assert_eq!(hour_of_week_at(0), 72);
    assert!(!is_weekend_at(0));
    // Saturday, 1970-01-03 13:30 UTC.
    let saturday = 2 * 86400 + 13 * 3600 + 1800;
    assert_eq!(hour_of_day_at(saturday), 13);
    assert_eq!(hour_of_week_at(saturday), 5 * 24 + 13);
    assert!(is_weekend_at(saturday));
    // Sunday 23:59:59, then Monday 00:00.
    assert!(is_weekend_at(4 * 86400 - 1));
    assert_eq!(hour_of_week_at(4 * 86400 - 1), 167);
    assert_eq!(hour_of_week_at(4 * 86400), 0);
    assert!(!is_weekend_at(4 * 86400));
}

#[test]
fn the_clock_is_read() {
    assert!(current_hour_of_day() < 24);
    assert!(current_hour_of_week() < 168);
    // Any machine that runs this has a clock past 2020.
    assert!(unix_secs() > 1_577_836_800);
}

#[test]
fn seconds_at_a_reading() {
    assert_eq!(unix_secs_at(UNIX_EPOCH), 0);
    assert_eq!(unix_secs_at(UNIX_EPOCH + Duration::from_millis(1_999)), 1);
    assert_eq!(unix_secs_at(UNIX_EPOCH + Duration::from_secs(1_600_000_000)), 1_600_000_000);
    assert_eq!(unix_secs_at(UNIX_EPOCH - Duration::from_secs(5)), 0);
}

#[test]
fn stage_budgets_by_name() {
    let cfg = LatencyBudgetConfig {
        http_parse_ms: 1,
        request_validate_ms: 2,
        user_enrichment_ms: 3,
        candidate_retrieval_ms: 4,
        candidate_limit_ms: 5,
        scoring_ms: 6,
        frequency_cap_ms: 7,
        ranking_ms: 8,
        budget_pacing_ms: 9,
        response_build_ms: 10,
        pipeline_deadline_ms: 11,
        http_timeout_ms: 12,
        win_timeout_ms: 13,
    };
    assert_eq!(cfg.budget_for_stage("request_validation"), Some(2));
    assert_eq!(cfg.budget_for_stage("user_enrichment"), Some(3));
    assert_eq!(cfg.budget_for_stage("candidate_retrieval"), Some(4));
    assert_eq!(cfg.budget_for_stage("candidate_limit"), Some(5));
    assert_eq!(cfg.budget_for_stage("scoring"), Some(6));
    assert_eq!(cfg.budget_for_stage("frequency_cap"), Some(7));
    assert_eq!(cfg.budget_for_stage("ranking"), Some(8));
    assert_eq!(cfg.budget_for_stage("budget_pacing"), Some(9));
    assert_eq!(cfg.budget_for_stage("response_build"), Some(10));
    assert_eq!(cfg.budget_for_stage("http_parse"), None);
}

#[test]
fn configuration_defaults() {
    assert_eq!(default_input_tensor_name(), "features");
    assert_eq!(default_output_tensor_name(), "pctr");
    assert_eq!(default_pool_size(), 2);
    assert_eq!(default_max_batch(), 64);
    assert_eq!(default_batch_pad_to(), 8);
}

#[test]
fn blank_endpoint_disables_traces() {
    assert_eq!(trace_export_url(""), None);
    assert_eq!(trace_export_url(" \t\n"), None);
    assert_eq!(
        trace_export_url("http://tempo:4318"),
        Some("http://tempo:4318/v1/traces".to_string())
    );
    assert_eq!(trace_export_url("\u{3000}\u{a0}"), None);
    assert_eq!(trace_export_url(" x "), Some(" x /v1/traces".to_string()));
}

#[test]
fn numbers_in_decimal() {
    assert_eq!(decimal(0), "0");
    assert_eq!(decimal(9), "9");
    assert_eq!(decimal(10), "10");
    assert_eq!(decimal(18446744073709551615), "18446744073709551615");
    assert!(is_empty_text(""));
    assert!(!is_empty_text(" "));
}
