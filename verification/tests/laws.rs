use hodei_scan::cli::change_detector::{ChangeType, HashBasedDetector};
use hodei_scan::declarative::rule_tester::{TestResult, TestSummary};
use hodei_scan::ir::{FactId, FlowId};
use hodei_scan::declarative::tree_sitter::Language;
use hodei_scan::text::chars::{is_whitespace, to_lowercase};
use hodei_scan::config::duration::parse_duration;
use hodei_scan::declarative::lsp::utils::{byte_offset_to_position, position_to_byte_offset};
use hodei_scan::deep_analysis::analysis_cache::AnalysisCache;
use hodei_scan::deep_analysis::policy::{SourceDefinition, TaintPolicy};
use hodei_scan::deep_analysis::taint_analysis::TaintPropagator;
use hodei_scan::text::number::{decimal_text, parse_u64};

#[test]
fn law_cache_read_after_write() {
    let mut cache = AnalysisCache::<String>::new(2);
    cache.put_at("a".to_string(), "1".to_string(), 10);
    cache.put_at("b".to_string(), "2".to_string(), 10);
    cache.put_at("a".to_string(), "3".to_string(), 20);
    // Read back until the time to live has passed.
    assert_eq!(cache.get_at("a", 20), Some("3".to_string()));
    assert_eq!(cache.get_at("a", 2_000_000_019), Some("3".to_string()));
    assert_eq!(cache.get_at("a", 2_000_000_020), None);
    // The other key is untouched.
    assert_eq!(cache.get_at("b", 2_000_000_009), Some("2".to_string()));
    // Cleaning up keeps what is alive.
    cache.cleanup_at(2_000_000_015);
    assert_eq!(cache.get_at("a", 2_000_000_015), Some("3".to_string()));
    assert_eq!(cache.get_at("b", 2_000_000_015), None);
}

#[test]
fn law_unchanged_scan_reports_nothing() {
    let state: Vec<(String, String)> =
        vec![("x".to_string(), "h1".to_string()), ("y".to_string(), "h2".to_string())];
    let mut detector = HashBasedDetector::new("p");
    detector.last_scan_state = Some(state.clone());
    assert!(detector.changes_since_last_scan(&state).is_empty());
}

#[test]
fn law_tracked_patterns_are_distinct() {
    let mut propagator = TaintPropagator::new();
    let source = |p: &str| SourceDefinition { pattern: p.to_string(), source_type: "t".to_string(), tags: vec![] };
    let policy = TaintPolicy {
        sources: vec![source("a"), source("b"), source("a"), source("c"), source("b")],
        sinks: vec![],
        sanitizers: vec![],
    };
    propagator.extract_patterns(&policy);
    assert_eq!(propagator.source_patterns, vec!["a", "b", "c"]);
}

#[test]
fn law_offsets_map_back() {
    let content = "fn main() {\n    let é = 1;\r\n}\n";
    let span: usize = content.lines().map(|l| l.len() + 1).sum();
    for offset in 0..span {
        let p = byte_offset_to_position(content, offset);
        assert_eq!(position_to_byte_offset(content, p), offset, "offset {}", offset);
    }
}

#[test]
fn law_numbers_and_durations_read_back() {
    for n in [0u64, 7, 10, 99, 12345, u64::MAX] {
        assert_eq!(parse_u64(&decimal_text(n)), Some(n));
    }
    for n in [0u64, 1, 30, 86_400] {
        assert_eq!(parse_duration(&format!("{}ms", n)), Some(n as u128));
        assert_eq!(parse_duration(&format!("{}s", n)), Some(n as u128 * 1000));
        assert_eq!(parse_duration(&format!("{}m", n)), Some(n as u128 * 60_000));
        assert_eq!(parse_duration(&format!("{}h", n)), Some(n as u128 * 3_600_000));
    }
}

#[test]
fn law_successive_scans_report_each_changed_path_once() {
    let st = |v: &[(&str, &str)]| -> Vec<(String, String)> {
        v.iter().map(|(p, h)| (p.to_string(), h.to_string())).collect()
    };
    let mut detector = HashBasedDetector::new("p");
    let first = detector.changes_since_last_scan(&st(&[("a", "1"), ("b", "2")]));
    assert_eq!(first.len(), 2);
    detector.record_scan(st(&[("a", "1"), ("b", "2")]));
    let second = detector.changes_since_last_scan(&st(&[("b", "2"), ("a", "5"), ("c", "7")]));
    let summary: Vec<(String, ChangeType)> = second.iter().map(|c| (c.path.clone(), c.change_type)).collect();
    assert_eq!(summary, vec![("a".to_string(), ChangeType::Modified), ("c".to_string(), ChangeType::Added)]);
    detector.record_scan(st(&[("b", "2"), ("a", "5"), ("c", "7")]));
    let third = detector.changes_since_last_scan(&st(&[("a", "5")]));
    let summary: Vec<(String, ChangeType)> = third.iter().map(|c| (c.path.clone(), c.change_type)).collect();
    assert_eq!(summary, vec![("b".to_string(), ChangeType::Deleted), ("c".to_string(), ChangeType::Deleted)]);
}

#[test]
fn law_summary_counts_every_result_in_order() {
    let mut summary = TestSummary::new();
    summary.add_result(TestResult::pass("one".to_string(), 10));
    summary.add_result(TestResult::fail("two".to_string(), true, false, "m2".to_string(), 20));
    summary.add_result(TestResult::pass("three".to_string(), 30));
    summary.add_result(TestResult::fail("four".to_string(), false, true, "m4".to_string(), 40));
    assert_eq!(summary.total_tests, 4);
    assert_eq!(summary.passed, 2);
    assert_eq!(summary.failed, 2);
    assert_eq!(summary.total_execution_time_ms, 100);
    let names: Vec<&str> = summary.failures.iter().map(|f| f.test_name.as_str()).collect();
    assert_eq!(names, vec!["two", "four"]);
    assert_eq!(summary.success_rate.hits, 2);
    assert_eq!(summary.success_rate.total, 4);
    assert!(!summary.all_passed());
}

#[test]
fn fresh_identifiers_are_version_4_uuids() {
    let a = FactId::new_uuid();
    let b = FlowId::new_uuid();
    assert_eq!(a.0 & 0xF000C000000000000000u128, 0x40008000000000000000u128);
    assert_eq!(b.0 & 0xF000C000000000000000u128, 0x40008000000000000000u128);
    assert_ne!(FactId::new_uuid(), a);
}

#[test]
fn white_space_is_the_unicode_property() {
    for n in 0u32..=0x10FFFF {
        if let Some(c) = char::from_u32(n) {
            assert_eq!(is_whitespace(c), c.is_whitespace(), "U+{:04X}", n);
        }
    }
}

#[test]
fn ascii_names_are_matched_in_any_case() {
    assert_eq!(Language::from_str("Python"), Some(Language::Python));
    assert_eq!(Language::from_str("C++"), Some(Language::Cpp));
    assert_eq!(to_lowercase("MiXeD-Case_09"), "mixed-case_09");
}
