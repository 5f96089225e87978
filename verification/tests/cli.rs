use hodei_scan::cli::cache_manager::{
    resolve_lookup, should_evict, CacheConfig, CacheError, CacheKey, CacheStats, CacheValue,
    HitRate, StoreAction,
};
use hodei_scan::cli::change_detector::{
    content_hash, ChangeDetectorFactory, ChangeError, ChangeType, ChangedFile, DeltaStatus,
    DetectorKind, DiffDelta, GitDetector, HashBasedDetector,
};
use hodei_scan::cli::facts::CodeSmellFact;
use hodei_scan::cli::incremental::{
    changed_files, full_analysis_needed, AnalysisError, MockExtractor,
};
use hodei_scan::ir::Severity;

#[test]
fn test_changed_file_creation() {
    let path = "src/main.rs".to_string();
    let change_type = ChangeType::Added;
    let changed = ChangedFile::new(path.clone(), change_type);

    assert_eq!(changed.path, path);
    assert_eq!(changed.change_type, change_type);
    assert!(changed.timestamp > 0);
    assert!(changed.old_path.is_none());
    assert!(changed.change_id.is_none());
}

#[test]
fn test_changed_file_with_old_path() {
    let old_path = "src/old.rs".to_string();
    let new_path = "src/new.rs".to_string();
    let changed = ChangedFile::with_old_path(new_path.clone(), old_path.clone(), ChangeType::Renamed);

    assert_eq!(changed.path, new_path);
    assert_eq!(changed.old_path, Some(old_path));
    assert_eq!(changed.change_type, ChangeType::Renamed);
}

#[test]
fn test_changed_file_with_change_id() {
    let path = "src/main.rs".to_string();
    let change_id = "abc123".to_string();
    let changed = ChangedFile::with_change_id(path.clone(), ChangeType::Modified, change_id.clone());

    assert_eq!(changed.path, path);
    assert_eq!(changed.change_id, Some(change_id));
    assert_eq!(changed.change_type, ChangeType::Modified);
}

#[test]
fn test_hash_based_detector_always_applicable() {
    let detector = HashBasedDetector::new("/tmp/project");
    assert!(detector.is_applicable());
}

#[test]
fn test_scm_name() {
    let git_detector = GitDetector::new("/tmp/project");
    assert_eq!(git_detector.scm_name(), "git");

    let hash_detector = HashBasedDetector::new("/tmp/project");
    assert_eq!(hash_detector.scm_name(), "hash");
}

#[test]
fn factory_prefers_git_when_a_repository_is_present() {
    assert_eq!(ChangeDetectorFactory::detector_kind(true), DetectorKind::Git);
    assert_eq!(ChangeDetectorFactory::detector_kind(false), DetectorKind::Hash);
    let g = ChangeDetectorFactory::create_git("repo").unwrap();
    assert_eq!(g.project_root, "repo");
    let h = ChangeDetectorFactory::create_hash_based("dir");
    assert_eq!(h.project_root, "dir");
    assert!(h.last_scan_state.is_none());
}

fn delta(status: DeltaStatus, new_path: Option<&str>, old_path: Option<&str>) -> DiffDelta {
    DiffDelta {
        status,
        new_path: new_path.map(|p| p.to_string()),
        old_path: old_path.map(|p| p.to_string()),
    }
}

#[test]
fn git_deltas_become_changes() {
    let detector = GitDetector::new(".");
    let deltas = vec![
        delta(DeltaStatus::Added, Some("new.rs"), None),
        delta(DeltaStatus::Added, Some("copy.rs"), Some("orig.rs")),
        delta(DeltaStatus::Deleted, None, Some("gone.rs")),
        delta(DeltaStatus::Modified, Some("edit.rs"), Some("edit.rs")),
        delta(DeltaStatus::Renamed, Some("b.rs"), Some("a.rs")),
        delta(DeltaStatus::Renamed, Some("c.rs"), None),
        delta(DeltaStatus::Copied, Some("d.rs"), Some("e.rs")),
        delta(DeltaStatus::Other, Some("x.rs"), Some("x.rs")),
    ];
    let changes = detector.changes_from_deltas(&deltas, "abc123");
    let summary: Vec<(String, ChangeType, Option<String>)> = changes
        .iter()
        .map(|c| (c.path.clone(), c.change_type, c.old_path.clone()))
        .collect();
    assert_eq!(
        summary,
        vec![
            ("new.rs".to_string(), ChangeType::Added, None),
            ("copy.rs".to_string(), ChangeType::Added, None),
            ("gone.rs".to_string(), ChangeType::Deleted, None),
            ("edit.rs".to_string(), ChangeType::Modified, None),
            ("b.rs".to_string(), ChangeType::Renamed, Some("a.rs".to_string())),
            ("d.rs".to_string(), ChangeType::Copied, Some("e.rs".to_string())),
        ]
    );
    assert!(changes.iter().all(|c| c.change_id == Some("abc123".to_string())));
}

fn state(entries: &[(&str, &str)]) -> Vec<(String, String)> {
    entries.iter().map(|(p, h)| (p.to_string(), h.to_string())).collect()
}

#[test]
fn first_hash_scan_reports_every_file_added() {
    let detector = HashBasedDetector::new("p");
    let changes = detector.changes_since_last_scan(&state(&[("a", "1"), ("b", "2")]));
    assert_eq!(changes.len(), 2);
    assert!(changes.iter().all(|c| c.change_type == ChangeType::Added));
    assert_eq!(changes[0].path, "a");
    assert_eq!(changes[1].path, "b");
}

#[test]
fn hash_scan_compares_with_last_state() {
    let mut detector = HashBasedDetector::new("p");
    detector.last_scan_state = Some(state(&[("a", "1"), ("b", "2"), ("c", "3")]));
    let changes = detector.changes_since_last_scan(&state(&[("c", "3"), ("a", "9"), ("d", "4")]));
    let summary: Vec<(String, ChangeType)> =
        changes.iter().map(|c| (c.path.clone(), c.change_type)).collect();
    assert_eq!(
        summary,
        vec![
            ("a".to_string(), ChangeType::Modified),
            ("b".to_string(), ChangeType::Deleted),
            ("d".to_string(), ChangeType::Added),
        ]
    );
}

#[test]
fn content_hash_is_sha256_hex() {
    let h = content_hash(b"Hello, World!\n");
    assert_eq!(h.len(), 64);
    assert_eq!(h, "c98c24b677eff44860afea6f493bbaec5bb1c4cbb209c6fc2bbb47f66ff2ad31");
    assert_eq!(content_hash(b"Hello, World!\n"), h);
    assert_ne!(content_hash(b"Content A\n"), content_hash(b"Content B\n"));
    assert_eq!(
        content_hash(b""),
        "e3b0c44298fc1c149afbf4c8996fb92427ae41e4649b934ca495991b7852b855"
    );
}

#[test]
fn change_errors_have_texts() {
    assert_eq!(ChangeError::msg("boom").to_string(), "Custom error: boom");
    assert_eq!(ChangeError::git("no repo").to_string(), "Git error: no repo");
    assert_eq!(ChangeError::hash("bad").to_string(), "Hash computation error: bad");
    assert_eq!(
        ChangeError::InvalidRepository { path: "/x".to_string() }.to_string(),
        "Invalid repository: /x"
    );
}

#[test]
fn test_error_types() {
    // Test custom error
    let error = AnalysisError::msg("test error");
    assert!(matches!(error, AnalysisError::Custom { .. }));
    assert!(error.to_string().contains("test error"));
}

#[test]
fn analysis_error_texts_nest() {
    let e = AnalysisError::ChangeDetection(ChangeError::git("x"));
    assert_eq!(e.to_string(), "Change detection error: Git error: x");
    let e = AnalysisError::Cache(CacheError::msg("full"));
    assert_eq!(e.to_string(), "Cache error: Custom error: full");
    assert_eq!(AnalysisError::Extractor("e".to_string()).to_string(), "Extractor error: e");
}

#[test]
fn test_extractor_id() {
    let extractor = MockExtractor::new("custom-id");
    assert_eq!(extractor.extractor_id(), "custom-id");
}

#[test]
fn test_mock_extractor() {
    let extractor = MockExtractor::new("test");
    let facts = extractor.extract_file("a.rs", Ok("// TODO: test\n".to_string())).unwrap();
    assert_eq!(facts.len(), 1);
}

#[test]
fn test_mock_extractor_no_todo() {
    let extractor = MockExtractor::new("test");
    let facts = extractor.extract_file("a.rs", Ok("fn main() {}\n".to_string())).unwrap();
    assert_eq!(facts.len(), 0);
}

#[test]
fn test_mock_extractor_multiple_todos() {
    let extractor = MockExtractor::new("test");
    let content = "// TODO: implement this\nfn foo() {}\n// TODO: fix later\nfn bar() {}\n";
    let facts = extractor.extract_file("a.rs", Ok(content.to_string())).unwrap();
    assert_eq!(facts.len(), 2);
    assert_eq!(facts[0].line, 1);
    assert_eq!(facts[1].line, 3);
    assert_eq!(facts[1].message, "TODO found at line 3");
    assert_eq!(facts[1].smell_type, "TODO");
    assert_eq!(facts[1].severity, Severity::Minor);
    assert_eq!(facts[1].file, "a.rs");
}

#[test]
fn test_mock_extractor_nonexistent_file() {
    let extractor = MockExtractor::new("test");
    let facts = extractor
        .extract_file("/tmp/this_file_does_not_exist_12345.txt", Err("not found".to_string()))
        .unwrap();
    assert_eq!(facts.len(), 0);
}

#[test]
fn changed_files_skip_deletions() {
    let changes = vec![
        ChangedFile::new("a".to_string(), ChangeType::Added),
        ChangedFile::new("b".to_string(), ChangeType::Deleted),
        ChangedFile::new("c".to_string(), ChangeType::Renamed),
        ChangedFile::new("d".to_string(), ChangeType::Copied),
        ChangedFile::new("e".to_string(), ChangeType::Modified),
    ];
    assert_eq!(changed_files(&changes), vec!["a", "c", "d", "e"]);
}

#[test]
fn full_analysis_decision() {
    assert!(full_analysis_needed(true, true, false, 0, 10));
    assert!(full_analysis_needed(false, false, false, 0, 10));
    assert!(full_analysis_needed(false, true, true, 0, 10));
    assert!(full_analysis_needed(false, true, false, 11, 10));
    assert!(!full_analysis_needed(false, true, false, 10, 10));
}

#[test]
fn test_cache_key_creation() {
    let path = "src/main.rs".to_string();
    let hash = "abc123".to_string();
    let key = CacheKey::from_file(&path, hash.clone(), None);

    assert_eq!(key.path, path);
    assert_eq!(key.file_hash, hash);
    assert_eq!(key.modified_at, 0);
    assert_eq!(CacheKey::from_file("x", "h".to_string(), Some(42)).modified_at, 42);
}

#[test]
fn test_cache_value_expiration() {
    let mut value = CacheValue::new(vec![], Some(0)); // Expires immediately
    assert!(value.is_expired());

    value = CacheValue::new(vec![], Some(1000)); // 1000 seconds
    assert!(!value.is_expired());
}

#[test]
fn cache_value_lifetime() {
    let v = CacheValue::created_at(vec![], Some(10), 100);
    assert_eq!(v.expires_at, Some(110));
    assert!(!v.is_expired_at(109));
    assert!(v.is_expired_at(110));
    let forever = CacheValue::created_at(vec![], None, 100);
    assert!(!forever.is_expired_at(u64::MAX));
    let capped = CacheValue::created_at(vec![], Some(u64::MAX), 5);
    assert_eq!(capped.expires_at, Some(u64::MAX));
}

fn smell(line: u32) -> CodeSmellFact {
    CodeSmellFact {
        smell_type: "TODO".to_string(),
        severity: Severity::Minor,
        message: format!("TODO found at line {}", line),
        file: "test.rs".to_string(),
        line,
    }
}

#[test]
fn cache_lookup_decisions() {
    let mut stats = CacheStats::new();
    let live = CacheValue::created_at(vec![smell(1)], Some(100), 0);
    let out = resolve_lookup(&mut stats, Some(live), 50);
    assert!(out.hit);
    assert_eq!(out.facts, vec![smell(1)]);
    match out.action {
        StoreAction::Rewrite(v) => assert_eq!(v.access_count, 1),
        _ => panic!("a hit is written back"),
    }
    assert_eq!(stats.hits, 1);

    let old = CacheValue::created_at(vec![smell(2)], Some(10), 0);
    let out = resolve_lookup(&mut stats, Some(old), 10);
    assert!(!out.hit);
    assert!(out.facts.is_empty());
    assert!(matches!(out.action, StoreAction::Remove));

    let out = resolve_lookup(&mut stats, None, 10);
    assert!(!out.hit);
    assert!(matches!(out.action, StoreAction::Keep));
    assert_eq!(stats.misses, 2);
    assert_eq!(stats.hit_rate, HitRate { hits: 1, lookups: 3 });
}

#[test]
fn cache_stats_and_config() {
    let mut stats = CacheStats::default();
    stats.record_stored(10);
    stats.record_stored(5);
    stats.record_evicted();
    assert_eq!(stats.entries_stored, 2);
    assert_eq!(stats.bytes_stored, 15);
    assert_eq!(stats.entries_evicted, 1);
    assert!(should_evict(&stats, Some(1)));
    assert!(!should_evict(&stats, Some(2)));
    assert!(!should_evict(&stats, None));

    let config = CacheConfig::default();
    assert_eq!(config.ttl_seconds, Some(7 * 24 * 60 * 60));
    assert_eq!(config.max_entries, Some(1_000_000));
    assert_eq!(config.cache_dir, ".hodei-cache");
    assert!(config.compression);
}
