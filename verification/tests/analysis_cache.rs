use hodei_scan::deep_analysis::analysis_cache::{
    AnalysisCache, CouplingCache, SemanticModelCache, TaintFlowCache,
};

#[test]
fn test_cache_new() {
    let cache = AnalysisCache::<String>::new(60);
    assert!(format!("{:?}", cache).contains("AnalysisCache"));
}

#[test]
fn test_cache_put_and_get() {
    let mut cache = AnalysisCache::<String>::new(60);

    cache.put("key1".to_string(), "value1".to_string());

    let value = cache.get("key1");
    assert_eq!(value, Some("value1".to_string()));
}

#[test]
fn test_cache_get_nonexistent_key() {
    let cache = AnalysisCache::<String>::new(60);

    let value = cache.get("nonexistent");
    assert_eq!(value, None);
}

#[test]
fn test_cache_update_existing_key() {
    let mut cache = AnalysisCache::new(60);

    cache.put("key".to_string(), "value1".to_string());
    assert_eq!(cache.get("key"), Some("value1".to_string()));

    cache.put("key".to_string(), "value2".to_string());
    assert_eq!(cache.get("key"), Some("value2".to_string()));
}

#[test]
fn test_cache_multiple_keys() {
    let mut cache = AnalysisCache::new(60);

    cache.put("key1".to_string(), "value1".to_string());
    cache.put("key2".to_string(), "value2".to_string());
    cache.put("key3".to_string(), "value3".to_string());

    assert_eq!(cache.get("key1"), Some("value1".to_string()));
    assert_eq!(cache.get("key2"), Some("value2".to_string()));
    assert_eq!(cache.get("key3"), Some("value3".to_string()));

    let stats = cache.stats();
    assert_eq!(stats.total_entries, 3);
    assert_eq!(stats.active_entries, 3);
}

#[test]
fn test_cache_cleanup_preserves_active_entries() {
    // Use 0 TTL so entries expire immediately when checked
    let mut cache = AnalysisCache::<String>::new(0);

    cache.put("key1".to_string(), "value1".to_string());
    cache.put("key2".to_string(), "value2".to_string());
    cache.put("key3".to_string(), "value3".to_string());

    // With 0 TTL, all entries should appear expired immediately
    let stats_before = cache.stats();
    assert_eq!(stats_before.expired_entries, 3);
    assert_eq!(stats_before.active_entries, 0);

    cache.cleanup();

    let stats_after = cache.stats();
    assert_eq!(stats_after.expired_entries, 0);
    assert_eq!(stats_after.active_entries, 0);

    // All entries should be gone
    assert_eq!(cache.get("key1"), None);
    assert_eq!(cache.get("key2"), None);
    assert_eq!(cache.get("key3"), None);
}

#[test]
fn analysis_cache_test_cache_stats() {
    let mut cache = AnalysisCache::new(60);

    cache.put("key4".to_string(), "value4".to_string());

    let stats = cache.stats();
    assert_eq!(stats.total_entries, 1);
    assert_eq!(stats.active_entries, 1);
    assert_eq!(stats.expired_entries, 0);
}

#[test]
fn test_cache_default_ttl() {
    let cache = AnalysisCache::<String>::default();
    assert_eq!(cache.default_ttl_seconds(), 3600); // 1 hour
}

#[test]
fn test_cache_custom_ttl() {
    let cache = AnalysisCache::<String>::new(120);
    assert_eq!(cache.default_ttl_seconds(), 120);
}

#[test]
fn test_cache_zero_ttl() {
    let mut cache = AnalysisCache::<String>::new(0);
    assert_eq!(cache.default_ttl_seconds(), 0);

    cache.put("key".to_string(), "value".to_string());
    // Should expire immediately
    assert_eq!(cache.get("key"), None);
}

#[test]
fn test_cache_very_long_ttl() {
    let mut cache = AnalysisCache::<String>::new(86400); // 24 hours

    cache.put("key".to_string(), "value".to_string());
    assert_eq!(cache.get("key"), Some("value".to_string()));
}

#[test]
fn test_cache_clone() {
    let mut cache = AnalysisCache::new(60);
    cache.put("key".to_string(), "value".to_string());

    let _clone = cache.clone();
    // Should compile
}

#[test]
fn test_cache_empty_strings() {
    let mut cache = AnalysisCache::new(60);

    cache.put("".to_string(), "value".to_string());
    assert_eq!(cache.get(""), Some("value".to_string()));

    cache.put("key".to_string(), "".to_string());
    assert_eq!(cache.get("key"), Some("".to_string()));
}

#[test]
fn test_cache_large_values() {
    let mut cache = AnalysisCache::new(60);

    let large_value = "x".repeat(10000);
    cache.put("key".to_string(), large_value.clone());

    let retrieved = cache.get("key");
    assert_eq!(retrieved, Some(large_value));
}

#[test]
fn test_cache_many_entries() {
    let mut cache = AnalysisCache::new(60);

    // Add 1000 entries
    for i in 0..1000 {
        cache.put(format!("key{}", i), format!("value{}", i));
    }

    let stats = cache.stats();
    assert_eq!(stats.total_entries, 1000);
    assert_eq!(stats.active_entries, 1000);

    // Verify some entries
    assert_eq!(cache.get("key0"), Some("value0".to_string()));
    assert_eq!(cache.get("key999"), Some("value999".to_string()));
    assert_eq!(cache.get("key500"), Some("value500".to_string()));
}

#[test]
fn test_cache_cleanup_empty() {
    let mut cache = AnalysisCache::<String>::new(60);
    cache.cleanup();

    let stats = cache.stats();
    assert_eq!(stats.total_entries, 0);
    assert_eq!(stats.active_entries, 0);
    assert_eq!(stats.expired_entries, 0);
}

#[test]
fn test_cache_hit_rate_initially_zero() {
    let cache = AnalysisCache::<String>::new(60);
    let stats = cache.stats();
    assert_eq!(stats.hit_rate.hits, 0);
    assert_eq!(stats.hit_rate.total, 0);
}

#[test]
fn test_cache_get_returns_cloned_value() {
    let mut cache = AnalysisCache::new(60);

    let value = vec![1, 2, 3];
    cache.put("key".to_string(), value.clone());

    let retrieved = cache.get("key").unwrap();
    assert_eq!(retrieved, value);

    // Original value should still be valid
    assert_eq!(value, vec![1, 2, 3]);
}

#[test]
fn test_specialized_cache_types() {
    let _semantic_cache = SemanticModelCache::new(300);
    let _taint_cache = TaintFlowCache::new(600);
    let _coupling_cache = CouplingCache::new(1200);

    // All should be different types but same underlying structure
    assert!(format!("{:?}", _semantic_cache).contains("AnalysisCache"));
    assert!(format!("{:?}", _taint_cache).contains("AnalysisCache"));
    assert!(format!("{:?}", _coupling_cache).contains("AnalysisCache"));
}

#[test]
fn test_cache_key_with_special_chars() {
    let mut cache = AnalysisCache::new(60);

    let special_keys = vec![
        "key-with-dashes".to_string(),
        "key_with_underscores".to_string(),
        "key.with.dots".to_string(),
        "key/with/slashes".to_string(),
        "key:with:colons".to_string(),
    ];

    for key in &special_keys {
        cache.put(key.clone(), "value".to_string());
    }

    for key in &special_keys {
        assert_eq!(cache.get(key), Some("value".to_string()));
    }
}

#[test]
fn test_cache_unicode_keys_and_values() {
    let mut cache = AnalysisCache::new(60);

    let unicode_key = "键🔑".to_string();
    let unicode_value = "值📦".to_string();

    cache.put(unicode_key.clone(), unicode_value.clone());
    assert_eq!(cache.get(&unicode_key), Some(unicode_value));
}

#[test]
fn entries_expire_at_their_time_to_live() {
    let mut cache = AnalysisCache::<String>::new(1);
    cache.put_at("a".to_string(), "x".to_string(), 0);
    cache.put_at("b".to_string(), "y".to_string(), 500_000_000);
    assert_eq!(cache.get_at("a", 999_999_999), Some("x".to_string()));
    assert_eq!(cache.get_at("a", 1_000_000_000), None);
    let stats = cache.stats_at(1_200_000_000);
    assert_eq!(stats.total_entries, 2);
    assert_eq!(stats.active_entries, 1);
    assert_eq!(stats.expired_entries, 1);
    cache.cleanup_at(1_200_000_000);
    assert_eq!(cache.stats_at(1_200_000_000).total_entries, 1);
    assert_eq!(cache.get_at("b", 1_200_000_000), Some("y".to_string()));
    // Putting again renews the entry.
    cache.put_at("b".to_string(), "z".to_string(), 2_000_000_000);
    assert_eq!(cache.get_at("b", 2_500_000_000), Some("z".to_string()));
    assert_eq!(cache.stats_at(2_500_000_000).total_entries, 1);
}
