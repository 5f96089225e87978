use hodei_scan::declarative::owasp_rules::OWASPRuleCatalog;



#[test]
fn test_catalog_creation() {
    let catalog = OWASPRuleCatalog::new();
    assert!(catalog.rules.len() > 0);
}

#[test]
fn test_get_all_rules() {
    let catalog = OWASPRuleCatalog::new();
    let rule_set = catalog.get_all_rules();
    assert!(rule_set.rules().len() > 0);
}

#[test]
fn test_get_rules_by_category() {
    let catalog = OWASPRuleCatalog::new();
    let rule_set = catalog.get_rules_by_category("A03-Injection");
    assert!(rule_set.rules().len() > 0);
}

#[test]
fn test_get_rules_by_severity() {
    let catalog = OWASPRuleCatalog::new();
    let rule_set = catalog.get_rules_by_severity("critical");
    assert!(rule_set.rules().len() > 0);
}

#[test]
fn test_catalog_stats() {
    let catalog = OWASPRuleCatalog::new();
    let stats = catalog.get_stats();
    assert!(stats.total_rules > 0);
    assert!(stats.by_category > 0);
    assert!(stats.by_severity.len() > 0);
}

#[test]
fn test_sql_injection_rule() {
    let catalog = OWASPRuleCatalog::new();
    let rule = catalog.rule("OWASP-A03-001").unwrap();

    assert_eq!(rule.id, "OWASP-A03-001");
    assert!(rule.metadata.is_some());
    assert!(rule.patterns.len() > 0);
    assert!(rule.tests.is_some());
}

#[test]
fn test_crypto_rule() {
    let catalog = OWASPRuleCatalog::new();
    let rule = catalog.rule("OWASP-A02-001").unwrap();

    assert!(rule.patterns.iter().any(|p| p.pattern.contains("md5")));
}

#[test]
fn test_catalog_contents_and_filing() {
    let catalog = OWASPRuleCatalog::new();
    assert_eq!(catalog.rules.len(), 10);
    assert_eq!(catalog.by_category.len(), 10);
    let injection = catalog.get_rules_by_category("A03-Injection");
    assert_eq!(injection.rules().len(), 1);
    assert_eq!(injection.rules()[0].id, "OWASP-A03-001");
    assert_eq!(catalog.get_rules_by_category("nope").rules().len(), 0);
    let critical = catalog.get_rules_by_severity("critical");
    assert_eq!(critical.rules().len(), 5);
    assert_eq!(catalog.get_rules_by_severity("minor").rules().len(), 1);
    let stats = catalog.get_stats();
    assert_eq!(stats.total_rules, 10);
    let counts: Vec<(String, usize)> = stats.by_severity.clone();
    assert_eq!(
        counts,
        vec![("critical".to_string(), 5), ("major".to_string(), 4), ("minor".to_string(), 1)]
    );
    let all = catalog.get_all_rules();
    assert_eq!(all.rules()[9].id, "OWASP-A10-001");
    assert!(catalog.rule("OWASP-A11-001").is_none());
}
