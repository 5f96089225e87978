use hodei_scan::declarative::matcher::{Match, MetavarBinding, PatternMatcher};
use hodei_scan::declarative::rules::{Pattern, Rule, RuleLoader, RuleSet, TestCase, WhereClause};
use hodei_scan::declarative::tree_sitter::{ASTNode, Language, MultiLanguageParser, ParseError};
use hodei_scan::declarative::rules::RuleMetadata;
use hodei_scan::ir::{Confidence, ExtractorId, FactType, Severity};

#[test]
fn test_language_support() {
    let languages = Language::all_languages();
    assert!(languages.len() >= 10, "Should support 10+ languages");

    // Verify key languages are supported
    assert!(languages.contains(&Language::Python));
    assert!(languages.contains(&Language::JavaScript));
    assert!(languages.contains(&Language::TypeScript));
    assert!(languages.contains(&Language::Rust));
    assert!(languages.contains(&Language::Go));
    assert!(languages.contains(&Language::Java));
}

#[test]
fn test_tree_sitter_basic_parsing() {
    let mut parser = MultiLanguageParser::new();
    let python_code = r#"
def test():
    return 42
"#;
    let result = parser.parse(Language::Python, python_code);
    assert!(result.is_ok(), "Should parse Python code");
    let js_code = r#"
function test() {
    return 42;
}
"#;
    let result = parser.parse(Language::JavaScript, js_code);
    assert!(result.is_ok(), "Should parse JavaScript code");
}


#[test]
fn test_parse_python_code() {
    let mut parser = MultiLanguageParser::new();

    let code = r#"
def hello_world(name: str) -> str:
return f"Hello, {name}!"
"#;

    let result = parser.parse(Language::Python, code);

    assert!(result.is_ok(), "Should parse Python code successfully");
    let parse_result = result.unwrap();

    assert_eq!(parse_result.language(), Language::Python);
    assert!(parse_result.line_count() >= 3);
    assert!(parse_result.character_count() > 0);
    assert!(!parse_result.ast().is_leaf()); // Should have children
}

#[test]
fn test_parse_javascript_code() {
    let mut parser = MultiLanguageParser::new();

    let code = r#"
function greet(name: string): string {
return `Hello, ${name}!`;
}
const result = greet("World");
"#;

    let result = parser.parse(Language::JavaScript, code);

    assert!(result.is_ok(), "Should parse JavaScript code successfully");
    let parse_result = result.unwrap();

    assert_eq!(parse_result.language(), Language::JavaScript);
    assert!(parse_result.line_count() >= 3);
    assert!(!parse_result.ast().is_leaf());
}

#[test]
fn test_parse_rust_code() {
    let mut parser = MultiLanguageParser::new();

    let code = r#"
fn main() {
println!("Hello, World!");
}
"#;

    let result = parser.parse(Language::Rust, code);

    assert!(result.is_ok(), "Should parse Rust code successfully");
    let parse_result = result.unwrap();

    assert_eq!(parse_result.language(), Language::Rust);
    assert!(parse_result.line_count() >= 3);
}

#[test]
fn test_language_from_str() {
    assert_eq!(Language::from_str("python"), Some(Language::Python));
    assert_eq!(Language::from_str("javascript"), Some(Language::JavaScript));
    assert_eq!(Language::from_str("js"), Some(Language::JavaScript));
    assert_eq!(Language::from_str("rust"), Some(Language::Rust));
    assert_eq!(Language::from_str("go"), Some(Language::Go));
    assert_eq!(Language::from_str("java"), Some(Language::Java));
    assert_eq!(Language::from_str("unknown"), None);
}

#[test]
fn test_language_name() {
    assert_eq!(Language::Python.name(), "python");
    assert_eq!(Language::JavaScript.name(), "javascript");
    assert_eq!(Language::Rust.name(), "rust");
}

#[test]
fn test_all_languages() {
    let languages = Language::all_languages();
    assert!(languages.len() >= 8, "Should support 8+ languages");

    // Check that all expected languages are present
    assert!(languages.contains(&Language::Python));
    assert!(languages.contains(&Language::JavaScript));
    assert!(languages.contains(&Language::TypeScript));
    assert!(languages.contains(&Language::Rust));
    assert!(languages.contains(&Language::Go));
    assert!(languages.contains(&Language::Java));
}

#[test]
fn test_warm_up() {
    let mut parser = MultiLanguageParser::new();

    let result = parser.warm_up(Language::Python);
    assert!(result.is_ok(), "Warm-up should succeed");
}

#[test]
fn test_empty_code() {
    let mut parser = MultiLanguageParser::new();

    let result = parser.parse(Language::Python, "");
    assert!(result.is_ok(), "Should parse empty code");
    assert_eq!(result.unwrap().line_count(), 0);
}

#[test]
fn test_single_line_code() {
    let mut parser = MultiLanguageParser::new();

    let result = parser.parse(Language::Python, "x = 42");
    assert!(result.is_ok(), "Should parse single line");
    assert_eq!(result.unwrap().line_count(), 1);
}

#[test]
fn test_ast_node_creation() {
    let node = ASTNode::new_leaf("identifier".to_string(), "x".to_string(), 0, 1);

    assert_eq!(node.node_type(), "identifier");
    assert_eq!(node.text(), "x");
    assert!(node.is_leaf());
    assert_eq!(node.children().len(), 0);
}

#[test]
fn test_ast_internal_node() {
    let children = vec![ASTNode::new_leaf(
        "number".to_string(),
        "42".to_string(),
        2,
        4,
    )];

    let node = ASTNode::new_internal("assignment".to_string(), children);

    assert_eq!(node.node_type(), "assignment");
    assert!(!node.is_leaf());
    assert_eq!(node.children().len(), 1);
}


#[test]
fn test_pattern_matcher_creation() {
    let matcher = PatternMatcher::new(Language::Python);
    assert_eq!(matcher.language, Language::Python);
}

#[test]
fn test_simple_pattern_match() {
    let matcher = PatternMatcher::new(Language::Python);

    // Create a simple AST
    let ast = ASTNode::new_internal(
        "module".to_string(),
        vec![ASTNode::new_leaf(
            "assignment".to_string(),
            "x = 42".to_string(),
            0,
            5,
        )],
    );

    let patterns = vec![Pattern {
        pattern: "x = 42".to_string(),
        message: "Variable assignment".to_string(),
    }];

    let matches = matcher.match_patterns(&ast, &patterns).unwrap();
    assert!(!matches.is_empty(), "Should find at least one match");
}

#[test]
fn test_match_creation() {
    let pattern = Pattern {
        pattern: "$VAR".to_string(),
        message: "Test".to_string(),
    };

    let metavar = MetavarBinding {
        name: "VAR".to_string(),
        value: "x".to_string(),
        node: ASTNode::new_leaf("identifier".to_string(), "x".to_string(), 0, 1),
    };

    let match_ = Match::new(pattern.clone(), 0, 1, "x".to_string(), vec![metavar]);

    assert_eq!(match_.matched_text(), "x");
    assert_eq!(match_.metavars().len(), 1);
    assert_eq!(match_.get_metavar("VAR").unwrap().name, "VAR");
}


#[test]
fn test_rule_set_creation() {
    let rule_set = RuleSet::new();
    assert_eq!(rule_set.rules().len(), 0);
}

#[test]
fn test_rules_for_language() {
    let mut rule_set = RuleSet::new();

    let rule1 = Rule {
        id: "RULE-1".to_string(),
        metadata: None,
        languages: vec!["python".to_string()],
        patterns: vec![],
        where_clause: None,
        fix: None,
        tests: None,
    };

    let rule2 = Rule {
        id: "RULE-2".to_string(),
        metadata: None,
        languages: vec!["javascript".to_string()],
        patterns: vec![],
        where_clause: None,
        fix: None,
        tests: None,
    };

    rule_set.add_rule(rule1);
    rule_set.add_rule(rule2);

    let python_rules = rule_set.rules_for_language(Language::Python);
    assert_eq!(python_rules.len(), 1);
    assert_eq!(python_rules[0].id, "RULE-1");
}

#[test]
fn test_rule_get_by_id() {
    let mut rule_set = RuleSet::new();

    let rule1 = Rule {
        id: "RULE-1".to_string(),
        metadata: None,
        languages: vec!["python".to_string()],
        patterns: vec![],
        where_clause: None,
        fix: None,
        tests: None,
    };

    let rule2 = Rule {
        id: "RULE-2".to_string(),
        metadata: None,
        languages: vec!["javascript".to_string()],
        patterns: vec![],
        where_clause: None,
        fix: None,
        tests: None,
    };

    rule_set.add_rule(rule1.clone());
    rule_set.add_rule(rule2.clone());

    assert_eq!(rule_set.get_rule("RULE-1").unwrap().id, "RULE-1");
    assert_eq!(rule_set.get_rule("RULE-2").unwrap().id, "RULE-2");
    assert!(rule_set.get_rule("NONEXISTENT").is_none());
}

fn rule(id: &str, languages: &[&str], patterns: &[&str]) -> Rule {
    Rule {
        id: id.to_string(),
        metadata: None,
        languages: languages.iter().map(|l| l.to_string()).collect(),
        patterns: patterns
            .iter()
            .map(|p| Pattern { pattern: p.to_string(), message: "Test".to_string() })
            .collect(),
        where_clause: None,
        fix: None,
        tests: None,
    }
}

#[test]
fn test_rule_loader_basic() {
    let loader = RuleLoader::new();
    let result = loader.accept_rule(rule("TEST-001", &["python"], &["x = $VAR"]));
    assert!(result.is_ok(), "Should accept a valid rule");
    let rule = result.unwrap();
    assert_eq!(rule.id, "TEST-001");
    assert_eq!(rule.languages.len(), 1);
}

#[test]
fn test_validate_rule_empty_id() {
    let loader = RuleLoader::new();
    let result = loader.accept_rule(rule("", &["python"], &["x = $VAR"]));
    assert!(result.is_err(), "Should reject rule with empty ID");
}

#[test]
fn test_validate_rule_no_patterns() {
    let loader = RuleLoader::new();
    let result = loader.accept_rule(rule("TEST-001", &["python"], &[]));
    assert!(result.is_err(), "Should reject rule with no patterns");
}

#[test]
fn test_validate_rule_no_languages() {
    let loader = RuleLoader::new();
    let result = loader.accept_rule(rule("TEST-001", &[], &["x = $VAR"]));
    assert!(result.is_err(), "Should reject rule with no languages");
}

#[test]
fn test_validate_rule_empty_pattern() {
    let loader = RuleLoader::new();
    let result = loader.accept_rule(rule("TEST-001", &["python"], &["x", ""]));
    match result {
        Err(hodei_scan::declarative::DeclarativeExtractorError::Validation { message }) => {
            assert_eq!(message, "Pattern cannot be empty")
        }
        _ => panic!("expected a validation error"),
    }
}

#[test]
fn test_load_rules_from_dir_records_directory() {
    let loader = RuleLoader::new();
    let set = loader.load_rules_from_dir("rules/", Vec::new()).unwrap();
    assert_eq!(set.rules().len(), 0);
    assert_eq!(set.source_dir, Some("rules/".to_string()));
}

#[test]
fn directory_keeps_the_rules_that_parse_and_validate_in_order() {
    let loader = RuleLoader::new();
    let parsed = vec![
        Ok(rule("R1", &["python"], &["x = $VAR"])),
        Err(hodei_scan::declarative::DeclarativeExtractorError::parse("bad yaml")),
        Ok(rule("R2", &["python"], &[])),
        Ok(rule("R3", &["rust"], &["unsafe"])),
    ];
    let set = loader.load_rules_from_dir("rules/", parsed).unwrap();
    let ids: Vec<&str> = set.rules().iter().map(|r| r.id.as_str()).collect();
    assert_eq!(ids, vec!["R1", "R3"]);
    assert_eq!(set.source_dir, Some("rules/".to_string()));
}

#[test]
fn test_language_from_str_aliases_and_case() {
    assert_eq!(Language::from_str("PYTHON"), Some(Language::Python));
    assert_eq!(Language::from_str("C++"), Some(Language::Cpp));
    assert_eq!(Language::from_str("golang"), Some(Language::Go));
    assert_eq!(Language::from_str("ts"), Some(Language::TypeScript));
    assert_eq!(Language::from_str(""), None);
}

#[test]
fn test_simple_ast_positions_and_trimming() {
    let mut parser = MultiLanguageParser::new();
    let result = parser.parse(Language::Rust, "  a = 1  \n\n\tb\r\nc").unwrap();
    let ast = result.ast();
    assert_eq!(ast.node_type(), "rust_module");
    assert_eq!(result.line_count(), 4);
    assert_eq!(result.character_count(), 16);
    let children = ast.children();
    assert_eq!(children.len(), 3);
    assert_eq!(children[0].text(), "a = 1");
    assert_eq!((children[0].start_position, children[0].end_position), (0, 9));
    assert_eq!(children[1].text(), "b");
    assert_eq!((children[1].start_position, children[1].end_position), (200, 202));
    assert_eq!(children[2].text(), "c");
    assert_eq!((children[2].start_position, children[2].end_position), (300, 301));
    assert_eq!((ast.start_position, ast.end_position), (0, 301));
}

#[test]
fn test_match_patterns_preorder_and_metavars() {
    let matcher = PatternMatcher::new(Language::Python);
    let ast = ASTNode::new_internal(
        "module".to_string(),
        vec![
            ASTNode::new_leaf("s".to_string(), "db.execute(q)".to_string(), 0, 13),
            ASTNode::new_leaf("s".to_string(), "print(x)".to_string(), 100, 108),
            ASTNode::new_leaf("s".to_string(), "cur.execute(y)".to_string(), 200, 214),
        ],
    );
    let patterns = vec![Pattern { pattern: "  execute( ".to_string(), message: "m".to_string() }];
    let matches = matcher.match_patterns(&ast, &patterns).unwrap();
    assert_eq!(matches.len(), 2);
    assert_eq!(matches[0].matched_text(), "db.execute(q)");
    assert_eq!(matches[1].start_position, 200);

    let patterns = vec![Pattern { pattern: "$DB.execute($Q)".to_string(), message: "m".to_string() }];
    let ast = ASTNode::new_leaf("s".to_string(), "x.execute(y)".to_string(), 0, 12);
    let matches = matcher.match_patterns(&ast, &patterns).unwrap();
    assert_eq!(matches.len(), 0);
    let patterns = vec![Pattern { pattern: "$DB = $Q".to_string(), message: "m".to_string() }];
    let ast = ASTNode::new_leaf("s".to_string(), "v = $DB = $Q;".to_string(), 0, 13);
    let matches = matcher.match_patterns(&ast, &patterns).unwrap();
    assert_eq!(matches.len(), 1);
    let names: Vec<&str> = matches[0].metavars().iter().map(|m| m.name.as_str()).collect();
    assert_eq!(names, vec!["DB", "Q"]);
    assert_eq!(matches[0].get_metavar("Q").unwrap().value, "v = $DB = $Q;");
    assert_eq!(matches[0].metavars()[0].node.end_position, 13);
    assert!(matches[0].get_metavar("X").is_none());
}

#[test]
fn test_where_clause_negation_parity() {
    let matcher = PatternMatcher::new(Language::Python);
    let m = Match::new(
        Pattern { pattern: "x".to_string(), message: "m".to_string() },
        0,
        1,
        "x".to_string(),
        vec![MetavarBinding {
            name: "V".to_string(),
            value: "x".to_string(),
            node: ASTNode::new_leaf("metavar".to_string(), "x".to_string(), 0, 1),
        }],
    );
    let plain = WhereClause { metavariable: None, pattern: None, not: None };
    let negated = WhereClause { metavariable: None, pattern: None, not: Some(Box::new(WhereClause { metavariable: None, pattern: None, not: None })) };
    let double = WhereClause { metavariable: None, pattern: None, not: Some(Box::new(WhereClause { metavariable: None, pattern: None, not: Some(Box::new(WhereClause { metavariable: None, pattern: None, not: None })) })) };
    let ms = vec![m.clone(), m];
    assert_eq!(matcher.apply_where_clause(&ms, &plain).len(), 2);
    assert_eq!(matcher.apply_where_clause(&ms, &negated).len(), 0);
    let kept = matcher.apply_where_clause(&ms, &double);
    assert_eq!(kept.len(), 2);
    assert_eq!(kept[1].metavars[0].node.text, "x");
}

#[test]
fn test_warm_up_every_language() {
    let mut parser = MultiLanguageParser::default();
    for l in Language::all_languages() {
        assert!(parser.warm_up(l).is_ok());
    }
    assert_eq!(parser.get_metrics().ast_nodes, 0);
    let _ = TestCase { name: "n".to_string(), code: "c".to_string(), should_match: true };
    let _ = RuleSet::default();
}

#[test]
fn test_metavar_extraction() {
    let matcher = PatternMatcher::new(Language::Python);

    let pattern = Pattern { pattern: "$VAR = $VALUE".to_string(), message: "Assignment".to_string() };

    let metavars = matcher.extract_metavariables(&pattern, "x = 42");
    assert!(!metavars.is_empty(), "Should extract metavariables");
    assert!(metavars.iter().any(|m| m.name == "VAR"));
    assert!(metavars.iter().any(|m| m.name == "VALUE"));
}

#[test]
fn matches_become_code_smell_facts() {
    let matcher = PatternMatcher::new(Language::Python);
    let pattern = Pattern { pattern: "eval".to_string(), message: "m".to_string() };
    let m = Match::new(pattern, 0, 4, "eval".to_string(), vec![]);
    let mut rule = Rule {
        id: "R-1".to_string(),
        metadata: None,
        languages: vec![],
        patterns: vec![],
        where_clause: None,
        fix: None,
        tests: None,
    };
    let facts = matcher.matches_to_facts(&[m], &rule);
    assert_eq!(facts.len(), 1);
    match &facts[0].fact_type {
        FactType::CodeSmell { smell_type, severity } => {
            assert_eq!(smell_type, "custom");
            assert_eq!(*severity, Severity::Minor);
        }
        _ => panic!("expected a code smell"),
    }
    assert_eq!(facts[0].provenance.version, "R-1");
    assert_eq!(facts[0].provenance.extractor, ExtractorId::Custom);
    assert_eq!(facts[0].provenance.confidence, Confidence::Score(800));
    rule.metadata = Some(RuleMetadata {
        name: "n".to_string(),
        description: None,
        severity: "major".to_string(),
        confidence: "high".to_string(),
        category: Some("security".to_string()),
        cwe: None,
        owasp: None,
    });
    let m2 = Match::new(Pattern { pattern: "x".to_string(), message: "m".to_string() }, 0, 1, "x".to_string(), vec![]);
    let facts = matcher.matches_to_facts(&[m2], &rule);
    assert!(matches!(&facts[0].fact_type, FactType::CodeSmell { smell_type, .. } if smell_type == "security"));
}

#[test]
fn parse_error_texts() {
    let placed = ParseError { message: "bad".to_string(), line: Some(3), column: Some(14) };
    assert_eq!(placed.to_string(), "Parse error at 3:14 - bad");
    let plain = ParseError { message: "bad".to_string(), line: Some(3), column: None };
    assert_eq!(plain.to_string(), "Parse error: bad");
}
