use hodei_scan::declarative::lsp::handlers::{
    CodeActionHandler, CompletionHandler, CompletionItemKind, DiagnosticHandler,
    DiagnosticSeverity, HoverHandler, InsertTextFormat, SymbolHandler, TemplateHandler,
};
use hodei_scan::declarative::lsp::utils::{
    byte_offset_to_line_column, byte_offset_to_position, extract_languages, extract_rule_id,
    format_severity, get_text_in_range, get_yaml_trigger_characters, is_position_in_range,
    parse_yaml_document, position_to_byte_offset, Position, Range,
};

#[test]
fn offsets_and_positions_round_trip() {
    let content = "ab\ncde\nf";
    assert_eq!(byte_offset_to_position(content, 0), Position::new(0, 0));
    assert_eq!(byte_offset_to_position(content, 2), Position::new(0, 2));
    assert_eq!(byte_offset_to_position(content, 3), Position::new(1, 0));
    assert_eq!(byte_offset_to_position(content, 5), Position::new(1, 2));
    assert_eq!(byte_offset_to_position(content, 7), Position::new(2, 0));
    // Past the last line.
    assert_eq!(byte_offset_to_position(content, 100), Position::new(0, 0));
    assert_eq!(byte_offset_to_line_column(content, 5), (1, 2));

    assert_eq!(position_to_byte_offset(content, Position::new(1, 2)), 5);
    assert_eq!(position_to_byte_offset(content, Position::new(2, 0)), 7);
    assert_eq!(position_to_byte_offset(content, Position::new(9, 0)), content.len());
    // Multi-byte characters count by their bytes.
    assert_eq!(byte_offset_to_position("é\nx", 3), Position::new(1, 0));
}

#[test]
fn positions_in_ranges() {
    let r = Range::new(Position::new(1, 4), Position::new(3, 2));
    assert!(is_position_in_range(Position::new(1, 4), r));
    assert!(is_position_in_range(Position::new(2, 0), r));
    assert!(is_position_in_range(Position::new(3, 2), r));
    assert!(!is_position_in_range(Position::new(1, 3), r));
    assert!(!is_position_in_range(Position::new(3, 3), r));
    assert!(!is_position_in_range(Position::new(0, 9), r));
    assert!(!is_position_in_range(Position::new(4, 0), r));
}

#[test]
fn text_of_ranges() {
    let content = "hello world\nsecond line\nthird";
    let one = Range::new(Position::new(0, 6), Position::new(0, 11));
    assert_eq!(get_text_in_range(content, one), "world");
    let many = Range::new(Position::new(0, 6), Position::new(2, 3));
    assert_eq!(get_text_in_range(content, many), "world\nsecond line\nthi");
    let two = Range::new(Position::new(1, 7), Position::new(2, 0));
    assert_eq!(get_text_in_range(content, two), "line\n");
}

#[test]
fn severities_are_labelled() {
    assert_eq!(format_severity("info"), "ℹ Info");
    assert_eq!(format_severity("Minor"), "⚠ Minor");
    assert_eq!(format_severity("MAJOR"), "⚠ Major");
    assert_eq!(format_severity("critical"), "🔴 Critical");
    assert_eq!(format_severity("blocker"), "⛔ Blocker");
    assert_eq!(format_severity("unknown"), "unknown");
}

#[test]
fn trigger_characters() {
    assert_eq!(get_yaml_trigger_characters(), vec!["\"", ":", "-", "$", "[", "{"]);
}

#[test]
fn completions_follow_the_line() {
    let h = CompletionHandler::new();
    let doc = "  rule:\nmetadata: x\nlanguages: []\n  - pattern: a\nother";
    let rule = h.get_completions(doc, Position::new(0, 0)).unwrap();
    assert_eq!(rule.len(), 3);
    assert_eq!(rule[0].label, "metadata:");
    assert_eq!(rule[0].kind, Some(CompletionItemKind::Field));
    assert_eq!(rule[0].insert_text_format, Some(InsertTextFormat::Snippet));
    let meta = h.get_completions(doc, Position::new(1, 0)).unwrap();
    assert_eq!(meta.len(), 2);
    assert_eq!(meta[1].label, "severity:");
    let langs = h.get_completions(doc, Position::new(2, 0)).unwrap();
    assert_eq!(langs.len(), 4);
    assert_eq!(langs[3].label, "\"rust\"");
    assert_eq!(langs[3].insert_text, Some("\"rust\"".to_string()));
    let vars = h.get_completions(doc, Position::new(3, 0)).unwrap();
    assert_eq!(vars.len(), 2);
    assert_eq!(vars[1].label, "$VAR");
    assert!(h.get_completions(doc, Position::new(4, 0)).unwrap().is_empty());
    assert!(h.get_completions(doc, Position::new(9, 0)).unwrap().is_empty());
}

#[test]
fn hover_names_sections() {
    let h = HoverHandler::default();
    let doc = "metadata:\npatterns:\nlanguages:\nid: x";
    assert_eq!(
        h.get_hover(doc, Position::new(0, 0)).unwrap().unwrap().contents,
        "**metadata:** Rule metadata section"
    );
    assert_eq!(
        h.get_hover(doc, Position::new(1, 0)).unwrap().unwrap().contents,
        "**patterns:** Code patterns to match"
    );
    assert!(h.get_hover(doc, Position::new(3, 0)).unwrap().is_none());
    assert!(h.get_hover(doc, Position::new(7, 0)).unwrap().is_none());
}

#[test]
fn diagnostics_of_rule_documents() {
    let h = DiagnosticHandler::new();
    assert!(h.validate_yaml("rule:\n  id: R1\n").unwrap().is_empty());
    let missing = h.validate_yaml("rule:\n  languages: [python]\n").unwrap();
    assert_eq!(missing.len(), 1);
    assert_eq!(missing[0].message, "Required field 'id' is missing");
    assert_eq!(missing[0].severity, Some(DiagnosticSeverity::Error));
    let broken = h.validate_yaml("rule: [unclosed").unwrap();
    assert_eq!(broken.len(), 1);
    assert!(broken[0].message.starts_with("Invalid YAML: "));
    assert!(h.validate_yaml("other: 1").unwrap().is_empty());
}

#[test]
fn symbols_and_fields_of_rules() {
    let doc = "rule:\n  id: R1\n  languages: [python, 3, js]\n  patterns: []\n";
    let syms = SymbolHandler::new().get_document_symbols(doc).unwrap();
    let names: Vec<&str> = syms.iter().map(|s| s.name.as_str()).collect();
    assert_eq!(names, vec!["id", "languages", "patterns"]);
    assert!(SymbolHandler::new().get_document_symbols("rule: [").unwrap().is_empty());

    let yaml = parse_yaml_document(doc).unwrap();
    assert_eq!(extract_rule_id(&yaml), Some("R1".to_string()));
    assert_eq!(extract_languages(&yaml), Some(vec!["python".to_string(), "js".to_string()]));
    let no_rule = parse_yaml_document("x: 1").unwrap();
    assert_eq!(extract_rule_id(&no_rule), None);
    assert_eq!(extract_languages(&no_rule), None);
    assert!(parse_yaml_document("a: [").unwrap_err().starts_with("YAML parse error: "));
}

#[test]
fn actions_and_templates() {
    let actions = CodeActionHandler::new().get_code_actions("anything").unwrap();
    assert_eq!(actions.len(), 1);
    assert_eq!(actions[0].title, "Add fix suggestion");
    assert_eq!(actions[0].is_preferred, Some(true));
    let templates = TemplateHandler::new().get_rule_templates().unwrap();
    assert_eq!(templates.len(), 1);
    assert_eq!(templates[0].label, "OWASP A01 Template");
    assert!(templates[0].insert_text.as_ref().unwrap().contains("OWASP-A01"));
}
