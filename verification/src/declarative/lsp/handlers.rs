//! Handlers of the language server: completion, diagnostics, hover help,
//! document symbols, code actions and rule templates.
use vstd::prelude::*;
use super::utils::{Position, Range};
use super::yaml::{as_str, get, parse_yaml, untag, untagged, yaml_document, yaml_get, yaml_str, YamlValue};
use crate::text::chars::{chars_of, is_whitespace, trim_start, white_space, lemma_trim_start_skip};
use crate::text::lines::{line_texts, lines, lines_of};
use crate::text::search::{contains, contains_text};

verus! {

/// Kind of a completion item.
#[derive(Debug, Clone, Copy, PartialEq, Eq, Structural)]
pub enum CompletionItemKind {
    Field,
    Property,
    Constant,
    Variable,
    Snippet,
}

/// How the text of a completion item is inserted.
#[derive(Debug, Clone, Copy, PartialEq, Eq, Structural)]
pub enum InsertTextFormat {
    PlainText,
    Snippet,
}

/// A completion item.
#[derive(Debug)]
pub struct CompletionItem {
    pub label: String,
    pub kind: Option<CompletionItemKind>,
    pub detail: Option<String>,
    pub insert_text: Option<String>,
    pub insert_text_format: Option<InsertTextFormat>,
}

/// A completion item seen as texts.
pub struct CompletionView {
    pub label: Seq<char>,
    pub kind: Option<CompletionItemKind>,
    pub detail: Option<Seq<char>>,
    pub insert_text: Option<Seq<char>>,
    pub insert_text_format: Option<InsertTextFormat>,
}

/// The view of an optional string.
pub open spec fn opt_text_view(o: Option<String>) -> Option<Seq<char>> {
    match o {
        Some(s) => Some(s@),
        None => None,
    }
}

impl View for CompletionItem {
    type V = CompletionView;

    open spec fn view(&self) -> CompletionView {
        CompletionView {
            label: self.label@,
            kind: self.kind,
            detail: opt_text_view(self.detail),
            insert_text: opt_text_view(self.insert_text),
            insert_text_format: self.insert_text_format,
        }
    }
}

/// The views of completion items.
pub open spec fn completion_views(v: Seq<CompletionItem>) -> Seq<CompletionView> {
    v.map_values(|c: CompletionItem| c@)
}

/// A completion item for a snippet.
pub open spec fn snippet_item(label: Seq<char>, kind: CompletionItemKind, detail: Seq<char>, insert: Seq<char>) -> CompletionView {
    CompletionView {
        label,
        kind: Some(kind),
        detail: Some(detail),
        insert_text: Some(insert),
        insert_text_format: Some(InsertTextFormat::Snippet),
    }
}

/// A completion item that inserts its label.
pub open spec fn plain_item(label: Seq<char>, kind: CompletionItemKind) -> CompletionView {
    CompletionView { label, kind: Some(kind), detail: None, insert_text: Some(label), insert_text_format: None }
}

/// The fields of a rule.
pub open spec fn rule_field_completions() -> Seq<CompletionView> {
    seq![
        snippet_item("metadata:"@, CompletionItemKind::Field, "Rule metadata section"@, "metadata:\n  description: \"$1\""@),
        snippet_item("languages:"@, CompletionItemKind::Field, "Supported programming languages"@, "languages: [\"$1\"]"@),
        snippet_item("patterns:"@, CompletionItemKind::Field, "List of patterns to match"@, "patterns:\n  - pattern: |\n      $X = $Y"@),
    ]
}

/// The fields of rule metadata.
pub open spec fn metadata_completions() -> Seq<CompletionView> {
    seq![
        snippet_item("description:"@, CompletionItemKind::Property, "Human-readable description"@, "description: \"$1\""@),
        snippet_item("severity:"@, CompletionItemKind::Property, "Severity level"@, "severity: \"$1\""@),
    ]
}

/// The languages offered for a rule.
pub open spec fn language_completions() -> Seq<CompletionView> {
    seq![
        plain_item("\"python\""@, CompletionItemKind::Constant),
        plain_item("\"javascript\""@, CompletionItemKind::Constant),
        plain_item("\"typescript\""@, CompletionItemKind::Constant),
        plain_item("\"rust\""@, CompletionItemKind::Constant),
    ]
}

/// The metavariables offered in a pattern.
pub open spec fn metavariable_completions() -> Seq<CompletionView> {
    seq![plain_item("$X"@, CompletionItemKind::Variable), plain_item("$VAR"@, CompletionItemKind::Variable)]
}

/// Whether `s` starts with `prefix`.
pub open spec fn starts_with(s: Seq<char>, prefix: Seq<char>) -> bool {
    prefix.len() <= s.len() && s.take(prefix.len() as int) == prefix
}

/// The completions for a line of a rule document: rule fields after
/// `rule:`, metadata fields on a `metadata:` line, languages on a
/// `languages:` line, metavariables on a `pattern:` line.
pub open spec fn line_completions(line: Seq<char>) -> Seq<CompletionView> {
    if starts_with(trim_start(line), "rule:"@) {
        rule_field_completions()
    } else if contains_text(line, "metadata:"@) {
        metadata_completions()
    } else if contains_text(line, "languages:"@) {
        language_completions()
    } else if contains_text(line, "pattern:"@) {
        metavariable_completions()
    } else {
        Seq::empty()
    }
}

fn snippet(label: &str, kind: CompletionItemKind, detail: &str, insert: &str) -> (c: CompletionItem)
    ensures
        c@ == snippet_item(label@, kind, detail@, insert@),
{
    CompletionItem {
        label: String::from_str(label),
        kind: Some(kind),
        detail: Some(String::from_str(detail)),
        insert_text: Some(String::from_str(insert)),
        insert_text_format: Some(InsertTextFormat::Snippet),
    }
}

fn plain(label: &str, kind: CompletionItemKind) -> (c: CompletionItem)
    ensures
        c@ == plain_item(label@, kind),
{
    CompletionItem {
        label: String::from_str(label),
        kind: Some(kind),
        detail: None,
        insert_text: Some(String::from_str(label)),
        insert_text_format: None,
    }
}

fn starts_after_space(line: &str, prefix: &str) -> (b: bool)
    ensures
        b == starts_with(trim_start(line@), prefix@),
{
    let cs = chars_of(line);
    let ps = chars_of(prefix);
    let n = cs.len();
    let mut a: usize = 0;
    while a < n && is_whitespace(cs[a])
        invariant
            a <= n == cs@.len(),
            forall|j: int| 0 <= j < a ==> white_space(#[trigger] cs@[j]),
        decreases n - a,
    {
        a = a + 1;
    }
    proof {
        lemma_trim_start_skip(cs@, a as int);
        if a < n {
            assert(!white_space(cs@.skip(a as int)[0]));
        }
    }
    let ghost t = cs@.skip(a as int);
    assert(trim_start(line@) == t);
    let m = ps.len();
    assert(t.len() == n - a);
    assert(ps@ == prefix@);
    if n - a < m {
        assert(prefix@.len() > t.len());
        assert(!starts_with(t, prefix@));
        return false;
    }
    let mut j: usize = 0;
    while j < m
        invariant
            j <= m == ps@.len(),
            a + m <= n == cs@.len(),
            t == cs@.skip(a as int),
            trim_start(line@) == t,
            ps@ == prefix@,
            forall|k: int| 0 <= k < j ==> t[k] == ps@[k],
        decreases m - j,
    {
        if cs[a + j] != ps[j] {
            assert(t.take(m as int)[j as int] != ps@[j as int]);
            return false;
        }
        j = j + 1;
    }
    assert(t.take(m as int) =~= ps@);
    true
}

/// Completion handler.
#[derive(Debug, Clone, Copy)]
pub struct CompletionHandler;

impl CompletionHandler {
    /// A completion handler.
    pub fn new() -> (h: Self) {
        CompletionHandler
    }

    /// The completions at a position of a document, after what its line
    /// holds; none past the last line.
    pub fn get_completions(&self, document: &str, position: Position) -> (r: Result<Vec<CompletionItem>, String>)
        ensures
            r matches Ok(items) && completion_views(items@) == if position.line < lines_of(document@).len() {
                line_completions(lines_of(document@)[position.line as int])
            } else {
                Seq::empty()
            },
    {
        let ls = lines(document);
        let ghost lv = lines_of(document@);
        assert(ls@.len() == lv.len());
        if position.line as usize >= ls.len() {
            let v: Vec<CompletionItem> = Vec::new();
            assert(completion_views(v@) =~= Seq::empty());
            return Ok(v);
        }
        let line = ls[position.line as usize].as_str();
        assert(line@ == lv[position.line as int]);
        let items: Vec<CompletionItem> = if starts_after_space(line, "rule:") {
            self.get_rule_field_completions()
        } else if contains(line, "metadata:") {
            self.get_metadata_completions()
        } else if contains(line, "languages:") {
            self.get_language_completions()
        } else if contains(line, "pattern:") {
            self.get_metavariable_completions()
        } else {
            let v: Vec<CompletionItem> = Vec::new();
            assert(completion_views(v@) =~= Seq::empty());
            v
        };
        assert(completion_views(items@) =~= line_completions(line@));
        Ok(items)
    }

    /// The fields of a rule.
    fn get_rule_field_completions(&self) -> (r: Vec<CompletionItem>)
        ensures
            completion_views(r@) == rule_field_completions(),
    {
        let r = vec![
            snippet("metadata:", CompletionItemKind::Field, "Rule metadata section", "metadata:\n  description: \"$1\""),
            snippet("languages:", CompletionItemKind::Field, "Supported programming languages", "languages: [\"$1\"]"),
            snippet("patterns:", CompletionItemKind::Field, "List of patterns to match", "patterns:\n  - pattern: |\n      $X = $Y"),
        ];
        assert(completion_views(r@) =~= rule_field_completions());
        r
    }

    /// The fields of rule metadata.
    fn get_metadata_completions(&self) -> (r: Vec<CompletionItem>)
        ensures
            completion_views(r@) == metadata_completions(),
    {
        let r = vec![
            snippet("description:", CompletionItemKind::Property, "Human-readable description", "description: \"$1\""),
            snippet("severity:", CompletionItemKind::Property, "Severity level", "severity: \"$1\""),
        ];
        assert(completion_views(r@) =~= metadata_completions());
        r
    }

    /// The languages offered for a rule.
    fn get_language_completions(&self) -> (r: Vec<CompletionItem>)
        ensures
            completion_views(r@) == language_completions(),
    {
        let r = vec![
            plain("\"python\"", CompletionItemKind::Constant),
            plain("\"javascript\"", CompletionItemKind::Constant),
            plain("\"typescript\"", CompletionItemKind::Constant),
            plain("\"rust\"", CompletionItemKind::Constant),
        ];
        assert(completion_views(r@) =~= language_completions());
        r
    }

    /// The metavariables offered in a pattern.
    fn get_metavariable_completions(&self) -> (r: Vec<CompletionItem>)
        ensures
            completion_views(r@) == metavariable_completions(),
    {
        let r = vec![plain("$X", CompletionItemKind::Variable), plain("$VAR", CompletionItemKind::Variable)];
        assert(completion_views(r@) =~= metavariable_completions());
        r
    }
}

impl Default for CompletionHandler {
    fn default() -> (h: Self) {
        CompletionHandler::new()
    }
}

/// Severity of a diagnostic.
#[derive(Debug, Clone, Copy, PartialEq, Eq, Structural)]
pub enum DiagnosticSeverity {
    Error,
    Warning,
    Information,
    Hint,
}

/// A problem found in a document.
#[derive(Debug)]
pub struct Diagnostic {
    pub range: Range,
    pub severity: Option<DiagnosticSeverity>,
    pub message: String,
}

/// The messages of the problems of a rule document: the parser's error, or
/// a missing `id` in its `rule` section.
pub open spec fn document_problems(document: Seq<char>) -> Seq<Seq<char>> {
    match yaml_document(document) {
        Ok(v) => match yaml_get(v, "rule"@) {
            Some(rule) => if yaml_get(rule, "id"@) is None {
                seq!["Required field 'id' is missing"@]
            } else {
                Seq::empty()
            },
            None => Seq::empty(),
        },
        Err(e) => seq!["Invalid YAML: "@ + e],
    }
}

/// The empty range at the start of a document.
pub open spec fn zero_range() -> Range {
    Range { start: Position { line: 0, character: 0 }, end: Position { line: 0, character: 0 } }
}

/// A diagnostic at the start of the document.
pub open spec fn is_start_error(d: Diagnostic, message: Seq<char>) -> bool {
    &&& d.range == zero_range()
    &&& d.severity == Some(DiagnosticSeverity::Error)
    &&& d.message@ == message
}

fn start_error(message: String) -> (d: Diagnostic)
    ensures
        is_start_error(d, message@),
{
    Diagnostic {
        range: Range::new(Position::new(0, 0), Position::new(0, 0)),
        severity: Some(DiagnosticSeverity::Error),
        message,
    }
}

/// Diagnostic handler.
#[derive(Debug, Clone, Copy)]
pub struct DiagnosticHandler;

impl DiagnosticHandler {
    /// A diagnostic handler.
    pub fn new() -> (h: Self) {
        DiagnosticHandler
    }

    /// The problems of a rule document, each as an error at its start.
    pub fn validate_yaml(&self, document: &str) -> (r: Result<Vec<Diagnostic>, String>)
        ensures
            r matches Ok(ds) && ds@.len() == document_problems(document@).len() && forall|k: int|
                0 <= k < ds@.len() ==> is_start_error(#[trigger] ds@[k], document_problems(document@)[k]),
    {
        let mut diagnostics: Vec<Diagnostic> = Vec::new();
        match parse_yaml(document) {
            Ok(value) => {
                if let Some(rule) = get(&value, "rule") {
                    if get(rule, "id").is_none() {
                        diagnostics.push(start_error(String::from_str("Required field 'id' is missing")));
                    }
                }
            },
            Err(e) => {
                diagnostics.push(start_error(String::from_str("Invalid YAML: ").concat(e.as_str())));
            },
        }
        Ok(diagnostics)
    }
}

impl Default for DiagnosticHandler {
    fn default() -> (h: Self) {
        DiagnosticHandler::new()
    }
}

/// Hover help.
#[derive(Debug)]
pub struct Hover {
    /// Markdown text
    pub contents: String,
    pub range: Option<Range>,
}

/// The help for a line of a rule document, if it names a section.
pub open spec fn line_help(line: Seq<char>) -> Option<Seq<char>> {
    if contains_text(line, "metadata"@) {
        Some("**metadata:** Rule metadata section"@)
    } else if contains_text(line, "patterns"@) {
        Some("**patterns:** Code patterns to match"@)
    } else if contains_text(line, "languages"@) {
        Some("**languages:** Supported languages"@)
    } else {
        None
    }
}

/// Hover handler.
#[derive(Debug, Clone, Copy)]
pub struct HoverHandler;

impl HoverHandler {
    /// A hover handler.
    pub fn new() -> (h: Self) {
        HoverHandler
    }

    /// The help for the section that the line of a position names.
    pub fn get_hover(&self, document: &str, position: Position) -> (r: Result<Option<Hover>, String>)
        ensures
            r matches Ok(h) && match h {
                Some(hv) => position.line < lines_of(document@).len() && line_help(
                    lines_of(document@)[position.line as int],
                ) == Some(hv.contents@) && hv.range is None,
                None => position.line >= lines_of(document@).len() || line_help(
                    lines_of(document@)[position.line as int],
                ) is None,
            },
    {
        let ls = lines(document);
        let ghost lv = lines_of(document@);
        assert(ls@.len() == lv.len());
        if position.line as usize >= ls.len() {
            return Ok(None);
        }
        let line = ls[position.line as usize].as_str();
        assert(line@ == lv[position.line as int]);
        let contents = if contains(line, "metadata") {
            String::from_str("**metadata:** Rule metadata section")
        } else if contains(line, "patterns") {
            String::from_str("**patterns:** Code patterns to match")
        } else if contains(line, "languages") {
            String::from_str("**languages:** Supported languages")
        } else {
            return Ok(None);
        };
        Ok(Some(Hover { contents, range: None }))
    }
}

impl Default for HoverHandler {
    fn default() -> (h: Self) {
        HoverHandler::new()
    }
}

/// Kind of a document symbol.
#[derive(Debug, Clone, Copy, PartialEq, Eq, Structural)]
pub enum SymbolKind {
    Field,
}

/// A symbol of a document.
#[derive(Debug)]
pub struct DocumentSymbol {
    pub name: String,
    pub kind: SymbolKind,
    pub range: Range,
    pub selection_range: Range,
}

/// The string keys among mapping entries, in order.
pub open spec fn string_keys(es: Seq<(YamlValue, YamlValue)>) -> Seq<Seq<char>>
    decreases es.len(),
{
    if es.len() == 0 {
        Seq::empty()
    } else {
        let prev = string_keys(es.drop_last());
        match yaml_str(es.last().0) {
            Some(k) => prev.push(k),
            None => prev,
        }
    }
}

/// The names of the symbols of a rule document: the string keys of its
/// `rule` mapping, in order; none where it cannot be parsed.
pub open spec fn document_symbol_names(document: Seq<char>) -> Seq<Seq<char>> {
    match yaml_document(document) {
        Ok(v) => match yaml_get(v, "rule"@) {
            Some(rule) => match untag(rule) {
                YamlValue::Mapping(es) => string_keys(es@),
                _ => Seq::empty(),
            },
            None => Seq::empty(),
        },
        Err(_) => Seq::empty(),
    }
}

/// The names of symbols.
pub open spec fn symbol_names(v: Seq<DocumentSymbol>) -> Seq<Seq<char>> {
    v.map_values(|s: DocumentSymbol| s.name@)
}

/// Symbol handler.
#[derive(Debug, Clone, Copy)]
pub struct SymbolHandler;

impl SymbolHandler {
    /// A symbol handler.
    pub fn new() -> (h: Self) {
        SymbolHandler
    }

    /// The fields of the `rule` section of a document, as symbols.
    pub fn get_document_symbols(&self, document: &str) -> (r: Result<Vec<DocumentSymbol>, String>)
        ensures
            r matches Ok(syms) && symbol_names(syms@) == document_symbol_names(document@) && forall|k: int|
                0 <= k < syms@.len() ==> (#[trigger] syms@[k]).kind == SymbolKind::Field && syms@[k].range
                    == zero_range() && syms@[k].selection_range == zero_range(),
    {
        let mut symbols: Vec<DocumentSymbol> = Vec::new();
        if let Ok(value) = parse_yaml(document) {
            if let Some(rule) = get(&value, "rule") {
                if let YamlValue::Mapping(es) = untagged(rule) {
                    for i in 0..es.len()
                        invariant
                            symbol_names(symbols@) == string_keys(es@.take(i as int)),
                            forall|k: int|
                                0 <= k < symbols@.len() ==> (#[trigger] symbols@[k]).kind == SymbolKind::Field
                                    && symbols@[k].range == zero_range() && symbols@[k].selection_range
                                    == zero_range(),
                    {
                        assert(es@.take(i + 1).drop_last() =~= es@.take(i as int));
                        let ghost before = symbols@;
                        if let Some(key) = as_str(&es[i].0) {
                            let s = DocumentSymbol {
                                name: String::from_str(key),
                                kind: SymbolKind::Field,
                                range: Range::new(Position::new(0, 0), Position::new(0, 0)),
                                selection_range: Range::new(Position::new(0, 0), Position::new(0, 0)),
                            };
                            symbols.push(s);
                            assert(symbol_names(symbols@) =~= symbol_names(before).push(key@));
                        }
                    }
                    assert(es@.take(es@.len() as int) =~= es@);
                    return Ok(symbols);
                }
            }
        }
        assert(symbol_names(symbols@) =~= Seq::empty());
        Ok(symbols)
    }
}

impl Default for SymbolHandler {
    fn default() -> (h: Self) {
        SymbolHandler::new()
    }
}

/// Kind of a code action.
#[derive(Debug, Clone, Copy, PartialEq, Eq, Structural)]
pub enum CodeActionKind {
    QuickFix,
}

/// A code action.
#[derive(Debug)]
pub struct CodeAction {
    pub title: String,
    pub kind: Option<CodeActionKind>,
    pub is_preferred: Option<bool>,
}

/// Code action handler.
#[derive(Debug, Clone, Copy)]
pub struct CodeActionHandler;

impl CodeActionHandler {
    /// A code action handler.
    pub fn new() -> (h: Self) {
        CodeActionHandler
    }

    /// The code actions for a document: a preferred quick fix that adds a
    /// fix suggestion, whatever the document.
    pub fn get_code_actions(&self, document: &str) -> (r: Result<Vec<CodeAction>, String>)
        ensures
            r matches Ok(actions) && actions@.len() == 1 && actions@[0].title@ == "Add fix suggestion"@
                && actions@[0].kind == Some(CodeActionKind::QuickFix) && actions@[0].is_preferred == Some(true),
    {
        Ok(
            vec![
                CodeAction {
                    title: String::from_str("Add fix suggestion"),
                    kind: Some(CodeActionKind::QuickFix),
                    is_preferred: Some(true),
                },
            ],
        )
    }
}

impl Default for CodeActionHandler {
    fn default() -> (h: Self) {
        CodeActionHandler::new()
    }
}

/// The rule template offered for OWASP A01.
pub open spec fn owasp_a01_template() -> Seq<char> {
    "rule:\n  id: \"OWASP-A01\"\n  metadata:\n    description: \"Broken Access Control\"\n    severity: \"CRITICAL\"\n  languages: [\"python\"]\n  patterns:\n    - pattern: |\n        $MODEL.get($X)"@
}

/// Template handler.
#[derive(Debug, Clone, Copy)]
pub struct TemplateHandler;

impl TemplateHandler {
    /// A template handler.
    pub fn new() -> (h: Self) {
        TemplateHandler
    }

    /// The rule templates: one for OWASP A01.
    pub fn get_rule_templates(&self) -> (r: Result<Vec<CompletionItem>, String>)
        ensures
            r matches Ok(items) && completion_views(items@) == seq![
                snippet_item("OWASP A01 Template"@, CompletionItemKind::Snippet, "OWASP A01 vulnerability"@, owasp_a01_template()),
            ],
    {
        let items = vec![
            snippet(
                "OWASP A01 Template",
                CompletionItemKind::Snippet,
                "OWASP A01 vulnerability",
                "rule:\n  id: \"OWASP-A01\"\n  metadata:\n    description: \"Broken Access Control\"\n    severity: \"CRITICAL\"\n  languages: [\"python\"]\n  patterns:\n    - pattern: |\n        $MODEL.get($X)",
            ),
        ];
        assert(completion_views(items@) =~= seq![
            snippet_item("OWASP A01 Template"@, CompletionItemKind::Snippet, "OWASP A01 vulnerability"@, owasp_a01_template()),
        ]);
        Ok(items)
    }
}

impl Default for TemplateHandler {
    fn default() -> (h: Self) {
        TemplateHandler::new()
    }
}

} // verus!
