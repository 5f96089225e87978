//! Multi-language parser front end: supported languages, the AST model and
//! the line-based parser.
use vstd::prelude::*;
use vstd::utf8::encode_utf8;
use super::errors::DeclarativeExtractorError;
use crate::text::chars::{ascii_lower_char, ascii_text, chars_of, lowercase, text_is, to_lowercase, trim, trim_bounds};
use crate::text::lines::{line_texts, lines, lines_of};
use crate::text::number::{decimal, decimal_text};

verus! {

/// Supported programming languages.
#[derive(Debug, Clone, Copy, PartialEq, Eq, Hash, Structural)]
pub enum Language {
    Python,
    JavaScript,
    TypeScript,
    Rust,
    Go,
    Java,
    C,
    Cpp,
    Ruby,
    Php,
}

/// Name of a language, as rules write it.
pub open spec fn language_name(l: Language) -> Seq<char> {
    match l {
        Language::Python => "python"@,
        Language::JavaScript => "javascript"@,
        Language::TypeScript => "typescript"@,
        Language::Rust => "rust"@,
        Language::Go => "go"@,
        Language::Java => "java"@,
        Language::C => "c"@,
        Language::Cpp => "cpp"@,
        Language::Ruby => "ruby"@,
        Language::Php => "php"@,
    }
}

/// The language that a lowercase name or alias denotes.
pub open spec fn language_of_name(t: Seq<char>) -> Option<Language> {
    if t == "python"@ {
        Some(Language::Python)
    } else if t == "javascript"@ || t == "js"@ {
        Some(Language::JavaScript)
    } else if t == "typescript"@ || t == "ts"@ {
        Some(Language::TypeScript)
    } else if t == "rust"@ {
        Some(Language::Rust)
    } else if t == "go"@ || t == "golang"@ {
        Some(Language::Go)
    } else if t == "java"@ {
        Some(Language::Java)
    } else if t == "c"@ {
        Some(Language::C)
    } else if t == "cpp"@ || t == "c++"@ {
        Some(Language::Cpp)
    } else if t == "ruby"@ || t == "rb"@ {
        Some(Language::Ruby)
    } else if t == "php"@ {
        Some(Language::Php)
    } else {
        None
    }
}

/// Every language's own name is lowercase ASCII and reads back as that
/// language: `Language::from_str(l.name())` is `Some(l)`, in any letter case.
pub proof fn law_language_names_read_back(l: Language)
    ensures
        ascii_text(language_name(l)),
        language_name(l).map_values(|c: char| ascii_lower_char(c)) == language_name(l),
        language_of_name(language_name(l)) == Some(l),
{
    reveal_strlit("python");
    reveal_strlit("javascript");
    reveal_strlit("js");
    reveal_strlit("typescript");
    reveal_strlit("ts");
    reveal_strlit("rust");
    reveal_strlit("go");
    reveal_strlit("golang");
    reveal_strlit("java");
    reveal_strlit("c");
    reveal_strlit("cpp");
    reveal_strlit("c++");
    reveal_strlit("ruby");
    reveal_strlit("rb");
    reveal_strlit("php");
    assert("js"@[0] != "ts"@[0]);
    assert("js"@[0] != "go"@[0]);
    assert("js"@[0] != "rb"@[0]);
    assert("ts"@[0] != "go"@[0]);
    assert("ts"@[0] != "rb"@[0]);
    assert("go"@[0] != "rb"@[0]);
    assert("rust"@[0] != "java"@[0]);
    assert("rust"@[2] != "ruby"@[2]);
    assert("java"@[0] != "ruby"@[0]);
    assert("cpp"@[1] != "c++"@[1]);
    assert("cpp"@[0] != "php"@[0]);
    assert("c++"@[0] != "php"@[0]);
    assert("python"@[0] != "golang"@[0]);
    assert("javascript"@[0] != "typescript"@[0]);
    let n = language_name(l);
    assert(n.map_values(|c: char| ascii_lower_char(c)) =~= n);
}

/// Every supported language, in declaration order.
pub open spec fn every_language() -> Seq<Language> {
    seq![
        Language::Python,
        Language::JavaScript,
        Language::TypeScript,
        Language::Rust,
        Language::Go,
        Language::Java,
        Language::C,
        Language::Cpp,
        Language::Ruby,
        Language::Php,
    ]
}

impl Language {
    /// All supported languages.
    pub fn all_languages() -> (v: Vec<Language>)
        ensures
            v@ == every_language(),
    {
        let v = vec![
            Language::Python,
            Language::JavaScript,
            Language::TypeScript,
            Language::Rust,
            Language::Go,
            Language::Java,
            Language::C,
            Language::Cpp,
            Language::Ruby,
            Language::Php,
        ];
        assert(v@ =~= every_language());
        v
    }

    /// Name of the language, as rules write it.
    pub fn name(&self) -> (s: &'static str)
        ensures
            s@ == language_name(*self),
    {
        match self {
            Language::Python => "python",
            Language::JavaScript => "javascript",
            Language::TypeScript => "typescript",
            Language::Rust => "rust",
            Language::Go => "go",
            Language::Java => "java",
            Language::C => "c",
            Language::Cpp => "cpp",
            Language::Ruby => "ruby",
            Language::Php => "php",
        }
    }

    /// The language that a name or alias denotes, in any letter case.
    pub fn from_str(s: &str) -> (r: Option<Language>)
        ensures
            r == language_of_name(lowercase(s@)),
            ascii_text(s@) ==> lowercase(s@) == s@.map_values(|c: char| ascii_lower_char(c)),
    {
        let lower = to_lowercase(s);
        let t = lower.as_str();
        if text_is(t, "python") {
            Some(Language::Python)
        } else if text_is(t, "javascript") || text_is(t, "js") {
            Some(Language::JavaScript)
        } else if text_is(t, "typescript") || text_is(t, "ts") {
            Some(Language::TypeScript)
        } else if text_is(t, "rust") {
            Some(Language::Rust)
        } else if text_is(t, "go") || text_is(t, "golang") {
            Some(Language::Go)
        } else if text_is(t, "java") {
            Some(Language::Java)
        } else if text_is(t, "c") {
            Some(Language::C)
        } else if text_is(t, "cpp") || text_is(t, "c++") {
            Some(Language::Cpp)
        } else if text_is(t, "ruby") || text_is(t, "rb") {
            Some(Language::Ruby)
        } else if text_is(t, "php") {
            Some(Language::Php)
        } else {
            None
        }
    }
}

/// Parse error with location information.
#[derive(Debug, Clone)]
pub struct ParseError {
    pub message: String,
    pub line: Option<usize>,
    pub column: Option<usize>,
}

/// The text of a parse error: with its place where both line and column
/// are known.
pub open spec fn parse_error_text(e: ParseError) -> Seq<char> {
    match (e.line, e.column) {
        (Some(l), Some(c)) => "Parse error at "@ + decimal(l as nat) + ":"@ + decimal(c as nat) + " - "@ + e.message@,
        _ => "Parse error: "@ + e.message@,
    }
}

impl ParseError {
    /// The error's text.
    pub fn to_string(&self) -> (s: String)
        ensures
            s@ == parse_error_text(*self),
    {
        match (self.line, self.column) {
            (Some(l), Some(c)) => {
                let mut s = String::from_str("Parse error at ");
                let a = decimal_text(l as u64);
                s.append(a.as_str());
                s.append(":");
                let b = decimal_text(c as u64);
                s.append(b.as_str());
                s.append(" - ");
                s.append(self.message.as_str());
                s
            },
            _ => String::from_str("Parse error: ").concat(self.message.as_str()),
        }
    }
}

/// Node of an abstract syntax tree.
#[derive(Debug)]
pub struct ASTNode {
    pub node_type: String,
    pub text: String,
    pub start_position: usize,
    pub end_position: usize,
    pub children: Vec<ASTNode>,
}

impl ASTNode {
    /// Create a leaf node.
    pub fn new_leaf(node_type: String, text: String, start: usize, end: usize) -> (n: Self)
        ensures
            n.node_type == node_type,
            n.text == text,
            n.start_position == start,
            n.end_position == end,
            n.children@.len() == 0,
    {
        ASTNode { node_type, text, start_position: start, end_position: end, children: Vec::new() }
    }

    /// Create an internal node spanning its children: from the start of the
    /// first child to the end of the last one, or `0..0` without children.
    pub fn new_internal(node_type: String, children: Vec<ASTNode>) -> (n: Self)
        ensures
            n.node_type == node_type,
            n.text@ == Seq::<char>::empty(),
            n.children == children,
            children@.len() > 0 ==> n.start_position == children@[0].start_position
                && n.end_position == children@.last().end_position,
            children@.len() == 0 ==> n.start_position == 0 && n.end_position == 0,
    {
        let (start, end) = if children.len() > 0 {
            (children[0].start_position, children[children.len() - 1].end_position)
        } else {
            (0, 0)
        };
        ASTNode { node_type, text: String::new(), start_position: start, end_position: end, children }
    }

    /// Whether the node has no children.
    pub fn is_leaf(&self) -> (b: bool)
        ensures
            b == (self.children@.len() == 0),
    {
        self.children.len() == 0
    }

    /// Text of the node.
    pub fn text(&self) -> (t: &str)
        ensures
            t@ == self.text@,
    {
        self.text.as_str()
    }

    /// Type of the node.
    pub fn node_type(&self) -> (t: &str)
        ensures
            t@ == self.node_type@,
    {
        self.node_type.as_str()
    }

    /// Children of the node.
    pub fn children(&self) -> (c: &[ASTNode])
        ensures
            c@ == self.children@,
    {
        self.children.as_slice()
    }
}

/// Number of bytes of the UTF-8 encoding of a text.
pub open spec fn byte_len(s: Seq<char>) -> int {
    encode_utf8(s).len() as int
}

/// The statements of the first `n` lines: each line whose trimmed text is
/// not empty gives its trimmed text, its start `100 * i` and its end
/// `100 * i` plus its length in bytes, where `i` is its line number.
pub open spec fn statement_entries(ls: Seq<Seq<char>>, n: int) -> Seq<(Seq<char>, int, int)>
    decreases n,
{
    if n <= 0 {
        Seq::empty()
    } else {
        let p = statement_entries(ls, n - 1);
        let i = n - 1;
        if trim(ls[i]).len() > 0 {
            p.push((trim(ls[i]), i * 100, i * 100 + byte_len(ls[i])))
        } else {
            p
        }
    }
}

/// The statements of a piece of code (see `statement_entries`).
pub open spec fn statements(code: Seq<char>) -> Seq<(Seq<char>, int, int)> {
    statement_entries(lines_of(code), lines_of(code).len() as int)
}

/// Whether `n` is the statement leaf for the entry `e`.
pub open spec fn is_statement(n: ASTNode, e: (Seq<char>, int, int)) -> bool {
    &&& n.node_type@ == "statement"@
    &&& n.text@ == e.0
    &&& n.start_position == e.1
    &&& n.end_position == e.2
    &&& n.children@.len() == 0
}

/// Whether `n` is the line-based syntax tree of `code` in `language`: a
/// module node named after the language whose children are the statements
/// of the code, spanning from the first statement to the last.
pub open spec fn is_simple_ast(n: ASTNode, code: Seq<char>, language: Language) -> bool {
    let st = statements(code);
    &&& n.node_type@ == language_name(language) + "_module"@
    &&& n.text@ == Seq::<char>::empty()
    &&& n.children@.len() == st.len()
    &&& forall|k: int| 0 <= k < st.len() ==> is_statement(#[trigger] n.children@[k], st[k])
    &&& st.len() > 0 ==> n.start_position == st[0].1 && n.end_position == st.last().2
    &&& st.len() == 0 ==> n.start_position == 0 && n.end_position == 0
}

/// Whether the positions of every line of `code` fit in a `usize`.
pub open spec fn ast_fits(code: Seq<char>) -> bool {
    forall|i: int|
        0 <= i < lines_of(code).len() ==> i * 100 + byte_len(#[trigger] lines_of(code)[i])
            <= usize::MAX
}

/// Result of parsing a piece of code.
#[derive(Debug)]
pub struct ParseResult {
    pub ast: ASTNode,
    pub language: Language,
    pub line_count: usize,
    pub character_count: usize,
}

impl ParseResult {
    /// Create a parse result.
    pub fn new(ast: ASTNode, language: Language, line_count: usize, character_count: usize) -> (r: Self)
        ensures
            r.ast == ast,
            r.language == language,
            r.line_count == line_count,
            r.character_count == character_count,
    {
        ParseResult { ast, language, line_count, character_count }
    }

    /// The syntax tree.
    pub fn ast(&self) -> (a: &ASTNode)
        ensures
            *a == self.ast,
    {
        &self.ast
    }

    /// The language.
    pub fn language(&self) -> (l: Language)
        ensures
            l == self.language,
    {
        self.language
    }

    /// The number of lines.
    pub fn line_count(&self) -> (n: usize)
        ensures
            n == self.line_count,
    {
        self.line_count
    }

    /// The number of bytes of the code.
    pub fn character_count(&self) -> (n: usize)
        ensures
            n == self.character_count,
    {
        self.character_count
    }
}

/// Performance metrics of the parser.
#[derive(Debug, Clone, Copy)]
pub struct ParseMetrics {
    pub parse_time_ms: u64,
    pub ast_nodes: usize,
    pub cache_hits: usize,
    pub cache_misses: usize,
}

impl Default for ParseMetrics {
    fn default() -> (m: Self)
        ensures
            m.parse_time_ms == 0 && m.ast_nodes == 0 && m.cache_hits == 0 && m.cache_misses == 0,
    {
        ParseMetrics { parse_time_ms: 0, ast_nodes: 0, cache_hits: 0, cache_misses: 0 }
    }
}

/// Multi-language parser; it remembers which languages it has set up.
#[derive(Debug)]
pub struct MultiLanguageParser {
    parsers: Vec<Language>,
}

impl MultiLanguageParser {
    /// Create a parser with no language set up yet.
    pub fn new() -> (p: Self)
        ensures
            p.languages().len() == 0,
    {
        MultiLanguageParser { parsers: Vec::new() }
    }

    /// The languages set up so far, in the order of their first use.
    pub closed spec fn languages(&self) -> Seq<Language> {
        self.parsers@
    }

    fn set_up(&mut self, language: Language)
        ensures
            final(self).languages() == if old(self).languages().contains(language) {
                old(self).languages()
            } else {
                old(self).languages().push(language)
            },
            final(self).languages().contains(language),
            forall|l: Language| old(self).languages().contains(l) ==> final(self).languages().contains(l),
    {
        let mut i: usize = 0;
        while i < self.parsers.len()
            invariant
                i <= self.parsers@.len(),
                self.parsers@ == old(self).parsers@,
                forall|k: int| 0 <= k < i ==> self.parsers@[k] != language,
            decreases self.parsers@.len() - i,
        {
            if self.parsers[i] == language {
                assert(self.parsers@[i as int] == language);
                return;
            }
            i = i + 1;
        }
        let ghost o = self.parsers@;
        self.parsers.push(language);
        proof {
            assert(self.parsers@[o.len() as int] == language);
            assert forall|l: Language| o.contains(l) implies self.parsers@.contains(l) by {
                let k = choose|k: int| 0 <= k < o.len() && o[k] == l;
                assert(self.parsers@[k] == l);
            }
        }
    }

    /// Parse code in a language into its line-based syntax tree.
    pub fn parse(&mut self, language: Language, code: &str) -> (r: Result<ParseResult, DeclarativeExtractorError>)
        requires
            ast_fits(code@),
        ensures
            r matches Ok(p) && p.language == language && p.line_count == lines_of(code@).len()
                && p.character_count == byte_len(code@) as usize && is_simple_ast(
                p.ast,
                code@,
                language,
            ),
            final(self).languages().contains(language),
            forall|l: Language| old(self).languages().contains(l) ==> final(self).languages().contains(l),
    {
        self.set_up(language);
        let ast = Self::generate_simple_ast(code, language);
        let line_count = lines(code).len();
        let character_count = code.len();
        Ok(ParseResult::new(ast, language, line_count, character_count))
    }

    fn generate_simple_ast(code: &str, language: Language) -> (n: ASTNode)
        requires
            ast_fits(code@),
        ensures
            is_simple_ast(n, code@, language),
    {
        let ls = lines(code);
        let ghost lv = lines_of(code@);
        let mut children: Vec<ASTNode> = Vec::new();
        for i in 0..ls.len()
            invariant
                line_texts(ls@) == lv,
                lv == lines_of(code@),
                ast_fits(code@),
                children@.len() == statement_entries(lv, i as int).len(),
                forall|k: int| 0 <= k < children@.len() ==> is_statement(
                    #[trigger] children@[k],
                    statement_entries(lv, i as int)[k],
                ),
        {
            let line = ls[i].as_str();
            assert(line@ == lv[i as int]);
            let cs = chars_of(line);
            let (a, b) = trim_bounds(&cs);
            if a < b {
                let t = line.substring_char(a, b).to_string();
                assert(lv[i as int] == lines_of(code@)[i as int]);
                assert(i * 100 + byte_len(lv[i as int]) <= usize::MAX);
                let start = i * 100;
                let end = start + line.len();
                let leaf = ASTNode::new_leaf(String::from_str("statement"), t, start, end);
                let ghost before = children@;
                children.push(leaf);
                assert forall|k: int| 0 <= k < children@.len() implies is_statement(
                    #[trigger] children@[k],
                    statement_entries(lv, i + 1)[k],
                ) by {
                    if k < before.len() {
                        assert(children@[k] == before[k]);
                    }
                }
            } else {
                assert(trim(lv[i as int]).len() == 0);
            }
        }
        let ghost st = statement_entries(lv, ls@.len() as int);
        assert(st == statements(code@));
        let node_type = String::from_str(language.name()).concat("_module");
        let n = ASTNode::new_internal(node_type, children);
        proof {
            if st.len() > 0 {
                assert(is_statement(n.children@[0], st[0]));
                assert(is_statement(n.children@[st.len() - 1], st[st.len() - 1]));
            }
        }
        n
    }

    /// Pre-warm the parser for a language by parsing a small sample.
    pub fn warm_up(&mut self, language: Language) -> (r: Result<(), DeclarativeExtractorError>)
        ensures
            r is Ok,
            final(self).languages().contains(language),
            forall|l: Language| old(self).languages().contains(l) ==> final(self).languages().contains(l),
    {
        let test_code = match language {
            Language::Python => "def test():\n    pass\n",
            Language::JavaScript => "function test() {\n    return;\n}",
            Language::TypeScript => "function test(): void {\n    return;\n}",
            Language::Rust => "fn test() {\n    let _ = 42;\n}",
            Language::Go => "func test() {\n    _ = 42\n}",
            Language::Java => "void test() {\n    int x = 42;\n}",
            Language::C => "void test() {\n    int x = 42;\n}",
            Language::Cpp => "void test() {\n    int x = 42;\n}",
            Language::Ruby => "def test\n  42\nend\n",
            Language::Php => "<?php function test() {\n    return 42;\n}",
        };
        proof {
            reveal_strlit("def test():\n    pass\n");
            reveal_strlit("function test() {\n    return;\n}");
            reveal_strlit("function test(): void {\n    return;\n}");
            reveal_strlit("fn test() {\n    let _ = 42;\n}");
            reveal_strlit("func test() {\n    _ = 42\n}");
            reveal_strlit("void test() {\n    int x = 42;\n}");
            reveal_strlit("def test\n  42\nend\n");
            reveal_strlit("<?php function test() {\n    return 42;\n}");
            lemma_short_code_fits(test_code@);
        }
        match self.parse(language, test_code) {
            Ok(_) => Ok(()),
            Err(e) => Err(e),
        }
    }

    /// Parse metrics; no metrics are tracked yet, so they are all zero.
    pub fn get_metrics(&self) -> (m: ParseMetrics)
        ensures
            m.parse_time_ms == 0 && m.ast_nodes == 0 && m.cache_hits == 0 && m.cache_misses == 0,
    {
        ParseMetrics::default()
    }
}

impl Default for MultiLanguageParser {
    fn default() -> (p: Self)
        ensures
            p.languages().len() == 0,
    {
        MultiLanguageParser::new()
    }
}

/// Each character takes at most four bytes.
pub proof fn lemma_byte_len_bound(s: Seq<char>)
    ensures
        0 <= byte_len(s) <= 4 * s.len(),
    decreases s.len(),
{
    if s.len() > 0 {
        lemma_byte_len_bound(s.drop_first());
    }
}

/// The lines of a text are no more numerous and no longer than the text.
pub proof fn lemma_lines_bound(s: Seq<char>)
    ensures
        lines_of(s).len() <= s.len(),
        forall|i: int| 0 <= i < lines_of(s).len() ==> (#[trigger] lines_of(s)[i]).len() <= s.len(),
    decreases s.len(),
{
    if s.len() > 0 {
        crate::text::lines::lemma_first_newline_bound(s);
        let k = crate::text::lines::first_newline(s);
        if k >= 0 {
            lemma_lines_bound(s.skip(k + 1));
            let rest = lines_of(s.skip(k + 1));
            assert forall|i: int| 0 <= i < lines_of(s).len() implies (#[trigger] lines_of(s)[i]).len() <= s.len() by {
                if i > 0 {
                    assert(lines_of(s)[i] == rest[i - 1]);
                }
            }
        }
    }
}

/// Code of fewer than `usize::MAX / 104` characters fits.
pub proof fn lemma_short_code_fits(code: Seq<char>)
    requires
        code.len() * 104 <= usize::MAX,
    ensures
        ast_fits(code),
{
    lemma_lines_bound(code);
    assert forall|i: int| 0 <= i < lines_of(code).len() implies i * 100 + byte_len(
        #[trigger] lines_of(code)[i],
    ) <= usize::MAX by {
        lemma_byte_len_bound(lines_of(code)[i]);
    }
}

} // verus!
