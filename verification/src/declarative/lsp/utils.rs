//! Positions in rule documents and small helpers of the language server.
use vstd::prelude::*;
use vstd::utf8::{decode_utf8, encode_utf8, is_char_boundary};
use crate::declarative::tree_sitter::byte_len;
use crate::text::chars::{ascii_text, ascii_upper_char};
use crate::text::lines::{line_texts, lines, lines_of};
use super::yaml::{as_str, get, parse_yaml, untag, untagged, yaml_document, yaml_get, yaml_str, YamlValue};

verus! {

/// A position in a document: a line and a byte offset in it, from zero.
#[derive(Debug, Clone, Copy, PartialEq, Eq, Structural, Default)]
pub struct Position {
    pub line: u32,
    pub character: u32,
}

/// A range of a document, between two positions.
#[derive(Debug, Clone, Copy, PartialEq, Eq, Structural, Default)]
pub struct Range {
    pub start: Position,
    pub end: Position,
}

impl Position {
    /// A position.
    pub fn new(line: u32, character: u32) -> (p: Self)
        ensures
            p.line == line && p.character == character,
    {
        Position { line, character }
    }
}

impl Range {
    /// A range.
    pub fn new(start: Position, end: Position) -> (r: Self)
        ensures
            r.start == start && r.end == end,
    {
        Range { start, end }
    }
}

/// Where byte `offset` falls, as (line, offset in the line), when the lines
/// from `i` on start at byte `start`, each followed by one byte of line
/// break; (0, 0) when it falls in none of them.
pub open spec fn locate(ls: Seq<Seq<char>>, offset: int, start: int, i: int) -> (int, int)
    decreases ls.len() - i,
{
    if i >= ls.len() || i < 0 {
        (0, 0)
    } else {
        let end = start + byte_len(ls[i]) + 1;
        if start <= offset < end {
            (i, offset - start)
        } else {
            locate(ls, offset, end, i + 1)
        }
    }
}

/// The bytes that the first `n` lines span, each with one byte of line
/// break.
pub open spec fn lines_span(ls: Seq<Seq<char>>, n: int) -> int
    decreases n,
{
    if n <= 0 {
        0
    } else {
        lines_span(ls, n - 1) + byte_len(ls[n - 1]) + 1
    }
}

proof fn lemma_lines_span_grows(ls: Seq<Seq<char>>, a: int, b: int)
    requires
        0 <= a <= b,
    ensures
        lines_span(ls, a) <= lines_span(ls, b),
    decreases b - a,
{
    if a < b {
        lemma_lines_span_grows(ls, a, b - 1);
        crate::declarative::tree_sitter::lemma_byte_len_bound(ls[b - 1]);
    }
}

/// Whether the byte offsets of every line of `content`, line breaks
/// included, fit in a `usize`.
pub open spec fn offsets_fit(content: Seq<char>) -> bool {
    lines_span(lines_of(content), lines_of(content).len() as int) <= usize::MAX
}

fn locate_offset(content: &str, byte_offset: usize) -> (r: (u32, u32))
    requires
        offsets_fit(content@),
    ensures
        ({
            let p = locate(lines_of(content@), byte_offset as int, 0, 0);
            r.0 == p.0 as u32 && r.1 == p.1 as u32
        }),
{
    let ls = lines(content);
    let ghost lv = lines_of(content@);
    let mut current: usize = 0;
    let mut i: usize = 0;
    while i < ls.len()
        invariant
            line_texts(ls@) == lv,
            lv == lines_of(content@),
            i <= lv.len(),
            current == lines_span(lv, i as int),
            offsets_fit(content@),
            locate(lv, byte_offset as int, 0, 0) == locate(lv, byte_offset as int, current as int, i as int),
        decreases lv.len() - i,
    {
        let line = ls[i].as_str();
        assert(line@ == lv[i as int]);
        proof {
            lemma_lines_span_grows(lv, i + 1, lv.len() as int);
        }
        let line_end = current + line.len() + 1;
        if byte_offset >= current && byte_offset < line_end {
            return (i as u32, (byte_offset - current) as u32);
        }
        current = line_end;
        i = i + 1;
    }
    (0, 0)
}

/// The position of a byte offset: its line and its offset in that line,
/// each line counted with one byte of line break; (0, 0) past the last line.
pub fn byte_offset_to_position(content: &str, byte_offset: usize) -> (p: Position)
    requires
        offsets_fit(content@),
    ensures
        ({
            let q = locate(lines_of(content@), byte_offset as int, 0, 0);
            p.line == q.0 as u32 && p.character == q.1 as u32
        }),
{
    let (line, character) = locate_offset(content, byte_offset);
    Position { line, character }
}

/// The line and column of a byte offset, as `byte_offset_to_position`.
pub fn byte_offset_to_line_column(content: &str, byte_offset: usize) -> (r: (u32, u32))
    requires
        offsets_fit(content@),
    ensures
        ({
            let q = locate(lines_of(content@), byte_offset as int, 0, 0);
            r.0 == q.0 as u32 && r.1 == q.1 as u32
        }),
{
    locate_offset(content, byte_offset)
}

/// The byte offset of a position: the bytes of the lines before it, each
/// with one byte of line break, plus its character; the length of the
/// content for a position past the last line.
pub fn position_to_byte_offset(content: &str, position: Position) -> (r: usize)
    requires
        offsets_fit(content@),
        lines_span(lines_of(content@), position.line as int) + position.character <= usize::MAX,
    ensures
        position.line >= lines_of(content@).len() ==> r == byte_len(content@) as usize,
        position.line < lines_of(content@).len() ==> r == lines_span(lines_of(content@), position.line as int)
            + position.character,
{
    let ls = lines(content);
    let ghost lv = lines_of(content@);
    assert(ls@.len() == lv.len());
    if position.line as usize >= ls.len() {
        return content.len();
    }
    let mut offset: usize = 0;
    let target = position.line as usize;
    let mut i: usize = 0;
    while i < target
        invariant
            line_texts(ls@) == lv,
            target < lv.len(),
            i <= target,
            offset == lines_span(lv, i as int),
            lines_span(lv, target as int) + position.character <= usize::MAX,
        decreases target - i,
    {
        assert(ls@[i as int]@ == lv[i as int]);
        proof {
            lemma_lines_span_grows(lv, i + 1, target as int);
        }
        offset = offset + ls[i].as_str().len() + 1;
        i = i + 1;
    }
    offset + position.character as usize
}

proof fn lemma_locate_found(ls: Seq<Seq<char>>, offset: int, i: int)
    requires
        0 <= i <= ls.len(),
        lines_span(ls, i) <= offset < lines_span(ls, ls.len() as int),
    ensures
        i <= locate(ls, offset, lines_span(ls, i), i).0 < ls.len(),
        lines_span(ls, locate(ls, offset, lines_span(ls, i), i).0) + locate(ls, offset, lines_span(ls, i), i).1
            == offset,
        0 <= locate(ls, offset, lines_span(ls, i), i).1 <= byte_len(ls[locate(ls, offset, lines_span(ls, i), i).0]),
    decreases ls.len() - i,
{
    if i == ls.len() {
        assert(false);
    }
    let end = lines_span(ls, i) + byte_len(ls[i]) + 1;
    assert(lines_span(ls, i + 1) == end);
    if !(lines_span(ls, i) <= offset < end) {
        lemma_locate_found(ls, offset, i + 1);
    }
}

/// The position of a byte offset within the lines of a document maps back
/// to that offset: the lines before it and its character add up to it.
pub proof fn law_offset_position_round_trip(content: Seq<char>, offset: int)
    requires
        0 <= offset < lines_span(lines_of(content), lines_of(content).len() as int),
    ensures
        ({
            let ls = lines_of(content);
            let p = locate(ls, offset, 0, 0);
            &&& 0 <= p.0 < ls.len()
            &&& lines_span(ls, p.0) + p.1 == offset
            &&& 0 <= p.1 <= byte_len(ls[p.0])
        }),
{
    lemma_locate_found(lines_of(content), offset, 0);
}

/// Whether a position lies within a range, both ends included.
pub open spec fn in_range(p: Position, r: Range) -> bool {
    &&& r.start.line <= p.line <= r.end.line
    &&& (p.line == r.start.line ==> p.character >= r.start.character)
    &&& (p.line == r.end.line ==> p.character <= r.end.character)
}

/// Whether a position lies within a range, both ends included.
pub fn is_position_in_range(position: Position, range: Range) -> (b: bool)
    ensures
        b == in_range(position, range),
{
    if position.line < range.start.line || position.line > range.end.line {
        return false;
    }
    if position.line == range.start.line && position.character < range.start.character {
        return false;
    }
    if position.line == range.end.line && position.character > range.end.character {
        return false;
    }
    true
}

/// Whether bytes `start` to `end` of a text lie on character boundaries.
pub open spec fn byte_range_ok(s: Seq<char>, start: int, end: int) -> bool {
    &&& 0 <= start <= end <= byte_len(s)
    &&& is_char_boundary(encode_utf8(s), start)
    &&& is_char_boundary(encode_utf8(s), end)
}

/// The text between two byte offsets of a text.
pub open spec fn byte_slice(s: Seq<char>, start: int, end: int) -> Seq<char> {
    decode_utf8(encode_utf8(s).subrange(start, end))
}

/// `str::get` with a byte range: the part of the text between the two
/// offsets, or nothing where they are out of order, past the end, or not
/// on character boundaries.
#[verifier::external_body]
fn str_get(s: &str, start: usize, end: usize) -> (r: Option<String>)
    ensures
        r is Some <==> byte_range_ok(s@, start as int, end as int),
        r matches Some(t) ==> t@ == byte_slice(s@, start as int, end as int),
{
    s.get(start..end).map(|t| t.to_string())
}

/// Whether a range can be read from the lines of a document: its lines
/// exist and its offsets lie on character boundaries of them.
pub open spec fn range_readable(ls: Seq<Seq<char>>, r: Range) -> bool {
    &&& r.start.line < ls.len()
    &&& r.end.line < ls.len()
    &&& byte_len(ls[r.start.line as int]) <= usize::MAX
    &&& if r.start.line == r.end.line {
        byte_range_ok(ls[r.start.line as int], r.start.character as int, r.end.character as int)
    } else {
        &&& byte_range_ok(
            ls[r.start.line as int],
            r.start.character as int,
            byte_len(ls[r.start.line as int]),
        )
        &&& byte_range_ok(ls[r.end.line as int], 0, r.end.character as int)
    }
}

/// Each line from `i` to `j` (excluded), followed by a line feed.
pub open spec fn joined_lines(ls: Seq<Seq<char>>, i: int, j: int) -> Seq<char>
    decreases j - i,
{
    if i >= j {
        Seq::empty()
    } else {
        joined_lines(ls, i, j - 1) + ls[j - 1] + seq!['\n']
    }
}

/// The text of a range of a document's lines: on one line, the part between
/// the two offsets; over several, the end of the first line, the lines
/// between, and the start of the last line, joined by line feeds.
pub open spec fn text_in_range(ls: Seq<Seq<char>>, r: Range) -> Seq<char> {
    let a = r.start.line as int;
    let b = r.end.line as int;
    if a == b {
        byte_slice(ls[a], r.start.character as int, r.end.character as int)
    } else {
        byte_slice(ls[a], r.start.character as int, byte_len(ls[a])) + seq!['\n'] + joined_lines(ls, a + 1, b)
            + byte_slice(ls[b], 0, r.end.character as int)
    }
}

/// The text of a range of a document.
pub fn get_text_in_range(content: &str, range: Range) -> (t: String)
    requires
        range_readable(lines_of(content@), range),
    ensures
        t@ == text_in_range(lines_of(content@), range),
{
    let ls = lines(content);
    let ghost lv = lines_of(content@);
    let a = range.start.line as usize;
    let b = range.end.line as usize;
    assert(ls@.len() == lv.len());
    assert(ls@[a as int]@ == lv[a as int]);
    assert(ls@[b as int]@ == lv[b as int]);
    if a == b {
        let line = ls[a].as_str();
        let start = range.start.character as usize;
        let end = range.end.character as usize;
        return match str_get(line, start, end) {
            Some(t) => t,
            None => String::new(),
        };
    }
    let first = ls[a].as_str();
    let mut result = match str_get(first, range.start.character as usize, first.len()) {
        Some(t) => t,
        None => String::new(),
    };
    let ghost first_part = result@;
    result.append("\n");
    proof {
        reveal_strlit("\n");
    }
    let ghost head = result@;
    assert(head == byte_slice(lv[a as int], range.start.character as int, byte_len(lv[a as int])) + seq!['\n']);
    let len = ls.len();
    assert(a < len);
    let mut i = a + 1;
    while i < b
        invariant
            line_texts(ls@) == lv,
            a + 1 <= i,
            i <= b || i == a + 1,
            b < lv.len(),
            result@ == head + joined_lines(lv, a + 1, i as int),
        decreases b - i,
    {
        assert(ls@[i as int]@ == lv[i as int]);
        result.append(ls[i].as_str());
        result.append("\n");
        proof {
            reveal_strlit("\n");
        }
        assert(result@ =~= head + joined_lines(lv, a + 1, i + 1));
        i = i + 1;
    }
    let last = ls[b].as_str();
    let tail = match str_get(last, 0, range.end.character as usize) {
        Some(t) => t,
        None => String::new(),
    };
    result.append(tail.as_str());
    proof {
        reveal_strlit("\n");
    }
    assert(joined_lines(lv, a + 1, i as int) == joined_lines(lv, a + 1, b as int));
    assert(result@ =~= text_in_range(lv, range));
    result
}

/// Parse a rule document, with the parser's message prefixed on failure.
pub fn parse_yaml_document(content: &str) -> (r: Result<YamlValue, String>)
    ensures
        match r {
            Ok(v) => yaml_document(content@) == Ok::<YamlValue, Seq<char>>(v),
            Err(m) => yaml_document(content@) matches Err(e) && m@ == "YAML parse error: "@ + e,
        },
{
    match parse_yaml(content) {
        Ok(v) => Ok(v),
        Err(e) => Err(String::from_str("YAML parse error: ").concat(e.as_str())),
    }
}

/// The value under `rule` then `key` in a document.
pub open spec fn rule_field(yaml: YamlValue, key: Seq<char>) -> Option<YamlValue> {
    match yaml_get(yaml, "rule"@) {
        Some(rule) => yaml_get(rule, key),
        None => None,
    }
}

/// The identifier of the rule of a document: the string under `rule.id`.
pub fn extract_rule_id(yaml: &YamlValue) -> (r: Option<String>)
    ensures
        match r {
            Some(id) => rule_field(*yaml, "id"@) matches Some(v) && yaml_str(v) == Some(id@),
            None => !(rule_field(*yaml, "id"@) matches Some(v) && yaml_str(v) is Some),
        },
{
    let rule = get(yaml, "rule")?;
    let id = get(rule, "id")?;
    let s = as_str(id)?;
    Some(String::from_str(s))
}

/// The string items among a sequence of values, in order.
pub open spec fn string_items(items: Seq<YamlValue>) -> Seq<Seq<char>>
    decreases items.len(),
{
    if items.len() == 0 {
        Seq::empty()
    } else {
        let prev = string_items(items.drop_last());
        match yaml_str(items.last()) {
            Some(s) => prev.push(s),
            None => prev,
        }
    }
}

/// The languages of the rule of a document: the string items of the
/// sequence under `rule.languages`; nothing where there is no such sequence.
pub open spec fn rule_languages(yaml: YamlValue) -> Option<Seq<Seq<char>>> {
    match rule_field(yaml, "languages"@) {
        Some(v) => match untag(v) {
            YamlValue::Sequence(items) => Some(string_items(items@)),
            _ => None,
        },
        None => None,
    }
}

/// The languages of the rule of a document.
pub fn extract_languages(yaml: &YamlValue) -> (r: Option<Vec<String>>)
    ensures
        match r {
            Some(v) => rule_languages(*yaml) == Some(line_texts(v@)),
            None => rule_languages(*yaml) is None,
        },
{
    let rule = get(yaml, "rule")?;
    let langs = get(rule, "languages")?;
    match untagged(langs) {
        YamlValue::Sequence(items) => {
            let mut result: Vec<String> = Vec::new();
            for i in 0..items.len()
                invariant
                    line_texts(result@) == string_items(items@.take(i as int)),
            {
                assert(items@.take(i + 1).drop_last() =~= items@.take(i as int));
                let ghost before = result@;
                if let Some(s) = as_str(&items[i]) {
                    result.push(String::from_str(s));
                    assert(line_texts(result@) =~= line_texts(before).push(s@));
                }
            }
            assert(items@.take(items@.len() as int) =~= items@);
            Some(result)
        },
        _ => None,
    }
}

/// The uppercase form of a text, as `str::to_uppercase` gives it.
pub uninterp spec fn uppercase(s: Seq<char>) -> Seq<char>;

/// `str::to_uppercase`: the uppercase form of the text. On ASCII text it
/// maps `a` to `z` to `A` to `Z` and leaves every other character, as
/// `to_ascii_uppercase` does; the rest of Unicode is left to the name.
#[verifier::external_body]
fn to_uppercase(s: &str) -> (r: String)
    ensures
        r@ == uppercase(s@),
        ascii_text(s@) ==> r@ == s@.map_values(|c: char| ascii_upper_char(c)),
{
    s.to_uppercase()
}

/// How a severity is shown: an icon and a name for the known levels
/// (whatever their case), the text itself otherwise.
pub open spec fn severity_label(severity: Seq<char>) -> Seq<char> {
    let u = uppercase(severity);
    if u == "INFO"@ {
        "ℹ Info"@
    } else if u == "MINOR"@ {
        "⚠ Minor"@
    } else if u == "MAJOR"@ {
        "⚠ Major"@
    } else if u == "CRITICAL"@ {
        "🔴 Critical"@
    } else if u == "BLOCKER"@ {
        "⛔ Blocker"@
    } else {
        severity
    }
}

/// Show a severity level.
pub fn format_severity(severity: &str) -> (s: String)
    ensures
        s@ == severity_label(severity@),
        ascii_text(severity@) ==> uppercase(severity@) == severity@.map_values(|c: char| ascii_upper_char(c)),
{
    let upper = to_uppercase(severity);
    let u = upper.as_str();
    if crate::text::chars::text_is(u, "INFO") {
        String::from_str("ℹ Info")
    } else if crate::text::chars::text_is(u, "MINOR") {
        String::from_str("⚠ Minor")
    } else if crate::text::chars::text_is(u, "MAJOR") {
        String::from_str("⚠ Major")
    } else if crate::text::chars::text_is(u, "CRITICAL") {
        String::from_str("🔴 Critical")
    } else if crate::text::chars::text_is(u, "BLOCKER") {
        String::from_str("⛔ Blocker")
    } else {
        String::from_str(severity)
    }
}

/// The characters that trigger completion in a rule document.
pub fn get_yaml_trigger_characters() -> (v: Vec<String>)
    ensures
        v@.len() == 6,
        v@[0]@ == "\""@,
        v@[1]@ == ":"@,
        v@[2]@ == "-"@,
        v@[3]@ == "$"@,
        v@[4]@ == "["@,
        v@[5]@ == "{"@,
{
    vec![
        String::from_str("\""),
        String::from_str(":"),
        String::from_str("-"),
        String::from_str("$"),
        String::from_str("["),
        String::from_str("{"),
    ]
}

} // verus!
