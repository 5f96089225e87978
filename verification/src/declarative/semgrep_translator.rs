//! Translation of Semgrep rules into hodei-scan rules.
use vstd::prelude::*;
use super::errors::DeclarativeExtractorError;
use super::rules::{Pattern, Rule, RuleMetadata};
use crate::config::model::{opt_text, texts};
use crate::text::chars::{ascii_lower_char, ascii_text, lowercase, text_is, to_lowercase};

verus! {

/// A Semgrep rule, as read from its YAML form. Each entry of `patterns` is
/// the entry's text when it is a plain string, and `None` for any other
/// structure.
#[derive(Debug)]
pub struct SemgrepRule {
    pub id: String,
    pub pattern: Option<String>,
    pub patterns: Option<Vec<Option<String>>>,
    pub message: Option<String>,
    pub languages: Vec<String>,
    pub severity: Option<String>,
    pub fix: Option<String>,
}

/// Severity of a translation warning.
#[derive(Debug, Clone, Copy, PartialEq, Eq, Structural)]
pub enum WarningSeverity {
    Info,
    Warning,
    Error,
}

/// Translation warning.
#[derive(Debug)]
pub struct TranslationWarning {
    pub rule_id: String,
    pub message: String,
    pub severity: WarningSeverity,
}

/// Translation result.
#[derive(Debug)]
pub struct TranslationResult {
    pub hodei_rule: Rule,
    pub warnings: Vec<TranslationWarning>,
    pub success: bool,
}

/// Translator from Semgrep rules to hodei-scan rules.
#[derive(Debug)]
pub struct SemgrepTranslator {
    /// Semgrep pattern operators and their hodei-scan counterparts
    pub pattern_mappings: Vec<(String, String)>,
    /// Semgrep language names and their hodei-scan counterparts
    pub language_mappings: Vec<(String, String)>,
}

/// A share of a total: `hits` out of `total`.
#[derive(Debug, Clone, Copy, PartialEq, Eq)]
pub struct Rate {
    pub hits: usize,
    pub total: usize,
}

/// Translation statistics.
#[derive(Debug)]
pub struct TranslationStats {
    pub total_rules: usize,
    pub successful_translations: usize,
    pub failed_translations: usize,
    pub total_warnings: usize,
    pub error_warnings: usize,
    /// Successful translations out of all translations
    pub success_rate: Rate,
}

/// The hodei-scan severity for a lowercase Semgrep severity.
pub open spec fn severity_for(t: Seq<char>) -> Seq<char> {
    if t == "error"@ || t == "high"@ {
        "critical"@
    } else if t == "warning"@ || t == "medium"@ {
        "major"@
    } else if t == "info"@ || t == "low"@ {
        "minor"@
    } else {
        "info"@
    }
}

/// The severity table, in any letter case of an ASCII Semgrep severity:
/// `error` and `high` give `critical`, `warning` and `medium` give `major`,
/// `info` and `low` give `minor`, and every other word gives `info`.
pub proof fn law_severity_table(severity: Seq<char>)
    requires
        ascii_text(severity),
    ensures
        ({
            let t = severity.map_values(|c: char| ascii_lower_char(c));
            &&& (t == "error"@ || t == "high"@) <==> severity_for(t) == "critical"@
            &&& (t == "warning"@ || t == "medium"@) <==> severity_for(t) == "major"@
            &&& (t == "info"@ || t == "low"@) <==> severity_for(t) == "minor"@
            &&& !(t == "error"@ || t == "high"@ || t == "warning"@ || t == "medium"@ || t == "info"@ || t == "low"@)
                <==> severity_for(t) == "info"@
        }),
{
    reveal_strlit("critical");
    reveal_strlit("major");
    reveal_strlit("minor");
    reveal_strlit("info");
    reveal_strlit("error");
    reveal_strlit("high");
    reveal_strlit("warning");
    reveal_strlit("medium");
    reveal_strlit("low");
    assert("critical"@.len() == 8 && "major"@.len() == 5 && "minor"@.len() == 5 && "info"@.len() == 4);
    assert("major"@[1] != "minor"@[1]);
    assert("major"@ != "minor"@);
    assert("critical"@ != "major"@);
    assert("critical"@ != "info"@);
    assert("major"@ != "info"@);
    assert("minor"@ != "info"@);
    assert("error"@.len() == 5 && "high"@.len() == 4 && "warning"@.len() == 7 && "medium"@.len() == 6);
    assert("low"@.len() == 3 && "info"@[0] != "high"@[0]);
    assert("info"@ != "high"@);
    let t = severity.map_values(|c: char| ascii_lower_char(c));
    assert((t == "error"@ || t == "high"@) <==> severity_for(t) == "critical"@);
    assert((t == "warning"@ || t == "medium"@) <==> severity_for(t) == "major"@);
    assert((t == "info"@ || t == "low"@) <==> severity_for(t) == "minor"@);
}

/// The pairs of a mapping table as plain values.
pub open spec fn pairs(v: Seq<(String, String)>) -> Seq<(Seq<char>, Seq<char>)> {
    v.map_values(|p: (String, String)| (p.0@, p.1@))
}

/// What the first entry for `key` maps it to.
pub open spec fn lookup(ps: Seq<(Seq<char>, Seq<char>)>, key: Seq<char>) -> Option<Seq<char>>
    decreases ps.len(),
{
    if ps.len() == 0 {
        None
    } else if ps[0].0 == key {
        Some(ps[0].1)
    } else {
        lookup(ps.drop_first(), key)
    }
}

/// The mapped names of `langs`, in order, leaving out unmapped ones.
pub open spec fn mapped_languages(ps: Seq<(Seq<char>, Seq<char>)>, langs: Seq<Seq<char>>) -> Seq<Seq<char>>
    decreases langs.len(),
{
    if langs.len() == 0 {
        Seq::empty()
    } else {
        let prev = mapped_languages(ps, langs.drop_last());
        match lookup(ps, langs.last()) {
            Some(m) => prev.push(m),
            None => prev,
        }
    }
}

/// The language table of a new translator.
pub open spec fn default_language_table() -> Seq<(Seq<char>, Seq<char>)> {
    seq![
        ("python"@, "python"@),
        ("javascript"@, "javascript"@),
        ("typescript"@, "typescript"@),
        ("go"@, "go"@),
        ("java"@, "java"@),
        ("c"@, "c"@),
        ("cpp"@, "cpp"@),
    ]
}

/// The pattern table of a new translator.
pub open spec fn default_pattern_table() -> Seq<(Seq<char>, Seq<char>)> {
    seq![("metavariable-pattern"@, "metavariable"@), ("pattern-either"@, "alternatives"@)]
}

/// The message that translated patterns carry.
pub open spec fn pattern_message(s: SemgrepRule) -> Seq<char> {
    match s.message {
        Some(m) => m@,
        None => "Pattern match"@,
    }
}

/// The patterns of a translated rule, as (pattern, message) texts.
pub open spec fn translated_patterns(s: SemgrepRule) -> Seq<(Seq<char>, Seq<char>)> {
    match s.pattern {
        Some(p) => seq![(p@, pattern_message(s))],
        None => match s.patterns {
            Some(items) => string_items(items@).map_values(|t: Seq<char>| (t, pattern_message(s))),
            None => Seq::empty(),
        },
    }
}

/// The texts of the string entries of a pattern list, in order.
pub open spec fn string_items(items: Seq<Option<String>>) -> Seq<Seq<char>>
    decreases items.len(),
{
    if items.len() == 0 {
        Seq::empty()
    } else {
        let prev = string_items(items.drop_last());
        match items.last() {
            Some(t) => prev.push(t@),
            None => prev,
        }
    }
}

/// The number of entries of a pattern list that are not plain strings.
pub open spec fn complex_items(items: Seq<Option<String>>) -> nat
    decreases items.len(),
{
    if items.len() == 0 {
        0
    } else {
        complex_items(items.drop_last()) + if items.last() is None {
            1nat
        } else {
            0nat
        }
    }
}

/// The warnings of a translation, as (message, severity): one per
/// structured pattern entry, then one error when no pattern was found.
pub open spec fn translation_warnings(s: SemgrepRule) -> Seq<(Seq<char>, WarningSeverity)> {
    match s.pattern {
        Some(_) => Seq::empty(),
        None => {
            let complex = match s.patterns {
                Some(items) => Seq::new(
                    complex_items(items@),
                    |i: int| ("Complex pattern structure not fully supported"@, WarningSeverity::Warning),
                ),
                None => Seq::empty(),
            };
            if translated_patterns(s).len() == 0 {
                complex.push(
                    ("No patterns found or patterns not in supported format"@, WarningSeverity::Error),
                )
            } else {
                complex
            }
        },
    }
}

/// The pattern texts of a rule.
pub open spec fn pattern_texts(ps: Seq<Pattern>) -> Seq<(Seq<char>, Seq<char>)> {
    ps.map_values(|p: Pattern| (p.pattern@, p.message@))
}

/// The warnings of a result as plain values.
pub open spec fn warning_values(ws: Seq<TranslationWarning>) -> Seq<(Seq<char>, WarningSeverity)> {
    ws.map_values(|w: TranslationWarning| (w.message@, w.severity))
}

/// Whether `r` is the translation of `s` by a translator with language
/// table `langs`.
pub open spec fn is_translation(r: TranslationResult, s: SemgrepRule, langs: Seq<(Seq<char>, Seq<char>)>) -> bool {
    let rule = r.hodei_rule;
    &&& r.success
    &&& rule.id@ == "HODEI-TRANSLATED-"@ + s.id@
    &&& rule.metadata matches Some(m) && m.name@ == (match s.message {
        Some(msg) => msg@,
        None => s.id@,
    }) && opt_text(m.description) == opt_text(s.message) && m.severity@ == severity_for(
        lowercase(
            match s.severity {
                Some(v) => v@,
                None => "info"@,
            },
        ),
    ) && m.confidence@ == "medium"@ && opt_text(m.category) == Some("translated"@) && m.cwe is None
        && m.owasp is None
    &&& texts(rule.languages@) == mapped_languages(langs, texts(s.languages@))
    &&& pattern_texts(rule.patterns@) == translated_patterns(s)
    &&& rule.where_clause is None && rule.fix is None && rule.tests is None
    &&& warning_values(r.warnings@) == translation_warnings(s)
    &&& forall|i: int| 0 <= i < r.warnings@.len() ==> (#[trigger] r.warnings@[i]).rule_id@ == s.id@
}

/// Number of successful results.
pub open spec fn success_count(rs: Seq<TranslationResult>) -> nat
    decreases rs.len(),
{
    if rs.len() == 0 {
        0
    } else {
        success_count(rs.drop_last()) + if rs.last().success {
            1nat
        } else {
            0nat
        }
    }
}

/// Number of warnings over all results.
pub open spec fn warning_total(rs: Seq<TranslationResult>) -> nat
    decreases rs.len(),
{
    if rs.len() == 0 {
        0
    } else {
        warning_total(rs.drop_last()) + rs.last().warnings@.len()
    }
}

/// Number of error warnings in a list of warnings.
pub open spec fn errors_in(ws: Seq<TranslationWarning>) -> nat
    decreases ws.len(),
{
    if ws.len() == 0 {
        0
    } else {
        errors_in(ws.drop_last()) + if ws.last().severity == WarningSeverity::Error {
            1nat
        } else {
            0nat
        }
    }
}

/// Number of error warnings over all results.
pub open spec fn error_total(rs: Seq<TranslationResult>) -> nat
    decreases rs.len(),
{
    if rs.len() == 0 {
        0
    } else {
        error_total(rs.drop_last()) + errors_in(rs.last().warnings@)
    }
}

proof fn lemma_counts_bounded(rs: Seq<TranslationResult>)
    ensures
        success_count(rs) <= rs.len(),
        error_total(rs) <= warning_total(rs),
    decreases rs.len(),
{
    if rs.len() > 0 {
        lemma_counts_bounded(rs.drop_last());
        lemma_errors_bounded(rs.last().warnings@);
    }
}

proof fn lemma_errors_bounded(ws: Seq<TranslationWarning>)
    ensures
        errors_in(ws) <= ws.len(),
    decreases ws.len(),
{
    if ws.len() > 0 {
        lemma_errors_bounded(ws.drop_last());
    }
}

fn pair(a: &str, b: &str) -> (p: (String, String))
    ensures
        p.0@ == a@ && p.1@ == b@,
{
    (String::from_str(a), String::from_str(b))
}

fn warning(rule_id: &String, message: &str, severity: WarningSeverity) -> (w: TranslationWarning)
    ensures
        w.rule_id@ == rule_id@,
        w.message@ == message@,
        w.severity == severity,
{
    TranslationWarning { rule_id: rule_id.clone(), message: String::from_str(message), severity }
}

impl SemgrepTranslator {
    /// Create a translator with the default pattern and language tables.
    pub fn new() -> (t: Self)
        ensures
            pairs(t.pattern_mappings@) == default_pattern_table(),
            pairs(t.language_mappings@) == default_language_table(),
    {
        let mut pattern_mappings = Vec::new();
        pattern_mappings.push(pair("metavariable-pattern", "metavariable"));
        pattern_mappings.push(pair("pattern-either", "alternatives"));
        let mut language_mappings = Vec::new();
        language_mappings.push(pair("python", "python"));
        language_mappings.push(pair("javascript", "javascript"));
        language_mappings.push(pair("typescript", "typescript"));
        language_mappings.push(pair("go", "go"));
        language_mappings.push(pair("java", "java"));
        language_mappings.push(pair("c", "c"));
        language_mappings.push(pair("cpp", "cpp"));
        assert(pairs(pattern_mappings@) =~= default_pattern_table());
        assert(pairs(language_mappings@) =~= default_language_table());
        SemgrepTranslator { pattern_mappings, language_mappings }
    }

    /// Translate a Semgrep rule read from YAML into a hodei-scan rule. A
    /// rule without identifier is refused.
    pub fn translate_parsed_rule(&self, semgrep: SemgrepRule) -> (r: Result<TranslationResult, DeclarativeExtractorError>)
        ensures
            semgrep.id@.len() == 0 ==> (r matches Err(DeclarativeExtractorError::Validation { message })
                && message@ == "Semgrep rule must have an ID"@),
            semgrep.id@.len() != 0 ==> (r matches Ok(t) && is_translation(
                t,
                semgrep,
                pairs(self.language_mappings@),
            )),
    {
        let mut warnings: Vec<TranslationWarning> = Vec::new();
        if semgrep.id.as_str().is_empty() {
            return Err(DeclarativeExtractorError::validation("Semgrep rule must have an ID"));
        }
        let metadata = self.translate_metadata(&semgrep);
        let patterns = self.translate_patterns(&semgrep, &mut warnings);
        let languages = self.translate_languages(&semgrep);
        let id = String::from_str("HODEI-TRANSLATED-").concat(semgrep.id.as_str());
        let hodei_rule = Rule {
            id,
            metadata: Some(metadata),
            languages,
            patterns,
            where_clause: None,
            fix: None,
            tests: None,
        };
        Ok(TranslationResult { hodei_rule, warnings, success: true })
    }

    fn translate_metadata(&self, semgrep: &SemgrepRule) -> (m: RuleMetadata)
        ensures
            m.name@ == (match semgrep.message {
                Some(msg) => msg@,
                None => semgrep.id@,
            }),
            opt_text(m.description) == opt_text(semgrep.message),
            m.severity@ == severity_for(
                lowercase(
                    match semgrep.severity {
                        Some(v) => v@,
                        None => "info"@,
                    },
                ),
            ),
            m.confidence@ == "medium"@,
            opt_text(m.category) == Some("translated"@),
            m.cwe is None,
            m.owasp is None,
    {
        let name = match &semgrep.message {
            Some(msg) => msg.clone(),
            None => semgrep.id.clone(),
        };
        let description = match &semgrep.message {
            Some(msg) => Some(msg.clone()),
            None => None,
        };
        let severity = match &semgrep.severity {
            Some(v) => self.translate_severity(v.as_str()),
            None => self.translate_severity("info"),
        };
        RuleMetadata {
            name,
            description,
            severity,
            confidence: String::from_str("medium"),
            category: Some(String::from_str("translated")),
            cwe: None,
            owasp: None,
        }
    }

    /// Translate a Semgrep severity, in any letter case, to a hodei-scan one.
    pub fn translate_severity(&self, severity: &str) -> (r: String)
        ensures
            r@ == severity_for(lowercase(severity@)),
            ascii_text(severity@) ==> lowercase(severity@) == severity@.map_values(|c: char| ascii_lower_char(c)),
    {
        let lower = to_lowercase(severity);
        let t = lower.as_str();
        if text_is(t, "error") || text_is(t, "high") {
            String::from_str("critical")
        } else if text_is(t, "warning") || text_is(t, "medium") {
            String::from_str("major")
        } else if text_is(t, "info") || text_is(t, "low") {
            String::from_str("minor")
        } else {
            String::from_str("info")
        }
    }

    fn translate_patterns(&self, semgrep: &SemgrepRule, warnings: &mut Vec<TranslationWarning>) -> (ps: Vec<Pattern>)
        requires
            old(warnings)@.len() == 0,
        ensures
            pattern_texts(ps@) == translated_patterns(*semgrep),
            warning_values(final(warnings)@) == translation_warnings(*semgrep),
            forall|i: int| 0 <= i < final(warnings)@.len() ==> (#[trigger] final(warnings)@[i]).rule_id@ == semgrep.id@,
    {
        let mut patterns: Vec<Pattern> = Vec::new();
        let message = match &semgrep.message {
            Some(m) => m.clone(),
            None => String::from_str("Pattern match"),
        };
        if let Some(pattern) = &semgrep.pattern {
            patterns.push(Pattern { pattern: pattern.clone(), message });
            assert(pattern_texts(patterns@) =~= translated_patterns(*semgrep));
            assert(warning_values(warnings@) =~= translation_warnings(*semgrep));
            return patterns;
        }
        let ghost complex_seq = Seq::<(Seq<char>, WarningSeverity)>::empty();
        if let Some(items) = &semgrep.patterns {
            for i in 0..items.len()
                invariant
                    message@ == pattern_message(*semgrep),
                    semgrep.pattern is None,
                    semgrep.patterns == Some(*items),
                    pattern_texts(patterns@) == string_items(items@.take(i as int)).map_values(
                        |t: Seq<char>| (t, pattern_message(*semgrep)),
                    ),
                    warning_values(warnings@) == Seq::new(
                        complex_items(items@.take(i as int)),
                        |j: int| ("Complex pattern structure not fully supported"@, WarningSeverity::Warning),
                    ),
                    forall|j: int| 0 <= j < warnings@.len() ==> (#[trigger] warnings@[j]).rule_id@ == semgrep.id@,
            {
                proof {
                    assert(items@.take(i + 1).drop_last() =~= items@.take(i as int));
                    assert(items@.take(i + 1).last() == items@[i as int]);
                }
                match &items[i] {
                    Some(text) => {
                        let ghost before = patterns@;
                        patterns.push(Pattern { pattern: text.clone(), message: message.clone() });
                        assert(pattern_texts(patterns@) =~= pattern_texts(before).push((text@, message@)));
                        assert(string_items(items@.take(i + 1)).map_values(
                            |t: Seq<char>| (t, pattern_message(*semgrep)),
                        ) =~= string_items(items@.take(i as int)).map_values(
                            |t: Seq<char>| (t, pattern_message(*semgrep)),
                        ).push((text@, message@)));
                        assert(warning_values(warnings@) =~= Seq::new(
                            complex_items(items@.take(i + 1)),
                            |j: int| ("Complex pattern structure not fully supported"@, WarningSeverity::Warning),
                        ));
                    },
                    None => {
                        let ghost before = warnings@;
                        warnings.push(warning(&semgrep.id, "Complex pattern structure not fully supported", WarningSeverity::Warning));
                        assert(warning_values(warnings@) =~= warning_values(before).push(
                            ("Complex pattern structure not fully supported"@, WarningSeverity::Warning),
                        ));
                        assert(complex_items(items@.take(i + 1)) == complex_items(items@.take(i as int)) + 1);
                        assert(warning_values(warnings@) =~= Seq::new(
                            complex_items(items@.take(i + 1)),
                            |j: int| ("Complex pattern structure not fully supported"@, WarningSeverity::Warning),
                        ));
                        assert(string_items(items@.take(i + 1)) =~= string_items(items@.take(i as int)));
                    },
                }
            }
            assert(items@.take(items@.len() as int) =~= items@);
        } else {
            assert(warning_values(warnings@) =~= Seq::<(Seq<char>, WarningSeverity)>::empty());
        }
        assert(pattern_texts(patterns@) =~= translated_patterns(*semgrep));
        if patterns.len() == 0 {
            let ghost before = warnings@;
            warnings.push(warning(&semgrep.id, "No patterns found or patterns not in supported format", WarningSeverity::Error));
            assert(warning_values(warnings@) =~= warning_values(before).push(
                ("No patterns found or patterns not in supported format"@, WarningSeverity::Error),
            ));
        }
        assert(warning_values(warnings@) =~= translation_warnings(*semgrep));
        patterns
    }

    fn translate_languages(&self, semgrep: &SemgrepRule) -> (ls: Vec<String>)
        ensures
            texts(ls@) == mapped_languages(pairs(self.language_mappings@), texts(semgrep.languages@)),
    {
        let ghost table = pairs(self.language_mappings@);
        let mut out: Vec<String> = Vec::new();
        for i in 0..semgrep.languages.len()
            invariant
                table == pairs(self.language_mappings@),
                texts(out@) == mapped_languages(table, texts(semgrep.languages@.take(i as int))),
        {
            proof {
                assert(texts(semgrep.languages@.take(i + 1)).drop_last() =~= texts(semgrep.languages@.take(i as int)));
                assert(texts(semgrep.languages@.take(i + 1)).last() == semgrep.languages@[i as int]@);
            }
            match self.lookup_language(&semgrep.languages[i]) {
                Some(m) => {
                    let ghost before = out@;
                    out.push(m);
                    assert(texts(out@) =~= texts(before).push(m@));
                },
                None => {},
            }
        }
        assert(semgrep.languages@.take(semgrep.languages@.len() as int) =~= semgrep.languages@);
        out
    }

    fn lookup_language(&self, lang: &String) -> (r: Option<String>)
        ensures
            opt_text(r) == lookup(pairs(self.language_mappings@), lang@),
    {
        let ghost table = pairs(self.language_mappings@);
        assert(table.skip(0) =~= table);
        for i in 0..self.language_mappings.len()
            invariant
                table == pairs(self.language_mappings@),
                lookup(table, lang@) == lookup(table.skip(i as int), lang@),
        {
            proof {
                assert(table.skip(i as int).drop_first() =~= table.skip(i + 1));
                assert(table.skip(i as int)[0] == table[i as int]);
            }
            if self.language_mappings[i].0 == *lang {
                return Some(self.language_mappings[i].1.clone());
            }
        }
        assert(table.skip(table.len() as int).len() == 0);
        None
    }

    /// Statistics over translation results.
    pub fn get_stats(&self, results: &[TranslationResult]) -> (st: TranslationStats)
        requires
            warning_total(results@) <= usize::MAX,
        ensures
            st.total_rules == results@.len(),
            st.successful_translations == success_count(results@),
            st.failed_translations == results@.len() - success_count(results@),
            st.total_warnings == warning_total(results@),
            st.error_warnings == error_total(results@),
            st.success_rate == (Rate { hits: st.successful_translations, total: st.total_rules }),
    {
        let total = results.len();
        let mut successful: usize = 0;
        let mut total_warnings: usize = 0;
        let mut error_count: usize = 0;
        proof {
            lemma_counts_bounded(results@);
        }
        for i in 0..results.len()
            invariant
                total == results@.len(),
                warning_total(results@) <= usize::MAX,
                successful == success_count(results@.take(i as int)),
                total_warnings == warning_total(results@.take(i as int)),
                error_count == error_total(results@.take(i as int)),
        {
            proof {
                assert(results@.take(i + 1).drop_last() =~= results@.take(i as int));
                assert(results@.take(i + 1).last() == results@[i as int]);
                lemma_counts_bounded(results@.take(i + 1));
                lemma_total_prefix(results@, i + 1);
            }
            if results[i].success {
                successful = successful + 1;
            }
            total_warnings = total_warnings + results[i].warnings.len();
            let ws = &results[i].warnings;
            let mut e: usize = 0;
            for j in 0..ws.len()
                invariant
                    e == errors_in(ws@.take(j as int)),
                    e <= j,
            {
                proof {
                    assert(ws@.take(j + 1).drop_last() =~= ws@.take(j as int));
                    assert(ws@.take(j + 1).last() == ws@[j as int]);
                }
                if ws[j].severity == WarningSeverity::Error {
                    e = e + 1;
                }
            }
            assert(ws@.take(ws@.len() as int) =~= ws@);
            error_count = error_count + e;
        }
        assert(results@.take(results@.len() as int) =~= results@);
        TranslationStats {
            total_rules: total,
            successful_translations: successful,
            failed_translations: total - successful,
            total_warnings,
            error_warnings: error_count,
            success_rate: Rate { hits: successful, total },
        }
    }
}

proof fn lemma_total_prefix(rs: Seq<TranslationResult>, n: int)
    requires
        0 <= n <= rs.len(),
    ensures
        warning_total(rs.take(n)) <= warning_total(rs),
    decreases rs.len() - n,
{
    if n < rs.len() {
        lemma_total_prefix(rs, n + 1);
        assert(rs.take(n + 1).drop_last() =~= rs.take(n));
    } else {
        assert(rs.take(n) =~= rs);
    }
}

impl Default for SemgrepTranslator {
    fn default() -> (t: Self)
        ensures
            pairs(t.pattern_mappings@) == default_pattern_table(),
            pairs(t.language_mappings@) == default_language_table(),
    {
        SemgrepTranslator::new()
    }
}

} // verus!
