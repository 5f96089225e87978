//! Testing rules against their positive and negative test cases.
use vstd::prelude::*;
use std::time::Instant;
use super::errors::{error_text, DeclarativeExtractorError};
use super::matcher::{found_in_forest, found_in_tree, pattern_matches, PatternMatcher};
use super::rules::{Pattern, Rule, RuleSet, TestCase};
use super::semgrep_translator::Rate;
use super::tree_sitter::{ast_fits, is_simple_ast, is_statement, language_of_name, statements, ASTNode, Language, MultiLanguageParser};
use crate::text::chars::{lowercase, text_is, trim};
use crate::text::lines::line_texts;
use crate::text::number::{decimal, decimal_text};
use crate::text::search::contains_text;

verus! {

/// `std::time::Instant`, a point in time of the machine's monotonic clock.
#[verifier::external_type_specification]
#[verifier::external_body]
pub struct ExInstant(Instant);

/// `Instant::now`: the current time. Nothing is claimed of the value.
#[verifier::external_body]
fn clock_now() -> (t: Instant) {
    Instant::now()
}

/// `Instant::elapsed`, in whole milliseconds. Nothing is claimed of the
/// value: it depends on the clock.
#[verifier::external_body]
fn elapsed_millis(start: &Instant) -> (ms: u64) {
    start.elapsed().as_millis() as u64
}

/// Result of one test case.
#[derive(Debug, Clone)]
pub struct TestResult {
    pub test_name: String,
    pub passed: bool,
    pub expected: bool,
    pub actual: bool,
    pub message: String,
    pub execution_time_ms: u64,
}

impl TestResult {
    /// A passing result.
    pub fn pass(name: String, execution_time: u64) -> (r: Self)
        ensures
            r.test_name == name,
            r.passed && r.expected && r.actual,
            r.message@ == "✓ PASS"@,
            r.execution_time_ms == execution_time,
    {
        TestResult {
            test_name: name,
            passed: true,
            expected: true,
            actual: true,
            message: String::from_str("✓ PASS"),
            execution_time_ms: execution_time,
        }
    }

    /// A failing result.
    pub fn fail(name: String, expected: bool, actual: bool, message: String, execution_time: u64) -> (r: Self)
        ensures
            r.test_name == name,
            !r.passed,
            r.expected == expected,
            r.actual == actual,
            r.message == message,
            r.execution_time_ms == execution_time,
    {
        TestResult { test_name: name, passed: false, expected, actual, message, execution_time_ms: execution_time }
    }
}

/// Whether `after` is `before` with `result` counted: one more test, its
/// time added, one more pass, or one more failure kept at the end of the
/// failures, and the success rate updated.
pub open spec fn result_added(before: TestSummary, result: TestResult, after: TestSummary) -> bool {
    &&& after.total_tests == before.total_tests + 1
    &&& after.total_execution_time_ms == before.total_execution_time_ms + result.execution_time_ms
    &&& result.passed ==> after.passed == before.passed + 1 && after.failed == before.failed
        && after.failures@ == before.failures@
    &&& !result.passed ==> after.passed == before.passed && after.failed == before.failed + 1
        && after.failures@ == before.failures@.push(result)
    &&& after.success_rate == (Rate { hits: after.passed, total: after.total_tests })
}

/// Whether a summary is the empty one that `TestSummary::new` gives.
pub open spec fn summary_is_empty(s: TestSummary) -> bool {
    &&& s.total_tests == 0 && s.passed == 0 && s.failed == 0
    &&& s.success_rate == (Rate { hits: 0, total: 0 })
    &&& s.total_execution_time_ms == 0
    &&& s.failures@.len() == 0
}

/// How many results passed.
pub open spec fn passed_count(rs: Seq<TestResult>) -> nat
    decreases rs.len(),
{
    if rs.len() == 0 {
        0
    } else {
        passed_count(rs.drop_last()) + if rs.last().passed { 1nat } else { 0nat }
    }
}

/// The failing results, in order.
pub open spec fn failing_results(rs: Seq<TestResult>) -> Seq<TestResult>
    decreases rs.len(),
{
    if rs.len() == 0 {
        Seq::empty()
    } else if rs.last().passed {
        failing_results(rs.drop_last())
    } else {
        failing_results(rs.drop_last()).push(rs.last())
    }
}

/// The summed execution time of results.
pub open spec fn results_time(rs: Seq<TestResult>) -> nat
    decreases rs.len(),
{
    if rs.len() == 0 {
        0
    } else {
        results_time(rs.drop_last()) + rs.last().execution_time_ms as nat
    }
}

/// A summary built from the empty one by counting results in order (the
/// states `steps`, one after each result) counts them all: as many tests
/// as results, the passing ones as passed, the others as failed and kept
/// in order, their times summed, and the rate as passed out of all.
pub proof fn law_summary_counts_every_result(steps: Seq<TestSummary>, rs: Seq<TestResult>)
    requires
        steps.len() == rs.len() + 1,
        summary_is_empty(steps[0]),
        forall|i: int| 0 <= i < rs.len() ==> result_added(#[trigger] steps[i], rs[i], steps[i + 1]),
    ensures
        steps.last().total_tests == rs.len(),
        steps.last().passed == passed_count(rs),
        steps.last().failed == rs.len() - passed_count(rs),
        steps.last().failures@ == failing_results(rs),
        steps.last().total_execution_time_ms == results_time(rs),
        steps.last().success_rate == (Rate { hits: steps.last().passed, total: steps.last().total_tests }),
        (steps.last().failed == 0) <==> passed_count(rs) == rs.len(),
    decreases rs.len(),
{
    if rs.len() > 0 {
        let n = rs.len() - 1;
        let prefix = steps.take(n + 1);
        assert forall|i: int| 0 <= i < rs.drop_last().len() implies result_added(
            #[trigger] prefix[i],
            rs.drop_last()[i],
            prefix[i + 1],
        ) by {
            assert(result_added(steps[i], rs[i], steps[i + 1]));
        }
        law_summary_counts_every_result(prefix, rs.drop_last());
        assert(prefix.last() == steps[n]);
        assert(result_added(steps[n], rs[n], steps[n + 1]));
        assert(rs.last() == rs[n]);
    }
}

/// Summary of a test run over several cases.
#[derive(Debug, Clone)]
pub struct TestSummary {
    pub total_tests: usize,
    pub passed: usize,
    pub failed: usize,
    /// Passed tests out of all tests
    pub success_rate: Rate,
    pub total_execution_time_ms: u64,
    /// The failing results, in order
    pub failures: Vec<TestResult>,
}

impl TestSummary {
    /// An empty summary.
    pub fn new() -> (s: Self)
        ensures
            s.total_tests == 0 && s.passed == 0 && s.failed == 0,
            s.success_rate == (Rate { hits: 0, total: 0 }),
            s.total_execution_time_ms == 0,
            s.failures@.len() == 0,
    {
        TestSummary {
            total_tests: 0,
            passed: 0,
            failed: 0,
            success_rate: Rate { hits: 0, total: 0 },
            total_execution_time_ms: 0,
            failures: Vec::new(),
        }
    }

    /// Count a result; a failing one is kept among the failures.
    pub fn add_result(&mut self, result: TestResult)
        requires
            old(self).total_tests < usize::MAX,
            old(self).passed < usize::MAX,
            old(self).failed < usize::MAX,
            old(self).total_execution_time_ms + result.execution_time_ms <= u64::MAX,
        ensures
            result_added(*old(self), result, *final(self)),
    {
        self.total_tests = self.total_tests + 1;
        self.total_execution_time_ms = self.total_execution_time_ms + result.execution_time_ms;
        if result.passed {
            self.passed = self.passed + 1;
        } else {
            self.failed = self.failed + 1;
            self.failures.push(result);
        }
        self.success_rate = Rate { hits: self.passed, total: self.total_tests };
    }

    /// Whether no test failed.
    pub fn all_passed(&self) -> (b: bool)
        ensures
            b == (self.failed == 0),
    {
        self.failed == 0
    }
}

impl Default for TestSummary {
    fn default() -> (s: Self)
        ensures
            s.total_tests == 0 && s.passed == 0 && s.failed == 0,
            s.failures@.len() == 0,
    {
        TestSummary::new()
    }
}

/// How many statements of a sequence contain `needle`.
pub open spec fn statement_hits(st: Seq<(Seq<char>, int, int)>, needle: Seq<char>) -> nat
    decreases st.len(),
{
    if st.len() == 0 {
        0
    } else {
        statement_hits(st.drop_last(), needle) + if contains_text(st.last().0, needle) {
            1nat
        } else {
            0nat
        }
    }
}

/// How many nodes of the line-based syntax tree of `code` contain `needle`:
/// the module node, whose text is empty, and the statements.
pub open spec fn code_hits(code: Seq<char>, needle: Seq<char>) -> nat {
    (if contains_text(Seq::empty(), needle) {
        1nat
    } else {
        0nat
    }) + statement_hits(statements(code), needle)
}

/// How many matches a sequence of patterns has in the line-based syntax tree
/// of `code`, whatever its language.
pub open spec fn code_match_count(code: Seq<char>, ps: Seq<Pattern>) -> nat
    decreases ps.len(),
{
    if ps.len() == 0 {
        0
    } else {
        code_match_count(code, ps.drop_last()) + code_hits(code, trim(ps.last().pattern@))
    }
}

proof fn lemma_leaves_found(ns: Seq<ASTNode>, st: Seq<(Seq<char>, int, int)>, needle: Seq<char>)
    requires
        ns.len() == st.len(),
        forall|k: int| 0 <= k < ns.len() ==> is_statement(#[trigger] ns[k], st[k]),
    ensures
        found_in_forest(ns, needle).len() == statement_hits(st, needle),
    decreases ns.len(),
{
    if ns.len() > 0 {
        let ns0 = ns.drop_last();
        let st0 = st.drop_last();
        assert forall|k: int| 0 <= k < ns0.len() implies is_statement(#[trigger] ns0[k], st0[k]) by {
            assert(is_statement(ns[k], st[k]));
        }
        lemma_leaves_found(ns0, st0, needle);
        let leaf = ns.last();
        assert(is_statement(ns[ns.len() - 1], st[st.len() - 1]));
        assert(found_in_forest(leaf.children@, needle) == Seq::<ASTNode>::empty());
        assert(found_in_forest(ns, needle) == found_in_forest(ns0, needle) + found_in_tree(leaf, needle));
        assert(found_in_tree(leaf, needle).len() == if contains_text(st.last().0, needle) {
            1nat
        } else {
            0nat
        });
    }
}

/// In the line-based syntax tree of a piece of code, the number of matches
/// of a sequence of patterns depends on the code alone.
pub proof fn lemma_simple_ast_match_count(a: ASTNode, code: Seq<char>, language: Language, ps: Seq<Pattern>)
    requires
        is_simple_ast(a, code, language),
    ensures
        pattern_matches(a, ps).len() == code_match_count(code, ps),
    decreases ps.len(),
{
    if ps.len() > 0 {
        lemma_simple_ast_match_count(a, code, language, ps.drop_last());
        let needle = trim(ps.last().pattern@);
        lemma_leaves_found(a.children@, statements(code), needle);
        assert(a.text@ == Seq::<char>::empty());
    }
}

/// The word for whether a rule matched.
pub open spec fn match_word(b: bool) -> Seq<char> {
    if b {
        "match"@
    } else {
        "no match"@
    }
}

/// The message of a test case whose expectation was not met.
pub open spec fn mismatch_message(expected: bool, actual: bool, found: nat) -> Seq<char> {
    "Expected "@ + match_word(expected) + " but got "@ + match_word(actual) + " (found "@ + decimal(found)
        + " match(es))"@
}

/// A failing result, seen as its name, expectation, outcome and message.
pub type FailureView = (Seq<char>, bool, bool, Seq<char>);

/// The failure of a test case under a sequence of patterns, if it fails.
pub open spec fn case_failure(tc: TestCase, ps: Seq<Pattern>) -> Option<FailureView> {
    let n = code_match_count(tc.code@, ps);
    let had_match = n > 0;
    if had_match == tc.should_match {
        None
    } else {
        Some((tc.name@, tc.should_match, had_match, mismatch_message(tc.should_match, had_match, n)))
    }
}

/// The failures of a sequence of test cases, in order.
pub open spec fn case_failures(cases: Seq<TestCase>, ps: Seq<Pattern>) -> Seq<FailureView>
    decreases cases.len(),
{
    if cases.len() == 0 {
        Seq::empty()
    } else {
        let prev = case_failures(cases.drop_last(), ps);
        match case_failure(cases.last(), ps) {
            Some(f) => prev.push(f),
            None => prev,
        }
    }
}

/// The failures of a rule's test cases, once for each of its languages that
/// is supported, in the order of the languages.
pub open spec fn rule_failures(languages: Seq<String>, cases: Seq<TestCase>, ps: Seq<Pattern>) -> Seq<FailureView>
    decreases languages.len(),
{
    if languages.len() == 0 {
        Seq::empty()
    } else {
        let prev = rule_failures(languages.drop_last(), cases, ps);
        if language_of_name(lowercase(languages.last()@)) is Some {
            prev + case_failures(cases, ps)
        } else {
            prev
        }
    }
}

/// A failing result as a failure view.
pub open spec fn failure_view(r: TestResult) -> FailureView {
    (r.test_name@, r.expected, r.actual, r.message@)
}

/// The failure views of a sequence of results.
pub open spec fn failure_views(rs: Seq<TestResult>) -> Seq<FailureView> {
    rs.map_values(|r: TestResult| failure_view(r))
}

/// Whether every test case's code fits the line-based syntax tree.
pub open spec fn cases_fit(cases: Seq<TestCase>) -> bool {
    forall|k: int| 0 <= k < cases.len() ==> ast_fits(#[trigger] cases[k].code@)
}

proof fn lemma_case_failures_len(cases: Seq<TestCase>, ps: Seq<Pattern>)
    ensures
        case_failures(cases, ps).len() <= cases.len(),
    decreases cases.len(),
{
    if cases.len() > 0 {
        lemma_case_failures_len(cases.drop_last(), ps);
    }
}

proof fn lemma_rule_failures_len(languages: Seq<String>, cases: Seq<TestCase>, ps: Seq<Pattern>)
    ensures
        rule_failures(languages, cases, ps).len() <= languages.len() * cases.len(),
    decreases languages.len(),
{
    if languages.len() > 0 {
        lemma_rule_failures_len(languages.drop_last(), cases, ps);
        lemma_case_failures_len(cases, ps);
        let n = languages.len();
        let m = cases.len();
        assert((n - 1) * m + m == n * m) by (nonlinear_arith);
    }
}

fn match_word_text(b: bool) -> (s: &'static str)
    ensures
        s@ == match_word(b),
{
    if b {
        "match"
    } else {
        "no match"
    }
}

fn mismatch_text(expected: bool, actual: bool, found: usize) -> (s: String)
    ensures
        s@ == mismatch_message(expected, actual, found as nat),
{
    let mut s = String::from_str("Expected ");
    s.append(match_word_text(expected));
    s.append(" but got ");
    s.append(match_word_text(actual));
    s.append(" (found ");
    let n = decimal_text(found as u64);
    s.append(n.as_str());
    s.append(" match(es))");
    s
}

/// How many failures testing a rule can record at most.
pub open spec fn rule_budget(r: Rule) -> nat {
    match r.tests {
        Some(cases) => r.languages@.len() * cases@.len(),
        None => 0,
    }
}

/// How many failures testing a sequence of rules can record at most.
pub open spec fn test_budget(rules: Seq<Rule>) -> nat
    decreases rules.len(),
{
    if rules.len() == 0 {
        0
    } else {
        test_budget(rules.drop_last()) + rule_budget(rules.last())
    }
}

/// Whether a sequence of rules can be tested within the machine's counters.
pub open spec fn rules_testable(rules: Seq<Rule>) -> bool {
    &&& forall|i: int|
        0 <= i < rules.len() ==> ((#[trigger] rules[i]).tests matches Some(cases) ==> cases_fit(cases@)
            && rules[i].languages@.len() * cases@.len() < usize::MAX)
    &&& test_budget(rules) < usize::MAX
    &&& rules.len() < usize::MAX
}

/// The message recorded for a rule without test cases.
pub open spec fn no_tests_message() -> Seq<char> {
    "Validation error: Rule has no test cases defined"@
}

/// The run summary, without timing, of testing a sequence of rules in order.
pub open spec fn run_view(rules: Seq<Rule>) -> RunView
    decreases rules.len(),
{
    if rules.len() == 0 {
        RunView {
            summaries: Seq::empty(),
            errors: Seq::empty(),
            total_rules: 0,
            total_tests: 0,
            passed_tests: 0,
            failed_tests: 0,
        }
    } else {
        let p = run_view(rules.drop_last());
        let r = rules.last();
        match r.tests {
            None => RunView { errors: upsert_view(p.errors, r.id@, no_tests_message()), ..p },
            Some(cases) => {
                let f = rule_failures(r.languages@, cases@, r.patterns@);
                RunView {
                    summaries: upsert_view(
                        p.summaries,
                        r.id@,
                        SummaryView { total_tests: f.len(), passed: 0, failed: f.len(), failures: f },
                    ),
                    total_rules: p.total_rules + 1,
                    total_tests: p.total_tests + f.len(),
                    failed_tests: p.failed_tests + f.len(),
                    ..p
                }
            },
        }
    }
}

proof fn lemma_run_view_bounds(rules: Seq<Rule>)
    ensures
        run_view(rules).total_tests <= test_budget(rules),
        run_view(rules).failed_tests == run_view(rules).total_tests,
        run_view(rules).passed_tests == 0,
        run_view(rules).total_rules <= rules.len(),
        run_keys_distinct(run_view(rules)),
    decreases rules.len(),
{
    if rules.len() > 0 {
        let p = run_view(rules.drop_last());
        lemma_run_view_bounds(rules.drop_last());
        let r = rules.last();
        match r.tests {
            None => {
                lemma_upsert_keys_distinct(p.errors, r.id@, no_tests_message());
            },
            Some(cases) => {
                let f = rule_failures(r.languages@, cases@, r.patterns@);
                lemma_rule_failures_len(r.languages@, cases@, r.patterns@);
                lemma_upsert_keys_distinct(
                    p.summaries,
                    r.id@,
                    SummaryView { total_tests: f.len(), passed: 0, failed: f.len(), failures: f },
                );
            },
        }
    } else {
        assert(view_keys(Seq::<(Seq<char>, SummaryView)>::empty()) =~= Seq::empty());
        assert(view_keys(Seq::<(Seq<char>, Seq<char>)>::empty()) =~= Seq::empty());
    }
}

proof fn lemma_budget_prefix(rules: Seq<Rule>, i: int)
    requires
        0 <= i <= rules.len(),
    ensures
        test_budget(rules.take(i)) <= test_budget(rules),
    decreases rules.len() - i,
{
    if i < rules.len() {
        lemma_budget_prefix(rules, i + 1);
        assert(rules.take(i + 1).drop_last() =~= rules.take(i));
    } else {
        assert(rules.take(i) =~= rules);
    }
}

/// Rule tester.
#[derive(Debug)]
pub struct RuleTester {
    parser: MultiLanguageParser,
}

impl RuleTester {
    /// The languages whose parsers the tester has set up.
    pub closed spec fn parsed_languages(self) -> Seq<Language> {
        self.parser.languages()
    }

    /// Create a rule tester, with no parser set up yet.
    pub fn new() -> (t: Self)
        ensures
            t.parsed_languages().len() == 0,
    {
        RuleTester { parser: MultiLanguageParser::new() }
    }

    /// Run the test cases of a rule in one language: each case's code is
    /// parsed and the rule's patterns are matched against it.
    fn test_rule_for_language(&mut self, rule: &Rule, language: Language, cases: &Vec<TestCase>) -> (s: TestSummary)
        requires
            cases_fit(cases@),
        ensures
            failure_views(s.failures@) == case_failures(cases@, rule.patterns@),
            s.total_tests == cases@.len(),
            s.failed == s.failures@.len(),
            s.passed + s.failed == s.total_tests,
            forall|k: int| 0 <= k < s.failures@.len() ==> !(#[trigger] s.failures@[k]).passed,
    {
        let mut summary = TestSummary::new();
        for i in 0..cases.len()
            invariant
                cases_fit(cases@),
                failure_views(summary.failures@) == case_failures(cases@.take(i as int), rule.patterns@),
                summary.total_tests == i,
                summary.failed == summary.failures@.len(),
                summary.passed + summary.failed == summary.total_tests,
                forall|k: int| 0 <= k < summary.failures@.len() ==> !(#[trigger] summary.failures@[k]).passed,
        {
            let tc = &cases[i];
            assert(ast_fits(cases@[i as int].code@));
            let start = clock_now();
            let parse_result = self.parser.parse(language, tc.code.as_str());
            let elapsed = elapsed_millis(&start);
            let room = u64::MAX - summary.total_execution_time_ms;
            let execution_time = if elapsed > room {
                room
            } else {
                elapsed
            };
            assert(cases@.take(i + 1).drop_last() =~= cases@.take(i as int));
            let ghost before = summary.failures@;
            match parse_result {
                Err(e) => {
                    let result = TestResult::fail(tc.name.clone(), tc.should_match, false, e.to_string(), execution_time);
                    summary.add_result(result);
                },
                Ok(parsed) => {
                    let matcher = PatternMatcher::new(language);
                    let found: usize = match matcher.match_patterns(&parsed.ast, rule.patterns.as_slice()) {
                        Ok(ms) => ms.len(),
                        Err(_) => 0,
                    };
                    proof {
                        lemma_simple_ast_match_count(parsed.ast, tc.code@, language, rule.patterns@);
                    }
                    let had_match = found > 0;
                    if had_match == tc.should_match {
                        let result = TestResult::pass(tc.name.clone(), execution_time);
                        summary.add_result(result);
                        assert(case_failure(cases@[i as int], rule.patterns@) is None);
                    } else {
                        let message = mismatch_text(tc.should_match, had_match, found);
                        let result = TestResult::fail(tc.name.clone(), tc.should_match, had_match, message, execution_time);
                        summary.add_result(result);
                        proof {
                            assert(failure_views(summary.failures@) =~= failure_views(before).push(failure_view(result)));
                        }
                    }
                },
            }
        }
        assert(cases@.take(cases@.len() as int) =~= cases@);
        summary
    }

    /// Test a rule: its test cases are run in each of its languages that is
    /// supported, and the failures of every run are gathered, in order.
    pub fn test_rule(&mut self, rule: &Rule) -> (r: Result<TestSummary, DeclarativeExtractorError>)
        requires
            rule.tests matches Some(cases) ==> cases_fit(cases@) && rule.languages@.len() * cases@.len()
                < usize::MAX,
        ensures
            rule.tests is None ==> (r matches Err(DeclarativeExtractorError::Validation { message })
                && message@ == "Rule has no test cases defined"@),
            rule.tests matches Some(cases) ==> (r matches Ok(s) && failure_views(s.failures@) == rule_failures(
                rule.languages@,
                cases@,
                rule.patterns@,
            ) && s.total_tests == s.failures@.len() && s.failed == s.failures@.len() && s.passed == 0),
    {
        let cases = match &rule.tests {
            Some(tests) => tests,
            None => {
                return Err(DeclarativeExtractorError::validation("Rule has no test cases defined"));
            },
        };
        let mut summary = TestSummary::new();
        proof {
            lemma_rule_failures_len(rule.languages@, cases@, rule.patterns@);
        }
        for j in 0..rule.languages.len()
            invariant
                rule.tests == Some(*cases),
                cases_fit(cases@),
                rule.languages@.len() * cases@.len() < usize::MAX,
                failure_views(summary.failures@) == rule_failures(rule.languages@.take(j as int), cases@, rule.patterns@),
                summary.total_tests == summary.failures@.len(),
                summary.failed == summary.failures@.len(),
                summary.passed == 0,
        {
            assert(rule.languages@.take(j + 1).drop_last() =~= rule.languages@.take(j as int));
            if let Some(language) = Language::from_str(rule.languages[j].as_str()) {
                let lang_summary = self.test_rule_for_language(rule, language, cases);
                let mut failures = lang_summary.failures;
                let ghost base = summary.failures@;
                let ghost orig = failures@;
                proof {
                    let langs = rule.languages@.take(j + 1);
                    assert(langs.drop_last() =~= rule.languages@.take(j as int));
                    assert(langs.last() == rule.languages@[j as int]);
                    assert(rule_failures(langs, cases@, rule.patterns@) == rule_failures(
                        rule.languages@.take(j as int),
                        cases@,
                        rule.patterns@,
                    ) + case_failures(cases@, rule.patterns@));
                    lemma_rule_failures_len(langs, cases@, rule.patterns@);
                    assert((j + 1) * cases@.len() <= rule.languages@.len() * cases@.len()) by (nonlinear_arith)
                        requires
                            j + 1 <= rule.languages@.len(),
                    ;
                    assert(failure_views(base).len() == base.len());
                    assert(failure_views(orig).len() == orig.len());
                    assert(failure_views(base) + failure_views(orig) =~= failure_views(base + orig));
                }
                while failures.len() > 0
                    invariant
                        failure_views(summary.failures@ + failures@) == failure_views(base + orig),
                        summary.failures@.len() + failures@.len() == base.len() + orig.len(),
                        summary.total_tests == summary.failures@.len(),
                        summary.failed == summary.failures@.len(),
                        summary.passed == 0,
                        base.len() + orig.len() < usize::MAX,
                        forall|q: int| 0 <= q < failures@.len() ==> !(#[trigger] failures@[q]).passed,
                    decreases failures@.len(),
                {
                    let ghost rest = failures@;
                    let ghost prev = summary.failures@;
                    let mut result = failures.remove(0);
                    assert(rest =~= seq![rest[0]] + failures@);
                    assert(!rest[0].passed);
                    let room = u64::MAX - summary.total_execution_time_ms;
                    if result.execution_time_ms > room {
                        result.execution_time_ms = room;
                    }
                    assert(failure_view(result) == failure_view(rest[0]));
                    summary.add_result(result);
                    assert(failure_views(summary.failures@ + failures@) =~= failure_views(prev + rest));
                }
                assert(failures@.len() == 0);
                assert(summary.failures@ + failures@ =~= summary.failures@);
            }
        }
        assert(rule.languages@.take(rule.languages@.len() as int) =~= rule.languages@);
        Ok(summary)
    }

    /// Test every rule of a set, in order: the summary of each rule with test
    /// cases, and the error of each rule without, by rule identifier.
    pub fn test_rule_set(&mut self, rule_set: &RuleSet) -> (r: Result<TestRunSummary, DeclarativeExtractorError>)
        requires
            rules_testable(rule_set.rules@),
        ensures
            r matches Ok(run) && run@ == run_view(rule_set.rules@),
            r matches Ok(run) && (rule_set.rules@.len() == 0 ==> run.total_execution_time_ms == 0),
    {
        let rules = rule_set.rules();
        let mut run = TestRunSummary::new();
        for i in 0..rules.len()
            invariant
                rules@ == rule_set.rules@,
                rules@.len() == 0 ==> run.total_execution_time_ms == 0,
                rules_testable(rules@),
                run@ == run_view(rules@.take(i as int)),
        {
            let ghost prefix = rules@.take(i as int);
            proof {
                assert(rules@.take(i + 1).drop_last() =~= prefix);
                lemma_run_view_bounds(prefix);
                lemma_budget_prefix(rules@, i + 1);
            }
            let rule = &rules[i];
            assert(rules@.take(i + 1).last() == *rule);
            let start = clock_now();
            match self.test_rule(rule) {
                Ok(summary) => {
                    let elapsed = elapsed_millis(&start);
                    let room = u64::MAX - run.total_execution_time_ms;
                    let execution_time = if elapsed > room {
                        room
                    } else {
                        elapsed
                    };
                    proof {
                        let cases = rule.tests->0;
                        lemma_rule_failures_len(rule.languages@, cases@, rule.patterns@);
                        let f = rule_failures(rule.languages@, cases@, rule.patterns@);
                        assert(failure_views(summary.failures@).len() == summary.failures@.len());
                        assert(summary_view(summary) == SummaryView {
                            total_tests: f.len(),
                            passed: 0,
                            failed: f.len(),
                            failures: f,
                        });
                    }
                    run.add_rule_result(rule.id.clone(), summary, execution_time);
                },
                Err(e) => {
                    assert(rule.tests is None);
                    let message = e.to_string();
                    proof {
                        reveal_strlit("Validation error: ");
                        reveal_strlit("Rule has no test cases defined");
                        reveal_strlit("Validation error: Rule has no test cases defined");
                        assert(message@ =~= no_tests_message());
                    }
                    run.add_rule_error(rule.id.clone(), message);
                },
            }
        }
        assert(rules@.take(rules@.len() as int) =~= rules@);
        Ok(run)
    }

    /// Test the rules of a directory. Rules are not loaded from the directory
    /// yet, so an empty set of rules is tested.
    pub fn test_rules_directory(&mut self, rules_dir: &str) -> (r: Result<TestRunSummary, DeclarativeExtractorError>)
        ensures
            r matches Ok(run) && run@ == run_view(Seq::empty()) && run.total_execution_time_ms == 0,
    {
        let rule_set = RuleSet::new();
        self.test_rule_set(&rule_set)
    }
}

/// A summary seen as its counts and the views of its failures.
pub struct SummaryView {
    pub total_tests: nat,
    pub passed: nat,
    pub failed: nat,
    pub failures: Seq<FailureView>,
}

/// The view of a summary.
pub open spec fn summary_view(s: TestSummary) -> SummaryView {
    SummaryView {
        total_tests: s.total_tests as nat,
        passed: s.passed as nat,
        failed: s.failed as nat,
        failures: failure_views(s.failures@),
    }
}

/// The keys of keyed entries.
pub open spec fn entry_keys<T>(v: Seq<(String, T)>) -> Seq<Seq<char>> {
    v.map_values(|e: (String, T)| e.0@)
}

/// The keys of keyed entries seen as texts.
pub open spec fn view_keys<T>(v: Seq<(Seq<char>, T)>) -> Seq<Seq<char>> {
    v.map_values(|e: (Seq<char>, T)| e.0)
}

/// Whether no key occurs twice.
pub open spec fn keys_distinct(keys: Seq<Seq<char>>) -> bool {
    forall|i: int, j: int| 0 <= i < j < keys.len() ==> keys[i] != keys[j]
}

/// The position of a key, or -1 where it does not occur.
pub open spec fn key_slot(keys: Seq<Seq<char>>, k: Seq<char>) -> int {
    if exists|i: int| 0 <= i < keys.len() && keys[i] == k {
        choose|i: int| 0 <= i < keys.len() && keys[i] == k
    } else {
        -1
    }
}

/// Keyed entries with the entry for `k` set to `x`: replaced in place where
/// the key occurs, added at the end otherwise.
pub open spec fn upsert_view<T>(v: Seq<(Seq<char>, T)>, k: Seq<char>, x: T) -> Seq<(Seq<char>, T)> {
    let i = key_slot(view_keys(v), k);
    if i >= 0 {
        v.update(i, (k, x))
    } else {
        v.push((k, x))
    }
}

/// The views of the summaries of a run, by rule.
pub open spec fn summaries_view(v: Seq<(String, TestSummary)>) -> Seq<(Seq<char>, SummaryView)> {
    v.map_values(|e: (String, TestSummary)| (e.0@, summary_view(e.1)))
}

/// The views of the errors of a run, by rule.
pub open spec fn errors_view(v: Seq<(String, String)>) -> Seq<(Seq<char>, Seq<char>)> {
    v.map_values(|e: (String, String)| (e.0@, e.1@))
}

/// A run summary seen without its timing.
pub struct RunView {
    pub summaries: Seq<(Seq<char>, SummaryView)>,
    pub errors: Seq<(Seq<char>, Seq<char>)>,
    pub total_rules: nat,
    pub total_tests: nat,
    pub passed_tests: nat,
    pub failed_tests: nat,
}

/// Summary of a complete test run, with one entry for each rule identifier.
#[derive(Debug, Clone)]
pub struct TestRunSummary {
    pub rule_summaries: Vec<(String, TestSummary)>,
    pub rule_errors: Vec<(String, String)>,
    pub total_rules: usize,
    pub total_tests: usize,
    pub passed_tests: usize,
    pub failed_tests: usize,
    pub total_execution_time_ms: u64,
}

impl View for TestRunSummary {
    type V = RunView;

    open spec fn view(&self) -> RunView {
        RunView {
            summaries: summaries_view(self.rule_summaries@),
            errors: errors_view(self.rule_errors@),
            total_rules: self.total_rules as nat,
            total_tests: self.total_tests as nat,
            passed_tests: self.passed_tests as nat,
            failed_tests: self.failed_tests as nat,
        }
    }
}

/// Whether the entries of a run summary have distinct rule identifiers.
pub open spec fn run_keys_distinct(r: RunView) -> bool {
    keys_distinct(view_keys(r.summaries)) && keys_distinct(view_keys(r.errors))
}

proof fn lemma_upsert_keys_distinct<T>(v: Seq<(Seq<char>, T)>, k: Seq<char>, x: T)
    requires
        keys_distinct(view_keys(v)),
    ensures
        keys_distinct(view_keys(upsert_view(v, k, x))),
{
    let ks = view_keys(v);
    let i = key_slot(ks, k);
    if i >= 0 {
        assert(view_keys(upsert_view(v, k, x)) =~= ks);
    } else {
        assert(view_keys(upsert_view(v, k, x)) =~= ks.push(k));
        assert forall|a: int| 0 <= a < ks.len() implies ks[a] != k by {
            if ks[a] == k {
                assert(exists|q: int| 0 <= q < ks.len() && ks[q] == k);
            }
        }
    }
}

/// Set the entry for `key` among entries with distinct keys.
pub(crate) fn upsert<T>(v: &mut Vec<(String, T)>, key: String, value: T)
    requires
        keys_distinct(entry_keys(old(v)@)),
    ensures
        key_slot(entry_keys(old(v)@), key@) >= 0 ==> final(v)@ == old(v)@.update(
            key_slot(entry_keys(old(v)@), key@),
            (key, value),
        ),
        key_slot(entry_keys(old(v)@), key@) < 0 ==> final(v)@ == old(v)@.push((key, value)),
{
    let ghost ks = entry_keys(v@);
    let mut i: usize = 0;
    while i < v.len()
        invariant
            i <= v@.len(),
            v@ == old(v)@,
            ks == entry_keys(v@),
            keys_distinct(ks),
            forall|q: int| 0 <= q < i ==> ks[q] != key@,
        decreases v@.len() - i,
    {
        if text_is(v[i].0.as_str(), key.as_str()) {
            proof {
                assert(ks[i as int] == key@);
                let c = key_slot(ks, key@);
                assert(0 <= c < ks.len() && ks[c] == key@);
                assert(c == i as int);
            }
            v.set(i, (key, value));
            return;
        }
        i = i + 1;
    }
    proof {
        if exists|q: int| 0 <= q < ks.len() && ks[q] == key@ {
            let q = choose|q: int| 0 <= q < ks.len() && ks[q] == key@;
            assert(ks[q] != key@);
        }
    }
    v.push((key, value));
}

proof fn lemma_summaries_update(v: Seq<(String, TestSummary)>, key: String, s: TestSummary)
    ensures
        entry_keys(v) == view_keys(summaries_view(v)),
        key_slot(entry_keys(v), key@) >= 0 ==> summaries_view(v.update(key_slot(entry_keys(v), key@), (key, s)))
            == upsert_view(summaries_view(v), key@, summary_view(s)),
        key_slot(entry_keys(v), key@) < 0 ==> summaries_view(v.push((key, s))) == upsert_view(
            summaries_view(v),
            key@,
            summary_view(s),
        ),
{
    assert(entry_keys(v) =~= view_keys(summaries_view(v)));
    let i = key_slot(entry_keys(v), key@);
    if i >= 0 {
        assert(summaries_view(v.update(i, (key, s))) =~= summaries_view(v).update(i, (key@, summary_view(s))));
    } else {
        assert(summaries_view(v.push((key, s))) =~= summaries_view(v).push((key@, summary_view(s))));
    }
}

proof fn lemma_errors_update(v: Seq<(String, String)>, key: String, e: String)
    ensures
        entry_keys(v) == view_keys(errors_view(v)),
        key_slot(entry_keys(v), key@) >= 0 ==> errors_view(v.update(key_slot(entry_keys(v), key@), (key, e)))
            == upsert_view(errors_view(v), key@, e@),
        key_slot(entry_keys(v), key@) < 0 ==> errors_view(v.push((key, e))) == upsert_view(errors_view(v), key@, e@),
{
    assert(entry_keys(v) =~= view_keys(errors_view(v)));
    let i = key_slot(entry_keys(v), key@);
    if i >= 0 {
        assert(errors_view(v.update(i, (key, e))) =~= errors_view(v).update(i, (key@, e@)));
    } else {
        assert(errors_view(v.push((key, e))) =~= errors_view(v).push((key@, e@)));
    }
}

impl TestRunSummary {
    /// An empty run summary.
    pub fn new() -> (r: Self)
        ensures
            r@ == (RunView {
                summaries: Seq::empty(),
                errors: Seq::empty(),
                total_rules: 0,
                total_tests: 0,
                passed_tests: 0,
                failed_tests: 0,
            }),
            r.total_execution_time_ms == 0,
    {
        let r = TestRunSummary {
            rule_summaries: Vec::new(),
            rule_errors: Vec::new(),
            total_rules: 0,
            total_tests: 0,
            passed_tests: 0,
            failed_tests: 0,
            total_execution_time_ms: 0,
        };
        assert(summaries_view(r.rule_summaries@) =~= Seq::empty());
        assert(errors_view(r.rule_errors@) =~= Seq::empty());
        r
    }

    /// Record the summary of a rule's tests, replacing an earlier one for the
    /// same rule.
    pub fn add_rule_result(&mut self, rule_id: String, summary: TestSummary, execution_time_ms: u64)
        requires
            run_keys_distinct(old(self)@),
            old(self).total_rules < usize::MAX,
            old(self).total_tests + summary.total_tests <= usize::MAX,
            old(self).passed_tests + summary.passed <= usize::MAX,
            old(self).failed_tests + summary.failed <= usize::MAX,
            old(self).total_execution_time_ms + execution_time_ms <= u64::MAX,
        ensures
            final(self)@ == (RunView {
                summaries: upsert_view(old(self)@.summaries, rule_id@, summary_view(summary)),
                total_rules: old(self)@.total_rules + 1,
                total_tests: old(self)@.total_tests + summary.total_tests as nat,
                passed_tests: old(self)@.passed_tests + summary.passed as nat,
                failed_tests: old(self)@.failed_tests + summary.failed as nat,
                ..old(self)@
            }),
            final(self).total_execution_time_ms == old(self).total_execution_time_ms + execution_time_ms,
            run_keys_distinct(final(self)@),
    {
        self.total_rules = self.total_rules + 1;
        self.total_tests = self.total_tests + summary.total_tests;
        self.passed_tests = self.passed_tests + summary.passed;
        self.failed_tests = self.failed_tests + summary.failed;
        self.total_execution_time_ms = self.total_execution_time_ms + execution_time_ms;
        proof {
            lemma_summaries_update(self.rule_summaries@, rule_id, summary);
            lemma_upsert_keys_distinct(old(self)@.summaries, rule_id@, summary_view(summary));
        }
        upsert(&mut self.rule_summaries, rule_id, summary);
    }

    /// Record the error met testing a rule, replacing an earlier one for the
    /// same rule.
    pub fn add_rule_error(&mut self, rule_id: String, error: String)
        requires
            run_keys_distinct(old(self)@),
        ensures
            final(self)@ == (RunView { errors: upsert_view(old(self)@.errors, rule_id@, error@), ..old(self)@ }),
            final(self).total_execution_time_ms == old(self).total_execution_time_ms,
            run_keys_distinct(final(self)@),
    {
        proof {
            lemma_errors_update(self.rule_errors@, rule_id, error);
            lemma_upsert_keys_distinct(old(self)@.errors, rule_id@, error@);
        }
        upsert(&mut self.rule_errors, rule_id, error);
    }

    /// Whether every test passed and no rule failed to run.
    pub fn success(&self) -> (b: bool)
        ensures
            b == (self.failed_tests == 0 && self.rule_errors@.len() == 0),
    {
        self.failed_tests == 0 && self.rule_errors.len() == 0
    }
}

impl TestRunSummary {
    /// The lines that report the run, given the success rate as it is to be
    /// shown.
    pub fn report_lines(&self, success_rate: &str) -> (lines: Vec<String>)
        ensures
            line_texts(lines@) == run_report(self@, self.total_execution_time_ms as nat, success_rate@),
    {
        let ghost r = self@;
        proof {
            reveal_strlit("=");
            reveal_strlit("-");
        }
        let bar = repeated("=", 80);
        let dash = repeated("-", 80);
        let mut lines: Vec<String> = Vec::new();
        lines.push(String::new());
        lines.push(bar.clone());
        lines.push(String::from_str("hodei-scan Rule Test Results"));
        lines.push(bar.clone());
        lines.push(String::new());
        lines.push(count_line("Total Rules: ", self.total_rules as u64, ""));
        lines.push(count_line("Total Tests: ", self.total_tests as u64, ""));
        lines.push(count_line("Passed: ", self.passed_tests as u64, " ✓"));
        lines.push(count_line("Failed: ", self.failed_tests as u64, " ✗"));
        lines.push(String::from_str("Success Rate: ").concat(success_rate).concat("%"));
        lines.push(count_line("Total Time: ", self.total_execution_time_ms, "ms"));
        proof {
            reveal_strlit("");
        }
        let ghost head = report_head(r, self.total_execution_time_ms as nat, success_rate@);
        assert(line_texts(lines@) =~= head);
        if self.rule_errors.len() > 0 {
            lines.push(String::new());
            lines.push(dash.clone());
            lines.push(String::from_str("Rule Errors:"));
            let ghost base = line_texts(lines@);
            for i in 0..self.rule_errors.len()
                invariant
                    r == self@,
                    line_texts(lines@) =~= base + error_lines(r.errors.take(i as int)),
            {
                let line = String::from_str("  ✗ ").concat(self.rule_errors[i].0.as_str()).concat(": ").concat(
                    self.rule_errors[i].1.as_str(),
                );
                let ghost before = line_texts(lines@);
                lines.push(line);
                assert(line_texts(lines@) =~= before.push(line@));
                assert(error_lines(r.errors.take(i + 1)) =~= error_lines(r.errors.take(i as int)).push(line@));
            }
            assert(r.errors.take(r.errors.len() as int) =~= r.errors);
        }
        assert(line_texts(lines@) =~= head + report_errors(r));
        if self.failed_tests > 0 {
            lines.push(String::new());
            lines.push(dash.clone());
            lines.push(String::from_str("Failed Tests:"));
            let ghost base = line_texts(lines@);
            for i in 0..self.rule_summaries.len()
                invariant
                    r == self@,
                    line_texts(lines@) =~= base + failure_lines(r.summaries.take(i as int)),
            {
                let rule_id = self.rule_summaries[i].0.as_str();
                let failures = &self.rule_summaries[i].1.failures;
                let ghost entry = r.summaries[i as int];
                let ghost outer = line_texts(lines@);
                assert(entry.0 == rule_id@);
                assert(entry.1.failures == failure_views(failures@));
                for j in 0..failures.len()
                    invariant
                        r == self@,
                        entry == r.summaries[i as int],
                        entry.0 == rule_id@,
                        entry.1.failures == failure_views(failures@),
                        line_texts(lines@) =~= outer + entry.1.failures.take(j as int).map_values(
                            |f: FailureView| failure_line(entry.0, f),
                        ),
                {
                    let line = String::from_str("  ✗ ").concat(rule_id).concat(" - ").concat(
                        failures[j].test_name.as_str(),
                    ).concat(": ").concat(failures[j].message.as_str());
                    let ghost before = line_texts(lines@);
                    lines.push(line);
                    assert(line_texts(lines@) =~= before.push(line@));
                    assert(entry.1.failures.take(j + 1).map_values(|f: FailureView| failure_line(entry.0, f))
                        =~= entry.1.failures.take(j as int).map_values(|f: FailureView| failure_line(entry.0, f)).push(
                        line@,
                    ));
                }
                assert(entry.1.failures.take(failures.len() as int) =~= entry.1.failures);
                assert(r.summaries.take(i + 1).drop_last() =~= r.summaries.take(i as int));
            }
            assert(r.summaries.take(r.summaries.len() as int) =~= r.summaries);
        }
        assert(line_texts(lines@) =~= head + report_errors(r) + report_failures(r));
        let ghost body = line_texts(lines@);
        lines.push(String::new());
        lines.push(bar.clone());
        if self.success() {
            lines.push(String::from_str("✓ All tests passed!"));
        } else {
            lines.push(String::from_str("✗ Some tests failed"));
        }
        lines.push(bar);
        assert(line_texts(lines@) =~= body + report_verdict(r));
        lines
    }
}

/// A line of `n` copies of `c`.
pub open spec fn rule_of(c: char, n: nat) -> Seq<char> {
    Seq::new(n, |i: int| c)
}

/// The report lines of the rules that could not be tested.
pub open spec fn error_lines(errors: Seq<(Seq<char>, Seq<char>)>) -> Seq<Seq<char>> {
    errors.map_values(|e: (Seq<char>, Seq<char>)| "  ✗ "@ + e.0 + ": "@ + e.1)
}

/// The report line of a failed test case of a rule.
pub open spec fn failure_line(rule_id: Seq<char>, f: FailureView) -> Seq<char> {
    "  ✗ "@ + rule_id + " - "@ + f.0 + ": "@ + f.3
}

/// The report lines of the failed test cases, rule by rule.
pub open spec fn failure_lines(summaries: Seq<(Seq<char>, SummaryView)>) -> Seq<Seq<char>>
    decreases summaries.len(),
{
    if summaries.len() == 0 {
        Seq::empty()
    } else {
        let last = summaries.last();
        failure_lines(summaries.drop_last()) + last.1.failures.map_values(|f: FailureView| failure_line(last.0, f))
    }
}

/// The opening lines of a run's report: the totals, the success rate as
/// given, and the total time.
pub open spec fn report_head(r: RunView, time_ms: nat, success_rate: Seq<char>) -> Seq<Seq<char>> {
    seq![
        Seq::empty(),
        rule_of('=', 80),
        "hodei-scan Rule Test Results"@,
        rule_of('=', 80),
        Seq::empty(),
        "Total Rules: "@ + decimal(r.total_rules),
        "Total Tests: "@ + decimal(r.total_tests),
        "Passed: "@ + decimal(r.passed_tests) + " ✓"@,
        "Failed: "@ + decimal(r.failed_tests) + " ✗"@,
        "Success Rate: "@ + success_rate + "%"@,
        "Total Time: "@ + decimal(time_ms) + "ms"@,
    ]
}

/// The report's section on rules that could not be tested, if there are any.
pub open spec fn report_errors(r: RunView) -> Seq<Seq<char>> {
    if r.errors.len() > 0 {
        seq![Seq::empty(), rule_of('-', 80), "Rule Errors:"@] + error_lines(r.errors)
    } else {
        Seq::empty()
    }
}

/// The report's section on failed test cases, if any failed.
pub open spec fn report_failures(r: RunView) -> Seq<Seq<char>> {
    if r.failed_tests > 0 {
        seq![Seq::empty(), rule_of('-', 80), "Failed Tests:"@] + failure_lines(r.summaries)
    } else {
        Seq::empty()
    }
}

/// The closing lines of a run's report, with the verdict.
pub open spec fn report_verdict(r: RunView) -> Seq<Seq<char>> {
    let verdict = if r.failed_tests == 0 && r.errors.len() == 0 {
        "✓ All tests passed!"@
    } else {
        "✗ Some tests failed"@
    };
    seq![Seq::empty(), rule_of('=', 80), verdict, rule_of('=', 80)]
}

/// The lines that report a run: the totals, the success rate as given, the
/// total time, the rules that could not be tested, the failed test cases
/// where any failed, and the verdict.
pub open spec fn run_report(r: RunView, time_ms: nat, success_rate: Seq<char>) -> Seq<Seq<char>> {
    report_head(r, time_ms, success_rate) + report_errors(r) + report_failures(r) + report_verdict(r)
}

/// `n` copies of the one character of `unit`.
fn repeated(unit: &str, n: usize) -> (s: String)
    requires
        unit@.len() == 1,
    ensures
        s@ == rule_of(unit@[0], n as nat),
{
    let mut s = String::new();
    for i in 0..n
        invariant
            unit@.len() == 1,
            s@ =~= rule_of(unit@[0], i as nat),
    {
        s.append(unit);
    }
    s
}

/// A label followed by a number and a suffix.
fn count_line(label: &str, n: u64, suffix: &str) -> (s: String)
    ensures
        s@ == label@ + decimal(n as nat) + suffix@,
{
    let d = decimal_text(n);
    String::from_str(label).concat(d.as_str()).concat(suffix)
}

impl Default for TestRunSummary {
    fn default() -> (r: Self)
        ensures
            r@.summaries.len() == 0 && r@.errors.len() == 0,
            r.total_rules == 0 && r.total_tests == 0 && r.passed_tests == 0 && r.failed_tests == 0,
    {
        TestRunSummary::new()
    }
}

impl Default for RuleTester {
    fn default() -> (t: Self) {
        RuleTester::new()
    }
}

} // verus!
