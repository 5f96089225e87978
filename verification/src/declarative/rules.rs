//! Rule definitions, rule sets and rule validation.
use vstd::prelude::*;
use super::errors::DeclarativeExtractorError;
use super::tree_sitter::{language_name, Language};
use crate::config::model::{clone_opt_string, clone_strings, opt_text, texts};

verus! {

/// Rule metadata.
#[derive(Debug)]
pub struct RuleMetadata {
    pub name: String,
    pub description: Option<String>,
    pub severity: String,
    pub confidence: String,
    pub category: Option<String>,
    pub cwe: Option<Vec<String>>,
    pub owasp: Option<Vec<String>>,
}

/// Pattern definition.
#[derive(Debug)]
pub struct Pattern {
    pub pattern: String,
    pub message: String,
}

/// Where clause for advanced matching.
#[derive(Debug)]
pub struct WhereClause {
    pub metavariable: Option<String>,
    pub pattern: Option<String>,
    pub not: Option<Box<WhereClause>>,
}

/// Fix suggestion.
#[derive(Debug)]
pub struct Fix {
    pub template: String,
    pub message: String,
}

/// Test case for rule validation.
#[derive(Debug)]
pub struct TestCase {
    pub name: String,
    pub code: String,
    pub should_match: bool,
}

/// Rule definition.
#[derive(Debug)]
pub struct Rule {
    pub id: String,
    pub metadata: Option<RuleMetadata>,
    pub languages: Vec<String>,
    pub patterns: Vec<Pattern>,
    pub where_clause: Option<Vec<WhereClause>>,
    pub fix: Option<Fix>,
    pub tests: Option<Vec<TestCase>>,
}

impl Clone for Pattern {
    fn clone(&self) -> (r: Self)
        ensures
            r == *self,
    {
        Pattern { pattern: self.pattern.clone(), message: self.message.clone() }
    }
}

impl Clone for Fix {
    fn clone(&self) -> (r: Self)
        ensures
            r == *self,
    {
        Fix { template: self.template.clone(), message: self.message.clone() }
    }
}

impl Clone for TestCase {
    fn clone(&self) -> (r: Self)
        ensures
            r == *self,
    {
        TestCase { name: self.name.clone(), code: self.code.clone(), should_match: self.should_match }
    }
}

/// Mathematical value of rule metadata.
pub struct RuleMetadataView {
    pub name: Seq<char>,
    pub description: Option<Seq<char>>,
    pub severity: Seq<char>,
    pub confidence: Seq<char>,
    pub category: Option<Seq<char>>,
    pub cwe: Option<Seq<Seq<char>>>,
    pub owasp: Option<Seq<Seq<char>>>,
}

impl View for RuleMetadata {
    type V = RuleMetadataView;

    open spec fn view(&self) -> RuleMetadataView {
        RuleMetadataView {
            name: self.name@,
            description: opt_text(self.description),
            severity: self.severity@,
            confidence: self.confidence@,
            category: opt_text(self.category),
            cwe: match self.cwe {
                Some(v) => Some(texts(v@)),
                None => None,
            },
            owasp: match self.owasp {
                Some(v) => Some(texts(v@)),
                None => None,
            },
        }
    }
}

impl Clone for RuleMetadata {
    fn clone(&self) -> (r: Self)
        ensures
            r@ == self@,
    {
        RuleMetadata {
            name: self.name.clone(),
            description: clone_opt_string(&self.description),
            severity: self.severity.clone(),
            confidence: self.confidence.clone(),
            category: clone_opt_string(&self.category),
            cwe: match &self.cwe {
                Some(v) => Some(clone_strings(v)),
                None => None,
            },
            owasp: match &self.owasp {
                Some(v) => Some(clone_strings(v)),
                None => None,
            },
        }
    }
}

impl Clone for WhereClause {
    fn clone(&self) -> (r: Self)
        ensures
            r == *self,
        decreases self,
    {
        WhereClause {
            metavariable: match &self.metavariable {
                Some(m) => Some(m.clone()),
                None => None,
            },
            pattern: match &self.pattern {
                Some(p) => Some(p.clone()),
                None => None,
            },
            not: match &self.not {
                Some(inner) => Some(Box::new((**inner).clone())),
                None => None,
            },
        }
    }
}

/// Copy a sequence of values whose copies are equal to them.
pub fn clone_patterns(v: &Vec<Pattern>) -> (r: Vec<Pattern>)
    ensures
        r@ == v@,
{
    let mut r: Vec<Pattern> = Vec::new();
    for i in 0..v.len()
        invariant
            r@ == v@.take(i as int),
    {
        r.push(v[i].clone());
        assert(r@ =~= v@.take(i + 1));
    }
    assert(v@.take(v.len() as int) =~= v@);
    r
}

/// Copy a sequence of where clauses.
pub fn clone_where_clauses(v: &Vec<WhereClause>) -> (r: Vec<WhereClause>)
    ensures
        r@ == v@,
{
    let mut r: Vec<WhereClause> = Vec::new();
    for i in 0..v.len()
        invariant
            r@ == v@.take(i as int),
    {
        r.push(v[i].clone());
        assert(r@ =~= v@.take(i + 1));
    }
    assert(v@.take(v.len() as int) =~= v@);
    r
}

/// Copy a sequence of test cases.
pub fn clone_test_cases(v: &Vec<TestCase>) -> (r: Vec<TestCase>)
    ensures
        r@ == v@,
{
    let mut r: Vec<TestCase> = Vec::new();
    for i in 0..v.len()
        invariant
            r@ == v@.take(i as int),
    {
        r.push(v[i].clone());
        assert(r@ =~= v@.take(i + 1));
    }
    assert(v@.take(v.len() as int) =~= v@);
    r
}

/// Mathematical value of a rule.
pub struct RuleView {
    pub id: Seq<char>,
    pub metadata: Option<RuleMetadataView>,
    pub languages: Seq<Seq<char>>,
    pub patterns: Seq<Pattern>,
    pub where_clause: Option<Seq<WhereClause>>,
    pub fix: Option<Fix>,
    pub tests: Option<Seq<TestCase>>,
}

impl View for Rule {
    type V = RuleView;

    open spec fn view(&self) -> RuleView {
        RuleView {
            id: self.id@,
            metadata: match self.metadata {
                Some(m) => Some(m@),
                None => None,
            },
            languages: texts(self.languages@),
            patterns: self.patterns@,
            where_clause: match self.where_clause {
                Some(w) => Some(w@),
                None => None,
            },
            fix: self.fix,
            tests: match self.tests {
                Some(t) => Some(t@),
                None => None,
            },
        }
    }
}

impl Clone for Rule {
    fn clone(&self) -> (r: Self)
        ensures
            r@ == self@,
    {
        Rule {
            id: self.id.clone(),
            metadata: match &self.metadata {
                Some(m) => Some(m.clone()),
                None => None,
            },
            languages: clone_strings(&self.languages),
            patterns: clone_patterns(&self.patterns),
            where_clause: match &self.where_clause {
                Some(w) => Some(clone_where_clauses(w)),
                None => None,
            },
            fix: match &self.fix {
                Some(f) => Some(f.clone()),
                None => None,
            },
            tests: match &self.tests {
                Some(t) => Some(clone_test_cases(t)),
                None => None,
            },
        }
    }
}

/// The category of a rule, if its metadata names one.
pub open spec fn rule_category(r: Rule) -> Option<Seq<char>> {
    match r.metadata {
        Some(m) => opt_text(m.category),
        None => None,
    }
}

/// The severity of a rule, if it has metadata.
pub open spec fn rule_severity(r: Rule) -> Option<Seq<char>> {
    match r.metadata {
        Some(m) => Some(m.severity@),
        None => None,
    }
}

/// Whether a rule applies to the language with the given name.
pub open spec fn rule_has_language(r: Rule, name: Seq<char>) -> bool {
    texts(r.languages@).contains(name)
}

/// The first rule that a rule breaks, as its message; `None` for a valid rule.
pub open spec fn rule_error(r: Rule) -> Option<Seq<char>> {
    if r.id@.len() == 0 {
        Some("Rule ID cannot be empty"@)
    } else if r.patterns@.len() == 0 {
        Some("Rule must have at least one pattern"@)
    } else if r.languages@.len() == 0 {
        Some("Rule must specify at least one language"@)
    } else if exists|i: int| 0 <= i < r.patterns@.len() && (#[trigger] r.patterns@[i]).pattern@.len() == 0 {
        Some("Pattern cannot be empty"@)
    } else {
        None
    }
}

/// The rules behind a sequence of references.
pub open spec fn rule_refs(s: Seq<&Rule>) -> Seq<Rule> {
    s.map_values(|x: &Rule| *x)
}

/// Collection of rules.
#[derive(Debug)]
pub struct RuleSet {
    pub rules: Vec<Rule>,
    pub source_dir: Option<String>,
}

/// Index of the first rule with identifier `id`, or -1 when there is none.
pub open spec fn rule_index(rules: Seq<Rule>, id: Seq<char>) -> int
    decreases rules.len(),
{
    if rules.len() == 0 {
        -1
    } else if rules[0].id@ == id {
        0
    } else {
        let k = rule_index(rules.drop_first(), id);
        if k < 0 {
            -1
        } else {
            k + 1
        }
    }
}

/// What `rule_index` finds.
pub proof fn lemma_rule_index(rules: Seq<Rule>, id: Seq<char>)
    ensures
        -1 <= rule_index(rules, id) < rules.len(),
        rule_index(rules, id) == -1 <==> forall|j: int| 0 <= j < rules.len() ==> #[trigger] rules[j].id@ != id,
        rule_index(rules, id) >= 0 ==> rules[rule_index(rules, id)].id@ == id,
        forall|j: int| 0 <= j < rule_index(rules, id) ==> #[trigger] rules[j].id@ != id,
    decreases rules.len(),
{
    if rules.len() > 0 && rules[0].id@ != id {
        let rest = rules.drop_first();
        lemma_rule_index(rest, id);
        if rule_index(rest, id) == -1 {
            assert forall|j: int| 0 <= j < rules.len() implies #[trigger] rules[j].id@ != id by {
                if j > 0 {
                    assert(rest[j - 1].id@ != id);
                }
            }
        }
        assert forall|j: int| 0 <= j < rule_index(rules, id) implies #[trigger] rules[j].id@ != id by {
            if j > 0 {
                assert(rest[j - 1].id@ != id);
            }
        }
    }
}

/// Whether `name` is among the texts of `v`.
pub fn has_text(v: &Vec<String>, name: &str) -> (b: bool)
    ensures
        b == texts(v@).contains(name@),
{
    let target = String::from_str(name);
    for i in 0..v.len()
        invariant
            target@ == name@,
            forall|k: int| 0 <= k < i ==> v@[k]@ != name@,
    {
        if v[i] == target {
            assert(texts(v@)[i as int] == name@);
            return true;
        }
    }
    assert forall|k: int| 0 <= k < texts(v@).len() implies texts(v@)[k] != name@ by {
        assert(v@[k]@ != name@);
    }
    false
}

impl RuleSet {
    /// Create an empty rule set.
    pub fn new() -> (s: Self)
        ensures
            s.rules@.len() == 0,
            s.source_dir is None,
    {
        RuleSet { rules: Vec::new(), source_dir: None }
    }

    /// Add a rule to the set.
    pub fn add_rule(&mut self, rule: Rule)
        ensures
            final(self).rules@ == old(self).rules@.push(rule),
            final(self).source_dir == old(self).source_dir,
    {
        self.rules.push(rule);
    }

    /// All rules, in the order they were added.
    pub fn rules(&self) -> (r: &[Rule])
        ensures
            r@ == self.rules@,
    {
        self.rules.as_slice()
    }

    /// The rules that apply to a language, in order.
    pub fn rules_for_language(&self, language: Language) -> (r: Vec<&Rule>)
        ensures
            rule_refs(r@) == self.rules@.filter(|rule: Rule| rule_has_language(rule, language_name(language))),
    {
        let lang_name = language.name();
        let ghost pred = |rule: Rule| rule_has_language(rule, language_name(language));
        let mut r: Vec<&Rule> = Vec::new();
        for i in 0..self.rules.len()
            invariant
                lang_name@ == language_name(language),
                pred == (|rule: Rule| rule_has_language(rule, language_name(language))),
                rule_refs(r@) == self.rules@.take(i as int).filter(pred),
        {
            proof {
                assert(self.rules@.take(i + 1) =~= self.rules@.take(i as int).push(self.rules@[i as int]));
                self.rules@.take(i as int).lemma_filter_push(self.rules@[i as int], pred);
            }
            let rule = &self.rules[i];
            if has_text(&rule.languages, lang_name) {
                let ghost before = r@;
                r.push(rule);
                assert(rule_refs(r@) =~= rule_refs(before).push(*rule));
            }
        }
        assert(self.rules@.take(self.rules@.len() as int) =~= self.rules@);
        r
    }

    /// The first rule with the given identifier.
    pub fn get_rule(&self, id: &str) -> (r: Option<&Rule>)
        ensures
            match r {
                Some(rule) => rule_index(self.rules@, id@) >= 0 && *rule == self.rules@[rule_index(self.rules@, id@)],
                None => rule_index(self.rules@, id@) == -1,
            },
    {
        proof {
            lemma_rule_index(self.rules@, id@);
        }
        let target = String::from_str(id);
        for i in 0..self.rules.len()
            invariant
                target@ == id@,
                forall|k: int| 0 <= k < i ==> #[trigger] self.rules@[k].id@ != id@,
                -1 <= rule_index(self.rules@, id@) < self.rules@.len(),
                rule_index(self.rules@, id@) == -1 <==> forall|j: int| 0 <= j < self.rules@.len() ==> #[trigger] self.rules@[j].id@ != id@,
                rule_index(self.rules@, id@) >= 0 ==> self.rules@[rule_index(self.rules@, id@)].id@ == id@,
                forall|j: int| 0 <= j < rule_index(self.rules@, id@) ==> #[trigger] self.rules@[j].id@ != id@,
        {
            if self.rules[i].id == target {
                assert(self.rules@[i as int].id@ == id@);
                return Some(&self.rules[i]);
            }
            assert(self.rules@[i as int].id@ != id@);
        }
        None
    }
}

impl Default for RuleSet {
    fn default() -> (s: Self)
        ensures
            s.rules@.len() == 0,
            s.source_dir is None,
    {
        RuleSet::new()
    }
}

/// Rule validator.
#[derive(Debug, Clone, Copy)]
pub struct RuleValidator;

impl RuleValidator {
    /// Validate a rule: it needs an identifier, at least one pattern, at
    /// least one language, and no empty pattern.
    pub fn validate(&self, rule: &Rule) -> (r: Result<(), DeclarativeExtractorError>)
        ensures
            match r {
                Ok(()) => rule_error(*rule) is None,
                Err(DeclarativeExtractorError::Validation { message }) => rule_error(*rule) == Some(message@),
                Err(_) => false,
            },
    {
        if rule.id.as_str().is_empty() {
            return Err(DeclarativeExtractorError::validation("Rule ID cannot be empty"));
        }
        if rule.patterns.len() == 0 {
            return Err(DeclarativeExtractorError::validation("Rule must have at least one pattern"));
        }
        if rule.languages.len() == 0 {
            return Err(DeclarativeExtractorError::validation("Rule must specify at least one language"));
        }
        for i in 0..rule.patterns.len()
            invariant
                rule.id@.len() != 0,
                rule.patterns@.len() != 0,
                rule.languages@.len() != 0,
                forall|k: int| 0 <= k < i ==> (#[trigger] rule.patterns@[k]).pattern@.len() != 0,
        {
            if rule.patterns[i].pattern.as_str().is_empty() {
                assert(rule.patterns@[i as int].pattern@.len() == 0);
                return Err(DeclarativeExtractorError::validation("Pattern cannot be empty"));
            }
        }
        Ok(())
    }
}

/// The rules among parse outcomes that parsed and are valid, in order.
pub open spec fn accepted_rules(parsed: Seq<Result<Rule, DeclarativeExtractorError>>) -> Seq<Rule>
    decreases parsed.len(),
{
    if parsed.len() == 0 {
        Seq::empty()
    } else {
        let rest = accepted_rules(parsed.drop_first());
        match parsed[0] {
            Ok(rule) => if rule_error(rule) is None {
                seq![rule] + rest
            } else {
                rest
            },
            Err(_) => rest,
        }
    }
}

/// Rule loader and validator.
#[derive(Debug)]
pub struct RuleLoader {
    validator: RuleValidator,
}

impl RuleLoader {
    /// Create a rule loader.
    pub fn new() -> (l: Self) {
        RuleLoader { validator: RuleValidator }
    }

    /// Accept a rule read from its text form: the rule if it is valid, else
    /// the validation error.
    pub fn accept_rule(&self, rule: Rule) -> (r: Result<Rule, DeclarativeExtractorError>)
        ensures
            match r {
                Ok(x) => x == rule && rule_error(rule) is None,
                Err(DeclarativeExtractorError::Validation { message }) => rule_error(rule) == Some(message@),
                Err(_) => false,
            },
    {
        match self.validator.validate(&rule) {
            Ok(()) => Ok(rule),
            Err(e) => Err(e),
        }
    }

    /// Load the rules of a directory, given what parsing each of its rule
    /// files gave, in order: the rules that parsed and are valid, in order,
    /// with the directory recorded as their source.
    pub fn load_rules_from_dir(&self, dir: &str, parsed: Vec<Result<Rule, DeclarativeExtractorError>>) -> (r: Result<RuleSet, DeclarativeExtractorError>)
        ensures
            r matches Ok(s) && s.rules@ == accepted_rules(parsed@) && opt_text(s.source_dir) == Some(dir@),
    {
        let mut rule_set = RuleSet::new();
        rule_set.source_dir = Some(String::from_str(dir));
        let mut rest = parsed;
        let ghost all = rest@;
        while rest.len() > 0
            invariant
                rule_set.rules@ + accepted_rules(rest@) == accepted_rules(all),
                opt_text(rule_set.source_dir) == Some(dir@),
            decreases rest@.len(),
        {
            let ghost before = rest@;
            let item = rest.remove(0);
            assert(rest@ =~= before.drop_first());
            match item {
                Ok(rule) => {
                    match self.accept_rule(rule) {
                        Ok(valid) => {
                            let ghost prev = rule_set.rules@;
                            rule_set.add_rule(valid);
                            assert(prev + accepted_rules(before) =~= rule_set.rules@ + accepted_rules(rest@));
                        },
                        Err(_) => {},
                    }
                },
                Err(_) => {},
            }
        }
        assert(rule_set.rules@ + Seq::<Rule>::empty() =~= rule_set.rules@);
        Ok(rule_set)
    }
}

impl Default for RuleLoader {
    fn default() -> (l: Self) {
        RuleLoader::new()
    }
}

} // verus!
