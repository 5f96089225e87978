//! Pattern matcher with metavariables.
use vstd::prelude::*;
use super::errors::DeclarativeExtractorError;
use super::rules::{Pattern, Rule, WhereClause};
use crate::ir::{Confidence, ExtractorId, Fact, FactType, Provenance, Severity, SourceLocation};
use super::tree_sitter::{byte_len, ASTNode, Language};
use crate::config::model::texts;
use crate::text::chars::{trim, trimmed};
use crate::text::search::{contains, contains_text};

verus! {

/// Whether two syntax trees hold the same types, texts, positions and
/// children.
pub open spec fn same_tree(a: ASTNode, b: ASTNode) -> bool
    decreases a, 1nat,
{
    &&& a.node_type == b.node_type
    &&& a.text == b.text
    &&& a.start_position == b.start_position
    &&& a.end_position == b.end_position
    &&& same_forest(a.children@, b.children@)
}

/// Whether two sequences of syntax trees are pairwise the same.
pub open spec fn same_forest(a: Seq<ASTNode>, b: Seq<ASTNode>) -> bool
    decreases a, 0nat,
{
    if a.len() == 0 {
        b.len() == 0
    } else {
        b.len() == a.len() && same_forest(a.drop_last(), b.drop_last()) && same_tree(a.last(), b.last())
    }
}

/// Copy a syntax tree.
pub fn copy_tree(n: &ASTNode) -> (r: ASTNode)
    ensures
        same_tree(r, *n),
    decreases n,
{
    let mut children: Vec<ASTNode> = Vec::new();
    for i in 0..n.children.len()
        invariant
            same_forest(children@, n.children@.take(i as int)),
    {
        let c = copy_tree(&n.children[i]);
        let ghost before = children@;
        children.push(c);
        proof {
            assert(children@.drop_last() =~= before);
            assert(n.children@.take(i + 1).drop_last() =~= n.children@.take(i as int));
            assert(n.children@.take(i + 1).last() == n.children@[i as int]);
        }
    }
    assert(n.children@.take(n.children@.len() as int) =~= n.children@);
    ASTNode {
        node_type: n.node_type.clone(),
        text: n.text.clone(),
        start_position: n.start_position,
        end_position: n.end_position,
        children,
    }
}

impl Clone for ASTNode {
    fn clone(&self) -> (r: Self)
        ensures
            same_tree(r, *self),
    {
        copy_tree(self)
    }
}

/// Metavariable binding.
#[derive(Debug)]
pub struct MetavarBinding {
    pub name: String,
    pub value: String,
    pub node: ASTNode,
}

/// Whether two bindings are copies of each other.
pub open spec fn same_binding(a: MetavarBinding, b: MetavarBinding) -> bool {
    a.name == b.name && a.value == b.value && same_tree(a.node, b.node)
}

impl Clone for MetavarBinding {
    fn clone(&self) -> (r: Self)
        ensures
            same_binding(r, *self),
    {
        MetavarBinding { name: self.name.clone(), value: self.value.clone(), node: copy_tree(&self.node) }
    }
}

/// Match of a pattern.
#[derive(Debug)]
pub struct Match {
    pub pattern: Pattern,
    pub start_position: usize,
    pub end_position: usize,
    pub matched_text: String,
    pub metavars: Vec<MetavarBinding>,
}

/// Whether two matches are copies of each other.
pub open spec fn same_match(a: Match, b: Match) -> bool {
    &&& a.pattern == b.pattern
    &&& a.start_position == b.start_position
    &&& a.end_position == b.end_position
    &&& a.matched_text == b.matched_text
    &&& a.metavars@.len() == b.metavars@.len()
    &&& forall|i: int| 0 <= i < a.metavars@.len() ==> same_binding(#[trigger] a.metavars@[i], b.metavars@[i])
}

fn copy_bindings(v: &Vec<MetavarBinding>) -> (r: Vec<MetavarBinding>)
    ensures
        r@.len() == v@.len(),
        forall|i: int| 0 <= i < v@.len() ==> same_binding(#[trigger] r@[i], v@[i]),
{
    let mut r: Vec<MetavarBinding> = Vec::new();
    for i in 0..v.len()
        invariant
            r@.len() == i,
            forall|k: int| 0 <= k < i ==> same_binding(#[trigger] r@[k], v@[k]),
    {
        r.push(v[i].clone());
    }
    r
}

impl Clone for Match {
    fn clone(&self) -> (r: Self)
        ensures
            same_match(r, *self),
    {
        Match {
            pattern: self.pattern.clone(),
            start_position: self.start_position,
            end_position: self.end_position,
            matched_text: self.matched_text.clone(),
            metavars: copy_bindings(&self.metavars),
        }
    }
}

/// Index of the first binding named `name`, or -1 when there is none.
pub open spec fn binding_index(bs: Seq<MetavarBinding>, name: Seq<char>) -> int
    decreases bs.len(),
{
    if bs.len() == 0 {
        -1
    } else if bs[0].name@ == name {
        0
    } else {
        let k = binding_index(bs.drop_first(), name);
        if k < 0 {
            -1
        } else {
            k + 1
        }
    }
}

proof fn lemma_binding_index(bs: Seq<MetavarBinding>, name: Seq<char>)
    ensures
        -1 <= binding_index(bs, name) < bs.len(),
        binding_index(bs, name) == -1 <==> forall|j: int| 0 <= j < bs.len() ==> #[trigger] bs[j].name@ != name,
        binding_index(bs, name) >= 0 ==> bs[binding_index(bs, name)].name@ == name,
        forall|j: int| 0 <= j < binding_index(bs, name) ==> #[trigger] bs[j].name@ != name,
    decreases bs.len(),
{
    if bs.len() > 0 && bs[0].name@ != name {
        let rest = bs.drop_first();
        lemma_binding_index(rest, name);
        if binding_index(rest, name) == -1 {
            assert forall|j: int| 0 <= j < bs.len() implies #[trigger] bs[j].name@ != name by {
                if j > 0 {
                    assert(rest[j - 1].name@ != name);
                }
            }
        }
        assert forall|j: int| 0 <= j < binding_index(bs, name) implies #[trigger] bs[j].name@ != name by {
            if j > 0 {
                assert(rest[j - 1].name@ != name);
            }
        }
    }
}

impl Match {
    /// Create a match.
    pub fn new(pattern: Pattern, start: usize, end: usize, text: String, metavars: Vec<MetavarBinding>) -> (m: Self)
        ensures
            m.pattern == pattern,
            m.start_position == start,
            m.end_position == end,
            m.matched_text == text,
            m.metavars == metavars,
    {
        Match { pattern, start_position: start, end_position: end, matched_text: text, metavars }
    }

    /// The matched text.
    pub fn matched_text(&self) -> (t: &str)
        ensures
            t@ == self.matched_text@,
    {
        self.matched_text.as_str()
    }

    /// The first metavariable binding with the given name.
    pub fn get_metavar(&self, name: &str) -> (r: Option<&MetavarBinding>)
        ensures
            match r {
                Some(b) => binding_index(self.metavars@, name@) >= 0 && *b == self.metavars@[binding_index(self.metavars@, name@)],
                None => binding_index(self.metavars@, name@) == -1,
            },
    {
        proof {
            lemma_binding_index(self.metavars@, name@);
        }
        let target = String::from_str(name);
        for i in 0..self.metavars.len()
            invariant
                target@ == name@,
                forall|k: int| 0 <= k < i ==> #[trigger] self.metavars@[k].name@ != name@,
                -1 <= binding_index(self.metavars@, name@) < self.metavars@.len(),
                binding_index(self.metavars@, name@) == -1 <==> forall|j: int| 0 <= j < self.metavars@.len() ==> #[trigger] self.metavars@[j].name@ != name@,
                binding_index(self.metavars@, name@) >= 0 ==> self.metavars@[binding_index(self.metavars@, name@)].name@ == name@,
                forall|j: int| 0 <= j < binding_index(self.metavars@, name@) ==> #[trigger] self.metavars@[j].name@ != name@,
        {
            if self.metavars[i].name == target {
                assert(self.metavars@[i as int].name@ == name@);
                return Some(&self.metavars[i]);
            }
            assert(self.metavars@[i as int].name@ != name@);
        }
        None
    }

    /// All metavariable bindings.
    pub fn metavars(&self) -> (m: &[MetavarBinding])
        ensures
            m@ == self.metavars@,
    {
        self.metavars.as_slice()
    }
}

/// Whether `regex::Regex::new` accepts the regular expression `re`.
pub uninterp spec fn regex_compiles(re: Seq<char>) -> bool;

/// What `regex::Regex::captures_iter` finds of the regular expression `re`
/// in `text`: for each match, in order, the text of its first capture group
/// where that group took part in the match.
pub uninterp spec fn regex_first_groups(re: Seq<char>, text: Seq<char>) -> Seq<Option<Seq<char>>>;

/// The views of optional strings.
pub open spec fn opt_texts(v: Seq<Option<String>>) -> Seq<Option<Seq<char>>> {
    v.map_values(|o: Option<String>| match o {
        Some(t) => Some(t@),
        None => None,
    })
}

/// `regex::Regex::new` on `re`, then `captures_iter` on `text`: nothing
/// where the expression does not compile, else the first capture group of
/// every match, in order, where it took part.
#[verifier::external_body]
fn first_capture_groups(re: &str, text: &str) -> (r: Option<Vec<Option<String>>>)
    ensures
        r is Some <==> regex_compiles(re@),
        r matches Some(v) ==> opt_texts(v@) == regex_first_groups(re@, text@),
{
    match regex::Regex::new(re) {
        Ok(rx) => Some(rx.captures_iter(text).map(|c| c.get(1).map(|m| m.as_str().to_string())).collect()),
        Err(_) => None,
    }
}

/// The texts present among optional texts, in order.
pub open spec fn present_texts(v: Seq<Option<Seq<char>>>) -> Seq<Seq<char>>
    decreases v.len(),
{
    if v.len() == 0 {
        Seq::empty()
    } else {
        let prev = present_texts(v.drop_last());
        match v.last() {
            Some(t) => prev.push(t),
            None => prev,
        }
    }
}

/// The metavariable names of a pattern: the word after each `$`, in order,
/// as the regular expression `\$(\w+)` captures them (none where the regex
/// library refuses that expression).
pub open spec fn metavariable_names(pattern: Seq<char>) -> Seq<Seq<char>> {
    if regex_compiles(r"\$(\w+)"@) {
        present_texts(regex_first_groups(r"\$(\w+)"@, pattern))
    } else {
        Seq::empty()
    }
}

/// The metavariable names of a pattern.
fn metavar_names(pattern: &str) -> (r: Vec<String>)
    ensures
        texts(r@) == metavariable_names(pattern@),
{
    let mut names: Vec<String> = Vec::new();
    match first_capture_groups(r"\$(\w+)", pattern) {
        Some(groups) => {
            let ghost g = opt_texts(groups@);
            for i in 0..groups.len()
                invariant
                    g == opt_texts(groups@),
                    texts(names@) == present_texts(g.take(i as int)),
            {
                assert(g.take(i + 1).drop_last() =~= g.take(i as int));
                let ghost before = names@;
                match &groups[i] {
                    Some(t) => {
                        names.push(t.clone());
                        assert(texts(names@) =~= texts(before).push(t@));
                    },
                    None => {},
                }
            }
            assert(g.take(g.len() as int) =~= g);
        },
        None => {
            assert(texts(names@) =~= Seq::<Seq<char>>::empty());
        },
    }
    names
}

/// Whether `n` is the placeholder node bound to a metavariable for `text`.
pub open spec fn is_metavar_node(n: ASTNode, text: Seq<char>) -> bool {
    &&& n.node_type@ == "metavar"@
    &&& n.text@ == text
    &&& n.start_position == 0
    &&& n.end_position == byte_len(text) as usize
    &&& n.children@.len() == 0
}

/// Whether `bs` binds every metavariable of `pattern`, in order, to `text`.
pub open spec fn binds_metavars(bs: Seq<MetavarBinding>, pattern: Seq<char>, text: Seq<char>) -> bool {
    let names = metavariable_names(pattern);
    &&& bs.len() == names.len()
    &&& forall|j: int|
        0 <= j < bs.len() ==> (#[trigger] bs[j]).name@ == names[j] && bs[j].value@ == text
            && is_metavar_node(bs[j].node, text)
}

/// The nodes of a tree, in preorder, whose text contains `needle`.
pub open spec fn found_in_tree(n: ASTNode, needle: Seq<char>) -> Seq<ASTNode>
    decreases n, 1nat,
{
    (if contains_text(n.text@, needle) {
        seq![n]
    } else {
        Seq::empty()
    }) + found_in_forest(n.children@, needle)
}

/// The nodes of a sequence of trees, in preorder, whose text contains `needle`.
pub open spec fn found_in_forest(ns: Seq<ASTNode>, needle: Seq<char>) -> Seq<ASTNode>
    decreases ns, 0nat,
{
    if ns.len() == 0 {
        Seq::empty()
    } else {
        found_in_forest(ns.drop_last(), needle) + found_in_tree(ns.last(), needle)
    }
}

/// Whether `m` is the match of `pattern` at node `n`.
pub open spec fn is_match_at(m: Match, pattern: Pattern, n: ASTNode) -> bool {
    &&& m.pattern == pattern
    &&& m.start_position == n.start_position
    &&& m.end_position == n.end_position
    &&& m.matched_text@ == n.text@
    &&& binds_metavars(m.metavars@, pattern.pattern@, n.text@)
}

/// The (pattern, node) pairs that a sequence of patterns matches in a tree:
/// for each pattern in order, the nodes whose text contains the trimmed
/// pattern, in preorder.
pub open spec fn pattern_matches(ast: ASTNode, ps: Seq<Pattern>) -> Seq<(Pattern, ASTNode)>
    decreases ps.len(),
{
    if ps.len() == 0 {
        Seq::empty()
    } else {
        pattern_matches(ast, ps.drop_last()) + found_in_tree(ast, trim(ps.last().pattern@)).map_values(
            |n: ASTNode| (ps.last(), n),
        )
    }
}

/// Whether a where clause accepts matches: a clause without negation
/// accepts, a negated clause accepts when its inner clause does not.
pub open spec fn clause_accepts(w: WhereClause) -> bool
    decreases w,
{
    match w.not {
        Some(inner) => !clause_accepts(*inner),
        None => true,
    }
}

/// Pattern matcher for a language.
#[derive(Debug)]
pub struct PatternMatcher {
    pub language: Language,
}

/// The kind of smell that a rule reports: its category, or `custom`.
pub open spec fn rule_smell_type(rule: Rule) -> Seq<char> {
    match rule.metadata {
        Some(m) => match m.category {
            Some(c) => c@,
            None => "custom"@,
        },
        None => "custom"@,
    }
}

/// Whether `f` is the fact that a match of `rule` yields.
pub open spec fn is_rule_fact(f: Fact, rule: Rule) -> bool {
    &&& f.fact_type matches FactType::CodeSmell { smell_type, severity } && smell_type@ == rule_smell_type(rule)
        && severity == Severity::Minor
    &&& f.location.file@ == Seq::<char>::empty()
    &&& f.location.start_line == 1 && f.location.end_line == 1
    &&& f.location.start_column is None && f.location.end_column is None
    &&& f.provenance.extractor == ExtractorId::Custom
    &&& f.provenance.version@ == rule.id@
    &&& f.provenance.confidence == Confidence::Score(800)
}

impl PatternMatcher {
    /// Create a pattern matcher for a language.
    pub fn new(language: Language) -> (m: Self)
        ensures
            m.language == language,
    {
        PatternMatcher { language }
    }

    /// The facts of matches of a rule: a minor code smell of the rule's
    /// category for each match, in order.
    pub fn matches_to_facts(&self, matches: &[Match], rule: &Rule) -> (facts: Vec<Fact>)
        ensures
            facts@.len() == matches@.len(),
            forall|k: int| 0 <= k < facts@.len() ==> is_rule_fact(#[trigger] facts@[k], *rule),
    {
        let mut facts: Vec<Fact> = Vec::new();
        for i in 0..matches.len()
            invariant
                facts@.len() == i,
                forall|k: int| 0 <= k < facts@.len() ==> is_rule_fact(#[trigger] facts@[k], *rule),
        {
            let fact = self.match_to_fact(&matches[i], rule);
            facts.push(fact);
        }
        facts
    }

    fn match_to_fact(&self, m: &Match, rule: &Rule) -> (f: Fact)
        ensures
            is_rule_fact(f, *rule),
    {
        let location = SourceLocation {
            file: String::new(),
            start_line: 1,
            start_column: None,
            end_line: 1,
            end_column: None,
        };
        let provenance = Provenance {
            extractor: ExtractorId::Custom,
            version: rule.id.clone(),
            confidence: Confidence::Score(800),
        };
        let smell_type = match &rule.metadata {
            Some(md) => match &md.category {
                Some(c) => c.clone(),
                None => String::from_str("custom"),
            },
            None => String::from_str("custom"),
        };
        Fact::new(FactType::CodeSmell { smell_type, severity: Severity::Minor }, location, provenance)
    }

    /// Match patterns against a syntax tree: for each pattern in order, a
    /// match at every node, in preorder, whose text contains the pattern.
    pub fn match_patterns(&self, ast: &ASTNode, patterns: &[Pattern]) -> (r: Result<Vec<Match>, DeclarativeExtractorError>)
        ensures
            r matches Ok(ms) && ms@.len() == pattern_matches(*ast, patterns@).len() && forall|k: int|
                0 <= k < ms@.len() ==> is_match_at(
                    #[trigger] ms@[k],
                    pattern_matches(*ast, patterns@)[k].0,
                    pattern_matches(*ast, patterns@)[k].1,
                ),
    {
        let mut matches: Vec<Match> = Vec::new();
        for i in 0..patterns.len()
            invariant
                matches@.len() == pattern_matches(*ast, patterns@.take(i as int)).len(),
                forall|k: int|
                    0 <= k < matches@.len() ==> is_match_at(
                        #[trigger] matches@[k],
                        pattern_matches(*ast, patterns@.take(i as int))[k].0,
                        pattern_matches(*ast, patterns@.take(i as int))[k].1,
                    ),
        {
            let ghost before = matches@;
            let ghost prev = pattern_matches(*ast, patterns@.take(i as int));
            let mut found = self.match_single_pattern(ast, &patterns[i]);
            let ghost f = found@;
            matches.append(&mut found);
            proof {
                let ps = patterns@.take(i + 1);
                assert(ps.drop_last() =~= patterns@.take(i as int));
                assert(ps.last() == patterns@[i as int]);
                let cur = pattern_matches(*ast, ps);
                let nodes = found_in_tree(*ast, trim(patterns@[i as int].pattern@));
                assert(cur =~= prev + nodes.map_values(|n: ASTNode| (patterns@[i as int], n)));
                assert forall|k: int| 0 <= k < matches@.len() implies is_match_at(
                    #[trigger] matches@[k],
                    cur[k].0,
                    cur[k].1,
                ) by {
                    if k < before.len() {
                        assert(matches@[k] == before[k]);
                    } else {
                        assert(matches@[k] == f[k - before.len()]);
                    }
                }
            }
        }
        assert(patterns@.take(patterns@.len() as int) =~= patterns@);
        Ok(matches)
    }

    fn match_single_pattern(&self, ast: &ASTNode, pattern: &Pattern) -> (r: Vec<Match>)
        ensures
            r@.len() == found_in_tree(*ast, trim(pattern.pattern@)).len(),
            forall|k: int|
                0 <= k < r@.len() ==> is_match_at(
                    #[trigger] r@[k],
                    *pattern,
                    found_in_tree(*ast, trim(pattern.pattern@))[k],
                ),
    {
        let mut matches: Vec<Match> = Vec::new();
        let needle = trimmed(pattern.pattern.as_str());
        self.search_in_node(ast, pattern, needle.as_str(), &mut matches);
        assert forall|k: int| 0 <= k < matches@.len() implies is_match_at(
            #[trigger] matches@[k],
            *pattern,
            found_in_tree(*ast, trim(pattern.pattern@))[k],
        ) by {
            assert(matches@[k] == matches@[0 + k]);
        }
        matches
    }

    fn search_in_node(&self, node: &ASTNode, pattern: &Pattern, needle: &str, matches: &mut Vec<Match>)
        ensures
            final(matches)@.len() == old(matches)@.len() + found_in_tree(*node, needle@).len(),
            forall|k: int| 0 <= k < old(matches)@.len() ==> #[trigger] final(matches)@[k] == old(matches)@[k],
            forall|k: int|
                0 <= k < found_in_tree(*node, needle@).len() ==> is_match_at(
                    #[trigger] final(matches)@[old(matches)@.len() + k],
                    *pattern,
                    found_in_tree(*node, needle@)[k],
                ),
        decreases node,
    {
        let ghost base = matches@.len();
        let node_text = node.text.as_str();
        if contains(node_text, needle) {
            let metavars = self.extract_metavariables(pattern, node_text);
            matches.push(Match::new(pattern.clone(), node.start_position, node.end_position, String::from_str(node_text), metavars));
        }
        let ghost own = if contains_text(node.text@, needle@) {
            seq![*node]
        } else {
            Seq::<ASTNode>::empty()
        };
        assert(matches@.len() == base + own.len());
        for i in 0..node.children.len()
            invariant
                base == old(matches)@.len(),
                matches@.len() == base + own.len() + found_in_forest(node.children@.take(i as int), needle@).len(),
                forall|k: int| 0 <= k < old(matches)@.len() ==> #[trigger] matches@[k] == old(matches)@[k],
                own == (if contains_text(node.text@, needle@) { seq![*node] } else { Seq::<ASTNode>::empty() }),
                forall|k: int|
                    0 <= k < own.len() + found_in_forest(node.children@.take(i as int), needle@).len()
                        ==> is_match_at(
                        #[trigger] matches@[base + k],
                        *pattern,
                        (own + found_in_forest(node.children@.take(i as int), needle@))[k],
                    ),
        {
            let ghost before = matches@;
            let ghost prev = found_in_forest(node.children@.take(i as int), needle@);
            proof {
                assert(node.children@.take(i + 1).drop_last() =~= node.children@.take(i as int));
                assert(node.children@.take(i + 1).last() == node.children@[i as int]);
            }
            self.search_in_node(&node.children[i], pattern, needle, matches);
            proof {
                let child = found_in_tree(node.children@[i as int], needle@);
                let cur = found_in_forest(node.children@.take(i + 1), needle@);
                assert(cur =~= prev + child);
                assert forall|k: int|
                    0 <= k < own.len() + cur.len() implies is_match_at(
                    #[trigger] matches@[base + k],
                    *pattern,
                    (own + cur)[k],
                ) by {
                    if k < own.len() + prev.len() {
                        assert(matches@[base + k] == before[base + k]);
                        assert((own + cur)[k] == (own + prev)[k]);
                    } else {
                        let j = k - own.len() - prev.len();
                        assert((own + cur)[k] == child[j]);
                        assert(matches@[base + k] == matches@[before.len() + j]);
                    }
                }
            }
        }
        assert(node.children@.take(node.children@.len() as int) =~= node.children@);
    }

    /// Bind every metavariable of a pattern to the matched text.
    pub fn extract_metavariables(&self, pattern: &Pattern, matched_text: &str) -> (r: Vec<MetavarBinding>)
        ensures
            binds_metavars(r@, pattern.pattern@, matched_text@),
    {
        let names = metavar_names(pattern.pattern.as_str());
        let mut metavars: Vec<MetavarBinding> = Vec::new();
        for i in 0..names.len()
            invariant
                texts(names@) == metavariable_names(pattern.pattern@),
                metavars@.len() == i,
                forall|j: int|
                    0 <= j < i ==> (#[trigger] metavars@[j]).name@ == texts(names@)[j] && metavars@[j].value@ == matched_text@
                        && is_metavar_node(metavars@[j].node, matched_text@),
        {
            let node = ASTNode::new_leaf(String::from_str("metavar"), String::from_str(matched_text), 0, matched_text.len());
            let name = names[i].clone();
            assert(name@ == texts(names@)[i as int]);
            metavars.push(MetavarBinding { name, value: String::from_str(matched_text), node });
        }
        metavars
    }

    /// Keep the matches that the where clause accepts (see `clause_accepts`).
    pub fn apply_where_clause(&self, matches: &[Match], where_clause: &WhereClause) -> (r: Vec<Match>)
        ensures
            clause_accepts(*where_clause) ==> r@.len() == matches@.len() && forall|k: int|
                0 <= k < matches@.len() ==> same_match(#[trigger] r@[k], matches@[k]),
            !clause_accepts(*where_clause) ==> r@.len() == 0,
    {
        let mut r: Vec<Match> = Vec::new();
        for i in 0..matches.len()
            invariant
                clause_accepts(*where_clause) ==> r@.len() == i && forall|k: int|
                    0 <= k < i ==> same_match(#[trigger] r@[k], matches@[k]),
                !clause_accepts(*where_clause) ==> r@.len() == 0,
        {
            if self.matches_where_clause(&matches[i], where_clause) {
                r.push(matches[i].clone());
            }
        }
        r
    }

    fn matches_where_clause(&self, m: &Match, where_clause: &WhereClause) -> (b: bool)
        ensures
            b == clause_accepts(*where_clause),
        decreases where_clause,
    {
        match &where_clause.not {
            Some(not_clause) => !self.matches_where_clause(m, not_clause),
            None => true,
        }
    }
}

} // verus!
