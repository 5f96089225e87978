//! Taint propagator.
use vstd::prelude::*;
use crate::config::model::texts;
use crate::declarative::rules::has_text;
use crate::deep_analysis::policy::{SanitizerDefinition, SinkDefinition, SourceDefinition, TaintPolicy};
use crate::deep_analysis::semantic_model::builder::SemanticModel;

verus! {

/// Errors of the taint analysis.
#[derive(Debug)]
pub enum TaintAnalysisError {
    /// The analysis failed.
    Analysis(String),
    /// The flow index could not be used.
    FlowIndex(String),
    /// The Datalog evaluation failed.
    Datalog(String),
}

/// A flow of tainted data from a source to a sink.
#[derive(Debug, PartialEq)]
pub struct TaintFlow {
    /// Source of taint
    pub source: String,
    /// Sink where taint ends up
    pub sink: String,
    /// Path through the flow
    pub path: Vec<String>,
}

impl Clone for TaintFlow {
    fn clone(&self) -> (r: Self)
        ensures
            r.source == self.source,
            r.sink == self.sink,
            r.path@ == self.path@,
    {
        TaintFlow { source: self.source.clone(), sink: self.sink.clone(), path: crate::config::model::clone_strings(&self.path) }
    }
}

/// The distinct texts of a sequence, in order of first occurrence.
pub open spec fn unique_in_order(s: Seq<Seq<char>>) -> Seq<Seq<char>>
    decreases s.len(),
{
    if s.len() == 0 {
        Seq::empty()
    } else {
        let prev = unique_in_order(s.drop_last());
        if prev.contains(s.last()) {
            prev
        } else {
            prev.push(s.last())
        }
    }
}

/// The tracked patterns hold each pattern once, and exactly the patterns
/// given.
pub proof fn law_unique_in_order(s: Seq<Seq<char>>)
    ensures
        forall|i: int, j: int|
            0 <= i < j < unique_in_order(s).len() ==> unique_in_order(s)[i] != unique_in_order(s)[j],
        forall|x: Seq<char>| unique_in_order(s).contains(x) <==> s.contains(x),
    decreases s.len(),
{
    if s.len() > 0 {
        let w = s.drop_last();
        law_unique_in_order(w);
        let prev = unique_in_order(w);
        assert forall|x: Seq<char>| unique_in_order(s).contains(x) <==> s.contains(x) by {
            if s.contains(x) && !w.contains(x) {
                assert(x == s.last()) by {
                    let k = choose|k: int| 0 <= k < s.len() && s[k] == x;
                    if k < w.len() {
                        assert(w[k] == x);
                    }
                }
            }
            if w.contains(x) {
                let k = choose|k: int| 0 <= k < w.len() && w[k] == x;
                assert(s[k] == x);
            }
            if !prev.contains(s.last()) {
                let u = prev.push(s.last());
                if u.contains(x) {
                    let k = choose|k: int| 0 <= k < u.len() && u[k] == x;
                    if k < prev.len() {
                        assert(prev[k] == x);
                    } else {
                        assert(s[s.len() - 1] == x);
                    }
                }
                if x == s.last() {
                    assert(u[prev.len() as int] == x);
                }
                if prev.contains(x) {
                    let k = choose|k: int| 0 <= k < prev.len() && prev[k] == x;
                    assert(u[k] == x);
                }
            }
        }
        if !prev.contains(s.last()) {
            let u = prev.push(s.last());
            assert forall|i: int, j: int| 0 <= i < j < u.len() implies u[i] != u[j] by {
                if j == prev.len() {
                    assert(prev[i] == u[i]);
                }
            }
        }
    }
}

/// The patterns of the sources of a policy.
pub open spec fn source_pattern_texts(ps: Seq<SourceDefinition>) -> Seq<Seq<char>> {
    ps.map_values(|d: SourceDefinition| d.pattern@)
}

/// The patterns of the sinks of a policy.
pub open spec fn sink_pattern_texts(ps: Seq<SinkDefinition>) -> Seq<Seq<char>> {
    ps.map_values(|d: SinkDefinition| d.pattern@)
}

/// The patterns of the sanitizers of a policy.
pub open spec fn sanitizer_pattern_texts(ps: Seq<SanitizerDefinition>) -> Seq<Seq<char>> {
    ps.map_values(|d: SanitizerDefinition| d.pattern@)
}

/// Index of the flow graph: node labels and, for each node, the labels of
/// the nodes reachable from it.
#[derive(Debug)]
pub struct FlowIndex {
    pub nodes: Vec<String>,
    pub reachable: Vec<Vec<String>>,
}

impl FlowIndex {
    /// The index of a graph without nodes.
    pub fn empty() -> (i: Self)
        ensures
            i.nodes@.len() == 0,
            i.reachable@.len() == 0,
    {
        FlowIndex { nodes: Vec::new(), reachable: Vec::new() }
    }
}

/// A flow as plain values: source, sink and path.
pub open spec fn flow_value(f: TaintFlow) -> (Seq<char>, Seq<char>, Seq<Seq<char>>) {
    (f.source@, f.sink@, texts(f.path@))
}

/// The flows of the first `n` nodes of an index: for each node whose label
/// is a source pattern, each reachable label that is a sink pattern gives a
/// flow from the node to it.
pub open spec fn index_flows(
    nodes: Seq<Seq<char>>,
    reach: Seq<Seq<Seq<char>>>,
    sources: Seq<Seq<char>>,
    sinks: Seq<Seq<char>>,
    n: int,
) -> Seq<(Seq<char>, Seq<char>, Seq<Seq<char>>)>
    decreases n,
{
    if n <= 0 {
        Seq::empty()
    } else {
        let prev = index_flows(nodes, reach, sources, sinks, n - 1);
        let src = nodes[n - 1];
        if sources.contains(src) {
            prev + reach[n - 1].filter(|t: Seq<char>| sinks.contains(t)).map_values(
                |t: Seq<char>| (src, t, seq![src, t]),
            )
        } else {
            prev
        }
    }
}

/// What the flows of an index are: every flow goes from a node labelled
/// with a source pattern to a label reachable from that node that is a sink
/// pattern, along the path of the two; and every such pair of a
/// source-labelled node and a reachable sink label gives a flow.
pub proof fn law_flows_join_sources_to_reachable_sinks(
    nodes: Seq<Seq<char>>,
    reach: Seq<Seq<Seq<char>>>,
    sources: Seq<Seq<char>>,
    sinks: Seq<Seq<char>>,
    n: int,
)
    requires
        0 <= n <= nodes.len(),
        reach.len() == nodes.len(),
    ensures
        forall|k: int| 0 <= k < index_flows(nodes, reach, sources, sinks, n).len() ==> {
            let f = #[trigger] index_flows(nodes, reach, sources, sinks, n)[k];
            &&& sources.contains(f.0)
            &&& sinks.contains(f.1)
            &&& f.2 == seq![f.0, f.1]
            &&& exists|i: int| 0 <= i < n && nodes[i] == f.0 && #[trigger] reach[i].contains(f.1)
        },
        forall|i: int, t: Seq<char>|
            0 <= i < n && sources.contains(nodes[i]) && #[trigger] reach[i].contains(t) && sinks.contains(t)
                ==> index_flows(nodes, reach, sources, sinks, n).contains((nodes[i], t, seq![nodes[i], t])),
    decreases n,
{
    if n > 0 {
        law_flows_join_sources_to_reachable_sinks(nodes, reach, sources, sinks, n - 1);
        let prev = index_flows(nodes, reach, sources, sinks, n - 1);
        let cur = index_flows(nodes, reach, sources, sinks, n);
        let src = nodes[n - 1];
        let pred = |t: Seq<char>| sinks.contains(t);
        let mk = |t: Seq<char>| (src, t, seq![src, t]);
        if sources.contains(src) {
            let fl = reach[n - 1].filter(pred);
            let added = fl.map_values(mk);
            assert(cur == prev + added);
            assert forall|k: int| 0 <= k < cur.len() implies {
                let f = #[trigger] cur[k];
                &&& sources.contains(f.0)
                &&& sinks.contains(f.1)
                &&& f.2 == seq![f.0, f.1]
                &&& exists|i: int| 0 <= i < n && nodes[i] == f.0 && #[trigger] reach[i].contains(f.1)
            } by {
                if k < prev.len() {
                    assert(cur[k] == prev[k]);
                    let f = prev[k];
                    let i = choose|i: int| 0 <= i < n - 1 && nodes[i] == f.0 && #[trigger] reach[i].contains(f.1);
                    assert(0 <= i < n && nodes[i] == f.0 && reach[i].contains(f.1));
                } else {
                    let j = k - prev.len();
                    assert(cur[k] == added[j]);
                    reach[n - 1].lemma_filter_pred(pred, j);
                    assert(fl.contains(fl[j]));
                    reach[n - 1].lemma_filter_contains_rev(pred, fl[j]);
                    assert(reach[n - 1].contains(cur[k].1));
                }
            }
            assert forall|i: int, t: Seq<char>|
                0 <= i < n && sources.contains(nodes[i]) && #[trigger] reach[i].contains(t) && sinks.contains(t)
                    implies cur.contains((nodes[i], t, seq![nodes[i], t])) by {
                if i < n - 1 {
                    let q = choose|q: int| 0 <= q < prev.len() && prev[q] == (nodes[i], t, seq![nodes[i], t]);
                    assert(cur[q] == prev[q]);
                } else {
                    let r = reach[n - 1];
                    assert(r.contains(t));
                    let p = choose|p: int| 0 <= p < r.len() && #[trigger] r[p] == t;
                    r.lemma_filter_contains(pred, p);
                    let j = choose|j: int| 0 <= j < fl.len() && fl[j] == t;
                    assert(added[j] == (src, t, seq![src, t]));
                    assert(cur[prev.len() + j] == added[j]);
                }
            }
        } else {
            assert(cur == prev);
            assert forall|k: int| 0 <= k < cur.len() implies {
                let f = #[trigger] cur[k];
                &&& sources.contains(f.0)
                &&& sinks.contains(f.1)
                &&& f.2 == seq![f.0, f.1]
                &&& exists|i: int| 0 <= i < n && nodes[i] == f.0 && #[trigger] reach[i].contains(f.1)
            } by {
                let f = prev[k];
                let i = choose|i: int| 0 <= i < n - 1 && nodes[i] == f.0 && #[trigger] reach[i].contains(f.1);
                assert(0 <= i < n && nodes[i] == f.0 && reach[i].contains(f.1));
            }
        }
    }
}

/// Taint propagator.
#[derive(Debug)]
pub struct TaintPropagator {
    /// Tracked source patterns, without repetition
    pub source_patterns: Vec<String>,
    /// Tracked sink patterns, without repetition
    pub sink_patterns: Vec<String>,
    /// Sanitizer patterns that neutralise taint, without repetition
    pub sanitizer_patterns: Vec<String>,
}

fn insert_text(set: &mut Vec<String>, t: &String)
    ensures
        texts(final(set)@) == if texts(old(set)@).contains(t@) {
            texts(old(set)@)
        } else {
            texts(old(set)@).push(t@)
        },
{
    if !has_text(set, t.as_str()) {
        let ghost before = set@;
        set.push(t.clone());
        assert(texts(set@) =~= texts(before).push(t@));
    }
}

impl TaintPropagator {
    /// Create a propagator that tracks no pattern.
    pub fn new() -> (p: Self)
        ensures
            p.source_patterns@.len() == 0,
            p.sink_patterns@.len() == 0,
            p.sanitizer_patterns@.len() == 0,
    {
        TaintPropagator { source_patterns: Vec::new(), sink_patterns: Vec::new(), sanitizer_patterns: Vec::new() }
    }

    /// Replace the tracked patterns by those of the policy.
    pub fn extract_patterns(&mut self, policy: &TaintPolicy)
        ensures
            texts(final(self).source_patterns@) == unique_in_order(source_pattern_texts(policy.sources@)),
            texts(final(self).sink_patterns@) == unique_in_order(sink_pattern_texts(policy.sinks@)),
            texts(final(self).sanitizer_patterns@) == unique_in_order(sanitizer_pattern_texts(policy.sanitizers@)),
    {
        self.source_patterns.clear();
        let ghost sp = source_pattern_texts(policy.sources@);
        for i in 0..policy.sources.len()
            invariant
                sp == source_pattern_texts(policy.sources@),
                texts(self.source_patterns@) == unique_in_order(sp.take(i as int)),
        {
            proof {
                assert(sp.take(i + 1).drop_last() =~= sp.take(i as int));
            }
            insert_text(&mut self.source_patterns, &policy.sources[i].pattern);
        }
        assert(sp.take(sp.len() as int) =~= sp);
        self.sink_patterns.clear();
        let ghost kp = sink_pattern_texts(policy.sinks@);
        for i in 0..policy.sinks.len()
            invariant
                kp == sink_pattern_texts(policy.sinks@),
                texts(self.sink_patterns@) == unique_in_order(kp.take(i as int)),
                texts(self.source_patterns@) == unique_in_order(source_pattern_texts(policy.sources@)),
        {
            proof {
                assert(kp.take(i + 1).drop_last() =~= kp.take(i as int));
            }
            insert_text(&mut self.sink_patterns, &policy.sinks[i].pattern);
        }
        assert(kp.take(kp.len() as int) =~= kp);
        self.sanitizer_patterns.clear();
        let ghost zp = sanitizer_pattern_texts(policy.sanitizers@);
        for i in 0..policy.sanitizers.len()
            invariant
                zp == sanitizer_pattern_texts(policy.sanitizers@),
                texts(self.sanitizer_patterns@) == unique_in_order(zp.take(i as int)),
                texts(self.source_patterns@) == unique_in_order(source_pattern_texts(policy.sources@)),
                texts(self.sink_patterns@) == unique_in_order(sink_pattern_texts(policy.sinks@)),
        {
            proof {
                assert(zp.take(i + 1).drop_last() =~= zp.take(i as int));
            }
            insert_text(&mut self.sanitizer_patterns, &policy.sanitizers[i].pattern);
        }
        assert(zp.take(zp.len() as int) =~= zp);
    }

    /// Run the taint analysis of a model under a policy: the patterns of the
    /// policy are tracked, and with no source or no sink there is no flow.
    /// The semantic model yields no facts yet, so its flow index has no node
    /// and no flow is found.
    pub fn run_analysis(&mut self, model: &SemanticModel, policy: &TaintPolicy) -> (r: Result<Vec<TaintFlow>, TaintAnalysisError>)
        ensures
            texts(final(self).source_patterns@) == unique_in_order(source_pattern_texts(policy.sources@)),
            texts(final(self).sink_patterns@) == unique_in_order(sink_pattern_texts(policy.sinks@)),
            texts(final(self).sanitizer_patterns@) == unique_in_order(sanitizer_pattern_texts(policy.sanitizers@)),
            r matches Ok(flows) && flows@.len() == 0,
    {
        self.extract_patterns(policy);
        self.propagate_taint(model, policy)
    }

    fn propagate_taint(&self, model: &SemanticModel, policy: &TaintPolicy) -> (r: Result<Vec<TaintFlow>, TaintAnalysisError>)
        ensures
            r matches Ok(flows) && flows@.len() == 0,
    {
        if policy.sources.len() == 0 || policy.sinks.len() == 0 {
            return Ok(Vec::new());
        }
        let index = FlowIndex::empty();
        let flows = self.run_datalog_analysis(&index);
        assert(index_flows(texts(index.nodes@), index.reachable@.map_values(|v: Vec<String>| texts(v@)), texts(self.source_patterns@), texts(self.sink_patterns@), 0).len() == 0);
        Ok(flows)
    }

    /// The flows of a flow index (see `index_flows`).
    pub fn run_datalog_analysis(&self, index: &FlowIndex) -> (flows: Vec<TaintFlow>)
        requires
            index.reachable@.len() == index.nodes@.len(),
        ensures
            flows@.map_values(|f: TaintFlow| flow_value(f)) == index_flows(
                texts(index.nodes@),
                index.reachable@.map_values(|v: Vec<String>| texts(v@)),
                texts(self.source_patterns@),
                texts(self.sink_patterns@),
                index.nodes@.len() as int,
            ),
    {
        let ghost nodes = texts(index.nodes@);
        let ghost reach = index.reachable@.map_values(|v: Vec<String>| texts(v@));
        let ghost sources = texts(self.source_patterns@);
        let ghost sinks = texts(self.sink_patterns@);
        let mut flows: Vec<TaintFlow> = Vec::new();
        for i in 0..index.nodes.len()
            invariant
                index.reachable@.len() == index.nodes@.len(),
                nodes == texts(index.nodes@),
                reach == index.reachable@.map_values(|v: Vec<String>| texts(v@)),
                sources == texts(self.source_patterns@),
                sinks == texts(self.sink_patterns@),
                flows@.map_values(|f: TaintFlow| flow_value(f)) == index_flows(nodes, reach, sources, sinks, i as int),
        {
            let node = &index.nodes[i];
            if has_text(&self.source_patterns, node.as_str()) {
                let targets = &index.reachable[i];
                let ghost base = flows@.map_values(|f: TaintFlow| flow_value(f));
                let ghost pred = |t: Seq<char>| sinks.contains(t);
                let ghost mk = |t: Seq<char>| (nodes[i as int], t, seq![nodes[i as int], t]);
                assert(reach[i as int] == texts(targets@));
                for j in 0..targets.len()
                    invariant
                        node@ == nodes[i as int],
                        sinks == texts(self.sink_patterns@),
                        pred == (|t: Seq<char>| sinks.contains(t)),
                        mk == (|t: Seq<char>| (nodes[i as int], t, seq![nodes[i as int], t])),
                        flows@.map_values(|f: TaintFlow| flow_value(f)) == base + texts(targets@).take(j as int).filter(pred).map_values(mk),
                {
                    let ghost tv = texts(targets@);
                    proof {
                        assert(tv.take(j + 1) =~= tv.take(j as int).push(tv[j as int]));
                        tv.take(j as int).lemma_filter_push(tv[j as int], pred);
                    }
                    let target = &targets[j];
                    if has_text(&self.sink_patterns, target.as_str()) {
                        let mut path = Vec::new();
                        path.push(node.clone());
                        path.push(target.clone());
                        let flow = TaintFlow { source: node.clone(), sink: target.clone(), path };
                        let ghost before = flows@;
                        flows.push(flow);
                        assert(texts(flow.path@) =~= seq![nodes[i as int], target@]);
                        assert(flows@.map_values(|f: TaintFlow| flow_value(f)) =~= before.map_values(|f: TaintFlow| flow_value(f)).push(flow_value(flow)));
                        assert(tv.take(j + 1).filter(pred).map_values(mk) =~= tv.take(j as int).filter(pred).map_values(mk).push(mk(target@)));
                    } else {
                        assert(tv.take(j + 1).filter(pred) == tv.take(j as int).filter(pred));
                    }
                }
                assert(texts(targets@).take(targets@.len() as int) =~= texts(targets@));
            }
        }
        flows
    }
}

impl Default for TaintPropagator {
    fn default() -> (p: Self)
        ensures
            p.source_patterns@.len() == 0,
            p.sink_patterns@.len() == 0,
            p.sanitizer_patterns@.len() == 0,
    {
        TaintPropagator::new()
    }
}

} // verus!
