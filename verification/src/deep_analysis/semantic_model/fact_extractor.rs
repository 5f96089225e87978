//! Facts of the intermediate representation drawn from a semantic model,
//! and the taint facts that the taint analysis works on.
use vstd::prelude::*;
use std::collections::HashMap;
use super::builder::SemanticModel;
use super::cfg::{cfg_blocks, cfg_node_count};
use super::dfg::{dfg_node_count, dfg_nodes};
use crate::ir::{
    Confidence, ExtractorId, Fact, FactId, FactType, FlowId, FunctionName, Provenance, Severity, SourceLocation,
    VariableName,
};
use crate::text::number::{decimal, decimal_text};

verus! {

/// Whether a location is line `line` of the generated file.
pub open spec fn generated_location(l: SourceLocation, line: u32) -> bool {
    &&& l.file@ == "generated.rs"@
    &&& l.start_line == line
    &&& l.start_column is None
    &&& l.end_line == line
    &&& l.end_column is None
}

/// Whether a provenance is the data flow analyzer's, at a confidence.
pub open spec fn analyzer_provenance(p: Provenance, c: Confidence) -> bool {
    &&& p.extractor == ExtractorId::DataFlowAnalyzer
    &&& p.version@ == "1.0.0"@
    &&& p.confidence == c
}

/// Whether `f` is the function fact of basic block `i`.
pub open spec fn is_block_fact(f: Fact, i: nat) -> bool {
    &&& f.fact_type matches FactType::Function { name, complexity, lines_of_code } && name.0@ == "block_"@
        + decimal(i) && complexity == 1 && lines_of_code == 1
    &&& generated_location(f.location, i as u32)
    &&& analyzer_provenance(f.provenance, Confidence::Medium)
}

/// Whether `f` is the variable fact of a data flow node.
pub open spec fn is_variable_fact(f: Fact) -> bool {
    &&& f.fact_type matches FactType::Variable { name, scope, var_type } && name.0@ == "extracted_var"@
        && scope@ == "global"@ && var_type@ == "extracted_type"@
    &&& generated_location(f.location, 1)
    &&& analyzer_provenance(f.provenance, Confidence::Medium)
}

/// Builds facts from semantic models and for the taint analysis.
#[derive(Debug)]
pub struct FactExtractor {
    /// Fact of each control flow node, by node index
    cfg_node_to_fact: HashMap<usize, FactId>,
    /// Fact of each data flow node, by node index
    dfg_node_to_fact: HashMap<usize, FactId>,
    /// Count of the facts made so far, plus one
    next_fact_id: u64,
}

fn location(line: u32) -> (l: SourceLocation)
    ensures
        generated_location(l, line),
{
    SourceLocation {
        file: String::from_str("generated.rs"),
        start_line: line,
        start_column: None,
        end_line: line,
        end_column: None,
    }
}

fn provenance(confidence: Confidence) -> (p: Provenance)
    ensures
        analyzer_provenance(p, confidence),
{
    Provenance { extractor: ExtractorId::DataFlowAnalyzer, version: String::from_str("1.0.0"), confidence }
}

impl FactExtractor {
    /// The number of the next fact, counting from one.
    pub closed spec fn next_id(&self) -> u64 {
        self.next_fact_id
    }

    /// The control flow nodes that have a fact.
    pub closed spec fn cfg_nodes_with_facts(&self) -> Set<usize> {
        self.cfg_node_to_fact@.dom()
    }

    /// The data flow nodes that have a fact.
    pub closed spec fn dfg_nodes_with_facts(&self) -> Set<usize> {
        self.dfg_node_to_fact@.dom()
    }

    /// An extractor that has made no fact yet.
    pub fn new() -> (e: Self)
        ensures
            e.next_id() == 1,
            e.cfg_nodes_with_facts().is_empty(),
            e.dfg_nodes_with_facts().is_empty(),
    {
        FactExtractor { cfg_node_to_fact: HashMap::new(), dfg_node_to_fact: HashMap::new(), next_fact_id: 1 }
    }

    /// The facts of a semantic model: a function fact for each basic block,
    /// at the line of its index, then a variable fact for each data flow
    /// node. Each node is recorded with the identifier of a fresh fact.
    pub fn extract_facts(&mut self, model: &SemanticModel) -> (facts: Vec<Fact>)
        requires
            cfg_blocks(model.cfg).len() <= u32::MAX,
            old(self).next_id() + cfg_blocks(model.cfg).len() + dfg_nodes(model.dfg).len() <= u64::MAX,
        ensures
            facts@.len() == cfg_blocks(model.cfg).len() + dfg_nodes(model.dfg).len(),
            forall|i: int| 0 <= i < cfg_blocks(model.cfg).len() ==> is_block_fact(#[trigger] facts@[i], i as nat),
            forall|i: int|
                cfg_blocks(model.cfg).len() <= i < facts@.len() ==> is_variable_fact(#[trigger] facts@[i]),
            final(self).next_id() == old(self).next_id() + facts@.len(),
            forall|n: usize| n < cfg_blocks(model.cfg).len() ==> #[trigger] final(self).cfg_nodes_with_facts().contains(n),
            forall|n: usize| n < dfg_nodes(model.dfg).len() ==> #[trigger] final(self).dfg_nodes_with_facts().contains(n),
    {
        let mut facts = self.extract_cfg_facts(model);
        let mut dfg_facts = self.extract_dfg_facts(model);
        let ghost c = facts@;
        let ghost d = dfg_facts@;
        facts.append(&mut dfg_facts);
        assert(facts@ == c + d);
        facts
    }

    fn extract_cfg_facts(&mut self, model: &SemanticModel) -> (facts: Vec<Fact>)
        requires
            cfg_blocks(model.cfg).len() <= u32::MAX,
            old(self).next_id() + cfg_blocks(model.cfg).len() <= u64::MAX,
        ensures
            facts@.len() == cfg_blocks(model.cfg).len(),
            forall|i: int| 0 <= i < facts@.len() ==> is_block_fact(#[trigger] facts@[i], i as nat),
            final(self).next_id() == old(self).next_id() + facts@.len(),
            forall|n: usize| n < facts@.len() ==> #[trigger] final(self).cfg_nodes_with_facts().contains(n),
            forall|n: usize| old(self).cfg_nodes_with_facts().contains(n) ==> #[trigger] final(self).cfg_nodes_with_facts().contains(n),
            final(self).dfg_nodes_with_facts() == old(self).dfg_nodes_with_facts(),
    {
        let count = cfg_node_count(&model.cfg);
        let mut facts: Vec<Fact> = Vec::new();
        for i in 0..count
            invariant
                count == cfg_blocks(model.cfg).len(),
                count <= u32::MAX,
                self.next_fact_id == old(self).next_fact_id + i,
                old(self).next_fact_id + count <= u64::MAX,
                facts@.len() == i,
                forall|k: int| 0 <= k < i ==> is_block_fact(#[trigger] facts@[k], k as nat),
                forall|n: usize| n < i ==> #[trigger] self.cfg_node_to_fact@.dom().contains(n),
                forall|n: usize| old(self).cfg_node_to_fact@.dom().contains(n) ==> #[trigger] self.cfg_node_to_fact@.dom().contains(n),
                self.dfg_node_to_fact@ == old(self).dfg_node_to_fact@,
        {
            self.next_fact_id = self.next_fact_id + 1;
            let fact_id = FactId::new_uuid();
            self.cfg_node_to_fact.insert(i, fact_id);
            let mut name = String::from_str("block_");
            let digits = decimal_text(i as u64);
            name.append(digits.as_str());
            let line = i as u32;
            let fact = Fact::new(
                FactType::Function { name: FunctionName(name), complexity: 1, lines_of_code: 1 },
                location(line),
                provenance(Confidence::Medium),
            );
            facts.push(fact);
        }
        facts
    }

    fn extract_dfg_facts(&mut self, model: &SemanticModel) -> (facts: Vec<Fact>)
        requires
            old(self).next_id() + dfg_nodes(model.dfg).len() <= u64::MAX,
        ensures
            facts@.len() == dfg_nodes(model.dfg).len(),
            forall|i: int| 0 <= i < facts@.len() ==> is_variable_fact(#[trigger] facts@[i]),
            final(self).next_id() == old(self).next_id() + facts@.len(),
            forall|n: usize| n < facts@.len() ==> #[trigger] final(self).dfg_nodes_with_facts().contains(n),
            final(self).cfg_nodes_with_facts() == old(self).cfg_nodes_with_facts(),
    {
        let count = dfg_node_count(&model.dfg);
        let mut facts: Vec<Fact> = Vec::new();
        for i in 0..count
            invariant
                count == dfg_nodes(model.dfg).len(),
                self.next_fact_id == old(self).next_fact_id + i,
                old(self).next_fact_id + count <= u64::MAX,
                facts@.len() == i,
                forall|k: int| 0 <= k < i ==> is_variable_fact(#[trigger] facts@[k]),
                forall|n: usize| n < i ==> #[trigger] self.dfg_node_to_fact@.dom().contains(n),
                self.cfg_node_to_fact@ == old(self).cfg_node_to_fact@,
        {
            self.next_fact_id = self.next_fact_id + 1;
            let fact_id = FactId::new_uuid();
            self.dfg_node_to_fact.insert(i, fact_id);
            let fact = Fact::new(
                FactType::Variable {
                    name: VariableName(String::from_str("extracted_var")),
                    scope: String::from_str("global"),
                    var_type: String::from_str("extracted_type"),
                },
                location(1),
                provenance(Confidence::Medium),
            );
            facts.push(fact);
        }
        facts
    }

    /// A taint source fact for a variable, with a fresh flow.
    pub fn create_taint_source(&mut self, var_name: &str, source_type: &str) -> (f: Fact)
        requires
            old(self).next_id() < u64::MAX,
        ensures
            f.fact_type matches FactType::TaintSource { var, source_type: t, confidence, .. } && var.0@ == var_name@
                && t@ == source_type@ && confidence == Confidence::Medium,
            generated_location(f.location, 1),
            analyzer_provenance(f.provenance, Confidence::Medium),
            final(self).next_id() == old(self).next_id() + 1,
    {
        self.next_fact_id = self.next_fact_id + 1;
        let flow_id = FlowId::new_uuid();
        Fact::new(
            FactType::TaintSource {
                var: VariableName(String::from_str(var_name)),
                flow_id,
                source_type: String::from_str(source_type),
                confidence: Confidence::Medium,
            },
            location(1),
            provenance(Confidence::Medium),
        )
    }

    /// A taint sink fact for a function that consumes a flow.
    pub fn create_taint_sink(&mut self, func_name: &str, consumes_flow: FlowId, category: &str) -> (f: Fact)
        requires
            old(self).next_id() < u64::MAX,
        ensures
            f.fact_type matches FactType::TaintSink { func, consumes_flow: flow, category: c, severity }
                && func.0@ == func_name@ && flow == consumes_flow && c@ == category@ && severity
                == Severity::Major,
            generated_location(f.location, 1),
            analyzer_provenance(f.provenance, Confidence::Medium),
            final(self).next_id() == old(self).next_id() + 1,
    {
        self.next_fact_id = self.next_fact_id + 1;
        Fact::new(
            FactType::TaintSink {
                func: FunctionName(String::from_str(func_name)),
                consumes_flow,
                category: String::from_str(category),
                severity: Severity::Major,
            },
            location(1),
            provenance(Confidence::Medium),
        )
    }

    /// An effective sanitization fact for a method that cleans a flow.
    pub fn create_sanitizer(&mut self, method: &str, sanitizes_flow: FlowId) -> (f: Fact)
        requires
            old(self).next_id() < u64::MAX,
        ensures
            f.fact_type matches FactType::Sanitization { method: m, sanitizes_flow: flow, effective, confidence }
                && m@ == method@ && flow == sanitizes_flow && effective && confidence == Confidence::High,
            generated_location(f.location, 1),
            analyzer_provenance(f.provenance, Confidence::High),
            final(self).next_id() == old(self).next_id() + 1,
    {
        self.next_fact_id = self.next_fact_id + 1;
        Fact::new(
            FactType::Sanitization {
                method: String::from_str(method),
                sanitizes_flow,
                effective: true,
                confidence: Confidence::High,
            },
            location(1),
            provenance(Confidence::High),
        )
    }
}

impl Default for FactExtractor {
    fn default() -> (e: Self)
        ensures
            e.next_id() == 1,
            e.cfg_nodes_with_facts().is_empty(),
            e.dfg_nodes_with_facts().is_empty(),
    {
        FactExtractor::new()
    }
}

} // verus!
