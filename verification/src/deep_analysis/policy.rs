//! Taint policy: sources, sinks and sanitizers.
use vstd::prelude::*;
use crate::ir::Severity;

verus! {

/// Kind of sensitive data.
#[derive(Debug, Clone, Copy, PartialEq, Eq, Structural)]
pub enum DataTag {
    PII,
    Finance,
    Credentials,
    UserInput,
}

/// Where tainted data enters.
#[derive(Debug)]
pub struct SourceDefinition {
    pub pattern: String,
    pub source_type: String,
    pub tags: Vec<DataTag>,
}

/// Where tainted data must not arrive.
#[derive(Debug)]
pub struct SinkDefinition {
    pub pattern: String,
    pub category: String,
    pub severity: Severity,
}

/// What neutralises taint.
#[derive(Debug)]
pub struct SanitizerDefinition {
    pub pattern: String,
    pub method: Option<String>,
}

/// Taint policy.
#[derive(Debug)]
pub struct TaintPolicy {
    pub sources: Vec<SourceDefinition>,
    pub sinks: Vec<SinkDefinition>,
    pub sanitizers: Vec<SanitizerDefinition>,
}

impl Default for TaintPolicy {
    fn default() -> (p: Self)
        ensures
            p.sources@.len() == 0,
            p.sinks@.len() == 0,
            p.sanitizers@.len() == 0,
    {
        TaintPolicy { sources: Vec::new(), sinks: Vec::new(), sanitizers: Vec::new() }
    }
}

} // verus!
