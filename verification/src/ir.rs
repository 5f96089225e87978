//! Values of the intermediate representation that the analyses exchange.
use vstd::prelude::*;

verus! {

/// Severity of a finding.
#[derive(Debug, Clone, Copy, PartialEq, Eq, Structural)]
pub enum Severity {
    Info,
    Minor,
    Major,
    Critical,
    Blocker,
}

/// Identifier of a data flow.
#[derive(Debug, Clone, Copy, PartialEq, Eq, Structural)]
pub struct FlowId(pub u128);

/// Whether a 128-bit value, read as a UUID, is of version 4 (random) and of
/// the RFC 4122 variant: its version bits hold 4 and its variant bits 10.
pub open spec fn is_random_uuid(n: u128) -> bool {
    n & 0xF000C000000000000000u128 == 0x40008000000000000000u128
}

/// A fresh random identifier, from `uuid::Uuid::new_v4` as a `u128`: random
/// bits with the version set to 4 and the variant to RFC 4122. Which bits
/// are drawn is not claimed.
#[verifier::external_body]
fn random_uuid() -> (n: u128)
    ensures
        is_random_uuid(n),
{
    uuid::Uuid::new_v4().as_u128()
}

impl FlowId {
    /// A fresh random flow identifier, a version 4 UUID.
    pub fn new_uuid() -> (f: FlowId)
        ensures
            is_random_uuid(f.0),
    {
        FlowId(random_uuid())
    }
}

/// Identifier of a fact.
#[derive(Debug, Clone, Copy, PartialEq, Eq, Structural)]
pub struct FactId(pub u128);

/// How much a fact can be trusted.
#[derive(Debug, Clone, Copy, PartialEq, Eq, Structural)]
pub enum Confidence {
    Low,
    Medium,
    High,
    /// A confidence given as thousandths
    Score(u16),
}

/// The analysis that produced a fact.
#[derive(Debug, Clone, Copy, PartialEq, Eq, Structural)]
pub enum ExtractorId {
    DataFlowAnalyzer,
    Custom,
}

/// Name of a variable.
#[derive(Debug, Clone, PartialEq, Eq)]
pub struct VariableName(pub String);

/// Name of a function.
#[derive(Debug, Clone, PartialEq, Eq)]
pub struct FunctionName(pub String);

/// What a fact states.
#[derive(Debug)]
pub enum FactType {
    /// A function.
    Function { name: FunctionName, complexity: u32, lines_of_code: u32 },
    /// A variable.
    Variable { name: VariableName, scope: String, var_type: String },
    /// A variable that receives tainted data.
    TaintSource { var: VariableName, flow_id: FlowId, source_type: String, confidence: Confidence },
    /// A function that must not receive tainted data.
    TaintSink { func: FunctionName, consumes_flow: FlowId, category: String, severity: Severity },
    /// A call that neutralises tainted data.
    Sanitization { method: String, sanitizes_flow: FlowId, effective: bool, confidence: Confidence },
    /// A code smell.
    CodeSmell { smell_type: String, severity: Severity },
}

/// Where a fact was found.
#[derive(Debug)]
pub struct SourceLocation {
    pub file: String,
    pub start_line: u32,
    pub start_column: Option<u32>,
    pub end_line: u32,
    pub end_column: Option<u32>,
}

/// Who produced a fact.
#[derive(Debug)]
pub struct Provenance {
    pub extractor: ExtractorId,
    pub version: String,
    pub confidence: Confidence,
}

/// A fact about the analysed code.
#[derive(Debug)]
pub struct Fact {
    pub id: FactId,
    pub fact_type: FactType,
    pub location: SourceLocation,
    pub provenance: Provenance,
}

impl FactId {
    /// A fresh random fact identifier, a version 4 UUID.
    pub fn new_uuid() -> (f: FactId)
        ensures
            is_random_uuid(f.0),
    {
        FactId(random_uuid())
    }
}

impl Fact {
    /// A fact with a fresh random identifier.
    pub fn new(fact_type: FactType, location: SourceLocation, provenance: Provenance) -> (f: Fact)
        ensures
            f.fact_type == fact_type,
            f.location == location,
            f.provenance == provenance,
    {
        Fact { id: FactId::new_uuid(), fact_type, location, provenance }
    }
}

} // verus!
