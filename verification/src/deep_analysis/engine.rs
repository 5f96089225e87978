//! The deep analysis engine: builds the semantic model of a source, then runs
//! the taint and the connascence analyses on it.
use vstd::prelude::*;
use super::connascence::algorithms::findings_view;
use super::connascence::analyzer::{detected_findings, reaches, ConnascenceAnalyzer};
use super::connascence::findings::CouplingFinding;
use super::connascence::types::Strength;
use super::policy::TaintPolicy;
use super::semantic_model::builder::{SemanticModelBuilder, SourceProbe};
use super::taint_analysis::propagator::{TaintAnalysisError, TaintFlow, TaintPropagator};
use super::DeepAnalysisError;
use crate::config::model::opt_text;

verus! {

/// Result of a complete deep analysis.
#[derive(Debug)]
pub struct AnalysisResult {
    /// Taint flows detected
    pub taint_flows: Vec<TaintFlow>,
    /// Coupling findings
    pub coupling_findings: Vec<CouplingFinding>,
}

/// Deep analysis engine, the main entry point.
#[derive(Debug)]
pub struct DeepAnalysisEngine {
    semantic_builder: SemanticModelBuilder,
    taint_propagator: TaintPropagator,
    connascence_analyzer: ConnascenceAnalyzer,
}

/// The error of the taint analysis, as an error of the engine.
pub open spec fn taint_error_text(e: TaintAnalysisError) -> Seq<char> {
    match e {
        TaintAnalysisError::Analysis(m) => m@,
        TaintAnalysisError::FlowIndex(m) => m@,
        TaintAnalysisError::Datalog(m) => m@,
    }
}

fn from_taint_error(e: TaintAnalysisError) -> (r: DeepAnalysisError)
    ensures
        r matches DeepAnalysisError::TaintAnalysis(m) && m@ == taint_error_text(e),
{
    match e {
        TaintAnalysisError::Analysis(m) => DeepAnalysisError::TaintAnalysis(m),
        TaintAnalysisError::FlowIndex(m) => DeepAnalysisError::TaintAnalysis(m),
        TaintAnalysisError::Datalog(m) => DeepAnalysisError::TaintAnalysis(m),
    }
}

impl DeepAnalysisEngine {
    /// Minimum strength of the couplings that the engine reports.
    pub closed spec fn min_strength(self) -> Strength {
        self.connascence_analyzer.min_strength()
    }

    /// The source path that the engine analysed last, if any.
    pub closed spec fn last_source(self) -> Option<Seq<char>> {
        opt_text(self.semantic_builder.source_path)
    }

    /// Create a new deep analysis engine.
    pub fn new() -> (e: Self)
        ensures
            e.last_source() is None,
            e.min_strength() == Strength::Low,
    {
        DeepAnalysisEngine {
            semantic_builder: SemanticModelBuilder::new(),
            taint_propagator: TaintPropagator::new(),
            connascence_analyzer: ConnascenceAnalyzer::new(),
        }
    }

    /// Run the complete analysis of a source, given what the file system
    /// holds at its path: build the semantic model, run the taint analysis
    /// under the default policy, then the connascence analysis.
    pub fn analyze_source(&mut self, source_path: &str, probe: SourceProbe) -> (r: Result<AnalysisResult, DeepAnalysisError>)
        ensures
            final(self).last_source() == Some(source_path@),
            final(self).min_strength() == old(self).min_strength(),
            probe is Missing ==> (r matches Err(DeepAnalysisError::SemanticModel(m))
                && m@ == "Source path does not exist: "@ + source_path@),
            probe matches SourceProbe::File { read_error: Some(e) } ==> (r matches Err(DeepAnalysisError::Io(m)) && m@ == e@),
            (probe is Directory || probe is Other || probe matches SourceProbe::File { read_error: None }) ==> (
            r matches Ok(res) && res.taint_flows@.len() == 0
                && findings_view(res.coupling_findings@) == detected_findings().filter(reaches(old(self).min_strength()))),
    {
        let model = match self.semantic_builder.from_source(source_path, probe) {
            Ok(m) => m,
            Err(e) => {
                return Err(e);
            },
        };
        let policy = TaintPolicy::default();
        let taint_flows = match self.taint_propagator.run_analysis(&model, &policy) {
            Ok(flows) => flows,
            Err(e) => {
                return Err(from_taint_error(e));
            },
        };
        let coupling_findings = match self.connascence_analyzer.analyze(&model) {
            Ok(fs) => fs,
            Err(e) => {
                return Err(e);
            },
        };
        Ok(AnalysisResult { taint_flows, coupling_findings })
    }
}

impl Default for DeepAnalysisEngine {
    fn default() -> (e: Self)
        ensures
            e.last_source() is None,
            e.min_strength() == Strength::Low,
    {
        DeepAnalysisEngine::new()
    }
}

} // verus!
