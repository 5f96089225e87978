//! Deep analysis engine: connascence detection, semantic model and taint analysis.
pub mod analysis_cache;
pub mod connascence;
pub mod engine;
pub mod policy;
pub mod semantic_model;
pub mod taint_analysis;

pub use engine::{AnalysisResult, DeepAnalysisEngine};

use vstd::prelude::*;

verus! {

/// Errors of the deep analysis engine.
#[derive(Debug)]
pub enum DeepAnalysisError {
    /// Taint analysis failed.
    TaintAnalysis(String),
    /// The semantic model could not be built.
    SemanticModel(String),
    /// The connascence analysis failed.
    ConnascenceAnalysis(String),
    /// The policy is invalid.
    Policy(String),
    /// Reading the source failed.
    Io(String),
    /// A value could not be serialised.
    Serialization(String),
    /// A TOML document could not be parsed.
    Toml(String),
}

} // verus!
