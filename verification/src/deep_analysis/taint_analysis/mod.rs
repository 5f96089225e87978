//! Taint analysis: propagation of tainted data from sources to sinks.
pub mod propagator;

pub use crate::deep_analysis::policy::{
    DataTag, SanitizerDefinition, SinkDefinition, SourceDefinition, TaintPolicy,
};
pub use propagator::{TaintAnalysisError, TaintFlow, TaintPropagator};
