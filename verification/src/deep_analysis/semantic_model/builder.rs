//! Semantic model builder.
use vstd::prelude::*;
use super::cfg::{cfg_blocks, cfg_node_count, new_cfg, ControlFlowGraph};
use super::dfg::{dfg_node_count, dfg_nodes, new_dfg, DataFlowGraph};
use crate::config::model::opt_text;
use crate::deep_analysis::DeepAnalysisError;

verus! {

/// Semantic model of analysed code.
#[derive(Debug)]
pub struct SemanticModel {
    /// Control flow graph
    pub cfg: ControlFlowGraph,
    /// Data flow graph
    pub dfg: DataFlowGraph,
}

impl SemanticModel {
    /// Create an empty semantic model.
    pub fn new() -> (m: Self)
        ensures
            cfg_blocks(m.cfg).len() == 0,
            dfg_nodes(m.dfg).len() == 0,
    {
        SemanticModel { cfg: new_cfg(), dfg: new_dfg() }
    }

    /// Number of control flow nodes.
    pub fn cfg_node_count(&self) -> (n: usize)
        ensures
            n == cfg_blocks(self.cfg).len(),
    {
        cfg_node_count(&self.cfg)
    }

    /// Number of data flow nodes.
    pub fn dfg_node_count(&self) -> (n: usize)
        ensures
            n == dfg_nodes(self.dfg).len(),
    {
        dfg_node_count(&self.dfg)
    }
}

impl Default for SemanticModel {
    fn default() -> (m: Self)
        ensures
            cfg_blocks(m.cfg).len() == 0,
            dfg_nodes(m.dfg).len() == 0,
    {
        SemanticModel::new()
    }
}

/// What the file system holds at a source path, as the caller found it.
#[derive(Debug)]
pub enum SourceProbe {
    /// Nothing exists at the path.
    Missing,
    /// A file, with the error met reading it, if any.
    File { read_error: Option<String> },
    /// A directory.
    Directory,
    /// Something that is neither a file nor a directory.
    Other,
}

/// Builder of semantic models.
#[derive(Debug, Default)]
pub struct SemanticModelBuilder {
    /// Source path being analysed
    pub source_path: Option<String>,
}

impl SemanticModelBuilder {
    /// Create a builder with no source path yet.
    pub fn new() -> (b: Self)
        ensures
            b.source_path is None,
    {
        SemanticModelBuilder { source_path: None }
    }

    /// Build the semantic model of a source file or directory, given what
    /// the file system holds at the path. A missing path and an unreadable
    /// file are errors; otherwise the model is empty, as no parser is
    /// attached yet. The path is remembered either way.
    pub fn from_source(&mut self, source_path: &str, probe: SourceProbe) -> (r: Result<SemanticModel, DeepAnalysisError>)
        ensures
            opt_text(final(self).source_path) == Some(source_path@),
            probe is Missing ==> (r matches Err(DeepAnalysisError::SemanticModel(m))
                && m@ == "Source path does not exist: "@ + source_path@),
            probe matches SourceProbe::File { read_error: Some(e) } ==> (r matches Err(DeepAnalysisError::Io(m)) && m@ == e@),
            (probe is Directory || probe is Other || probe matches SourceProbe::File { read_error: None }) ==> (
            r matches Ok(m) && cfg_blocks(m.cfg).len() == 0 && dfg_nodes(m.dfg).len() == 0),
    {
        self.source_path = Some(String::from_str(source_path));
        match probe {
            SourceProbe::Missing => Err(
                DeepAnalysisError::SemanticModel(String::from_str("Source path does not exist: ").concat(source_path)),
            ),
            SourceProbe::File { read_error } => match read_error {
                Some(e) => Err(DeepAnalysisError::Io(e)),
                None => Ok(SemanticModel::new()),
            },
            SourceProbe::Directory => Ok(SemanticModel::new()),
            SourceProbe::Other => Ok(SemanticModel::new()),
        }
    }
}

} // verus!
