//! Semantic model of analysed code: control flow graph, data flow graph,
//! scope tree and coupling graph.
pub mod builder;
pub mod cfg;
pub mod coupling_graph;
pub mod dfg;
pub mod fact_extractor;
pub mod scope_tree;

pub use builder::{SemanticModel, SemanticModelBuilder, SourceProbe};
pub use cfg::{BasicBlock, ControlFlowEdge, ControlFlowGraph, ControlFlowGraphBuilder};
pub use coupling_graph::{CodeEntity, ConnascenceEdge, CouplingGraph};
pub use dfg::{DataEdge, DataFlowGraph, DataFlowGraphBuilder, DataNode};
pub use fact_extractor::FactExtractor;
pub use scope_tree::{ScopeId, ScopeNode, ScopeTree};
