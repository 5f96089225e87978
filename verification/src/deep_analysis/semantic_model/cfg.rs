//! Control flow graph structures.
use vstd::prelude::*;

verus! {

#[verifier::external_type_specification]
#[verifier::external_body]
#[verifier::reject_recursive_types(N)]
#[verifier::reject_recursive_types(E)]
#[verifier::reject_recursive_types(Ty)]
#[verifier::reject_recursive_types(Ix)]
pub struct ExPetGraph<N, E, Ty, Ix>(petgraph::graph::Graph<N, E, Ty, Ix>);

#[verifier::external_type_specification]
#[verifier::external_body]
pub struct ExPetDirected(petgraph::Directed);

/// Edge in the control flow graph.
#[derive(Debug, Clone, Copy)]
pub struct ControlFlowEdge {}

/// Basic block of the control flow graph.
#[derive(Debug, Clone, Copy)]
pub struct BasicBlock {
    pub id: u32,
    pub start_line: u32,
    pub end_line: u32,
}

/// Control flow graph: basic blocks connected by control flow edges.
pub type ControlFlowGraph = petgraph::graph::Graph<BasicBlock, ControlFlowEdge>;

/// The basic blocks of a control flow graph, in node index order, each as
/// `(id, start_line, end_line)`.
pub uninterp spec fn cfg_blocks(g: ControlFlowGraph) -> Seq<(u32, u32, u32)>;

/// `petgraph::graph::Graph::new`: a graph without nodes.
#[verifier::external_body]
pub(crate) fn new_cfg() -> (g: ControlFlowGraph)
    ensures
        cfg_blocks(g) == Seq::<(u32, u32, u32)>::empty(),
{
    petgraph::graph::Graph::new()
}

/// `petgraph::graph::Graph::node_count`: the number of nodes of the graph.
#[verifier::external_body]
pub(crate) fn cfg_node_count(g: &ControlFlowGraph) -> (n: usize)
    ensures
        n == cfg_blocks(*g).len(),
{
    g.node_count()
}

/// Builder for control flow graphs.
#[derive(Debug, Default)]
pub struct ControlFlowGraphBuilder {}

impl ControlFlowGraphBuilder {
    /// Create a new builder.
    pub fn new() -> (b: Self) {
        ControlFlowGraphBuilder {}
    }
}

} // verus!
