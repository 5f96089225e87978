//! Data flow graph structures.
use vstd::prelude::*;

verus! {

/// Edge in the data flow graph.
#[derive(Debug, Clone, Copy)]
pub struct DataEdge {}

/// Node in the data flow graph.
#[derive(Debug, Clone)]
pub enum DataNode {
    /// Variable
    Variable { name: String, var_type: Option<String>, scope: u32 },
    /// Constant value
    Constant { value: String, var_type: String },
    /// Expression
    Expression { operation: String, operands: Vec<u32> },
}

/// A data flow node as plain values: a tag (0 variable, 1 constant,
/// 2 expression), its text (name, value or operation), its type if any, and
/// its numbers (the scope of a variable, the operands of an expression).
pub open spec fn data_node_value(n: DataNode) -> (u8, Seq<char>, Option<Seq<char>>, Seq<u32>) {
    match n {
        DataNode::Variable { name, var_type, scope } => (
            0u8,
            name@,
            match var_type {
                Some(t) => Some(t@),
                None => None,
            },
            seq![scope],
        ),
        DataNode::Constant { value, var_type } => (1u8, value@, Some(var_type@), Seq::empty()),
        DataNode::Expression { operation, operands } => (2u8, operation@, None, operands@),
    }
}

/// Data flow graph: values connected by data flow edges.
pub type DataFlowGraph = petgraph::graph::Graph<DataNode, DataEdge>;

/// The nodes of a data flow graph, in node index order, as plain values
/// (see `data_node_value`).
pub uninterp spec fn dfg_nodes(g: DataFlowGraph) -> Seq<(u8, Seq<char>, Option<Seq<char>>, Seq<u32>)>;

/// `petgraph::graph::Graph::new`: a graph without nodes.
#[verifier::external_body]
pub(crate) fn new_dfg() -> (g: DataFlowGraph)
    ensures
        dfg_nodes(g) == Seq::<(u8, Seq<char>, Option<Seq<char>>, Seq<u32>)>::empty(),
{
    petgraph::graph::Graph::new()
}

/// `petgraph::graph::Graph::node_count`: the number of nodes of the graph.
#[verifier::external_body]
pub(crate) fn dfg_node_count(g: &DataFlowGraph) -> (n: usize)
    ensures
        n == dfg_nodes(*g).len(),
{
    g.node_count()
}

/// Builder for data flow graphs.
#[derive(Debug, Default)]
pub struct DataFlowGraphBuilder {}

impl DataFlowGraphBuilder {
    /// Create a new builder.
    pub fn new() -> (b: Self) {
        DataFlowGraphBuilder {}
    }
}

} // verus!
