//! Coupling graph structures.
use vstd::prelude::*;

verus! {

/// Code entity: a node of the coupling graph.
#[derive(Debug, Clone)]
pub struct CodeEntity {
    pub id: String,
    pub name: String,
    pub entity_type: String,
}

/// Kind of connascence carried by a coupling edge.
#[derive(Debug, Clone, Copy, PartialEq, Eq, Structural)]
pub enum ConnascenceType {
    Name,
    Type,
    Meaning,
    Position,
    Algorithm,
}

/// Strength of a coupling edge, from weakest to strongest.
#[derive(Debug, Clone, Copy, PartialEq, Eq, Structural)]
pub enum Strength {
    VeryLow,
    Low,
    Medium,
    High,
    VeryHigh,
}

/// Edge of the coupling graph.
#[derive(Debug, Clone, Copy)]
pub struct ConnascenceEdge {
    pub connascence_type: ConnascenceType,
    pub strength: Strength,
}

/// Coupling graph: code entities connected by connascence edges.
pub type CouplingGraph = petgraph::graph::Graph<CodeEntity, ConnascenceEdge>;

} // verus!
