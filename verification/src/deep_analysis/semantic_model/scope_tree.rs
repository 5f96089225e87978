//! Scope tree structures.
use vstd::prelude::*;

verus! {

/// Scope identifier.
#[derive(Debug, Clone, Copy, PartialEq, Eq, Hash, Structural)]
pub struct ScopeId(pub u32);

/// Node of the scope tree.
#[derive(Debug, Clone)]
pub struct ScopeNode {
    pub id: ScopeId,
    pub parent: Option<ScopeId>,
    pub name: String,
    pub depth: u32,
}

/// Scope tree; scopes are not recorded yet.
#[derive(Debug, Default)]
pub struct ScopeTree {}

impl ScopeTree {
    /// Create an empty scope tree.
    pub fn new() -> (t: Self) {
        ScopeTree {}
    }
}

} // verus!
