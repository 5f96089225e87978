//! Coupling findings.
use vstd::prelude::*;

verus! {

/// Identifier of a code entity.
#[derive(Debug, PartialEq, Eq)]
pub struct EntityId(pub String);

impl Clone for EntityId {
    fn clone(&self) -> (r: Self)
        ensures
            r == *self,
    {
        EntityId(self.0.clone())
    }
}

impl View for EntityId {
    type V = Seq<char>;

    open spec fn view(&self) -> Seq<char> {
        self.0@
    }
}

impl EntityId {
    /// The identifier text, as displayed.
    pub fn to_string(&self) -> (s: String)
        ensures
            s@ == self@,
    {
        self.0.clone()
    }
}

/// Finding of the connascence analysis.
#[derive(Debug, PartialEq, Eq)]
pub struct CouplingFinding {
    pub entity: EntityId,
    pub connascence_type: super::types::ConnascenceType,
    pub strength: super::types::Strength,
    pub related_entities: Vec<EntityId>,
    pub message: String,
    pub remediation: String,
}

/// Mathematical value of a finding.
pub struct CouplingFindingView {
    pub entity: Seq<char>,
    pub connascence_type: super::types::ConnascenceType,
    pub strength: super::types::Strength,
    pub related_entities: Seq<Seq<char>>,
    pub message: Seq<char>,
    pub remediation: Seq<char>,
}

impl View for CouplingFinding {
    type V = CouplingFindingView;

    open spec fn view(&self) -> CouplingFindingView {
        CouplingFindingView {
            entity: self.entity@,
            connascence_type: self.connascence_type,
            strength: self.strength,
            related_entities: self.related_entities@.map_values(|e: EntityId| e@),
            message: self.message@,
            remediation: self.remediation@,
        }
    }
}

} // verus!
