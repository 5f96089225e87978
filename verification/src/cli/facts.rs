//! Facts that the extractors of the incremental analysis report.
use vstd::prelude::*;
use crate::ir::Severity;

verus! {

/// A code smell found at a line of a file.
#[derive(Debug, PartialEq, Eq)]
pub struct CodeSmellFact {
    /// Kind of smell, such as `TODO`
    pub smell_type: String,
    pub severity: Severity,
    pub message: String,
    /// File where the smell was found
    pub file: String,
    /// Line of the smell, counted from 1
    pub line: u32,
}

impl Clone for CodeSmellFact {
    fn clone(&self) -> (r: Self)
        ensures
            r == *self,
    {
        CodeSmellFact {
            smell_type: self.smell_type.clone(),
            severity: self.severity,
            message: self.message.clone(),
            file: self.file.clone(),
            line: self.line,
        }
    }
}

/// Copy a sequence of facts.
pub fn clone_facts(v: &Vec<CodeSmellFact>) -> (r: Vec<CodeSmellFact>)
    ensures
        r@ == v@,
{
    let mut r: Vec<CodeSmellFact> = Vec::new();
    for i in 0..v.len()
        invariant
            r@ == v@.take(i as int),
    {
        r.push(v[i].clone());
        assert(r@ =~= v@.take(i + 1));
    }
    assert(v@.take(v.len() as int) =~= v@);
    r
}

} // verus!
