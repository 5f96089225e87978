//! Connascence detection algorithms.
use vstd::prelude::*;
use super::findings::{CouplingFinding, CouplingFindingView, EntityId};
use super::types::{level, strength_at, ConnascenceType, Strength};
use crate::deep_analysis::semantic_model::builder::SemanticModel;

verus! {

/// Level that the number of coupled entities gives before any adjustment.
pub open spec fn base_level(entity_count: nat) -> int {
    if entity_count <= 1 {
        1
    } else if entity_count <= 3 {
        2
    } else if entity_count <= 6 {
        3
    } else if entity_count <= 10 {
        4
    } else {
        5
    }
}

/// Level after the adjustment for the kind of coupling: algorithm and
/// meaning coupling raise a low or medium level by one; name and position
/// coupling lower a very high level by one.
pub open spec fn type_adjusted_level(base: int, t: ConnascenceType) -> int {
    match t {
        ConnascenceType::Algorithm | ConnascenceType::Meaning => if base == 2 || base == 3 {
            base + 1
        } else {
            base
        },
        ConnascenceType::Name | ConnascenceType::Position => if base == 5 {
            4
        } else {
            base
        },
        ConnascenceType::Type => base,
    }
}

/// Level after the adjustment for frequency: more than ten occurrences raise
/// a low, medium or high level by one.
pub open spec fn frequency_adjusted_level(adjusted: int, frequency: nat) -> int {
    if frequency > 10 && 2 <= adjusted <= 4 {
        adjusted + 1
    } else {
        adjusted
    }
}

/// Strength of a coupling between `entity_count` entities, of kind `t`,
/// occurring `frequency` times.
pub open spec fn strength_of(entity_count: nat, t: ConnascenceType, frequency: nat) -> Strength {
    strength_at(frequency_adjusted_level(type_adjusted_level(base_level(entity_count), t), frequency))
}

/// Calculate the strength of a connascence from the number of coupled
/// entities, the kind of coupling and the frequency of occurrence.
pub fn calculate_strength(entity_count: usize, coupling_type: ConnascenceType, frequency: usize) -> (s: Strength)
    ensures
        s == strength_of(entity_count as nat, coupling_type, frequency as nat),
{
    let base_strength = if entity_count <= 1 {
        Strength::VeryLow
    } else if entity_count <= 3 {
        Strength::Low
    } else if entity_count <= 6 {
        Strength::Medium
    } else if entity_count <= 10 {
        Strength::High
    } else {
        Strength::VeryHigh
    };
    let adjusted_strength = match coupling_type {
        ConnascenceType::Algorithm | ConnascenceType::Meaning => match base_strength {
            Strength::Low => Strength::Medium,
            Strength::Medium => Strength::High,
            _ => base_strength,
        },
        ConnascenceType::Name | ConnascenceType::Position => match base_strength {
            Strength::VeryHigh => Strength::High,
            _ => base_strength,
        },
        _ => base_strength,
    };
    if frequency > 10 {
        match adjusted_strength {
            Strength::Low => Strength::Medium,
            Strength::Medium => Strength::High,
            Strength::High => Strength::VeryHigh,
            _ => adjusted_strength,
        }
    } else {
        adjusted_strength
    }
}

/// The strength table. With at most ten occurrences: one entity or none is
/// very low; two or three entities are low, four to six medium, seven to
/// ten high and more very high; algorithm and meaning coupling are one level
/// stronger than that for two to six entities (medium, then high), and name
/// and position coupling between more than ten entities are high. More than
/// ten occurrences raise a low, medium or high coupling by one level.
pub proof fn law_strength_table(n: nat, t: ConnascenceType, f: nat)
    ensures
        n <= 1 ==> strength_of(n, t, f) == Strength::VeryLow,
        f <= 10 && 2 <= n <= 3 ==> strength_of(n, t, f) == match t {
            ConnascenceType::Algorithm | ConnascenceType::Meaning => Strength::Medium,
            _ => Strength::Low,
        },
        f <= 10 && 4 <= n <= 6 ==> strength_of(n, t, f) == match t {
            ConnascenceType::Algorithm | ConnascenceType::Meaning => Strength::High,
            _ => Strength::Medium,
        },
        f <= 10 && 7 <= n <= 10 ==> strength_of(n, t, f) == Strength::High,
        f <= 10 && n > 10 ==> strength_of(n, t, f) == match t {
            ConnascenceType::Name | ConnascenceType::Position => Strength::High,
            _ => Strength::VeryHigh,
        },
        f > 10 && 2 <= n <= 3 ==> strength_of(n, t, f) == match t {
            ConnascenceType::Algorithm | ConnascenceType::Meaning => Strength::High,
            _ => Strength::Medium,
        },
        f > 10 && 4 <= n <= 6 ==> strength_of(n, t, f) == match t {
            ConnascenceType::Algorithm | ConnascenceType::Meaning => Strength::VeryHigh,
            _ => Strength::High,
        },
        f > 10 && n > 6 ==> strength_of(n, t, f) == Strength::VeryHigh,
{
}

/// The level of a strength computed by `strength_of` lies between 1 and 5.
proof fn lemma_levels_in_range(n: nat, t: ConnascenceType, f: nat)
    ensures
        1 <= base_level(n) <= 5,
        1 <= type_adjusted_level(base_level(n), t) <= 5,
        1 <= frequency_adjusted_level(type_adjusted_level(base_level(n), t), f) <= 5,
        level(strength_of(n, t, f)) == frequency_adjusted_level(
            type_adjusted_level(base_level(n), t),
            f,
        ),
{
}

/// More occurrences never make a coupling weaker.
pub proof fn lemma_strength_monotone_in_frequency(n: nat, t: ConnascenceType, f1: nat, f2: nat)
    requires
        f1 <= f2,
    ensures
        level(strength_of(n, t, f1)) <= level(strength_of(n, t, f2)),
{
    lemma_levels_in_range(n, t, f1);
    lemma_levels_in_range(n, t, f2);
}

/// More coupled entities never make a coupling weaker.
pub proof fn lemma_strength_monotone_in_entities(n1: nat, n2: nat, t: ConnascenceType, f: nat)
    requires
        n1 <= n2,
    ensures
        level(strength_of(n1, t, f)) <= level(strength_of(n2, t, f)),
{
    lemma_levels_in_range(n1, t, f);
    lemma_levels_in_range(n2, t, f);
}

/// Algorithm and meaning coupling are at least as strong as any other kind
/// of coupling between the same number of entities with the same frequency.
pub proof fn lemma_algorithm_and_meaning_are_strongest(n: nat, t: ConnascenceType, f: nat)
    ensures
        level(strength_of(n, ConnascenceType::Algorithm, f)) >= level(strength_of(n, t, f)),
        level(strength_of(n, ConnascenceType::Meaning, f)) >= level(strength_of(n, t, f)),
{
    lemma_levels_in_range(n, t, f);
    lemma_levels_in_range(n, ConnascenceType::Algorithm, f);
    lemma_levels_in_range(n, ConnascenceType::Meaning, f);
}

/// A coupling of at most one entity is very low, whatever its kind and
/// frequency.
pub proof fn lemma_single_entity_is_very_low(n: nat, t: ConnascenceType, f: nat)
    requires
        n <= 1,
    ensures
        strength_of(n, t, f) == Strength::VeryLow,
{
}

/// Frequency raises a coupling by at most one level.
pub proof fn lemma_frequency_raises_at_most_one_level(n: nat, t: ConnascenceType, f: nat)
    ensures
        level(strength_of(n, t, f)) <= level(strength_of(n, t, 0)) + 1,
{
    lemma_levels_in_range(n, t, f);
    lemma_levels_in_range(n, t, 0);
}

/// Name and position coupling reach very high only through frequency.
pub proof fn lemma_name_and_position_capped_without_frequency(n: nat, f: nat)
    requires
        f <= 10,
    ensures
        level(strength_of(n, ConnascenceType::Name, f)) <= 4,
        level(strength_of(n, ConnascenceType::Position, f)) <= 4,
{
    lemma_levels_in_range(n, ConnascenceType::Name, f);
    lemma_levels_in_range(n, ConnascenceType::Position, f);
}

/// The finding that the position detector reports.
pub open spec fn position_finding() -> CouplingFindingView {
    CouplingFindingView {
        entity: "function_with_many_params"@,
        connascence_type: ConnascenceType::Position,
        strength: Strength::High,
        related_entities: seq!["similar_function_1"@, "similar_function_2"@],
        message: "Detected positional connascence in function parameters"@,
        remediation: "Consider using a parameter object or builder pattern to reduce position dependencies"@,
    }
}

/// The finding that the meaning detector reports.
pub open spec fn meaning_finding() -> CouplingFindingView {
    CouplingFindingView {
        entity: "status_constants"@,
        connascence_type: ConnascenceType::Meaning,
        strength: Strength::Medium,
        related_entities: seq!["order_status"@, "task_status"@],
        message: "Detected meaning connascence through shared status codes"@,
        remediation: "Extract shared constants to a central enum or constant module"@,
    }
}

/// The views of a sequence of findings.
pub open spec fn findings_view(fs: Seq<CouplingFinding>) -> Seq<CouplingFindingView> {
    fs.map_values(|f: CouplingFinding| f@)
}

fn entity(name: &str) -> (e: EntityId)
    ensures
        e@ == name@,
{
    EntityId(name.to_string())
}

/// Detect connascence of name. The semantic model does not yet expose
/// entity names, so no finding is reported.
pub fn detect_name_connascence(model: &SemanticModel) -> (findings: Vec<CouplingFinding>)
    ensures
        findings@.len() == 0,
{
    Vec::new()
}

/// Detect connascence of type. The semantic model does not yet expose type
/// information, so no finding is reported.
pub fn detect_type_connascence(model: &SemanticModel) -> (findings: Vec<CouplingFinding>)
    ensures
        findings@.len() == 0,
{
    Vec::new()
}

/// Detect connascence of position: functions whose callers depend on the
/// order of many parameters.
pub fn detect_position_connascence(model: &SemanticModel) -> (findings: Vec<CouplingFinding>)
    ensures
        findings_view(findings@) == seq![position_finding()],
{
    broadcast use vstd::string::group_string_axioms;
    let mut related = Vec::new();
    related.push(entity("similar_function_1"));
    related.push(entity("similar_function_2"));
    let finding = CouplingFinding {
        entity: entity("function_with_many_params"),
        connascence_type: ConnascenceType::Position,
        strength: Strength::High,
        related_entities: related,
        message: "Detected positional connascence in function parameters".to_string(),
        remediation: "Consider using a parameter object or builder pattern to reduce position dependencies".to_string(),
    };
    let mut findings = Vec::new();
    findings.push(finding);
    assert(finding@.related_entities =~= position_finding().related_entities);
    assert(findings_view(findings@) =~= seq![position_finding()]);
    findings
}

/// Detect connascence of algorithm. The semantic model does not yet expose
/// function bodies, so no finding is reported.
pub fn detect_algorithm_connascence(model: &SemanticModel) -> (findings: Vec<CouplingFinding>)
    ensures
        findings@.len() == 0,
{
    Vec::new()
}

/// Detect connascence of meaning: entities that share magic values.
pub fn detect_meaning_connascence(model: &SemanticModel) -> (findings: Vec<CouplingFinding>)
    ensures
        findings_view(findings@) == seq![meaning_finding()],
{
    broadcast use vstd::string::group_string_axioms;
    let mut related = Vec::new();
    related.push(entity("order_status"));
    related.push(entity("task_status"));
    let finding = CouplingFinding {
        entity: entity("status_constants"),
        connascence_type: ConnascenceType::Meaning,
        strength: Strength::Medium,
        related_entities: related,
        message: "Detected meaning connascence through shared status codes".to_string(),
        remediation: "Extract shared constants to a central enum or constant module".to_string(),
    };
    let mut findings = Vec::new();
    findings.push(finding);
    assert(finding@.related_entities =~= meaning_finding().related_entities);
    assert(findings_view(findings@) =~= seq![meaning_finding()]);
    findings
}

} // verus!
