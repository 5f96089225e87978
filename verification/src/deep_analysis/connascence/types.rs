//! Connascence types and strengths.
use vstd::prelude::*;

verus! {

/// Kind of connascence (architectural coupling) between code entities.
#[derive(Debug, Clone, Copy, PartialEq, Eq, Structural)]
pub enum ConnascenceType {
    Name,
    Type,
    Meaning,
    Position,
    Algorithm,
}

/// Strength of a connascence, from weakest to strongest.
#[derive(Debug, Clone, Copy, PartialEq, Eq, Structural)]
pub enum Strength {
    VeryLow,
    Low,
    Medium,
    High,
    VeryHigh,
}

/// Level of a strength on the scale 1 (very low) to 5 (very high).
pub open spec fn level(s: Strength) -> int {
    match s {
        Strength::VeryLow => 1,
        Strength::Low => 2,
        Strength::Medium => 3,
        Strength::High => 4,
        Strength::VeryHigh => 5,
    }
}

/// The strength at a level of the scale; levels outside 1..=5 are clamped.
pub open spec fn strength_at(l: int) -> Strength {
    if l <= 1 {
        Strength::VeryLow
    } else if l == 2 {
        Strength::Low
    } else if l == 3 {
        Strength::Medium
    } else if l == 4 {
        Strength::High
    } else {
        Strength::VeryHigh
    }
}

impl Strength {
    /// Level of this strength on the scale 1 (very low) to 5 (very high).
    pub fn level(&self) -> (l: u8)
        ensures
            l == level(*self),
    {
        match self {
            Strength::VeryLow => 1,
            Strength::Low => 2,
            Strength::Medium => 3,
            Strength::High => 4,
            Strength::VeryHigh => 5,
        }
    }

    /// Name of the strength, as displayed.
    pub fn to_string(&self) -> (s: String)
        ensures
            s@ == strength_name(*self),
    {
        match self {
            Strength::VeryLow => "VeryLow".to_string(),
            Strength::Low => "Low".to_string(),
            Strength::Medium => "Medium".to_string(),
            Strength::High => "High".to_string(),
            Strength::VeryHigh => "VeryHigh".to_string(),
        }
    }
}

/// Displayed name of a strength.
pub open spec fn strength_name(s: Strength) -> Seq<char> {
    match s {
        Strength::VeryLow => "VeryLow"@,
        Strength::Low => "Low"@,
        Strength::Medium => "Medium"@,
        Strength::High => "High"@,
        Strength::VeryHigh => "VeryHigh"@,
    }
}

/// Displayed name of a connascence type.
pub open spec fn connascence_type_name(t: ConnascenceType) -> Seq<char> {
    match t {
        ConnascenceType::Name => "Name"@,
        ConnascenceType::Type => "Type"@,
        ConnascenceType::Meaning => "Meaning"@,
        ConnascenceType::Position => "Position"@,
        ConnascenceType::Algorithm => "Algorithm"@,
    }
}

impl ConnascenceType {
    /// Name of the connascence type, as displayed.
    pub fn to_string(&self) -> (s: String)
        ensures
            s@ == connascence_type_name(*self),
    {
        match self {
            ConnascenceType::Name => "Name".to_string(),
            ConnascenceType::Type => "Type".to_string(),
            ConnascenceType::Meaning => "Meaning".to_string(),
            ConnascenceType::Position => "Position".to_string(),
            ConnascenceType::Algorithm => "Algorithm".to_string(),
        }
    }
}

} // verus!
