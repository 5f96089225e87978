//! Connascence analysis: detection of architectural coupling.
pub mod algorithms;
pub mod analyzer;
pub mod findings;
pub mod types;

pub use algorithms::{
    calculate_strength, detect_algorithm_connascence, detect_meaning_connascence,
    detect_name_connascence, detect_position_connascence, detect_type_connascence,
};
pub use analyzer::ConnascenceAnalyzer;
pub use findings::{CouplingFinding, EntityId};
pub use types::{ConnascenceType, Strength};
