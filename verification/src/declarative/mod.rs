//! Declarative extractors: rules written as data, a multi-language parser
//! front end and a pattern matcher with metavariables.
pub mod errors;
pub mod lsp;
pub mod matcher;
pub mod owasp_rules;
pub mod rule_tester;
pub mod rules;
pub mod semgrep_translator;
pub mod tree_sitter;

pub use errors::DeclarativeExtractorError;
pub use tree_sitter::{ASTNode, Language, MultiLanguageParser, ParseError, ParseResult};

use vstd::prelude::*;

verus! {

/// Version of the declarative rule language.
pub const DSL_VERSION: &'static str = "1.0.0";

} // verus!
