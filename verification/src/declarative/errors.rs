//! Errors of the declarative extractors.
use vstd::prelude::*;

verus! {

/// Errors of the declarative extractors.
#[derive(Debug)]
pub enum DeclarativeExtractorError {
    /// A rule or a piece of code could not be parsed.
    Parse { message: String },
    /// A rule breaks a validation rule.
    Validation { message: String },
    /// A file could not be read.
    Io { message: String },
    /// The language is not supported.
    LanguageNotSupported { language: String },
    /// A rule could not be used.
    Rule { message: String },
    /// The matcher failed.
    Matcher { message: String },
    /// The parser failed.
    TreeSitter { message: String },
}

/// The displayed text of an error.
pub open spec fn error_text(e: DeclarativeExtractorError) -> Seq<char> {
    match e {
        DeclarativeExtractorError::Parse { message } => "Parse error: "@ + message@,
        DeclarativeExtractorError::Validation { message } => "Validation error: "@ + message@,
        DeclarativeExtractorError::Io { message } => "IO error: "@ + message@,
        DeclarativeExtractorError::LanguageNotSupported { language } => "Language not supported: "@ + language@,
        DeclarativeExtractorError::Rule { message } => "Rule error: "@ + message@,
        DeclarativeExtractorError::Matcher { message } => "Matcher error: "@ + message@,
        DeclarativeExtractorError::TreeSitter { message } => "Tree-sitter error: "@ + message@,
    }
}

impl DeclarativeExtractorError {
    /// The displayed text of the error.
    pub fn to_string(&self) -> (s: String)
        ensures
            s@ == error_text(*self),
    {
        match self {
            DeclarativeExtractorError::Parse { message } => String::from_str("Parse error: ").concat(message.as_str()),
            DeclarativeExtractorError::Validation { message } => String::from_str("Validation error: ").concat(message.as_str()),
            DeclarativeExtractorError::Io { message } => String::from_str("IO error: ").concat(message.as_str()),
            DeclarativeExtractorError::LanguageNotSupported { language } => String::from_str("Language not supported: ").concat(language.as_str()),
            DeclarativeExtractorError::Rule { message } => String::from_str("Rule error: ").concat(message.as_str()),
            DeclarativeExtractorError::Matcher { message } => String::from_str("Matcher error: ").concat(message.as_str()),
            DeclarativeExtractorError::TreeSitter { message } => String::from_str("Tree-sitter error: ").concat(message.as_str()),
        }
    }

    /// Create a parse error.
    pub fn parse(msg: &str) -> (e: Self)
        ensures
            e matches DeclarativeExtractorError::Parse { message } && message@ == msg@,
    {
        DeclarativeExtractorError::Parse { message: String::from_str(msg) }
    }

    /// Create a validation error.
    pub fn validation(msg: &str) -> (e: Self)
        ensures
            e matches DeclarativeExtractorError::Validation { message } && message@ == msg@,
    {
        DeclarativeExtractorError::Validation { message: String::from_str(msg) }
    }

    /// Create a language-not-supported error.
    pub fn language_not_supported(lang: &str) -> (e: Self)
        ensures
            e matches DeclarativeExtractorError::LanguageNotSupported { language } && language@ == lang@,
    {
        DeclarativeExtractorError::LanguageNotSupported { language: String::from_str(lang) }
    }
}

} // verus!
