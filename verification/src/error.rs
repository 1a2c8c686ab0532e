//! What can go wrong when a query set is built or a text is parsed.

use tree_sitter::{LanguageError, QueryError};
use vstd::prelude::*;

verus! {

/// A query set was asked for with a part missing.
#[derive(Debug, PartialEq, Eq, Structural, Clone, Copy)]
pub enum ValidationError {
    /// No grammar was given to the builder.
    MissingLanguage,
    /// The name of the query set is empty.
    EmptyName,
    /// The list of patterns is empty.
    NoPatterns,
}

impl ValidationError {
    /// The sentence that describes the error.
    pub open spec fn spec_message(self) -> &'static str {
        match self {
            ValidationError::MissingLanguage => "Language not set",
            ValidationError::EmptyName => "Configuration name cannot be empty",
            ValidationError::NoPatterns => "At least one query pattern must be defined",
        }
    }

    /// The sentence that describes the error.
    #[verifier::when_used_as_spec(spec_message)]
    pub fn message(self) -> (text: &'static str)
        ensures
            text == self.spec_message(),
    {
        match self {
            ValidationError::MissingLanguage => "Language not set",
            ValidationError::EmptyName => "Configuration name cannot be empty",
            ValidationError::NoPatterns => "At least one query pattern must be defined",
        }
    }
}

/// A pattern that the grammar does not accept, with the grammar's diagnostic.
#[derive(Debug, PartialEq, Eq)]
pub struct CompileError {
    /// The text of the offending pattern.
    pub pattern: String,
    /// What the grammar reported about it.
    pub diagnostic: QueryError,
}

/// Why no query set was built.
#[derive(Debug, PartialEq, Eq)]
pub enum BuildError {
    Validation(ValidationError),
    Compile(CompileError),
}

/// Why an analyzer has no syntax tree for a text.
#[derive(Debug, PartialEq, Eq)]
pub enum AnalyzerError {
    /// The parser refused the grammar of the query set.
    Language(LanguageError),
    /// The parser produced no tree at all.
    Parse,
}

} // verus!
