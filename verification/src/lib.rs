//! Classifies a byte offset inside source text as a named syntactic symbol.
//!
//! A [`QueryManager`] holds an ordered set of structural patterns compiled
//! for one grammar. A [`SymbolAnalyzer`] keeps a syntax tree over a source
//! text and resolves a byte offset to the first capture, in the order of
//! the queries, that covers it.

pub mod analyzer;
pub mod error;
pub mod grammar;
pub mod languages;
pub mod query;
pub mod resolve;
pub mod span;
pub mod suite;
pub mod text;

pub use analyzer::SymbolAnalyzer;
pub use error::{AnalyzerError, BuildError, CompileError, ValidationError};
pub use languages::cpp::{cpp_queries, get_cpp_patterns};
pub use query::{PreparedQuery, QueryManager, QueryManagerBuilder, QueryPattern, SymbolType};
pub use resolve::SymbolInfo;
pub use span::Span;
pub use suite::cpp::CppTestSuite;
pub use suite::{TestCase, TestFailure, TestResult, TestRunner, TestSuite};
