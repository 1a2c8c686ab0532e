//! Patterns tagged with a symbol kind, and the ordered sets that are
//! compiled from them for one grammar.

use crate::error::{BuildError, CompileError, ValidationError};
use crate::grammar::{compile_diagnostic, pattern_compiles, query_grammar, query_source};
use tree_sitter::{Language, Query};
use vstd::prelude::*;

verus! {

/// The classification attached to a compiled pattern and returned by a resolution.
#[derive(Debug, PartialEq, Eq, Structural, Clone, Copy)]
pub enum SymbolType {
    Class,
    Field,
    FieldAccess,
    Function,
    FunctionCall,
    MethodCall,
    Parameter,
    Type,
    Variable,
}

/// A structural pattern tagged with the kind of symbol that it finds.
#[derive(Debug, PartialEq, Clone, Copy)]
pub enum QueryPattern {
    Class(&'static str),
    Field(&'static str),
    FieldAccess(&'static str),
    Function(&'static str),
    FunctionCall(&'static str),
    MethodCall(&'static str),
    Parameter(&'static str),
    Type(&'static str),
    Variable(&'static str),
}

impl QueryPattern {
    /// The pattern text that the variant carries.
    pub open spec fn spec_pattern(&self) -> &'static str {
        match self {
            QueryPattern::Class(p) => p,
            QueryPattern::Field(p) => p,
            QueryPattern::FieldAccess(p) => p,
            QueryPattern::Function(p) => p,
            QueryPattern::FunctionCall(p) => p,
            QueryPattern::MethodCall(p) => p,
            QueryPattern::Parameter(p) => p,
            QueryPattern::Type(p) => p,
            QueryPattern::Variable(p) => p,
        }
    }

    /// The symbol kind that the variant stands for.
    pub open spec fn spec_symbol_type(&self) -> SymbolType {
        match self {
            QueryPattern::Class(_) => SymbolType::Class,
            QueryPattern::Field(_) => SymbolType::Field,
            QueryPattern::FieldAccess(_) => SymbolType::FieldAccess,
            QueryPattern::Function(_) => SymbolType::Function,
            QueryPattern::FunctionCall(_) => SymbolType::FunctionCall,
            QueryPattern::MethodCall(_) => SymbolType::MethodCall,
            QueryPattern::Parameter(_) => SymbolType::Parameter,
            QueryPattern::Type(_) => SymbolType::Type,
            QueryPattern::Variable(_) => SymbolType::Variable,
        }
    }

    /// The pattern text that the variant carries.
    #[verifier::when_used_as_spec(spec_pattern)]
    pub fn pattern(&self) -> (text: &'static str)
        ensures
            text == self.spec_pattern(),
    {
        match self {
            QueryPattern::Class(p) => p,
            QueryPattern::Field(p) => p,
            QueryPattern::FieldAccess(p) => p,
            QueryPattern::Function(p) => p,
            QueryPattern::FunctionCall(p) => p,
            QueryPattern::MethodCall(p) => p,
            QueryPattern::Parameter(p) => p,
            QueryPattern::Type(p) => p,
            QueryPattern::Variable(p) => p,
        }
    }

    /// The symbol kind that the variant stands for.
    #[verifier::when_used_as_spec(spec_symbol_type)]
    pub fn symbol_type(&self) -> (kind: SymbolType)
        ensures
            kind == self.spec_symbol_type(),
    {
        match self {
            QueryPattern::Class(_) => SymbolType::Class,
            QueryPattern::Field(_) => SymbolType::Field,
            QueryPattern::FieldAccess(_) => SymbolType::FieldAccess,
            QueryPattern::Function(_) => SymbolType::Function,
            QueryPattern::FunctionCall(_) => SymbolType::FunctionCall,
            QueryPattern::MethodCall(_) => SymbolType::MethodCall,
            QueryPattern::Parameter(_) => SymbolType::Parameter,
            QueryPattern::Type(_) => SymbolType::Type,
            QueryPattern::Variable(_) => SymbolType::Variable,
        }
    }
}

/// A pattern together with its compiled matcher.
#[derive(Debug)]
pub struct PreparedQuery {
    pub query: Query,
    query_pattern: QueryPattern,
}

impl PreparedQuery {
    /// The pattern that the matcher was compiled from.
    pub closed spec fn source(&self) -> QueryPattern {
        self.query_pattern
    }

    /// The compiled matcher.
    pub closed spec fn spec_query(&self) -> Query {
        self.query
    }

    /// Whether the matcher is one of the text of the pattern for `language`.
    pub open spec fn compiled_for(&self, language: Language) -> bool {
        &&& query_source(self.spec_query()) == self.source().spec_pattern()@
        &&& query_grammar(self.spec_query()) == language
    }

    /// The compiled matcher.
    pub fn compiled(&self) -> (query: &Query)
        ensures
            *query == self.spec_query(),
    {
        &self.query
    }

    /// Compiles `query_pattern` against `language` and keeps the matcher
    /// with the pattern. Fails exactly when the grammar does not accept the
    /// pattern text, and then reports that text and what the grammar said
    /// of it.
    pub fn new(language: &Language, query_pattern: QueryPattern) -> (prepared: Result<
        Self,
        CompileError,
    >)
        ensures
            prepared is Ok <==> pattern_compiles(*language, query_pattern.spec_pattern()@),
            prepared matches Ok(p) ==> p.source() == query_pattern && p.compiled_for(*language),
            prepared matches Err(e) ==> e.pattern@ == query_pattern.spec_pattern()@ && Some(
                e.diagnostic,
            ) == compile_diagnostic(*language, query_pattern.spec_pattern()@),
    {
        match Query::new(language, query_pattern.pattern()) {
            Ok(query) => Ok(PreparedQuery { query, query_pattern }),
            Err(diagnostic) => Err(
                CompileError { pattern: query_pattern.pattern().to_owned(), diagnostic },
            ),
        }
    }

    /// The symbol kind that a capture of this query stands for.
    pub fn symbol_type(&self) -> (kind: SymbolType)
        ensures
            kind == self.source().spec_symbol_type(),
    {
        self.query_pattern.symbol_type()
    }
}

/// The first complaint about a name and a number of patterns, if there is one:
/// an empty name comes before an empty list.
pub open spec fn validation_error(name: Seq<char>, pattern_count: nat) -> Option<ValidationError> {
    if name.len() == 0 {
        Some(ValidationError::EmptyName)
    } else if pattern_count == 0 {
        Some(ValidationError::NoPatterns)
    } else {
        None
    }
}

/// Whether `language` accepts every pattern of `patterns`.
pub open spec fn all_compile(language: Language, patterns: Seq<QueryPattern>) -> bool {
    forall|i: int|
        0 <= i < patterns.len() ==> pattern_compiles(
            language,
            (#[trigger] patterns[i]).spec_pattern()@,
        )
}

/// Whether every one of `entries` holds a matcher of its own pattern for
/// `language`.
pub open spec fn all_compiled_for(language: Language, entries: Seq<PreparedQuery>) -> bool {
    forall|i: int| 0 <= i < entries.len() ==> (#[trigger] entries[i]).compiled_for(language)
}

/// Whether `error` is what the first pattern of `patterns` that `language`
/// refuses is answered with.
pub open spec fn is_first_refusal(
    language: Language,
    patterns: Seq<QueryPattern>,
    error: CompileError,
) -> bool {
    exists|i: int|
        first_refused(language, patterns, i) && error.pattern@ == (
        #[trigger] patterns[i]).spec_pattern()@ && Some(error.diagnostic) == compile_diagnostic(
            language,
            patterns[i].spec_pattern()@,
        )
}

/// Whether `i` is the position of the first pattern that `language` refuses.
pub open spec fn first_refused(language: Language, patterns: Seq<QueryPattern>, i: int) -> bool {
    &&& 0 <= i < patterns.len()
    &&& !pattern_compiles(language, patterns[i].spec_pattern()@)
    &&& all_compile(language, patterns.take(i))
}

/// Checks that a name is not empty and that there is at least one pattern.
fn validate_parts(name: &String, pattern_count: usize) -> (checked: Result<(), ValidationError>)
    ensures
        checked == match validation_error(name@, pattern_count as nat) {
            Some(e) => Err::<(), ValidationError>(e),
            None => Ok(()),
        },
{
    if name.as_str().is_empty() {
        return Err(ValidationError::EmptyName);
    }
    if pattern_count == 0 {
        return Err(ValidationError::NoPatterns);
    }
    Ok(())
}

/// A named, ordered set of compiled queries bound to one grammar. The order
/// of the queries is the order of priority when an offset is resolved.
pub struct QueryManager {
    pub name: String,
    pub language: Language,
    prepared_queries: Vec<PreparedQuery>,
}

impl QueryManager {
    /// The compiled queries, in the order of their declaration.
    pub closed spec fn entries(&self) -> Seq<PreparedQuery> {
        self.prepared_queries@
    }

    /// The name of the set.
    pub closed spec fn spec_name(&self) -> Seq<char> {
        self.name@
    }

    /// The grammar that the set is bound to.
    pub closed spec fn spec_language(&self) -> Language {
        self.language
    }

    /// The patterns that the queries were compiled from, in the same order.
    pub open spec fn patterns(&self) -> Seq<QueryPattern> {
        self.entries().map_values(|p: PreparedQuery| p.source())
    }

    /// What holds of every set that `QueryManagerBuilder::build` returns:
    /// the name and the list of queries are not empty, the grammar of the
    /// set accepts the pattern of every entry, and every entry holds a
    /// matcher of its own pattern for that grammar.
    pub open spec fn wf(&self) -> bool {
        &&& self.spec_name().len() > 0
        &&& self.entries().len() > 0
        &&& all_compile(self.spec_language(), self.patterns())
        &&& all_compiled_for(self.spec_language(), self.entries())
    }

    /// The name of the set.
    pub fn name(&self) -> (name: &String)
        ensures
            name@ == self.spec_name(),
    {
        &self.name
    }

    /// The grammar that the set is bound to.
    pub fn language(&self) -> (language: &Language)
        ensures
            *language == self.spec_language(),
    {
        &self.language
    }

    /// Checks that the set has a name and at least one query.
    pub fn validate(&self) -> (checked: Result<(), ValidationError>)
        ensures
            checked == match validation_error(self.spec_name(), self.entries().len()) {
                Some(e) => Err::<(), ValidationError>(e),
                None => Ok(()),
            },
    {
        validate_parts(&self.name, self.prepared_queries.len())
    }

    /// Replaces the queries of the set by the compiled forms of
    /// `query_patterns`, in their order. Stops at the first pattern that the
    /// grammar refuses, and then leaves the set without any query.
    fn prepare_queries(&mut self, query_patterns: Vec<QueryPattern>) -> (prepared: Result<
        (),
        CompileError,
    >)
        ensures
            final(self).name == old(self).name,
            final(self).language == old(self).language,
            prepared is Ok <==> all_compile(old(self).language, query_patterns@),
            prepared is Ok ==> final(self).patterns() == query_patterns@ && all_compiled_for(
                old(self).language,
                final(self).entries(),
            ),
            prepared matches Err(e) ==> final(self).entries().len() == 0 && is_first_refusal(
                old(self).language,
                query_patterns@,
                e,
            ),
    {
        self.prepared_queries.clear();
        let mut i: usize = 0;
        while i < query_patterns.len()
            invariant
                0 <= i <= query_patterns.len(),
                self.name == old(self).name,
                self.language == old(self).language,
                self.prepared_queries@.len() == i,
                forall|j: int|
                    0 <= j < i ==> (#[trigger] self.prepared_queries@[j]).source()
                        == query_patterns@[j],
                all_compiled_for(self.language, self.prepared_queries@),
                all_compile(self.language, query_patterns@.take(i as int)),
            decreases query_patterns.len() - i,
        {
            match PreparedQuery::new(&self.language, query_patterns[i]) {
                Ok(compiled) => {
                    self.prepared_queries.push(compiled);
                },
                Err(e) => {
                    self.prepared_queries.clear();
                    assert(first_refused(self.language, query_patterns@, i as int));
                    return Err(e);
                },
            }
            assert(query_patterns@.take(i + 1) == query_patterns@.take(i as int).push(
                query_patterns@[i as int],
            ));
            i += 1;
        }
        assert(query_patterns@.take(i as int) == query_patterns@);
        assert(self.patterns() == query_patterns@);
        Ok(())
    }

    /// The compiled queries, in the order of their declaration.
    pub fn get_queries(&self) -> (queries: &[PreparedQuery])
        ensures
            queries@ == self.entries(),
    {
        self.prepared_queries.as_slice()
    }
}

/// The complaint that a request for a query set meets before any pattern is
/// compiled, if there is one: a missing grammar comes first, then an empty
/// name, then an empty list of patterns.
pub open spec fn request_error(
    language: Option<Language>,
    name: Seq<char>,
    patterns: Seq<QueryPattern>,
) -> Option<ValidationError> {
    if language is None {
        Some(ValidationError::MissingLanguage)
    } else {
        validation_error(name, patterns.len())
    }
}

/// Collects the parts of a query set and builds it.
pub struct QueryManagerBuilder {
    name: String,
    language: Option<Language>,
    queries: Vec<QueryPattern>,
}

impl QueryManagerBuilder {
    /// The name that the set will have.
    pub closed spec fn spec_name(&self) -> Seq<char> {
        self.name@
    }

    /// The grammar that the set will be bound to, once one was given.
    pub closed spec fn spec_language(&self) -> Option<Language> {
        self.language
    }

    /// The patterns that the set will be compiled from, in their order.
    pub closed spec fn spec_queries(&self) -> Seq<QueryPattern> {
        self.queries@
    }

    /// A builder with the given name, no grammar and no pattern.
    pub fn new(name: &str) -> (builder: Self)
        ensures
            builder.spec_name() == name@,
            builder.spec_language() is None,
            builder.spec_queries() == Seq::<QueryPattern>::empty(),
    {
        QueryManagerBuilder { name: name.to_owned(), language: None, queries: Vec::new() }
    }

    /// Sets the grammar.
    pub fn with_language(self, language: Language) -> (builder: Self)
        ensures
            builder.spec_name() == self.spec_name(),
            builder.spec_language() == Some(language),
            builder.spec_queries() == self.spec_queries(),
    {
        QueryManagerBuilder { name: self.name, language: Some(language), queries: self.queries }
    }

    /// Replaces the patterns collected so far by `queries`.
    pub fn with_queries(self, queries: Vec<QueryPattern>) -> (builder: Self)
        ensures
            builder.spec_name() == self.spec_name(),
            builder.spec_language() == self.spec_language(),
            builder.spec_queries() == queries@,
    {
        QueryManagerBuilder { name: self.name, language: self.language, queries }
    }

    /// Adds `query` behind the patterns collected so far.
    pub fn add_query(self, query: QueryPattern) -> (builder: Self)
        ensures
            builder.spec_name() == self.spec_name(),
            builder.spec_language() == self.spec_language(),
            builder.spec_queries() == self.spec_queries().push(query),
    {
        let mut queries = self.queries;
        queries.push(query);
        QueryManagerBuilder { name: self.name, language: self.language, queries }
    }

    /// Builds the query set. A request without grammar, name or patterns is
    /// refused before anything is compiled. Otherwise the patterns are
    /// compiled in their order; the first one that the grammar refuses ends
    /// the build with its text, and no set is returned. A set that is
    /// returned holds the compiled form of every pattern, in the order given.
    pub fn build(self) -> (built: Result<QueryManager, BuildError>)
        ensures
            self.spec_name().len() == 0 || self.spec_queries().len() == 0 ==> built matches Err(
                BuildError::Validation(_),
            ),
            request_error(
                self.spec_language(),
                self.spec_name(),
                self.spec_queries(),
            ) matches Some(e) ==> built == Err::<QueryManager, BuildError>(
                BuildError::Validation(e),
            ),
            request_error(self.spec_language(), self.spec_name(), self.spec_queries()) is None ==> {
                let language = self.spec_language()->Some_0;
                &&& built is Ok <==> all_compile(language, self.spec_queries())
                &&& built matches Err(e) ==> e matches BuildError::Compile(c) && is_first_refusal(
                    language,
                    self.spec_queries(),
                    c,
                )
            },
            built matches Ok(manager) ==> {
                &&& manager.wf()
                &&& manager.spec_name() == self.spec_name()
                &&& Some(manager.spec_language()) == self.spec_language()
                &&& manager.patterns() == self.spec_queries()
            },
    {
        let language = match self.language {
            Some(language) => language,
            None => {
                return Err(BuildError::Validation(ValidationError::MissingLanguage));
            },
        };
        match validate_parts(&self.name, self.queries.len()) {
            Ok(()) => {},
            Err(e) => {
                return Err(BuildError::Validation(e));
            },
        }
        let mut manager = QueryManager { name: self.name, language, prepared_queries: Vec::new() };
        match manager.prepare_queries(self.queries) {
            Ok(()) => Ok(manager),
            Err(e) => Err(BuildError::Compile(e)),
        }
    }
}

} // verus!
