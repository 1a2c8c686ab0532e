//! Expectations about the symbols of a text, and the routine that holds a
//! query set to them.

use crate::analyzer::{captures_in, is_fresh_tree, SymbolAnalyzer};
use crate::error::AnalyzerError;
use crate::grammar::parser_accepts;
use crate::query::{QueryManager, SymbolType};
use crate::resolve::{resolve, SymbolView};
use crate::text::located;
use std::sync::Arc;
use tree_sitter::Tree;
use vstd::prelude::*;
use vstd::string::StringSliceAdditionalSpecFns;
use vstd::utf8::encode_utf8;

pub mod cpp;

verus! {

/// An expectation: the symbol at `offset` bytes behind the first occurrence
/// of `pattern` is of the kind `expected_type`. An expectation may bring
/// its own text; one that brings none is held against the text of its
/// table.
#[derive(Debug)]
pub struct TestCase {
    code: Option<String>,
    pattern: String,
    offset: usize,
    expected_type: SymbolType,
    description: Option<String>,
}

impl Clone for TestCase {
    fn clone(&self) -> (copy: Self)
        ensures
            copy == *self,
    {
        TestCase {
            code: self.code.clone(),
            pattern: self.pattern.clone(),
            offset: self.offset,
            expected_type: self.expected_type,
            description: self.description.clone(),
        }
    }
}

impl TestCase {
    /// The text that the expectation brings, if it brings one.
    pub closed spec fn spec_code(&self) -> Option<String> {
        self.code
    }

    /// The literal that marks the place.
    pub closed spec fn spec_pattern(&self) -> String {
        self.pattern
    }

    /// The number of bytes from the start of the literal to the place.
    pub closed spec fn spec_offset(&self) -> usize {
        self.offset
    }

    /// The kind of symbol that is expected at the place.
    pub closed spec fn spec_expected_type(&self) -> SymbolType {
        self.expected_type
    }

    /// What the expectation is about, in words.
    pub closed spec fn spec_description(&self) -> Option<String> {
        self.description
    }

    /// The place in `text` that the expectation speaks of, if `text` has it.
    pub open spec fn place_in(&self, text: Seq<u8>) -> Option<usize> {
        located(text, encode_utf8(self.spec_pattern()@), self.spec_offset())
    }

    /// An expectation without a text or a description of its own.
    pub fn new(pattern: &str, offset: usize, expected_type: SymbolType) -> (case: Self)
        ensures
            case.spec_code() is None,
            case.spec_pattern()@ == pattern@,
            case.spec_offset() == offset,
            case.spec_expected_type() == expected_type,
            case.spec_description() is None,
    {
        TestCase {
            code: None,
            pattern: pattern.to_owned(),
            offset,
            expected_type,
            description: None,
        }
    }

    /// The same expectation, held against `code`.
    pub fn with_code(self, code: &str) -> (case: Self)
        ensures
            case.spec_code() matches Some(own) && own@ == code@,
            case.spec_pattern() == self.spec_pattern(),
            case.spec_offset() == self.spec_offset(),
            case.spec_expected_type() == self.spec_expected_type(),
            case.spec_description() == self.spec_description(),
    {
        TestCase {
            code: Some(code.to_owned()),
            pattern: self.pattern,
            offset: self.offset,
            expected_type: self.expected_type,
            description: self.description,
        }
    }

    /// The same expectation, described by `desc`.
    pub fn with_description(self, desc: &str) -> (case: Self)
        ensures
            case.spec_code() == self.spec_code(),
            case.spec_pattern() == self.spec_pattern(),
            case.spec_offset() == self.spec_offset(),
            case.spec_expected_type() == self.spec_expected_type(),
            case.spec_description() matches Some(own) && own@ == desc@,
    {
        TestCase {
            code: self.code,
            pattern: self.pattern,
            offset: self.offset,
            expected_type: self.expected_type,
            description: Some(desc.to_owned()),
        }
    }

    /// The text that the expectation brings, if it brings one.
    pub fn code(&self) -> (code: &Option<String>)
        ensures
            *code == self.spec_code(),
    {
        &self.code
    }

    /// The literal that marks the place.
    pub fn pattern(&self) -> (pattern: &String)
        ensures
            *pattern == self.spec_pattern(),
    {
        &self.pattern
    }

    /// The number of bytes from the start of the literal to the place.
    pub fn offset(&self) -> (offset: usize)
        ensures
            offset == self.spec_offset(),
    {
        self.offset
    }

    /// The kind of symbol that is expected at the place.
    pub fn expected_type(&self) -> (kind: SymbolType)
        ensures
            kind == self.spec_expected_type(),
    {
        self.expected_type
    }

    /// What the expectation is about, in words.
    pub fn description(&self) -> (description: &Option<String>)
        ensures
            *description == self.spec_description(),
    {
        &self.description
    }
}

/// A named table of expectations with the text that they are held against.
pub trait TestSuite {
    /// The name of the table.
    fn name(&self) -> &'static str;

    /// The text for the expectations that bring none.
    fn default_code(&self) -> String;

    /// The expectations, in the order in which they are held.
    fn test_cases(&self) -> Vec<TestCase>;
}

/// Why an expectation could not be held against a text.
#[derive(Debug, PartialEq, Eq)]
pub enum TestFailure {
    /// No session could be opened over the text.
    Analyzer(AnalyzerError),
    /// The literal does not occur in the text.
    PatternNotFound,
    /// No symbol was found at the place.
    NoSymbol,
}

/// How an expectation fared.
#[derive(Debug)]
pub struct TestResult {
    pub case: TestCase,
    pub success: bool,
    pub found_type: Option<SymbolType>,
    pub error: Option<TestFailure>,
}

/// Whether `result` is what the expectation `case` comes to when its place
/// in the text is `place` and the symbol there is `symbol`.
pub open spec fn is_verdict(
    result: TestResult,
    case: TestCase,
    place: Option<usize>,
    symbol: Option<SymbolView>,
) -> bool {
    &&& result.case == case
    &&& if place is None {
        &&& !result.success
        &&& result.found_type is None
        &&& result.error == Some(TestFailure::PatternNotFound)
    } else {
        match symbol {
            None => {
                &&& !result.success
                &&& result.found_type is None
                &&& result.error == Some(TestFailure::NoSymbol)
            },
            Some(found) => {
                &&& result.success == (found.kind == case.spec_expected_type())
                &&& result.found_type == Some(found.kind)
                &&& result.error is None
            },
        }
    }
}

/// Whether `result` is what `case` comes to over `text` when the queries of
/// `queries` are asked in `tree`.
pub open spec fn is_verdict_in(
    result: TestResult,
    case: TestCase,
    queries: QueryManager,
    tree: Tree,
    text: Seq<u8>,
) -> bool {
    is_verdict(
        result,
        case,
        case.place_in(text),
        match case.place_in(text) {
            Some(place) => resolve(
                text,
                captures_in(queries.entries(), tree, text),
                place as int,
            ),
            None => None,
        },
    )
}

/// Whether `result` is what `case` comes to over `text` with the queries of
/// `queries`: where the parser refuses their grammar, the result says so;
/// otherwise it is the verdict in a tree that a parser with that grammar
/// answers for `text`.
pub open spec fn is_outcome(
    result: TestResult,
    case: TestCase,
    queries: QueryManager,
    text: Seq<u8>,
) -> bool {
    if parser_accepts(queries.spec_language()) {
        exists|tree: Tree|
            is_fresh_tree(tree, queries.spec_language(), text) && #[trigger] is_verdict_in(
                result,
                case,
                queries,
                tree,
                text,
            )
    } else {
        &&& result.case == case
        &&& !result.success
        &&& result.found_type is None
        &&& result.error matches Some(TestFailure::Analyzer(AnalyzerError::Language(_)))
    }
}

/// Whether `results` holds one result for each of `cases`, in their order,
/// and each is what its case comes to with the queries of `queries`, over
/// its own text or over a text that `suite` hands out.
pub open spec fn is_run_of<S: TestSuite>(
    suite: &S,
    queries: QueryManager,
    results: Seq<TestResult>,
    cases: Seq<TestCase>,
) -> bool {
    &&& results.len() == cases.len()
    &&& forall|i: int|
        0 <= i < results.len() ==> #[trigger] is_outcome_in(suite, queries, results[i], cases[i])
}

/// Whether `result` is what `case` comes to with the queries of `queries`,
/// over its own text or over a text that `suite` hands out.
pub open spec fn is_outcome_in<S: TestSuite>(
    suite: &S,
    queries: QueryManager,
    result: TestResult,
    case: TestCase,
) -> bool {
    exists|code: String| #[trigger]
        S::default_code.ensures((suite,), code) && is_outcome(
            result,
            case,
            queries,
            chosen_code(case, Some(code)),
        )
}

/// The number of results that are a success.
pub open spec fn passed(results: Seq<TestResult>) -> nat
    decreases results.len(),
{
    if results.len() == 0 {
        0
    } else {
        passed(results.drop_last()) + if results.last().success {
            1nat
        } else {
            0nat
        }
    }
}

/// `Arc::clone`: a second handle to the same query set.
#[verifier::external_body]
fn share(queries: &Arc<QueryManager>) -> (shared: Arc<QueryManager>)
    ensures
        *shared == **queries,
{
    Arc::clone(queries)
}

/// Holds expectations against the symbols that one query set finds.
pub struct TestRunner {
    queries: Arc<QueryManager>,
}

impl TestRunner {
    /// The query set that the expectations are held against.
    pub closed spec fn spec_queries(&self) -> QueryManager {
        *self.queries
    }

    /// A runner for `queries`.
    pub fn new(queries: Arc<QueryManager>) -> (runner: Self)
        ensures
            runner.spec_queries() == *queries,
    {
        TestRunner { queries }
    }

    /// Holds `case` against the text of `analyzer`: the literal is looked
    /// for, the offset is added to its first occurrence, and the symbol
    /// there is compared with the kind that `case` expects.
    pub fn judge(analyzer: &SymbolAnalyzer, case: &TestCase) -> (result: TestResult)
        ensures
            is_verdict_in(
                result,
                *case,
                analyzer.spec_queries(),
                analyzer.spec_tree(),
                analyzer.source(),
            ),
    {
        let literal = case.pattern.as_str();
        assert(literal.spec_bytes() == encode_utf8(case.spec_pattern()@));
        let position = match analyzer.get_position(literal, case.offset) {
            Some(position) => position,
            None => {
                return TestResult {
                    case: case.clone(),
                    success: false,
                    found_type: None,
                    error: Some(TestFailure::PatternNotFound),
                };
            },
        };
        let symbol = match analyzer.query_symbol(position) {
            Some(symbol) => symbol,
            None => {
                return TestResult {
                    case: case.clone(),
                    success: false,
                    found_type: None,
                    error: Some(TestFailure::NoSymbol),
                };
            },
        };
        TestResult {
            case: case.clone(),
            success: symbol.kind == case.expected_type,
            found_type: Some(symbol.kind),
            error: None,
        }
    }

    /// Holds `case` against its own text, or against `default_code` where it
    /// brings none: a session is opened over the text and `judge` decides.
    /// Where no session can be opened, the result says why.
    pub fn run_test_case(&self, case: &TestCase, default_code: Option<String>) -> (result:
        TestResult)
        requires
            case.spec_code() is Some || default_code is Some,
        ensures
            is_outcome(result, *case, self.spec_queries(), chosen_code(*case, default_code)),
    {
        let code = match &case.code {
            Some(code) => code,
            None => match &default_code {
                Some(code) => code,
                None => vstd::pervasive::unreached(),
            },
        };
        let analyzer = match SymbolAnalyzer::new(share(&self.queries), code.as_str()) {
            Ok(analyzer) => analyzer,
            Err(e) => {
                return TestResult {
                    case: case.clone(),
                    success: false,
                    found_type: None,
                    error: Some(TestFailure::Analyzer(e)),
                };
            },
        };
        Self::judge(&analyzer, case)
    }

    /// Holds every expectation of `suite`, in the order of the table, each
    /// against its own text or the text that the table has for it.
    pub fn run_suite<S: TestSuite>(&self, suite: &S) -> (results: Vec<TestResult>)
        ensures
            exists|cases: Vec<TestCase>| #[trigger]
                S::test_cases.ensures((suite,), cases) && is_run_of(
                    suite,
                    self.spec_queries(),
                    results@,
                    cases@,
                ),
    {
        let cases = suite.test_cases();
        let mut results: Vec<TestResult> = Vec::new();
        let mut i: usize = 0;
        while i < cases.len()
            invariant
                0 <= i <= cases@.len(),
                is_run_of(suite, self.spec_queries(), results@, cases@.take(i as int)),
            decreases cases@.len() - i,
        {
            let code = suite.default_code();
            let ghost handed = code;
            let result = self.run_test_case(&cases[i], Some(code));
            let ghost before = results@;
            results.push(result);
            proof {
                let now = cases@.take(i + 1);
                assert forall|j: int| 0 <= j < results@.len() implies #[trigger] is_outcome_in(
                    suite,
                    self.spec_queries(),
                    results@[j],
                    now[j],
                ) by {
                    if j < i {
                        assert(results@[j] == before[j]);
                        assert(now[j] == cases@.take(i as int)[j]);
                        assert(is_outcome_in(
                            suite,
                            self.spec_queries(),
                            before[j],
                            cases@.take(i as int)[j],
                        ));
                    } else {
                        assert(S::default_code.ensures((suite,), handed));
                    }
                }
            }
            i += 1;
        }
        assert(cases@.take(i as int) == cases@);
        results
    }

    /// The number of `results` that are a success.
    pub fn count_passed(results: &[TestResult]) -> (count: usize)
        ensures
            count == passed(results@),
    {
        let mut count: usize = 0;
        let mut i: usize = 0;
        assert(results@.take(0) == Seq::<TestResult>::empty());
        while i < results.len()
            invariant
                0 <= i <= results@.len(),
                count <= i,
                count == passed(results@.take(i as int)),
            decreases results@.len() - i,
        {
            assert(results@.take(i + 1).drop_last() == results@.take(i as int));
            if results[i].success {
                count += 1;
            }
            i += 1;
        }
        assert(results@.take(i as int) == results@);
        count
    }
}

/// The bytes of the text that `case` is held against.
pub open spec fn chosen_code(case: TestCase, default_code: Option<String>) -> Seq<u8> {
    match case.spec_code() {
        Some(code) => encode_utf8(code@),
        None => match default_code {
            Some(code) => encode_utf8(code@),
            None => Seq::<u8>::empty(),
        },
    }
}

} // verus!
