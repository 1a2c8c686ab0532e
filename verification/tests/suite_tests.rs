//! Holding a query set to expectations.

use std::sync::Arc;
use symbol_analyzer::{
    cpp_queries, CppTestSuite, SymbolAnalyzer, SymbolType, TestCase, TestFailure, TestResult,
    TestRunner, TestSuite,
};

const CODE: &str = "class Foo { int value; };\nvoid run(Foo* foo) { foo->twice(); }\n";

fn runner() -> TestRunner {
    TestRunner::new(Arc::new(cpp_queries().unwrap()))
}

#[test]
fn case_keeps_what_it_was_given() {
    let case = TestCase::new("class Foo", 6, SymbolType::Class);
    assert_eq!(case.pattern(), "class Foo");
    assert_eq!(case.offset(), 6);
    assert_eq!(case.expected_type(), SymbolType::Class);
    assert_eq!(case.code(), &None);
    assert_eq!(case.description(), &None);

    let case = case.with_description("Class definition").with_code("class Foo {};");
    assert_eq!(case.pattern(), "class Foo");
    assert_eq!(case.offset(), 6);
    assert_eq!(case.expected_type(), SymbolType::Class);
    assert_eq!(case.code(), &Some("class Foo {};".to_string()));
    assert_eq!(case.description(), &Some("Class definition".to_string()));

    let copy = case.clone();
    assert_eq!(copy.pattern(), case.pattern());
    assert_eq!(copy.offset(), case.offset());
    assert_eq!(copy.expected_type(), case.expected_type());
    assert_eq!(copy.code(), case.code());
    assert_eq!(copy.description(), case.description());
}

#[test]
fn met_expectation_is_a_success() {
    let case = TestCase::new("class Foo", 6, SymbolType::Class);
    let result = runner().run_test_case(&case, Some(CODE.to_string()));
    assert!(result.success);
    assert_eq!(result.found_type, Some(SymbolType::Class));
    assert_eq!(result.error, None);
    assert_eq!(result.case.pattern(), "class Foo");
}

#[test]
fn other_kind_than_expected_is_a_failure_with_the_kind_found() {
    let case = TestCase::new("class Foo", 6, SymbolType::Function);
    let result = runner().run_test_case(&case, Some(CODE.to_string()));
    assert!(!result.success);
    assert_eq!(result.found_type, Some(SymbolType::Class));
    assert_eq!(result.error, None);
}

#[test]
fn absent_literal_is_reported() {
    let case = TestCase::new("struct Foo", 0, SymbolType::Class);
    let result = runner().run_test_case(&case, Some(CODE.to_string()));
    assert!(!result.success);
    assert_eq!(result.found_type, None);
    assert_eq!(result.error, Some(TestFailure::PatternNotFound));
}

#[test]
fn place_without_symbol_is_reported() {
    let case = TestCase::new("class Foo", 5, SymbolType::Class);
    let result = runner().run_test_case(&case, Some(CODE.to_string()));
    assert!(!result.success);
    assert_eq!(result.found_type, None);
    assert_eq!(result.error, Some(TestFailure::NoSymbol));
}

#[test]
fn place_beyond_the_largest_offset_counts_as_not_found() {
    let case = TestCase::new("Foo", usize::MAX, SymbolType::Class);
    let result = runner().run_test_case(&case, Some(CODE.to_string()));
    assert!(!result.success);
    assert_eq!(result.found_type, None);
    assert_eq!(result.error, Some(TestFailure::PatternNotFound));
}

#[test]
fn own_text_of_a_case_comes_before_the_text_of_the_table() {
    let case = TestCase::new("int value", 5, SymbolType::Parameter)
        .with_code("void set_x(int value) { x = value; }");
    let result = runner().run_test_case(&case, Some(CODE.to_string()));
    assert!(result.success);
    assert_eq!(result.found_type, Some(SymbolType::Parameter));

    let result = runner().run_test_case(&case, None);
    assert!(result.success);

    let plain = TestCase::new("int value", 4, SymbolType::Field);
    let result = runner().run_test_case(&plain, Some(CODE.to_string()));
    assert!(result.success);
    assert_eq!(result.found_type, Some(SymbolType::Field));
}

#[test]
fn runner_can_be_used_for_many_cases() {
    let runner = runner();
    let cases = vec![
        TestCase::new("class Foo", 6, SymbolType::Class),
        TestCase::new("foo->twice()", 5, SymbolType::MethodCall),
        TestCase::new("run", 0, SymbolType::Function),
        TestCase::new("Foo* foo", 5, SymbolType::Parameter),
        TestCase::new("Foo* foo", 0, SymbolType::Class),
        TestCase::new("nowhere", 0, SymbolType::Class),
    ];
    let results: Vec<TestResult> =
        cases.iter().map(|case| runner.run_test_case(case, Some(CODE.to_string()))).collect();
    let successes: Vec<bool> = results.iter().map(|result| result.success).collect();
    assert_eq!(successes, vec![true, true, true, true, false, false]);
    assert_eq!(results[4].found_type, Some(SymbolType::Type));
    assert_eq!(TestRunner::count_passed(&results), 4);
    assert_eq!(TestRunner::count_passed(&results[4..]), 0);
    assert_eq!(TestRunner::count_passed(&[]), 0);
}

#[test]
fn judge_decides_over_the_text_of_the_session() {
    let analyzer = SymbolAnalyzer::new(Arc::new(cpp_queries().unwrap()), CODE).unwrap();
    let met = TestRunner::judge(&analyzer, &TestCase::new("int value", 4, SymbolType::Field));
    assert!(met.success);
    assert_eq!(met.found_type, Some(SymbolType::Field));
    assert_eq!(met.error, None);

    let own_text_is_not_used = TestCase::new("int value", 4, SymbolType::Field).with_code("");
    assert!(TestRunner::judge(&analyzer, &own_text_is_not_used).success);

    let missed = TestRunner::judge(&analyzer, &TestCase::new("int value", 3, SymbolType::Field));
    assert!(!missed.success);
    assert_eq!(missed.error, Some(TestFailure::NoSymbol));

    let absent = TestRunner::judge(&analyzer, &TestCase::new("long value", 0, SymbolType::Field));
    assert!(!absent.success);
    assert_eq!(absent.error, Some(TestFailure::PatternNotFound));
}

#[test]
fn cpp_table_holds_for_the_cpp_patterns() {
    let suite = CppTestSuite::default();
    assert_eq!(suite.name(), "cpp");
    assert!(suite.default_code().contains("class Foo {"));
    let cases = suite.test_cases();
    assert_eq!(cases.len(), 10);
    assert_eq!(cases[0].pattern(), "class Foo");
    assert_eq!(cases[0].offset(), 6);
    assert_eq!(cases[0].expected_type(), SymbolType::Class);
    assert_eq!(cases[0].description(), &Some("Class definition".to_string()));
    assert_eq!(cases[0].code(), &None);
    assert_eq!(cases[9].pattern(), "int value");
    assert!(cases[9].code().as_ref().unwrap().contains("void set_x(int value)"));

    let results = runner().run_suite(&suite);
    assert_eq!(results.len(), 10);
    for (result, case) in results.iter().zip(cases.iter()) {
        assert_eq!(result.case.pattern(), case.pattern());
        assert_eq!(result.case.offset(), case.offset());
        assert!(result.success);
        assert_eq!(result.found_type, Some(case.expected_type()));
        assert_eq!(result.error, None);
    }
    assert_eq!(TestRunner::count_passed(&results), 10);
}

struct Mixed;

impl TestSuite for Mixed {
    fn name(&self) -> &'static str {
        "mixed"
    }

    fn default_code(&self) -> String {
        CODE.to_string()
    }

    fn test_cases(&self) -> Vec<TestCase> {
        vec![
            TestCase::new("class Foo", 6, SymbolType::Class),
            TestCase::new("class Foo", 6, SymbolType::Type),
            TestCase::new("class Foo", 0, SymbolType::Class),
            TestCase::new("struct", 0, SymbolType::Class),
            TestCase::new("x", 0, SymbolType::Variable).with_code("int x = 1;"),
        ]
    }
}

#[test]
fn suite_of_a_user_is_run_in_its_order() {
    let results = runner().run_suite(&Mixed);
    let successes: Vec<bool> = results.iter().map(|result| result.success).collect();
    assert_eq!(successes, vec![true, false, false, false, true]);
    assert_eq!(results[1].found_type, Some(SymbolType::Class));
    assert_eq!(results[2].error, Some(TestFailure::NoSymbol));
    assert_eq!(results[3].error, Some(TestFailure::PatternNotFound));
    assert_eq!(results[4].found_type, Some(SymbolType::Variable));
    assert_eq!(TestRunner::count_passed(&results), 2);
}
