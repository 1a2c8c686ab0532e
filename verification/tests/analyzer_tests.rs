//! Sessions over C++ text: resolution, edits and the remembered results.

use std::sync::Arc;
use symbol_analyzer::{
    cpp_queries, AnalyzerError, QueryManager, QueryManagerBuilder, QueryPattern, SymbolAnalyzer,
    SymbolInfo, SymbolType,
};
use tree_sitter::{InputEdit, Language, Parser, Point};

const CLASS_NAME: &str = "(class_specifier name: (type_identifier) @class_name)";
const METHOD_CALL: &str =
    "(call_expression function: (field_expression field: (field_identifier) @function_call))";
const TYPE_NAME: &str = "(type_identifier) @type";
const REFERENCE_PARAMETER: &str =
    "(parameter_declaration declarator: (reference_declarator (identifier) @param))";
const FUNCTION_NAME: &str =
    "(function_definition declarator: (function_declarator declarator: (identifier) @name))";
const ANY_IDENTIFIER: &str = "(identifier) @id";
const WHOLE_FUNCTION: &str = "(function_definition) @whole";

fn cpp() -> Language {
    tree_sitter_cpp::LANGUAGE.into()
}

fn queries(patterns: Vec<QueryPattern>) -> Arc<QueryManager> {
    Arc::new(
        QueryManagerBuilder::new("test")
            .with_language(cpp())
            .with_queries(patterns)
            .build()
            .expect("the patterns compile"),
    )
}

fn info(kind: SymbolType, text: &str, start_byte: usize, end_byte: usize) -> SymbolInfo {
    SymbolInfo { kind, text: text.to_string(), start_byte, end_byte }
}

#[test]
fn class_name_is_resolved_with_text_and_span() {
    let code = "class Foo { int value; };";
    let class_name = queries(vec![QueryPattern::Class(CLASS_NAME)]);
    let analyzer = SymbolAnalyzer::new(class_name, code).unwrap();
    assert_eq!(analyzer.query_symbol(6), Some(info(SymbolType::Class, "Foo", 6, 9)));
    assert_eq!(analyzer.query_symbol(8), Some(info(SymbolType::Class, "Foo", 6, 9)));
    assert_eq!(analyzer.query_symbol(5), None);
    assert_eq!(analyzer.query_symbol(9), None);
}

#[test]
fn method_call_is_resolved_at_the_member_name() {
    let code = "void g(Foo* foo) {\n    foo->twice();\n}\n";
    let analyzer =
        SymbolAnalyzer::new(queries(vec![QueryPattern::MethodCall(METHOD_CALL)]), code).unwrap();
    let position = analyzer.get_position("foo->twice();", 5).unwrap();
    let symbol = analyzer.query_symbol(position).unwrap();
    assert_eq!(symbol.kind, SymbolType::MethodCall);
    assert_eq!(symbol.text, "twice");
    assert_eq!(symbol.start_byte, position);
    assert_eq!(symbol.end_byte, position + 5);
}

#[test]
fn method_call_named_like_a_keyword_is_resolved() {
    let code = "\n  void test_function_pointer(Foo* foo) {\n      foo->double();\n  }\n";
    let analyzer = SymbolAnalyzer::new(Arc::new(cpp_queries().unwrap()), code).unwrap();
    let position = analyzer.get_position("foo->double()", 5).unwrap();
    let symbol = analyzer.query_symbol(position).unwrap();
    assert_eq!(symbol.kind, SymbolType::MethodCall);
    assert_eq!(symbol.text, "double");
}

#[test]
fn type_and_parameter_are_told_apart() {
    let code = "void f(Bar& param) {}";
    let analyzer = SymbolAnalyzer::new(
        queries(vec![QueryPattern::Type(TYPE_NAME), QueryPattern::Parameter(REFERENCE_PARAMETER)]),
        code,
    )
    .unwrap();
    assert_eq!(analyzer.query_symbol(7), Some(info(SymbolType::Type, "Bar", 7, 10)));
    assert_eq!(analyzer.query_symbol(9), Some(info(SymbolType::Type, "Bar", 7, 10)));
    assert_eq!(analyzer.query_symbol(12), Some(info(SymbolType::Parameter, "param", 12, 17)));
    assert_eq!(analyzer.query_symbol(16), Some(info(SymbolType::Parameter, "param", 12, 17)));
    assert_eq!(analyzer.query_symbol(10), None);
}

#[test]
fn query_declared_first_wins() {
    let code = "void run() {}";
    let function_first = SymbolAnalyzer::new(
        queries(vec![
            QueryPattern::Function(FUNCTION_NAME),
            QueryPattern::Variable(ANY_IDENTIFIER),
        ]),
        code,
    )
    .unwrap();
    let variable_first = SymbolAnalyzer::new(
        queries(vec![
            QueryPattern::Variable(ANY_IDENTIFIER),
            QueryPattern::Function(FUNCTION_NAME),
        ]),
        code,
    )
    .unwrap();
    assert_eq!(function_first.query_symbol(5), Some(info(SymbolType::Function, "run", 5, 8)));
    assert_eq!(variable_first.query_symbol(5), Some(info(SymbolType::Variable, "run", 5, 8)));
}

#[test]
fn query_declared_first_wins_over_a_smaller_span() {
    let code = "void run() {}";
    let analyzer = SymbolAnalyzer::new(
        queries(vec![
            QueryPattern::Function(WHOLE_FUNCTION),
            QueryPattern::Variable(ANY_IDENTIFIER),
        ]),
        code,
    )
    .unwrap();
    assert_eq!(analyzer.query_symbol(5), Some(info(SymbolType::Function, "void run() {}", 0, 13)));
}

#[test]
fn offset_outside_every_capture_has_no_symbol() {
    let code = "class Foo { int value; };";
    let class_name = queries(vec![QueryPattern::Class(CLASS_NAME)]);
    let analyzer = SymbolAnalyzer::new(class_name, code).unwrap();
    assert_eq!(analyzer.query_symbol(0), None);
    assert_eq!(analyzer.query_symbol(16), None);
    assert_eq!(analyzer.query_symbol(code.len()), None);
    assert_eq!(analyzer.query_symbol(code.len() + 100), None);
    assert_eq!(analyzer.query_symbol(usize::MAX), None);
}

#[test]
fn malformed_text_still_gets_a_tree() {
    let code = "class { ((( Foo";
    let analyzer = SymbolAnalyzer::new(Arc::new(cpp_queries().unwrap()), code);
    assert!(analyzer.is_ok());
    let empty = SymbolAnalyzer::new(Arc::new(cpp_queries().unwrap()), "").unwrap();
    assert_eq!(empty.query_symbol(0), None);
}

#[test]
fn resolution_counts_bytes_not_characters() {
    let code = "// é ü\nclass Zoë {};";
    let class_name = queries(vec![QueryPattern::Class(CLASS_NAME)]);
    let analyzer = SymbolAnalyzer::new(class_name, code).unwrap();
    let position = analyzer.get_position("Zoë", 0).unwrap();
    assert_eq!(position, 15);
    assert_eq!(analyzer.query_symbol(position), Some(info(SymbolType::Class, "Zoë", 15, 19)));
    assert_eq!(analyzer.query_symbol(18), Some(info(SymbolType::Class, "Zoë", 15, 19)));
    assert_eq!(analyzer.query_symbol(19), None);
}

#[test]
fn text_predicate_of_a_pattern_is_honoured() {
    let code = "void a() { foo(); bar(); }";
    let analyzer = SymbolAnalyzer::new(
        queries(vec![QueryPattern::FunctionCall(
            "((call_expression function: (identifier) @callee) (#eq? @callee \"bar\"))",
        )]),
        code,
    )
    .unwrap();
    assert_eq!(analyzer.query_symbol(11), None);
    assert_eq!(analyzer.query_symbol(18), Some(info(SymbolType::FunctionCall, "bar", 18, 21)));
}

#[test]
fn get_position_adds_the_offset_to_the_first_occurrence() {
    let code = "int value; int value;";
    let analyzer = SymbolAnalyzer::new(Arc::new(cpp_queries().unwrap()), code).unwrap();
    assert_eq!(analyzer.get_position("value", 0), Some(4));
    assert_eq!(analyzer.get_position("value", 3), Some(7));
    assert_eq!(analyzer.get_position("int", 100), Some(100));
    assert_eq!(analyzer.get_position("", 2), Some(2));
    assert_eq!(analyzer.get_position("values", 0), None);
    assert_eq!(analyzer.code(), code);
}

#[test]
fn get_position_finds_no_place_beyond_the_largest_offset() {
    let code = "int value; int value;";
    let analyzer = SymbolAnalyzer::new(Arc::new(cpp_queries().unwrap()), code).unwrap();
    assert_eq!(analyzer.get_position("int", usize::MAX), Some(usize::MAX));
    assert_eq!(analyzer.get_position("value", usize::MAX - 4), Some(usize::MAX));
    assert_eq!(analyzer.get_position("value", usize::MAX - 3), None);
    assert_eq!(analyzer.get_position("value", usize::MAX), None);
}

#[test]
fn two_resolutions_at_one_offset_agree() {
    let code = "void f(Bar& param) {}";
    let analyzer = SymbolAnalyzer::new(Arc::new(cpp_queries().unwrap()), code).unwrap();
    for position in 0..=code.len() {
        assert_eq!(analyzer.query_symbol(position), analyzer.query_symbol(position));
    }
}

#[test]
fn remembered_resolution_equals_a_fresh_one() {
    let code = "void f(Bar& param) {}";
    let mut analyzer = SymbolAnalyzer::new(Arc::new(cpp_queries().unwrap()), code).unwrap();
    for position in 0..=code.len() {
        let fresh = analyzer.query_symbol(position);
        assert_eq!(analyzer.query_symbol_cached(position), fresh);
        assert_eq!(analyzer.query_symbol_cached(position), fresh);
    }
}

#[test]
fn edit_without_change_keeps_every_resolution() {
    let code = "class Foo { int value; };\nvoid f(Bar& param) { param.value = 1; }\n";
    for place in [0usize, 6, 26, code.len()] {
        let mut analyzer = SymbolAnalyzer::new(Arc::new(cpp_queries().unwrap()), code).unwrap();
        let before: Vec<Option<SymbolInfo>> =
            (0..=code.len()).map(|position| analyzer.query_symbol(position)).collect();
        let row = code[..place].matches('\n').count();
        let column = place - code[..place].rfind('\n').map_or(0, |at| at + 1);
        let point = Point { row, column };
        let edit = InputEdit {
            start_byte: place,
            old_end_byte: place,
            new_end_byte: place,
            start_position: point,
            old_end_position: point,
            new_end_position: point,
        };
        assert!(analyzer.apply_edit(&edit, code).is_ok());
        let after: Vec<Option<SymbolInfo>> =
            (0..=code.len()).map(|position| analyzer.query_symbol(position)).collect();
        assert_eq!(before, after);
    }
}

#[test]
fn edit_replaces_text_and_forgets_remembered_resolutions() {
    let old_code = "class Foo { int value; };";
    let new_code = "class Quux { int value; };";
    let mut analyzer = SymbolAnalyzer::new(Arc::new(cpp_queries().unwrap()), old_code).unwrap();
    assert_eq!(analyzer.query_symbol_cached(6), Some(info(SymbolType::Class, "Foo", 6, 9)));
    assert_eq!(analyzer.query_symbol_cached(9), None);
    assert_eq!(analyzer.query_symbol_cached(16), Some(info(SymbolType::Field, "value", 16, 21)));

    let edit = InputEdit {
        start_byte: 6,
        old_end_byte: 9,
        new_end_byte: 10,
        start_position: Point { row: 0, column: 6 },
        old_end_position: Point { row: 0, column: 9 },
        new_end_position: Point { row: 0, column: 10 },
    };
    assert!(analyzer.apply_edit(&edit, new_code).is_ok());
    assert_eq!(analyzer.code(), new_code);
    assert_eq!(analyzer.query_symbol_cached(6), Some(info(SymbolType::Class, "Quux", 6, 10)));
    assert_eq!(analyzer.query_symbol_cached(9), Some(info(SymbolType::Class, "Quux", 6, 10)));
    assert_eq!(analyzer.query_symbol_cached(16), None);
    assert_eq!(analyzer.query_symbol_cached(17), Some(info(SymbolType::Field, "value", 17, 22)));
    assert_eq!(analyzer.query_symbol(17), Some(info(SymbolType::Field, "value", 17, 22)));
}

#[test]
fn edited_tree_resolves_like_a_fresh_parse() {
    let old_code = "void f(Bar& param) {}";
    let new_code = "void f(Bar& param, int count) {}";
    let mut edited = SymbolAnalyzer::new(Arc::new(cpp_queries().unwrap()), old_code).unwrap();
    let edit = InputEdit {
        start_byte: 17,
        old_end_byte: 17,
        new_end_byte: 28,
        start_position: Point { row: 0, column: 17 },
        old_end_position: Point { row: 0, column: 17 },
        new_end_position: Point { row: 0, column: 28 },
    };
    assert!(edited.apply_edit(&edit, new_code).is_ok());
    let fresh = SymbolAnalyzer::new(Arc::new(cpp_queries().unwrap()), new_code).unwrap();
    for position in 0..=new_code.len() {
        assert_eq!(edited.query_symbol(position), fresh.query_symbol(position));
    }
    assert_eq!(edited.query_symbol(23), Some(info(SymbolType::Parameter, "count", 23, 28)));
}

#[test]
fn reset_replaces_text_and_forgets_remembered_resolutions() {
    let mut analyzer =
        SymbolAnalyzer::new(Arc::new(cpp_queries().unwrap()), "class Foo {};").unwrap();
    assert_eq!(analyzer.query_symbol_cached(6), Some(info(SymbolType::Class, "Foo", 6, 9)));
    assert!(analyzer.reset_code("void run() {}").is_ok());
    assert_eq!(analyzer.code(), "void run() {}");
    assert_eq!(analyzer.query_symbol_cached(6), Some(info(SymbolType::Function, "run", 5, 8)));
    assert_eq!(analyzer.query_symbol(6), Some(info(SymbolType::Function, "run", 5, 8)));
    assert_eq!(analyzer.queries().name, "cpp");
}

#[test]
fn missing_tree_is_a_parse_error() {
    let shared = Arc::new(cpp_queries().unwrap());
    let session = SymbolAnalyzer::from_parse(shared.clone(), Parser::new(), None, "int x;");
    assert_eq!(session.err(), Some(AnalyzerError::Parse));

    let mut analyzer = SymbolAnalyzer::new(shared, "class Foo {};").unwrap();
    assert_eq!(analyzer.adopt(None, "void run() {}"), Err(AnalyzerError::Parse));
    assert_eq!(analyzer.code(), "class Foo {};");
    assert_eq!(analyzer.query_symbol(6), Some(info(SymbolType::Class, "Foo", 6, 9)));
}

#[test]
fn parser_without_grammar_leaves_the_session_as_it_was() {
    let shared = Arc::new(cpp_queries().unwrap());
    let mut with_grammar = Parser::new();
    with_grammar.set_language(&cpp()).unwrap();
    let tree = with_grammar.parse("class Foo {};", None);
    let mut analyzer =
        SymbolAnalyzer::from_parse(shared, Parser::new(), tree, "class Foo {};").unwrap();
    assert_eq!(analyzer.query_symbol_cached(6), Some(info(SymbolType::Class, "Foo", 6, 9)));

    assert_eq!(analyzer.reset_code("void run() {}"), Err(AnalyzerError::Parse));
    assert_eq!(analyzer.code(), "class Foo {};");
    assert_eq!(analyzer.query_symbol(6), Some(info(SymbolType::Class, "Foo", 6, 9)));

    let edit = InputEdit {
        start_byte: 6,
        old_end_byte: 9,
        new_end_byte: 10,
        start_position: Point { row: 0, column: 6 },
        old_end_position: Point { row: 0, column: 9 },
        new_end_position: Point { row: 0, column: 10 },
    };
    assert_eq!(analyzer.apply_edit(&edit, "class Quux {};"), Err(AnalyzerError::Parse));
    assert_eq!(analyzer.code(), "class Foo {};");
    assert_eq!(analyzer.query_symbol_cached(6), Some(info(SymbolType::Class, "Foo", 6, 9)));
    assert_eq!(analyzer.tree().root_node().end_byte(), 13);
}

#[test]
fn session_with_an_accepted_grammar_is_always_opened() {
    for code in ["", "class", "}}}}", "\u{0}", "int x = ;", "é"] {
        let session = SymbolAnalyzer::new(Arc::new(cpp_queries().unwrap()), code);
        assert!(session.is_ok());
        let mut session = session.unwrap();
        assert_eq!(session.reset_code("class Foo {};"), Ok(()));
        assert_eq!(session.query_symbol(6), Some(info(SymbolType::Class, "Foo", 6, 9)));
    }
}

#[test]
fn given_tree_is_taken_over() {
    let shared = Arc::new(cpp_queries().unwrap());
    let mut parser = Parser::new();
    parser.set_language(&cpp()).unwrap();
    let first = parser.parse("class Foo {};", None);
    let second = parser.parse("void run() {}", None);
    let mut analyzer = SymbolAnalyzer::from_parse(shared, parser, first, "class Foo {};").unwrap();
    assert_eq!(analyzer.query_symbol(6), Some(info(SymbolType::Class, "Foo", 6, 9)));
    assert_eq!(analyzer.tree().root_node().kind(), "translation_unit");
    assert_eq!(analyzer.adopt(second, "void run() {}"), Ok(()));
    assert_eq!(analyzer.query_symbol(6), Some(info(SymbolType::Function, "run", 5, 8)));
    assert_eq!(analyzer.tree().root_node().end_byte(), 13);
}
