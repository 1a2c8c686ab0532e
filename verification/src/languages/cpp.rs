//! The patterns that classify the symbols of C++ source text.

use crate::error::BuildError;
use crate::query::{is_first_refusal, QueryManager, QueryManagerBuilder, QueryPattern};
use tree_sitter::Language;
use vstd::prelude::*;

verus! {

/// The name in the declarator of a function definition.
pub const FUNCTION_DEFINITION: &'static str = r#"(function_definition
              declarator: (function_declarator
                  declarator: (identifier) @function_name))"#;

/// The name of a class.
pub const CLASS_SPECIFIER: &'static str = r#"(class_specifier
              name: (type_identifier) @class_name)"#;

/// The name of a variable that is declared with an initial value.
pub const VARIABLE_DECLARATION: &'static str = r#"(declaration
              declarator: (init_declarator
                  declarator: (identifier) @variable_name))"#;

/// The name of a function that is called.
pub const FUNCTION_CALL: &'static str = r#"(call_expression
              function: (identifier) @function_call)"#;

/// The name of a member function that is called on an object.
pub const METHOD_CALL: &'static str = r#"(call_expression
              function: (field_expression
                  field: (field_identifier) @function_call))"#;

/// A type that is referred to by name, or a built-in type.
pub const TYPE_REFERENCE: &'static str = r#"[
              (type_identifier) @type
              (primitive_type) @type
          ]"#;

/// The name of a parameter that is passed by value or through a pointer.
pub const VALUE_PARAMETER: &'static str = r#"[
              (parameter_declaration
                  declarator: (identifier) @param)
              (parameter_declaration
                  declarator: (pointer_declarator
                      declarator: (identifier) @param))
          ]"#;

/// The name of a parameter that is passed by reference.
pub const REFERENCE_PARAMETER: &'static str = r#"(parameter_declaration
              declarator: (reference_declarator (identifier) @param))"#;

/// The name of a data member in its declaration.
pub const FIELD_DECLARATION: &'static str = r#"(field_declaration
              declarator: (field_identifier) @field_name)"#;

/// The name of a member where it is used.
pub const FIELD_ACCESS: &'static str = r#"[
              (field_expression
                  field: (field_identifier) @field)
              (field_identifier) @field
          ]"#;

/// The C++ patterns in their order of priority: a definition comes before
/// the calls, the calls before the plain type names, and the mere use of a
/// member last.
pub open spec fn cpp_patterns() -> Seq<QueryPattern> {
    seq![
        QueryPattern::Function(FUNCTION_DEFINITION),
        QueryPattern::Class(CLASS_SPECIFIER),
        QueryPattern::Variable(VARIABLE_DECLARATION),
        QueryPattern::FunctionCall(FUNCTION_CALL),
        QueryPattern::MethodCall(METHOD_CALL),
        QueryPattern::Type(TYPE_REFERENCE),
        QueryPattern::Parameter(VALUE_PARAMETER),
        QueryPattern::Parameter(REFERENCE_PARAMETER),
        QueryPattern::Field(FIELD_DECLARATION),
        QueryPattern::FieldAccess(FIELD_ACCESS),
    ]
}

/// The C++ patterns in their order of priority.
pub fn get_cpp_patterns() -> (patterns: Vec<QueryPattern>)
    ensures
        patterns@ == cpp_patterns(),
{
    let patterns = vec![
        QueryPattern::Function(FUNCTION_DEFINITION),
        QueryPattern::Class(CLASS_SPECIFIER),
        QueryPattern::Variable(VARIABLE_DECLARATION),
        QueryPattern::FunctionCall(FUNCTION_CALL),
        QueryPattern::MethodCall(METHOD_CALL),
        QueryPattern::Type(TYPE_REFERENCE),
        QueryPattern::Parameter(VALUE_PARAMETER),
        QueryPattern::Parameter(REFERENCE_PARAMETER),
        QueryPattern::Field(FIELD_DECLARATION),
        QueryPattern::FieldAccess(FIELD_ACCESS),
    ];
    assert(patterns@ =~= cpp_patterns());
    patterns
}

/// The grammar that `tree_sitter_cpp::LANGUAGE` stands for, as a handle of
/// the tree-sitter runtime.
#[verifier::external_body]
pub(crate) fn cpp_language() -> (language: Language) {
    tree_sitter_cpp::LANGUAGE.into()
}

/// The query set named `cpp` over the C++ grammar and the C++ patterns. It
/// is built unless the grammar refuses one of the patterns; the error then
/// is what the first such pattern is answered with.
pub fn cpp_queries() -> (built: Result<QueryManager, BuildError>)
    ensures
        match built {
            Ok(manager) => {
                &&& manager.wf()
                &&& manager.spec_name() == "cpp"@
                &&& manager.patterns() == cpp_patterns()
            },
            Err(e) => e matches BuildError::Compile(c) && exists|language: Language| #[trigger]
                is_first_refusal(language, cpp_patterns(), c),
        },
{
    proof {
        reveal_strlit("cpp");
    }
    QueryManagerBuilder::new("cpp").with_language(cpp_language()).with_queries(
        get_cpp_patterns(),
    ).build()
}

} // verus!
