//! The expectations that the C++ patterns are held to.

use crate::query::SymbolType;
use crate::suite::{TestCase, TestSuite};
use vstd::prelude::*;

verus! {

/// The C++ text that the expectations are held against, unless one brings
/// its own.
pub const CPP_CODE: &'static str = r#"
      class Foo {
          int value;
      public:
          Foo(int value) {
              this->value = value;
          }
          void double() {
              this.value *= 2;
          }
      };

      void test_function(Bar& param) {
          param.value = 42;
      }

      void test_function_pointer(Foo* foo) {
          foo->double();
      }

      void tset_function_call(int value) {
          Foo foo(value);
          test_function_pointer(&foo);
      }
    "#;

/// The C++ text of the one expectation that brings its own.
pub const SETTER_CODE: &'static str = r#"
            void set_x(int value) {
                x = value;
            }
        "#;

/// The table of expectations for C++.
pub struct CppTestSuite;

impl TestSuite for CppTestSuite {
    fn name(&self) -> (name: &'static str)
        ensures
            name == "cpp",
    {
        "cpp"
    }

    fn default_code(&self) -> (code: String)
        ensures
            code@ == CPP_CODE@,
    {
        CPP_CODE.to_owned()
    }

    fn test_cases(&self) -> (cases: Vec<TestCase>)
        ensures
            cases@.len() == 10,
            forall|i: int| 0 <= i < 9 ==> (#[trigger] cases@[i]).spec_code() is None,
            cases@[9].spec_code() matches Some(code) && code@ == SETTER_CODE@,
    {
        vec![
            TestCase::new("class Foo", 6, SymbolType::Class).with_description("Class definition"),
            TestCase::new("int value", 4, SymbolType::Field).with_description("Field definition"),
            TestCase::new("Foo(int value)", 0, SymbolType::Function).with_description(
                "Constructor definition",
            ),
            TestCase::new("test_function", 0, SymbolType::Function).with_description(
                "Function definition",
            ),
            TestCase::new("Bar& param", 0, SymbolType::Type).with_description("Parmater type"),
            TestCase::new("Bar& param", 6, SymbolType::Parameter).with_description(
                "Reference parameter",
            ),
            TestCase::new("Foo* foo", 5, SymbolType::Parameter).with_description(
                "Pointer parameter",
            ),
            TestCase::new("foo->double()", 5, SymbolType::MethodCall).with_description(
                "Method call",
            ),
            TestCase::new("test_function_pointer(&foo);", 0, SymbolType::FunctionCall)
                .with_description("Function call"),
            TestCase::new("int value", 5, SymbolType::Parameter).with_description(
                "Value parameter",
            ).with_code(SETTER_CODE),
        ]
    }
}

impl Default for CppTestSuite {
    fn default() -> Self {
        CppTestSuite
    }
}

} // verus!
