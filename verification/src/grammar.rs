//! The boundary to the tree-sitter runtime. Everything in this module is
//! trusted: Verus believes the contracts stated here and proves the rest of
//! the library from them.

use crate::span::{spans_of, Span};
use crate::text::bytes_between;
use streaming_iterator::StreamingIterator;
use tree_sitter::{
    InputEdit, Language, LanguageError, Node, Parser, Query, QueryCursor, QueryError, Tree,
};
use vstd::prelude::*;
use vstd::string::StringSliceAdditionalSpecFns;

verus! {

/// `tree_sitter::Language`: a grammar. The library hands it on and never
/// looks inside.
#[verifier::external_type_specification]
#[verifier::external_body]
pub struct ExLanguage(Language);

/// `tree_sitter::LanguageError`: why a parser refused a grammar.
#[verifier::external_type_specification]
#[verifier::external_body]
pub struct ExLanguageError(LanguageError);

/// `tree_sitter::Parser`: a parser, with or without a grammar assigned.
#[verifier::external_type_specification]
#[verifier::external_body]
pub struct ExParser(Parser);

/// `tree_sitter::Tree`: a syntax tree over a text.
#[verifier::external_type_specification]
#[verifier::external_body]
pub struct ExTree(Tree);

/// `tree_sitter::InputEdit`: where a text was changed, in bytes and in rows
/// and columns.
#[verifier::external_type_specification]
#[verifier::external_body]
pub struct ExInputEdit(InputEdit);

/// `tree_sitter::Query`: a pattern compiled for one grammar.
#[verifier::external_type_specification]
#[verifier::external_body]
pub struct ExQuery(Query);

/// `tree_sitter::QueryError`: what a grammar reported about a pattern that
/// it refused.
#[verifier::external_type_specification]
#[verifier::external_body]
pub struct ExQueryError(QueryError);

/// What `Query::new` reports about `pattern` for `language`: nothing where
/// it accepts the pattern, the error that it returns where it does not.
pub uninterp spec fn compile_diagnostic(language: Language, pattern: Seq<char>) -> Option<
    QueryError,
>;

/// The pattern text that `query` was compiled from by `Query::new`.
pub uninterp spec fn query_source(query: Query) -> Seq<char>;

/// The grammar that `query` was compiled for by `Query::new`.
pub uninterp spec fn query_grammar(query: Query) -> Language;

/// Whether `Parser::set_language` accepts `language`.
pub uninterp spec fn parser_accepts(language: Language) -> bool;

/// The grammar that `parser` holds since the last `Parser::set_language`
/// that succeeded on it, if there was one.
pub uninterp spec fn parser_grammar(parser: Parser) -> Option<Language>;

/// What `Parser::parse` answers when `parser` is given `text` and
/// `old_tree`: a tree, or none.
pub uninterp spec fn parse_outcome(parser: Parser, text: Seq<u8>, old_tree: Option<Tree>) -> Option<
    Tree,
>;

/// The tree that `Tree::edit` makes of `tree` for `edit`.
pub uninterp spec fn edited_tree(tree: Tree, edit: InputEdit) -> Tree;

/// What a fresh `QueryCursor` yields for `query` over the whole of `tree`
/// with `text` as the source: the matches in the order the cursor produces
/// them, each given as the byte spans of its captures in the order of the
/// match's capture list.
pub uninterp spec fn query_matches(query: Query, tree: Tree, text: Seq<u8>) -> Seq<Seq<Span>>;

/// Whether `Query::new` accepts `pattern` for `language`.
pub open spec fn pattern_compiles(language: Language, pattern: Seq<char>) -> bool {
    compile_diagnostic(language, pattern) is None
}

/// The tree that a parse is given for reuse, as a value.
pub open spec fn reused(old_tree: Option<&Tree>) -> Option<Tree> {
    match old_tree {
        Some(tree) => Some(*tree),
        None => None,
    }
}

/// `Query::new` compiles a pattern against a grammar. Whether it succeeds,
/// and the error where it does not, depend on the grammar and the pattern
/// text alone. The matcher that it returns is one of that pattern text for
/// that grammar.
pub assume_specification[ Query::new ](language: &Language, source: &str) -> (compiled: Result<
    Query,
    QueryError,
>)
    ensures
        match compiled {
            Ok(query) => {
                &&& compile_diagnostic(*language, source@) is None
                &&& query_source(query) == source@
                &&& query_grammar(query) == *language
            },
            Err(error) => compile_diagnostic(*language, source@) == Some(error),
        },
;

/// `Parser::new` creates a parser with no grammar assigned.
pub assume_specification[ Parser::new ]() -> (parser: Parser)
;

/// `Parser::set_language` assigns a grammar to the parser, or refuses it.
/// Whether it refuses depends on the grammar alone, and a grammar that it
/// accepts is the one that the parser holds from then on.
pub assume_specification[ Parser::set_language ](
    parser: &mut Parser,
    language: &Language,
) -> (assigned: Result<(), LanguageError>)
    ensures
        assigned is Ok <==> parser_accepts(*language),
        assigned is Ok ==> parser_grammar(*final(parser)) == Some(*language),
;

/// `Tree::edit` moves the positions recorded in the tree as the edit says.
/// The tree that results depends on the tree and the edit alone.
pub assume_specification[ Tree::edit ](tree: &mut Tree, edit: &InputEdit)
    ensures
        *final(tree) == edited_tree(*old(tree), *edit),
;

/// `Tree::clone` hands out a copy of the syntax tree, which holds what the
/// tree holds.
pub assume_specification[ <Tree as Clone>::clone ](tree: &Tree) -> (copy: Tree)
    ensures
        copy == *tree,
;

/// `Parser::parse` on UTF-8 text, with or without an earlier tree to reuse.
/// Its answer depends on the parser, the text and the earlier tree alone. A
/// parser that holds a grammar and is given no earlier tree produces a
/// tree: the runtime answers with none only to a parser without grammar, to
/// an earlier tree of another grammar, to a progress callback that stops
/// the parse, and to a failure of its WebAssembly store, and the last two
/// are not in use here. The call does not panic.
#[verifier::external_body]
pub(crate) fn parse_text(parser: &mut Parser, text: &str, old_tree: Option<&Tree>) -> (tree:
    Option<Tree>)
    ensures
        tree == parse_outcome(*old(parser), text.spec_bytes(), reused(old_tree)),
        parser_grammar(*old(parser)) is Some && old_tree is None ==> tree is Some,
    no_unwind
{
    parser.parse(text, old_tree)
}

/// Runs `QueryCursor::matches` for `query` from the root of `tree` and
/// collects every match as the spans of its captures. The cursor asks for
/// the text of a node only to decide the text predicates of the pattern; it
/// gets the bytes of the node's range, or none where the range lies outside
/// `code`.
#[verifier::external_body]
pub(crate) fn run_query(query: &Query, tree: &Tree, code: &str) -> (found: Vec<Vec<Span>>)
    ensures
        spans_of(found@) == query_matches(*query, *tree, code.spec_bytes()),
{
    let bytes = code.as_bytes();
    let mut cursor = QueryCursor::new();
    let mut matches = cursor.matches(query, tree.root_node(), |node: Node| {
        std::iter::once(bytes_between(bytes, node.start_byte(), node.end_byte()))
    });
    let mut found = Vec::new();
    while let Some(m) = matches.next() {
        let captures = m.captures().iter();
        found.push(
            captures.map(|c| Span { start: c.node.start_byte(), end: c.node.end_byte() }).collect(),
        );
    }
    found
}

} // verus!
