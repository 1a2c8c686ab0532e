//! A session that keeps a syntax tree over a source text and resolves byte
//! offsets against it.

use crate::error::AnalyzerError;
use crate::grammar::{
    edited_tree, parse_outcome, parse_text, parser_accepts, parser_grammar, query_matches,
    run_query,
};
use crate::query::{PreparedQuery, QueryManager};
use crate::resolve::{
    find_first_cover, outcome, resolve, symbol_at_span, QueryCaptures, SymbolInfo, SymbolView,
};
use crate::text::{find_bytes, located};
use std::collections::HashMap;
use std::sync::Arc;
use tree_sitter::{InputEdit, Language, Parser, Tree};
use vstd::prelude::*;
use vstd::string::StringSliceAdditionalSpecFns;

verus! {

/// What each of `entries` captures in `tree` over `text`, in the order of
/// the entries.
pub open spec fn captures_in(entries: Seq<PreparedQuery>, tree: Tree, text: Seq<u8>) -> Seq<
    QueryCaptures,
> {
    Seq::new(
        entries.len(),
        |q: int|
            QueryCaptures {
                kind: entries[q].source().spec_symbol_type(),
                matches: query_matches(entries[q].spec_query(), tree, text),
            },
    )
}

/// Whether `tree` is what a parser that holds `language` answers when it is
/// given `text` and no earlier tree.
pub open spec fn is_fresh_tree(tree: Tree, language: Language, text: Seq<u8>) -> bool {
    exists|parser: Parser|
        parser_grammar(parser) == Some(language) && #[trigger] parse_outcome(parser, text, None)
            == Some(tree)
}

/// A session over one source text: the query set, the current syntax tree
/// and the text that the tree was parsed from.
pub struct SymbolAnalyzer<'code> {
    queries: Arc<QueryManager>,
    parser: Parser,
    tree: Tree,
    code: &'code str,
    query_cache: HashMap<usize, Option<SymbolInfo>>,
}

impl<'code> SymbolAnalyzer<'code> {
    /// The query set of the session.
    pub closed spec fn spec_queries(&self) -> QueryManager {
        *self.queries
    }

    /// The parser of the session.
    pub closed spec fn spec_parser(&self) -> Parser {
        self.parser
    }

    /// The current syntax tree.
    pub closed spec fn spec_tree(&self) -> Tree {
        self.tree
    }

    /// The current source text.
    pub closed spec fn spec_code(&self) -> &'code str {
        self.code
    }

    /// The resolutions that the session remembers, by offset.
    pub closed spec fn cached(&self) -> Map<usize, Option<SymbolView>> {
        self.query_cache@.map_values(|found: Option<SymbolInfo>| outcome(found))
    }

    /// The bytes of the current source text.
    pub open spec fn source(&self) -> Seq<u8> {
        self.spec_code().spec_bytes()
    }

    /// What the queries of the session capture in the current tree.
    pub open spec fn captures(&self) -> Seq<QueryCaptures> {
        captures_in(self.spec_queries().entries(), self.spec_tree(), self.source())
    }

    /// The symbol at `position` in the current tree and text.
    pub open spec fn symbol_at(&self, position: int) -> Option<SymbolView> {
        resolve(self.source(), self.captures(), position)
    }

    /// Whether `after` and `done` are what becomes of the session `before`
    /// when the parser answers `answer` to `new_code`: with a tree, the
    /// session has that tree and the new text and remembers nothing; with
    /// none, it has the tree and the text of before and remembers what it
    /// remembered, and the error is `Parse`.
    pub open spec fn is_step(
        before: Self,
        after: Self,
        done: Result<(), AnalyzerError>,
        answer: Option<Tree>,
        new_code: &'code str,
    ) -> bool {
        match answer {
            Some(tree) => {
                &&& done is Ok
                &&& after.spec_tree() == tree
                &&& after.spec_code() == new_code
                &&& after.cached() == Map::<usize, Option<SymbolView>>::empty()
            },
            None => {
                &&& done matches Err(AnalyzerError::Parse)
                &&& after.spec_tree() == before.spec_tree()
                &&& after.spec_code() == before.spec_code()
                &&& after.cached() == before.cached()
            },
        }
    }

    /// Every remembered resolution is the resolution in the current tree.
    #[verifier::type_invariant]
    spec fn cache_is_current(&self) -> bool {
        forall|position: usize| #[trigger]
            self.query_cache@.contains_key(position) ==> outcome(self.query_cache@[position])
                == self.symbol_at(position as int)
    }

    /// A session over `code` with the tree that a parse produced, or the
    /// parse error where it produced none.
    pub fn from_parse(
        queries: Arc<QueryManager>,
        parser: Parser,
        parsed: Option<Tree>,
        code: &'code str,
    ) -> (session: Result<Self, AnalyzerError>)
        ensures
            match parsed {
                Some(tree) => {
                    &&& session matches Ok(s)
                    &&& s.spec_queries() == *queries
                    &&& s.spec_parser() == parser
                    &&& s.spec_tree() == tree
                    &&& s.spec_code() == code
                    &&& s.cached() == Map::<usize, Option<SymbolView>>::empty()
                },
                None => session matches Err(AnalyzerError::Parse),
            },
    {
        match parsed {
            Some(tree) => {
                let session = SymbolAnalyzer {
                    queries,
                    parser,
                    tree,
                    code,
                    query_cache: HashMap::new(),
                };
                assert(session.cached() =~= Map::<usize, Option<SymbolView>>::empty());
                Ok(session)
            },
            None => Err(AnalyzerError::Parse),
        }
    }

    /// A session over `code` for the queries of `queries`: a new parser gets
    /// the grammar of the query set and parses `code` from scratch. The
    /// session is opened exactly when the parser accepts the grammar; the
    /// error is `Language` otherwise. The tree of the session is what a
    /// parser with that grammar answers for `code`.
    pub fn new(queries: Arc<QueryManager>, code: &'code str) -> (session: Result<
        Self,
        AnalyzerError,
    >)
        ensures
            match session {
                Ok(s) => {
                    &&& parser_accepts(queries.spec_language())
                    &&& s.spec_queries() == *queries
                    &&& s.spec_code() == code
                    &&& s.cached() == Map::<usize, Option<SymbolView>>::empty()
                    &&& is_fresh_tree(s.spec_tree(), queries.spec_language(), code.spec_bytes())
                },
                Err(e) => !parser_accepts(queries.spec_language()) && e is Language,
            },
    {
        let mut parser = Parser::new();
        match parser.set_language(queries.language()) {
            Ok(()) => {},
            Err(e) => {
                return Err(AnalyzerError::Language(e));
            },
        }
        let ghost ready = parser;
        let parsed = parse_text(&mut parser, code, None);
        assert(parse_outcome(ready, code.spec_bytes(), None) == parsed);
        Self::from_parse(queries, parser, parsed, code)
    }

    /// Takes `parsed` as the tree of `new_code` and forgets every remembered
    /// resolution. Where the parse produced no tree, the session stays as it
    /// was and the parse error is returned.
    pub fn adopt(&mut self, parsed: Option<Tree>, new_code: &'code str) -> (done: Result<
        (),
        AnalyzerError,
    >)
        ensures
            final(self).spec_queries() == old(self).spec_queries(),
            final(self).spec_parser() == old(self).spec_parser(),
            match parsed {
                Some(tree) => {
                    &&& done is Ok
                    &&& final(self).spec_tree() == tree
                    &&& final(self).spec_code() == new_code
                    &&& final(self).cached() == Map::<usize, Option<SymbolView>>::empty()
                },
                None => {
                    &&& done matches Err(AnalyzerError::Parse)
                    &&& final(self).spec_tree() == old(self).spec_tree()
                    &&& final(self).spec_code() == old(self).spec_code()
                    &&& final(self).cached() == old(self).cached()
                },
            },
    {
        match parsed {
            Some(tree) => {
                self.query_cache = HashMap::new();
                self.tree = tree;
                self.code = new_code;
                assert(self.cached() =~= Map::<usize, Option<SymbolView>>::empty());
                Ok(())
            },
            None => Err(AnalyzerError::Parse),
        }
    }

    /// Replaces the text of the session by `new_code`, parsed from scratch
    /// by the parser of the session, and forgets every remembered
    /// resolution. Where the parser answers with no tree, the session keeps
    /// its tree, its text and what it remembers, and the error is `Parse`.
    pub fn reset_code(&mut self, new_code: &'code str) -> (done: Result<(), AnalyzerError>)
        ensures
            final(self).spec_queries() == old(self).spec_queries(),
            Self::is_step(
                *old(self),
                *final(self),
                done,
                parse_outcome(old(self).spec_parser(), new_code.spec_bytes(), None),
                new_code,
            ),
    {
        proof {
            use_type_invariant(&*self);
        }
        let parsed = parse_text(&mut self.parser, new_code, None);
        self.adopt(parsed, new_code)
    }

    /// Replaces the text of the session by `new_code`, which differs from
    /// the current text as `edit` says: a copy of the current tree is edited
    /// and handed to the parser of the session for reuse. Every remembered
    /// resolution is forgotten. Where the parser answers with no tree, the
    /// session keeps its tree, its text and what it remembers, and the
    /// error is `Parse`.
    pub fn apply_edit(&mut self, edit: &InputEdit, new_code: &'code str) -> (done: Result<
        (),
        AnalyzerError,
    >)
        ensures
            final(self).spec_queries() == old(self).spec_queries(),
            Self::is_step(
                *old(self),
                *final(self),
                done,
                parse_outcome(
                    old(self).spec_parser(),
                    new_code.spec_bytes(),
                    Some(edited_tree(old(self).spec_tree(), *edit)),
                ),
                new_code,
            ),
    {
        proof {
            use_type_invariant(&*self);
        }
        let mut edited = self.tree.clone();
        edited.edit(edit);
        let parsed = parse_text(&mut self.parser, new_code, Some(&edited));
        self.adopt(parsed, new_code)
    }

    /// The query set of the session.
    pub fn queries(&self) -> (queries: &Arc<QueryManager>)
        ensures
            **queries == self.spec_queries(),
    {
        &self.queries
    }

    /// The current syntax tree.
    pub fn tree(&self) -> (tree: &Tree)
        ensures
            *tree == self.spec_tree(),
    {
        &self.tree
    }

    /// The current source text.
    pub fn code(&self) -> (code: &'code str)
        ensures
            code == self.spec_code(),
    {
        self.code
    }

    /// The byte offset of the first occurrence of `pat` in the source text,
    /// moved forward by `offset`. `None` where `pat` does not occur, and
    /// where the place so described lies beyond every offset that a `usize`
    /// can hold.
    pub fn get_position(&self, pat: &str, offset: usize) -> (position: Option<usize>)
        ensures
            position == located(self.source(), pat.spec_bytes(), offset),
    {
        match find_bytes(self.code.as_bytes(), pat.as_bytes()) {
            Some(at) => if at <= usize::MAX - offset {
                Some(at + offset)
            } else {
                None
            },
            None => None,
        }
    }

    /// The symbol at the byte offset `position`: the queries are asked in the
    /// order of their declaration, each over the whole tree, and the first
    /// capture that covers the offset decides. `None` where no capture of
    /// any query covers it.
    pub fn query_symbol(&self, position: usize) -> (found: Option<SymbolInfo>)
        ensures
            outcome(found) == self.symbol_at(position as int),
    {
        let queries = self.queries.get_queries();
        let ghost text = self.source();
        let ghost all = self.captures();
        let mut q: usize = 0;
        assert(all.skip(0) == all);
        while q < queries.len()
            invariant
                0 <= q <= queries@.len(),
                queries@ == self.spec_queries().entries(),
                text == self.source(),
                all == self.captures(),
                resolve(text, all, position as int) == resolve(
                    text,
                    all.skip(q as int),
                    position as int,
                ),
            decreases queries@.len() - q,
        {
            let prepared_query = &queries[q];
            let matches = run_query(prepared_query.compiled(), &self.tree, self.code);
            assert(all.skip(q as int)[0] == all[q as int]);
            assert(all.skip(q as int).drop_first() == all.skip(q + 1));
            match find_first_cover(self.code, &matches, position) {
                Some(span) => {
                    return symbol_at_span(prepared_query.symbol_type(), self.code, span);
                },
                None => {},
            }
            q += 1;
        }
        None
    }

    /// The symbol at `position`, as `query_symbol` finds it. A resolution
    /// that the session remembers is not made again, and one that is made is
    /// remembered until the text changes.
    pub fn query_symbol_cached(&mut self, position: usize) -> (found: Option<SymbolInfo>)
        ensures
            outcome(found) == old(self).symbol_at(position as int),
            final(self).spec_queries() == old(self).spec_queries(),
            final(self).spec_parser() == old(self).spec_parser(),
            final(self).spec_tree() == old(self).spec_tree(),
            final(self).spec_code() == old(self).spec_code(),
            final(self).cached() == old(self).cached().insert(position, outcome(found)),
    {
        broadcast use vstd::std_specs::hash::group_hash_axioms;

        proof {
            use_type_invariant(&*self);
        }
        match self.query_cache.get(&position) {
            Some(remembered) => {
                let found = remembered.clone();
                assert(self.cached() =~= self.cached().insert(position, outcome(found)));
                return found;
            },
            None => {},
        }
        let found = self.query_symbol(position);
        // The map leaves the session while it takes the new entry, so that
        // the session holds current resolutions at every moment.
        let mut cache = HashMap::new();
        std::mem::swap(&mut self.query_cache, &mut cache);
        cache.insert(position, found.clone());
        std::mem::swap(&mut self.query_cache, &mut cache);
        assert(self.cached() =~= old(self).cached().insert(position, outcome(found)));
        found
    }
}

/// Idempotence: two resolutions at one offset in a session that did not
/// change in between find the same symbol.
pub proof fn lemma_resolution_is_repeatable(
    session: &SymbolAnalyzer,
    position: usize,
    first: Option<SymbolInfo>,
    second: Option<SymbolInfo>,
)
    requires
        call_ensures(SymbolAnalyzer::query_symbol, (session, position), first),
        call_ensures(SymbolAnalyzer::query_symbol, (session, position), second),
    ensures
        outcome(first) == outcome(second),
{
}

} // verus!
