//! Resolution of an offset against the captures of an ordered set of
//! queries: the first capture that covers the offset decides.

use crate::query::SymbolType;
use crate::span::{spans_of, Span};
use crate::text::{is_slice, slice_chars, slice_text};
use vstd::prelude::*;
use vstd::string::StringSliceAdditionalSpecFns;
use vstd::utf8::encode_utf8_valid_utf8;

verus! {

/// A resolved symbol as plain values.
pub struct SymbolView {
    pub kind: SymbolType,
    pub text: Seq<char>,
    pub start_byte: usize,
    pub end_byte: usize,
}

/// The symbol found at an offset: its kind, the text of the capture that
/// decided, and the byte range of that capture.
#[derive(Debug, PartialEq, Eq)]
pub struct SymbolInfo {
    pub kind: SymbolType,
    pub text: String,
    pub start_byte: usize,
    pub end_byte: usize,
}

impl View for SymbolInfo {
    type V = SymbolView;

    open spec fn view(&self) -> SymbolView {
        SymbolView {
            kind: self.kind,
            text: self.text@,
            start_byte: self.start_byte,
            end_byte: self.end_byte,
        }
    }
}

impl Clone for SymbolInfo {
    fn clone(&self) -> (copy: Self)
        ensures
            copy@ == self@,
    {
        SymbolInfo {
            kind: self.kind,
            text: self.text.clone(),
            start_byte: self.start_byte,
            end_byte: self.end_byte,
        }
    }
}

/// The view of a resolution that may have found nothing.
pub open spec fn outcome(found: Option<SymbolInfo>) -> Option<SymbolView> {
    match found {
        Some(info) => Some(info@),
        None => None,
    }
}

/// What one query captured in a tree: the kind that the query stands for,
/// and its matches in the order of their appearance, each with the spans of
/// its captures in the order of the pattern.
pub struct QueryCaptures {
    pub kind: SymbolType,
    pub matches: Seq<Seq<Span>>,
}

/// Whether `span` is a range of whole characters of `text` that holds
/// `offset`.
pub open spec fn covers(text: Seq<u8>, span: Span, offset: int) -> bool {
    span.holds(offset) && is_slice(text, span.start as int, span.end as int)
}

/// The first span of `spans` that covers `offset`.
pub open spec fn first_cover(text: Seq<u8>, spans: Seq<Span>, offset: int) -> Option<Span>
    decreases spans.len(),
{
    if spans.len() == 0 {
        None
    } else if covers(text, spans[0], offset) {
        Some(spans[0])
    } else {
        first_cover(text, spans.drop_first(), offset)
    }
}

/// The first span that covers `offset`, going through the matches in their
/// order and through the captures of each match in theirs.
pub open spec fn first_cover_in(text: Seq<u8>, matches: Seq<Seq<Span>>, offset: int) -> Option<Span>
    decreases matches.len(),
{
    if matches.len() == 0 {
        None
    } else {
        match first_cover(text, matches[0], offset) {
            Some(span) => Some(span),
            None => first_cover_in(text, matches.drop_first(), offset),
        }
    }
}

/// The symbol that a capture at `span` of a query of kind `kind` stands for.
pub open spec fn symbol_of(kind: SymbolType, text: Seq<u8>, span: Span) -> SymbolView {
    SymbolView {
        kind,
        text: slice_chars(text, span.start as int, span.end as int),
        start_byte: span.start,
        end_byte: span.end,
    }
}

/// The symbol at `offset`: the queries are asked in their order, and the
/// first one with a capture that covers the offset decides, by the first
/// such capture among its matches.
pub open spec fn resolve(text: Seq<u8>, found: Seq<QueryCaptures>, offset: int) -> Option<
    SymbolView,
>
    decreases found.len(),
{
    if found.len() == 0 {
        None
    } else {
        match first_cover_in(text, found[0].matches, offset) {
            Some(span) => Some(symbol_of(found[0].kind, text, span)),
            None => resolve(text, found.drop_first(), offset),
        }
    }
}

/// Whether `span` covers `position` in `code`.
pub fn span_covers(code: &str, span: &Span, position: usize) -> (covered: bool)
    ensures
        covered == covers(code.spec_bytes(), *span, position as int),
{
    proof {
        encode_utf8_valid_utf8(code@);
    }
    span.contains(position) && span.end <= code.as_bytes().len() && code.is_char_boundary(
        span.start,
    ) && code.is_char_boundary(span.end)
}

/// The first capture among `matches` that covers `position` in `code`.
pub fn find_first_cover(code: &str, matches: &Vec<Vec<Span>>, position: usize) -> (hit: Option<
    Span,
>)
    ensures
        hit == first_cover_in(code.spec_bytes(), spans_of(matches@), position as int),
        hit matches Some(span) ==> covers(code.spec_bytes(), span, position as int),
{
    proof {
        if first_cover_in(code.spec_bytes(), spans_of(matches@), position as int) is Some {
            lemma_first_cover_in_place(code.spec_bytes(), spans_of(matches@), position as int);
        }
    }
    let ghost text = code.spec_bytes();
    let ghost all = spans_of(matches@);
    let mut m: usize = 0;
    assert(all.skip(0) == all);
    while m < matches.len()
        invariant
            0 <= m <= matches@.len(),
            text == code.spec_bytes(),
            all == spans_of(matches@),
            first_cover_in(text, all, position as int) == first_cover_in(
                text,
                all.skip(m as int),
                position as int,
            ),
        decreases matches@.len() - m,
    {
        let captures = &matches[m];
        let ghost spans = captures@;
        assert(all.skip(m as int)[0] == spans);
        assert(all.skip(m as int).drop_first() == all.skip(m + 1));
        let mut c: usize = 0;
        assert(spans.skip(0) == spans);
        while c < captures.len()
            invariant
                0 <= c <= captures@.len(),
                text == code.spec_bytes(),
                spans == captures@,
                all == spans_of(matches@),
                all.skip(m as int).len() > 0,
                all.skip(m as int)[0] == spans,
                first_cover_in(text, all, position as int) == first_cover_in(
                    text,
                    all.skip(m as int),
                    position as int,
                ),
                first_cover(text, spans, position as int) == first_cover(
                    text,
                    spans.skip(c as int),
                    position as int,
                ),
            decreases captures@.len() - c,
        {
            assert(spans.skip(c as int)[0] == spans[c as int]);
            assert(spans.skip(c as int).drop_first() == spans.skip(c + 1));
            if span_covers(code, &captures[c], position) {
                assert(first_cover(text, spans.skip(c as int), position as int) == Some(
                    spans[c as int],
                ));
                assert(first_cover_in(text, all.skip(m as int), position as int) == Some(
                    spans[c as int],
                ));
                return Some(captures[c]);
            }
            c += 1;
        }
        m += 1;
    }
    None
}

/// The symbol that a capture at `span` of a query of kind `kind` stands for
/// in `code`, where the span is a range of whole characters of `code`.
pub fn symbol_at_span(kind: SymbolType, code: &str, span: Span) -> (symbol: Option<SymbolInfo>)
    ensures
        symbol is Some <==> is_slice(code.spec_bytes(), span.start as int, span.end as int),
        symbol matches Some(info) ==> info@ == symbol_of(kind, code.spec_bytes(), span),
{
    match slice_text(code, span.start, span.end) {
        Some(text) => Some(SymbolInfo { kind, text, start_byte: span.start, end_byte: span.end }),
        None => None,
    }
}

/// Whether capture `c` of match `m` covers `offset`.
pub open spec fn match_hit(
    text: Seq<u8>,
    matches: Seq<Seq<Span>>,
    offset: int,
    m: int,
    c: int,
) -> bool {
    &&& 0 <= m < matches.len()
    &&& 0 <= c < matches[m].len()
    &&& covers(text, matches[m][c], offset)
}

/// Whether capture `c` of match `m` of query `q` covers `offset`.
pub open spec fn is_hit(
    text: Seq<u8>,
    found: Seq<QueryCaptures>,
    offset: int,
    q: int,
    m: int,
    c: int,
) -> bool {
    0 <= q < found.len() && match_hit(text, found[q].matches, offset, m, c)
}

/// Whether a capture at `(q, m, c)` is met before one at `(q2, m2, c2)`:
/// queries go in the order of their declaration, the matches of a query in
/// the order of their appearance, the captures of a match in the order of
/// the pattern.
pub open spec fn comes_before(q: int, m: int, c: int, q2: int, m2: int, c2: int) -> bool {
    q < q2 || (q == q2 && (m < m2 || (m == m2 && c < c2)))
}

/// No span of `spans` covers `offset` exactly when `first_cover` finds none.
pub proof fn lemma_first_cover_none(text: Seq<u8>, spans: Seq<Span>, offset: int)
    ensures
        first_cover(text, spans, offset) is None <==> forall|c: int|
            0 <= c < spans.len() ==> !covers(text, #[trigger] spans[c], offset),
    decreases spans.len(),
{
    if spans.len() > 0 {
        let rest = spans.drop_first();
        lemma_first_cover_none(text, rest, offset);
        if !covers(text, spans[0], offset) {
            if first_cover(text, spans, offset) is None {
                assert forall|c: int| 0 <= c < spans.len() implies !covers(
                    text,
                    #[trigger] spans[c],
                    offset,
                ) by {
                    if c > 0 {
                        assert(spans[c] == rest[c - 1]);
                    }
                }
            }
            if forall|c: int| 0 <= c < spans.len() ==> !covers(text, #[trigger] spans[c], offset) {
                assert forall|c: int| 0 <= c < rest.len() implies !covers(
                    text,
                    #[trigger] rest[c],
                    offset,
                ) by {
                    assert(rest[c] == spans[c + 1]);
                }
            }
        }
    }
}

/// The first span of `spans` that covers `offset` is what `first_cover`
/// finds.
pub proof fn lemma_first_cover_at(text: Seq<u8>, spans: Seq<Span>, offset: int, c: int)
    requires
        0 <= c < spans.len(),
        covers(text, spans[c], offset),
        forall|earlier: int| 0 <= earlier < c ==> !covers(text, #[trigger] spans[earlier], offset),
    ensures
        first_cover(text, spans, offset) == Some(spans[c]),
    decreases c,
{
    if c > 0 {
        let rest = spans.drop_first();
        assert(rest[c - 1] == spans[c]);
        assert forall|earlier: int| 0 <= earlier < c - 1 implies !covers(
            text,
            #[trigger] rest[earlier],
            offset,
        ) by {
            assert(rest[earlier] == spans[earlier + 1]);
        }
        lemma_first_cover_at(text, rest, offset, c - 1);
    }
}

/// No capture of any match covers `offset` exactly when `first_cover_in`
/// finds none.
pub proof fn lemma_first_cover_in_none(text: Seq<u8>, matches: Seq<Seq<Span>>, offset: int)
    ensures
        first_cover_in(text, matches, offset) is None <==> forall|m: int, c: int|
            !#[trigger] match_hit(text, matches, offset, m, c),
    decreases matches.len(),
{
    if matches.len() > 0 {
        let rest = matches.drop_first();
        lemma_first_cover_in_none(text, rest, offset);
        lemma_first_cover_none(text, matches[0], offset);
        if first_cover_in(text, matches, offset) is None {
            assert forall|m: int, c: int| !#[trigger] match_hit(text, matches, offset, m, c) by {
                if 0 < m < matches.len() {
                    assert(matches[m] == rest[m - 1]);
                    assert(!match_hit(text, rest, offset, m - 1, c));
                }
            }
        }
        if forall|m: int, c: int| !#[trigger] match_hit(text, matches, offset, m, c) {
            assert forall|c: int| 0 <= c < matches[0].len() implies !covers(
                text,
                #[trigger] matches[0][c],
                offset,
            ) by {
                assert(!match_hit(text, matches, offset, 0, c));
            }
            assert forall|m: int, c: int| !#[trigger] match_hit(text, rest, offset, m, c) by {
                if 0 <= m < rest.len() {
                    assert(rest[m] == matches[m + 1]);
                    assert(!match_hit(text, matches, offset, m + 1, c));
                }
            }
        }
    }
}

/// The first capture that covers `offset`, in the order of the matches and
/// of their captures, is what `first_cover_in` finds.
pub proof fn lemma_first_cover_in_at(
    text: Seq<u8>,
    matches: Seq<Seq<Span>>,
    offset: int,
    m: int,
    c: int,
)
    requires
        match_hit(text, matches, offset, m, c),
        forall|m2: int, c2: int| #[trigger]
            match_hit(text, matches, offset, m2, c2) ==> !comes_before(0, m2, c2, 0, m, c),
    ensures
        first_cover_in(text, matches, offset) == Some(matches[m][c]),
    decreases m,
{
    if m == 0 {
        assert forall|earlier: int| 0 <= earlier < c implies !covers(
            text,
            #[trigger] matches[0][earlier],
            offset,
        ) by {
            if covers(text, matches[0][earlier], offset) {
                assert(match_hit(text, matches, offset, 0, earlier));
            }
        }
        lemma_first_cover_at(text, matches[0], offset, c);
    } else {
        let rest = matches.drop_first();
        assert forall|c2: int| 0 <= c2 < matches[0].len() implies !covers(
            text,
            #[trigger] matches[0][c2],
            offset,
        ) by {
            if covers(text, matches[0][c2], offset) {
                assert(match_hit(text, matches, offset, 0, c2));
            }
        }
        lemma_first_cover_none(text, matches[0], offset);
        assert(rest[m - 1] == matches[m]);
        assert forall|m2: int, c2: int| #[trigger]
            match_hit(text, rest, offset, m2, c2) implies !comes_before(0, m2, c2, 0, m - 1, c) by {
            assert(rest[m2] == matches[m2 + 1]);
            assert(match_hit(text, matches, offset, m2 + 1, c2));
        }
        lemma_first_cover_in_at(text, rest, offset, m - 1, c);
    }
}

/// An offset that no capture of any query covers resolves to no symbol, and
/// only such an offset does.
pub proof fn lemma_uncovered_offset_has_no_symbol(
    text: Seq<u8>,
    found: Seq<QueryCaptures>,
    offset: int,
)
    ensures
        resolve(text, found, offset) is None <==> forall|q: int, m: int, c: int|
            !#[trigger] is_hit(text, found, offset, q, m, c),
    decreases found.len(),
{
    if found.len() > 0 {
        let rest = found.drop_first();
        lemma_uncovered_offset_has_no_symbol(text, rest, offset);
        lemma_first_cover_in_none(text, found[0].matches, offset);
        if resolve(text, found, offset) is None {
            assert forall|q: int, m: int, c: int| !#[trigger] is_hit(
                text,
                found,
                offset,
                q,
                m,
                c,
            ) by {
                if q == 0 {
                    assert(!match_hit(text, found[0].matches, offset, m, c));
                } else if 0 < q < found.len() {
                    assert(found[q] == rest[q - 1]);
                    assert(!is_hit(text, rest, offset, q - 1, m, c));
                }
            }
        }
        if forall|q: int, m: int, c: int| !#[trigger] is_hit(text, found, offset, q, m, c) {
            assert forall|m: int, c: int| !#[trigger] match_hit(
                text,
                found[0].matches,
                offset,
                m,
                c,
            ) by {
                assert(!is_hit(text, found, offset, 0, m, c));
            }
            assert forall|q: int, m: int, c: int| !#[trigger] is_hit(
                text,
                rest,
                offset,
                q,
                m,
                c,
            ) by {
                if 0 <= q < rest.len() {
                    assert(rest[q] == found[q + 1]);
                    assert(!is_hit(text, found, offset, q + 1, m, c));
                }
            }
        }
    }
}

/// The capture that covers `offset` and is met first decides: the symbol
/// has the kind of its query, its span and the text that its span holds.
pub proof fn lemma_first_hit_decides(
    text: Seq<u8>,
    found: Seq<QueryCaptures>,
    offset: int,
    q: int,
    m: int,
    c: int,
)
    requires
        is_hit(text, found, offset, q, m, c),
        forall|q2: int, m2: int, c2: int| #[trigger]
            is_hit(text, found, offset, q2, m2, c2) ==> !comes_before(q2, m2, c2, q, m, c),
    ensures
        resolve(text, found, offset) == Some(
            symbol_of(found[q].kind, text, found[q].matches[m][c]),
        ),
    decreases q,
{
    if q == 0 {
        assert forall|m2: int, c2: int| #[trigger]
            match_hit(text, found[0].matches, offset, m2, c2) implies !comes_before(
            0,
            m2,
            c2,
            0,
            m,
            c,
        ) by {
            assert(is_hit(text, found, offset, 0, m2, c2));
        }
        lemma_first_cover_in_at(text, found[0].matches, offset, m, c);
    } else {
        let rest = found.drop_first();
        assert forall|m2: int, c2: int| !#[trigger] match_hit(
            text,
            found[0].matches,
            offset,
            m2,
            c2,
        ) by {
            if match_hit(text, found[0].matches, offset, m2, c2) {
                assert(is_hit(text, found, offset, 0, m2, c2));
            }
        }
        lemma_first_cover_in_none(text, found[0].matches, offset);
        assert(rest[q - 1] == found[q]);
        assert forall|q2: int, m2: int, c2: int| #[trigger]
            is_hit(text, rest, offset, q2, m2, c2) implies !comes_before(
            q2,
            m2,
            c2,
            q - 1,
            m,
            c,
        ) by {
            assert(rest[q2] == found[q2 + 1]);
            assert(is_hit(text, found, offset, q2 + 1, m2, c2));
        }
        lemma_first_hit_decides(text, rest, offset, q - 1, m, c);
    }
}

/// The place in `spans` of the span that `first_cover` finds.
proof fn lemma_first_cover_place(text: Seq<u8>, spans: Seq<Span>, offset: int) -> (c: int)
    requires
        first_cover(text, spans, offset) is Some,
    ensures
        0 <= c < spans.len(),
        first_cover(text, spans, offset) == Some(spans[c]),
        covers(text, spans[c], offset),
        forall|earlier: int| 0 <= earlier < c ==> !covers(text, #[trigger] spans[earlier], offset),
    decreases spans.len(),
{
    if covers(text, spans[0], offset) {
        0
    } else {
        let rest = spans.drop_first();
        let c = lemma_first_cover_place(text, rest, offset);
        assert(rest[c] == spans[c + 1]);
        assert forall|earlier: int| 0 <= earlier < c + 1 implies !covers(
            text,
            #[trigger] spans[earlier],
            offset,
        ) by {
            if earlier > 0 {
                assert(spans[earlier] == rest[earlier - 1]);
            }
        }
        c + 1
    }
}

/// The place among `matches` of the capture that `first_cover_in` finds.
proof fn lemma_first_cover_in_place(text: Seq<u8>, matches: Seq<Seq<Span>>, offset: int) -> (at: (
    int,
    int,
))
    requires
        first_cover_in(text, matches, offset) is Some,
    ensures
        match_hit(text, matches, offset, at.0, at.1),
        first_cover_in(text, matches, offset) == Some(matches[at.0][at.1]),
        forall|m2: int, c2: int| #[trigger]
            match_hit(text, matches, offset, m2, c2) ==> !comes_before(0, m2, c2, 0, at.0, at.1),
    decreases matches.len(),
{
    if first_cover(text, matches[0], offset) is Some {
        let c = lemma_first_cover_place(text, matches[0], offset);
        (0, c)
    } else {
        let rest = matches.drop_first();
        lemma_first_cover_none(text, matches[0], offset);
        let (m, c) = lemma_first_cover_in_place(text, rest, offset);
        assert(rest[m] == matches[m + 1]);
        assert forall|m2: int, c2: int| #[trigger]
            match_hit(text, matches, offset, m2, c2) implies !comes_before(
            0,
            m2,
            c2,
            0,
            m + 1,
            c,
        ) by {
            if m2 > 0 {
                assert(matches[m2] == rest[m2 - 1]);
                assert(match_hit(text, rest, offset, m2 - 1, c2));
            }
        }
        (m + 1, c)
    }
}

/// A symbol that is found comes from the capture that covers `offset` and
/// is met first.
pub proof fn lemma_symbol_has_first_hit(
    text: Seq<u8>,
    found: Seq<QueryCaptures>,
    offset: int,
) -> (at: (int, int, int))
    requires
        resolve(text, found, offset) is Some,
    ensures
        is_hit(text, found, offset, at.0, at.1, at.2),
        forall|q2: int, m2: int, c2: int| #[trigger]
            is_hit(text, found, offset, q2, m2, c2) ==> !comes_before(q2, m2, c2, at.0, at.1, at.2),
        resolve(text, found, offset) == Some(
            symbol_of(found[at.0].kind, text, found[at.0].matches[at.1][at.2]),
        ),
    decreases found.len(),
{
    if first_cover_in(text, found[0].matches, offset) is Some {
        let (m, c) = lemma_first_cover_in_place(text, found[0].matches, offset);
        assert forall|q2: int, m2: int, c2: int| #[trigger]
            is_hit(text, found, offset, q2, m2, c2) implies !comes_before(q2, m2, c2, 0, m, c) by {
            if q2 == 0 {
                assert(match_hit(text, found[0].matches, offset, m2, c2));
            }
        }
        (0, m, c)
    } else {
        let rest = found.drop_first();
        lemma_first_cover_in_none(text, found[0].matches, offset);
        let (q, m, c) = lemma_symbol_has_first_hit(text, rest, offset);
        assert(rest[q] == found[q + 1]);
        assert forall|q2: int, m2: int, c2: int| #[trigger]
            is_hit(text, found, offset, q2, m2, c2) implies !comes_before(
            q2,
            m2,
            c2,
            q + 1,
            m,
            c,
        ) by {
            if q2 > 0 {
                assert(found[q2] == rest[q2 - 1]);
                assert(is_hit(text, rest, offset, q2 - 1, m2, c2));
            } else {
                assert(match_hit(text, found[0].matches, offset, m2, c2));
            }
        }
        (q + 1, m, c)
    }
}

/// Where every capture that covers `offset` belongs to one query and has
/// one span, the symbol found is of the kind of that query, has that span,
/// and its text is the text that the span holds.
pub proof fn lemma_single_span_decides(
    text: Seq<u8>,
    found: Seq<QueryCaptures>,
    offset: int,
    q: int,
    m: int,
    c: int,
)
    requires
        is_hit(text, found, offset, q, m, c),
        forall|q2: int, m2: int, c2: int| #[trigger]
            is_hit(text, found, offset, q2, m2, c2) ==> q2 == q && found[q2].matches[m2][c2]
                == found[q].matches[m][c],
    ensures
        resolve(text, found, offset) == Some(
            symbol_of(found[q].kind, text, found[q].matches[m][c]),
        ),
{
    lemma_uncovered_offset_has_no_symbol(text, found, offset);
    let at = lemma_symbol_has_first_hit(text, found, offset);
}

/// Priority: among the queries with a capture that covers `offset`, the one
/// that was declared first gives the symbol its kind, whatever the queries
/// behind it capture and however large their spans are.
pub proof fn lemma_earliest_query_wins(
    text: Seq<u8>,
    found: Seq<QueryCaptures>,
    offset: int,
    q: int,
    m: int,
    c: int,
)
    requires
        is_hit(text, found, offset, q, m, c),
        forall|q2: int, m2: int, c2: int| #[trigger]
            is_hit(text, found, offset, q2, m2, c2) ==> q <= q2,
    ensures
        resolve(text, found, offset) matches Some(symbol) && symbol.kind == found[q].kind,
{
    lemma_uncovered_offset_has_no_symbol(text, found, offset);
    let at = lemma_symbol_has_first_hit(text, found, offset);
    assert(!comes_before(q, m, c, at.0, at.1, at.2));
}

/// A symbol that is found holds `offset` in its span, its span is a range
/// of whole characters of `text`, and its text is what that range holds.
pub proof fn lemma_symbol_holds_offset(text: Seq<u8>, found: Seq<QueryCaptures>, offset: int)
    ensures
        resolve(text, found, offset) matches Some(symbol) ==> {
            &&& symbol.start_byte <= offset < symbol.end_byte <= text.len()
            &&& is_slice(text, symbol.start_byte as int, symbol.end_byte as int)
            &&& symbol.text == slice_chars(text, symbol.start_byte as int, symbol.end_byte as int)
        },
{
    if resolve(text, found, offset) is Some {
        let at = lemma_symbol_has_first_hit(text, found, offset);
    }
}

/// An offset at or behind the end of `text` resolves to no symbol.
pub proof fn lemma_offset_behind_text_has_no_symbol(
    text: Seq<u8>,
    found: Seq<QueryCaptures>,
    offset: int,
)
    requires
        text.len() <= offset,
    ensures
        resolve(text, found, offset) is None,
{
    lemma_symbol_holds_offset(text, found, offset);
}

} // verus!
