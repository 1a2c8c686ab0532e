//! Source text seen as bytes: ranges that hold whole characters, and the
//! search for a literal.

use vstd::prelude::*;
use vstd::slice::slice_subrange;
use vstd::string::StringSliceAdditionalSpecFns;
use vstd::utf8::{
    decode_utf8, encode_utf8_decode_utf8, encode_utf8_valid_utf8, is_char_boundary,
    is_char_boundary_iff_not_is_continuation_byte, is_char_boundary_start_end_of_seq, valid_utf8,
    valid_utf8_split,
};

verus! {

/// Whether `[start, end)` is a range of `text` that begins and ends between
/// two characters, so that it holds a text of its own.
pub open spec fn is_slice(text: Seq<u8>, start: int, end: int) -> bool {
    &&& 0 <= start <= end <= text.len()
    &&& is_char_boundary(text, start)
    &&& is_char_boundary(text, end)
}

/// The characters that the range `[start, end)` of `text` holds.
pub open spec fn slice_chars(text: Seq<u8>, start: int, end: int) -> Seq<char>
    recommends
        is_slice(text, start, end),
{
    decode_utf8(text.subrange(start, end))
}

/// Whether `pattern` stands in `text` at the byte offset `at`.
pub open spec fn occurs_at(text: Seq<u8>, pattern: Seq<u8>, at: int) -> bool {
    &&& 0 <= at
    &&& at + pattern.len() <= text.len()
    &&& text.subrange(at, at + pattern.len()) == pattern
}

/// Whether `at` is the least byte offset at which `pattern` stands in `text`.
pub open spec fn is_first_occurrence(text: Seq<u8>, pattern: Seq<u8>, at: int) -> bool {
    &&& occurs_at(text, pattern, at)
    &&& forall|earlier: int| 0 <= earlier < at ==> !occurs_at(text, pattern, earlier)
}

/// The least byte offset at which `pattern` stands in `text`, if it stands
/// there at all.
pub open spec fn first_occurrence(text: Seq<u8>, pattern: Seq<u8>) -> Option<int> {
    if exists|at: int| is_first_occurrence(text, pattern, at) {
        Some(choose|at: int| is_first_occurrence(text, pattern, at))
    } else {
        None
    }
}

/// The place `offset` bytes behind the first occurrence of `pattern` in
/// `text`, where `pattern` occurs and a `usize` can hold the place.
pub open spec fn located(text: Seq<u8>, pattern: Seq<u8>, offset: usize) -> Option<usize> {
    match first_occurrence(text, pattern) {
        Some(at) => if at + offset <= usize::MAX {
            Some((at + offset) as usize)
        } else {
            None
        },
        None => None,
    }
}

/// The least offset at which a pattern stands is the only one that is the
/// least.
pub proof fn lemma_first_occurrence_is_unique(text: Seq<u8>, pattern: Seq<u8>, at: int)
    requires
        is_first_occurrence(text, pattern, at),
    ensures
        first_occurrence(text, pattern) == Some(at),
{
    let chosen = choose|at: int| is_first_occurrence(text, pattern, at);
    if chosen < at {
        assert(!occurs_at(text, pattern, chosen));
    }
    if at < chosen {
        assert(!occurs_at(text, pattern, at));
    }
}

/// A boundary of the whole text that lies behind `start` is a boundary of
/// the rest of the text that begins at `start`.
proof fn lemma_boundary_of_rest(text: Seq<u8>, start: int, end: int)
    requires
        valid_utf8(text),
        is_slice(text, start, end),
    ensures
        valid_utf8(text.subrange(start, text.len() as int)),
        is_char_boundary(text.subrange(start, text.len() as int), end - start),
{
    let rest = text.subrange(start, text.len() as int);
    valid_utf8_split(text, start);
    if end == text.len() {
        is_char_boundary_start_end_of_seq(rest);
    } else {
        is_char_boundary_iff_not_is_continuation_byte(text, end);
        is_char_boundary_iff_not_is_continuation_byte(rest, end - start);
    }
}

/// The text in the byte range `[start, end)` of `code`, where the range lies
/// inside `code` and cuts no character; nothing otherwise.
pub fn slice_text(code: &str, start: usize, end: usize) -> (part: Option<String>)
    ensures
        part is Some <==> is_slice(code.spec_bytes(), start as int, end as int),
        part matches Some(s) ==> s@ == slice_chars(code.spec_bytes(), start as int, end as int),
{
    proof {
        encode_utf8_valid_utf8(code@);
    }
    let length = code.as_bytes().len();
    if start <= end && end <= length && code.is_char_boundary(start) && code.is_char_boundary(end) {
        proof {
            lemma_boundary_of_rest(code.spec_bytes(), start as int, end as int);
        }
        let (_, rest) = code.split_at(start);
        let (part, _) = rest.split_at(end - start);
        proof {
            assert(part.spec_bytes() == code.spec_bytes().subrange(start as int, end as int));
            encode_utf8_decode_utf8(part@);
        }
        Some(part.to_owned())
    } else {
        None
    }
}

/// The bytes of `text` in `[start, end)`, or none where that range does not
/// lie inside the text.
pub fn bytes_between(text: &[u8], start: usize, end: usize) -> (part: &[u8])
    ensures
        part@ == if start <= end <= text@.len() {
            text@.subrange(start as int, end as int)
        } else {
            Seq::<u8>::empty()
        },
{
    if start <= end && end <= text.len() {
        slice_subrange(text, start, end)
    } else {
        slice_subrange(text, 0, 0)
    }
}

/// Whether `pattern` stands in `text` at the byte offset `at`.
fn stands_at(text: &[u8], pattern: &[u8], at: usize) -> (found: bool)
    requires
        at + pattern@.len() <= text@.len(),
    ensures
        found == occurs_at(text@, pattern@, at as int),
{
    let length = text.len();
    let mut i: usize = 0;
    while i < pattern.len()
        invariant
            0 <= i <= pattern@.len(),
            at + pattern@.len() <= text@.len() == length,
            forall|j: int| 0 <= j < i ==> text@[at + j] == pattern@[j],
        decreases pattern@.len() - i,
    {
        if text[at + i] != pattern[i] {
            assert(text@.subrange(at as int, at + pattern@.len())[i as int] != pattern@[i as int]);
            return false;
        }
        i += 1;
    }
    assert(text@.subrange(at as int, at + pattern@.len()) =~= pattern@);
    true
}

/// The least byte offset at which `pattern` stands in `text`, if it stands
/// there at all. The empty pattern stands at offset 0.
pub fn find_bytes(text: &[u8], pattern: &[u8]) -> (found: Option<usize>)
    ensures
        match found {
            Some(at) => is_first_occurrence(text@, pattern@, at as int),
            None => forall|at: int| !occurs_at(text@, pattern@, at),
        },
        match found {
            Some(at) => first_occurrence(text@, pattern@) == Some(at as int),
            None => first_occurrence(text@, pattern@) is None,
        },
{
    let found = search(text, pattern);
    proof {
        if found is Some {
            lemma_first_occurrence_is_unique(text@, pattern@, found->Some_0 as int);
        }
    }
    found
}

/// The search behind `find_bytes`: every offset is tried, from the start on.
fn search(text: &[u8], pattern: &[u8]) -> (found: Option<usize>)
    ensures
        match found {
            Some(at) => is_first_occurrence(text@, pattern@, at as int),
            None => forall|at: int| !occurs_at(text@, pattern@, at),
        },
{
    if pattern.len() > text.len() {
        return None;
    }
    let last: usize = text.len() - pattern.len();
    let mut at: usize = 0;
    while at < last
        invariant
            0 <= at <= last,
            last == text@.len() - pattern@.len(),
            forall|earlier: int| 0 <= earlier < at ==> !occurs_at(text@, pattern@, earlier),
        decreases last - at,
    {
        if stands_at(text, pattern, at) {
            return Some(at);
        }
        at += 1;
    }
    if stands_at(text, pattern, last) {
        Some(last)
    } else {
        None
    }
}

} // verus!
