//! Cutting texts at separators and trimming them.

use vstd::prelude::*;
use vstd::string::StrSliceExecFns;
use crate::text::{chars_of, find_from, matches_at, occurs_at};

verus! {

/// White space as Unicode defines it (the property `White_Space`).
pub open spec fn is_space(c: char) -> bool {
    let code = c as u32;
    ||| 0x09 <= code <= 0x0D
    ||| code == 0x20
    ||| code == 0x85
    ||| code == 0xA0
    ||| code == 0x1680
    ||| 0x2000 <= code <= 0x200A
    ||| code == 0x2028
    ||| code == 0x2029
    ||| code == 0x202F
    ||| code == 0x205F
    ||| code == 0x3000
}

/// The text from `from` to `to` is `text` without the white space at its
/// two ends.
pub open spec fn is_trim_of(text: Seq<char>, from: int, to: int) -> bool {
    &&& 0 <= from <= to <= text.len()
    &&& forall|k: int| 0 <= k < from ==> is_space(#[trigger] text[k])
    &&& forall|k: int| to <= k < text.len() ==> is_space(#[trigger] text[k])
    &&& from < to ==> !is_space(text[from]) && !is_space(text[to - 1])
}

/// `text` without the white space at its two ends.
pub open spec fn trimmed(text: Seq<char>) -> Seq<char> {
    let (from, to) = choose|bounds: (int, int)| is_trim_of(text, bounds.0, bounds.1);
    text.subrange(from, to)
}

/// `sep` stands in `text` at `at` and nowhere before.
pub open spec fn is_first_at(text: Seq<char>, sep: Seq<char>, at: int) -> bool {
    occurs_at(text, sep, at) && forall|j: int| 0 <= j < at ==> !occurs_at(text, sep, j)
}

/// Where `sep` first stands in `text`, if it does.
pub open spec fn first_occurrence(text: Seq<char>, sep: Seq<char>) -> Option<int> {
    if exists|at: int| is_first_at(text, sep, at) {
        Some(choose|at: int| is_first_at(text, sep, at))
    } else {
        None
    }
}

/// The part of `text` before the first `sep`; all of it where there is none.
pub open spec fn before_first(text: Seq<char>, sep: Seq<char>) -> Seq<char> {
    match first_occurrence(text, sep) {
        Some(at) => text.take(at),
        None => text,
    }
}

/// The part of `text` after the first `sep`, where there is one.
pub open spec fn after_first(text: Seq<char>, sep: Seq<char>) -> Option<Seq<char>> {
    match first_occurrence(text, sep) {
        Some(at) => Some(text.skip(at + sep.len())),
        None => None,
    }
}

/// `text` ends in `suffix`.
pub open spec fn ends_with(text: Seq<char>, suffix: Seq<char>) -> bool {
    suffix.len() <= text.len() && text.skip(text.len() - suffix.len()) == suffix
}

/// `text` with `suffix` taken off its end as often as it stands there.
pub open spec fn without_suffix(text: Seq<char>, suffix: Seq<char>) -> Seq<char>
    decreases text.len(),
{
    if suffix.len() > 0 && ends_with(text, suffix) {
        without_suffix(text.take(text.len() - suffix.len()), suffix)
    } else {
        text
    }
}

/// A text is trimmed in one way only.
pub proof fn lemma_trim_unique(text: Seq<char>, from: int, to: int)
    requires
        is_trim_of(text, from, to),
    ensures
        trimmed(text) == text.subrange(from, to),
{
    assert(is_trim_of(text, (from, to).0, (from, to).1));
}

/// The first occurrence of a separator is where the search finds it.
pub proof fn lemma_first_occurrence(text: Seq<char>, sep: Seq<char>, at: int)
    requires
        is_first_at(text, sep, at),
    ensures
        first_occurrence(text, sep) == Some(at),
{
}

/// Tests whether `c` is white space.
pub fn char_is_space(c: char) -> (space: bool)
    ensures
        space == is_space(c),
{
    let code: u32 = c as u32;
    (0x09 <= code && code <= 0x0D) || code == 0x20 || code == 0x85 || code == 0xA0 || code
        == 0x1680 || (0x2000 <= code && code <= 0x200A) || code == 0x2028 || code == 0x2029 || code
        == 0x202F || code == 0x205F || code == 0x3000
}

/// Where `text` begins and ends once the white space at its two ends is
/// left out.
pub fn trim_bounds(text: &[char]) -> (bounds: (usize, usize))
    ensures
        is_trim_of(text@, bounds.0 as int, bounds.1 as int),
{
    let mut from: usize = 0;
    while from < text.len() && char_is_space(text[from])
        invariant
            from <= text.len(),
            forall|k: int| 0 <= k < from ==> is_space(#[trigger] text@[k]),
        decreases text.len() - from,
    {
        from += 1;
    }
    let mut to: usize = text.len();
    while to > from && char_is_space(text[to - 1])
        invariant
            from <= to <= text.len(),
            forall|k: int| to <= k < text.len() ==> is_space(#[trigger] text@[k]),
        decreases to,
    {
        to -= 1;
    }
    (from, to)
}

/// Where `text` ends once `suffix` is taken off its end as often as it
/// stands there.
pub fn suffix_free_end(text: &[char], suffix: &[char]) -> (end: usize)
    ensures
        end <= text.len(),
        without_suffix(text@, suffix@) == text@.take(end as int),
{
    let mut end: usize = text.len();
    assert(text@.take(end as int) =~= text@);
    if suffix.len() > 0 {
        while end >= suffix.len() && matches_at(text, suffix, end - suffix.len())
            invariant
                end <= text.len(),
                suffix.len() > 0,
                without_suffix(text@, suffix@) == without_suffix(text@.take(end as int), suffix@),
            decreases end,
        {
            proof {
                let held = text@.take(end as int);
                assert(held.skip(held.len() - suffix@.len()) =~= text@.subrange(
                    end - suffix@.len(),
                    end as int,
                ));
                assert(held.take(held.len() - suffix@.len()) =~= text@.take(
                    end - suffix@.len(),
                ));
            }
            end -= suffix.len();
        }
        proof {
            let held = text@.take(end as int);
            if suffix@.len() <= held.len() {
                assert(held.skip(held.len() - suffix@.len()) =~= text@.subrange(
                    end - suffix@.len(),
                    end as int,
                ));
            }
        }
    }
    end
}

/// `text` without the white space at its two ends.
pub fn trim_text<'a>(text: &'a str) -> (kept: &'a str)
    ensures
        kept@ == trimmed(text@),
{
    let chars = chars_of(text);
    let (from, to) = trim_bounds(chars.as_slice());
    proof {
        lemma_trim_unique(text@, from as int, to as int);
    }
    text.substring_char(from, to)
}

/// Cuts `text` at the first `sep`: what stands before it, and what stands
/// after it where there is one.
pub fn cut_at_first<'a>(text: &'a str, sep: &str) -> (parts: (&'a str, Option<&'a str>))
    ensures
        parts.0@ == before_first(text@, sep@),
        parts.1.deep_view() == after_first(text@, sep@),
{
    let chars = chars_of(text);
    let sep_chars = chars_of(sep);
    let end = chars.len();
    match find_from(chars.as_slice(), sep_chars.as_slice(), 0) {
        Some(at) => {
            proof {
                lemma_first_occurrence(text@, sep@, at as int);
            }
            let head = text.substring_char(0, at);
            let tail = text.substring_char(at + sep_chars.len(), end);
            (head, Some(tail))
        },
        None => {
            (text, None)
        },
    }
}

/// Takes `suffix` off the end of `text` as often as it stands there.
pub fn strip_suffix<'a>(text: &'a str, suffix: &str) -> (kept: &'a str)
    ensures
        kept@ == without_suffix(text@, suffix@),
{
    let chars = chars_of(text);
    let suffix_chars = chars_of(suffix);
    let end = suffix_free_end(chars.as_slice(), suffix_chars.as_slice());
    text.substring_char(0, end)
}

} // verus!
