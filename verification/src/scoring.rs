//! Scoring primitives shared by the merge guardian: the size penalty of a
//! change, whether it brings tests, and whether it stays within one
//! top-level directory.
//!
//! A path is a text whose components are separated by `/`.

use vstd::prelude::*;
use crate::text::{chars_of, matches_at, occurs_at};

verus! {

/// The penalty, in confidence points, for a change of `total` touched lines.
pub open spec fn size_penalty_of(total: nat) -> nat {
    if total < 100 {
        0
    } else if total < 300 {
        5
    } else if total < 500 {
        10
    } else {
        20
    }
}

/// A path component can begin at `at`: at the start, or right after a `/`.
pub open spec fn component_starts_at(path: Seq<char>, at: int) -> bool {
    at == 0 || (0 < at <= path.len() && path[at - 1] == '/')
}

/// Everything from `at` on belongs to the file name: no `/` follows.
pub open spec fn in_file_name(path: Seq<char>, at: int) -> bool {
    &&& 0 <= at <= path.len()
    &&& forall|k: int| at <= k < path.len() ==> path[k] != '/'
}

/// Some directory on the way to the file is called exactly `name`.
/// Meant for a `name` without `/`.
pub open spec fn has_directory(path: Seq<char>, name: Seq<char>) -> bool {
    exists|at: int| component_starts_at(path, at) && occurs_at(path, name.push('/'), at)
}

/// The file name holds `marker` somewhere.
pub open spec fn file_name_contains(path: Seq<char>, marker: Seq<char>) -> bool {
    exists|at: int| in_file_name(path, at) && occurs_at(path, marker, at)
}

/// The file name begins with `prefix`.
pub open spec fn file_name_starts_with(path: Seq<char>, prefix: Seq<char>) -> bool {
    exists|at: int|
        component_starts_at(path, at) && in_file_name(path, at) && occurs_at(path, prefix, at)
}

/// The file name holds `suffix` right before a `.` or at its very end.
pub open spec fn file_stem_ends_with(path: Seq<char>, suffix: Seq<char>) -> bool {
    exists|at: int|
        in_file_name(path, at) && occurs_at(path, suffix, at) && (at + suffix.len() == path.len()
            || path[at + suffix.len()] == '.')
}

/// A path that names a test: it lies under a `tests` or `__tests__`
/// directory, or its file name holds `.test.`, begins with `test_`, or has a
/// stem that ends in `_test`.
pub open spec fn is_test_path(path: Seq<char>) -> bool {
    ||| has_directory(path, "tests"@)
    ||| has_directory(path, "__tests__"@)
    ||| file_name_contains(path, ".test."@)
    ||| file_name_starts_with(path, "test_"@)
    ||| file_stem_ends_with(path, "_test"@)
}

/// At least one of the paths names a test.
pub open spec fn any_test_path(paths: Seq<Seq<char>>) -> bool {
    exists|i: int| 0 <= i < paths.len() && is_test_path(#[trigger] paths[i])
}

/// The top-level segment of `path` ends at `end`: at the first `/`, or at
/// the end of a path that has none.
pub open spec fn is_scope_end(path: Seq<char>, end: int) -> bool {
    &&& 0 <= end <= path.len()
    &&& forall|k: int| 0 <= k < end ==> path[k] != '/'
    &&& (end == path.len() || path[end] == '/')
}

/// The top-level segment of `path`: its first directory, or the whole file
/// name when it has no directory.
pub open spec fn top_level(path: Seq<char>) -> Seq<char> {
    path.take(choose|end: int| is_scope_end(path, end))
}

/// All paths share one top-level segment.
pub open spec fn single_scope(paths: Seq<Seq<char>>) -> bool {
    forall|i: int, j: int|
        0 <= i < paths.len() && 0 <= j < paths.len() ==> top_level(#[trigger] paths[i])
            == top_level(#[trigger] paths[j])
}

/// A path has exactly one place where its top-level segment ends.
pub proof fn lemma_scope_end_unique(path: Seq<char>, a: int, b: int)
    requires
        is_scope_end(path, a),
        is_scope_end(path, b),
    ensures
        a == b,
{
}

/// The top-level segment is the part of the path before its scope end.
pub proof fn lemma_top_level(path: Seq<char>, end: int)
    requires
        is_scope_end(path, end),
    ensures
        top_level(path) == path.take(end),
{
    let chosen = choose|e: int| is_scope_end(path, e);
    lemma_scope_end_unique(path, chosen, end);
}

/// Penalty for the size of a change: the sum of added and deleted lines falls
/// into one of four left-inclusive bands.
pub fn calculate_size_penalty(additions: u64, deletions: u64) -> (penalty: u8)
    ensures
        penalty == size_penalty_of((additions + deletions) as nat),
{
    let total: u64 = additions.saturating_add(deletions);
    if total < 100 {
        0
    } else if total < 300 {
        5
    } else if total < 500 {
        10
    } else {
        20
    }
}

/// Where the file name of `path` begins: after the last `/`, or at the start.
pub fn file_name_start(path: &[char]) -> (start: usize)
    ensures
        component_starts_at(path@, start as int),
        in_file_name(path@, start as int),
{
    let mut start: usize = path.len();
    while start > 0 && path[start - 1] != '/'
        invariant
            start <= path.len(),
            forall|k: int| start <= k < path.len() ==> path@[k] != '/',
        decreases start,
    {
        start -= 1;
    }
    start
}

/// Where the top-level segment of `path` ends.
pub fn scope_end(path: &[char]) -> (end: usize)
    ensures
        is_scope_end(path@, end as int),
{
    let mut end: usize = 0;
    while end < path.len() && path[end] != '/'
        invariant
            end <= path.len(),
            forall|k: int| 0 <= k < end ==> path@[k] != '/',
        decreases path.len() - end,
    {
        end += 1;
    }
    end
}

/// Tests whether some directory on the way to the file is called `name`.
pub fn path_has_directory(path: &[char], name: &str) -> (found: bool)
    ensures
        found == has_directory(path@, name@),
{
    let mut needle = chars_of(name);
    needle.push('/');
    let mut at: usize = 0;
    while at < path.len()
        invariant
            at <= path.len(),
            needle@ == name@.push('/'),
            forall|j: int|
                0 <= j < at ==> !(component_starts_at(path@, j) && occurs_at(path@, needle@, j)),
        decreases path.len() - at,
    {
        if (at == 0 || path[at - 1] == '/') && matches_at(path, needle.as_slice(), at) {
            assert(component_starts_at(path@, at as int) && occurs_at(
                path@,
                name@.push('/'),
                at as int,
            ));
            return true;
        }
        at += 1;
    }
    false
}

/// Tests whether `path` names a test.
pub fn path_is_test(path: &[char]) -> (found: bool)
    ensures
        found == is_test_path(path@),
{
    if path_has_directory(path, "tests") || path_has_directory(path, "__tests__") {
        return true;
    }
    let start = file_name_start(path);
    let infix = chars_of(".test.");
    let prefix = chars_of("test_");
    let suffix = chars_of("_test");
    proof {
        lemma_file_name_positions(path@, start as int);
    }
    if matches_at(path, prefix.as_slice(), start) {
        assert(component_starts_at(path@, start as int) && in_file_name(path@, start as int)
            && occurs_at(path@, "test_"@, start as int));
        return true;
    }
    let mut at: usize = start;
    while at < path.len()
        invariant
            start <= at <= path.len(),
            infix@ == ".test."@,
            suffix@ == "_test"@,
            forall|j: int| in_file_name(path@, j) <==> start <= j <= path@.len(),
            forall|j: int|
                start <= j < at ==> !occurs_at(path@, infix@, j) && !(occurs_at(path@, suffix@, j)
                    && (j + suffix@.len() == path@.len() || path@[j + suffix@.len()] == '.')),
        decreases path.len() - at,
    {
        if matches_at(path, infix.as_slice(), at) {
            assert(in_file_name(path@, at as int) && occurs_at(path@, ".test."@, at as int));
            return true;
        }
        if matches_at(path, suffix.as_slice(), at) {
            let after: usize = at + suffix.len();
            if after == path.len() || path[after] == '.' {
                assert(in_file_name(path@, at as int) && occurs_at(path@, "_test"@, at as int));
                return true;
            }
        }
        at += 1;
    }
    proof {
        reveal_strlit(".test.");
        reveal_strlit("_test");
        assert(!file_name_starts_with(path@, "test_"@));
    }
    false
}

/// The positions inside the file name are those from its start on.
pub proof fn lemma_file_name_positions(path: Seq<char>, start: int)
    requires
        component_starts_at(path, start),
        in_file_name(path, start),
    ensures
        forall|j: int| in_file_name(path, j) <==> start <= j <= path.len(),
{
}

/// Tests whether the change touches at least one test.
pub fn has_tests(files: &[String]) -> (found: bool)
    ensures
        found == any_test_path(files.deep_view()),
{
    let mut i: usize = 0;
    while i < files.len()
        invariant
            i <= files.len(),
            forall|j: int| 0 <= j < i ==> !is_test_path(#[trigger] files.deep_view()[j]),
        decreases files.len() - i,
    {
        let path = chars_of(files[i].as_str());
        assert(path@ == files.deep_view()[i as int]);
        if path_is_test(path.as_slice()) {
            return true;
        }
        i += 1;
    }
    false
}

/// Tests whether two texts agree on their first `a_end` and `b_end`
/// characters.
pub fn same_prefix(a: &[char], a_end: usize, b: &[char], b_end: usize) -> (same: bool)
    requires
        a_end <= a.len(),
        b_end <= b.len(),
    ensures
        same == (a@.take(a_end as int) == b@.take(b_end as int)),
{
    if a_end != b_end {
        assert(a@.take(a_end as int).len() != b@.take(b_end as int).len());
        return false;
    }
    let mut k: usize = 0;
    while k < a_end
        invariant
            k <= a_end,
            a_end == b_end,
            a_end <= a.len(),
            b_end <= b.len(),
            forall|j: int| 0 <= j < k ==> a@[j] == b@[j],
        decreases a_end - k,
    {
        if a[k] != b[k] {
            assert(a@.take(a_end as int)[k as int] != b@.take(b_end as int)[k as int]);
            return false;
        }
        k += 1;
    }
    assert(a@.take(a_end as int) =~= b@.take(b_end as int));
    true
}

/// Tests whether every changed path lies under the same top-level segment.
/// No paths at all count as one scope.
pub fn is_single_scope(files: &[String]) -> (single: bool)
    ensures
        single == single_scope(files.deep_view()),
{
    if files.len() == 0 {
        return true;
    }
    let first = chars_of(files[0].as_str());
    let first_end = scope_end(first.as_slice());
    proof {
        lemma_top_level(first@, first_end as int);
    }
    let mut i: usize = 1;
    while i < files.len()
        invariant
            1 <= i <= files.len(),
            first_end <= first.len(),
            top_level(files.deep_view()[0]) == first@.take(first_end as int),
            forall|j: int|
                0 <= j < i ==> top_level(#[trigger] files.deep_view()[j]) == top_level(
                    files.deep_view()[0],
                ),
        decreases files.len() - i,
    {
        let path = chars_of(files[i].as_str());
        let end = scope_end(path.as_slice());
        proof {
            lemma_top_level(path@, end as int);
            assert(path@ == files.deep_view()[i as int]);
        }
        if !same_prefix(first.as_slice(), first_end, path.as_slice(), end) {
            return false;
        }
        i += 1;
    }
    true
}

} // verus!
