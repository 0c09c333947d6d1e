//! Small verified helpers on strings, stated over their views as sequences of
//! characters.

use vstd::prelude::*;
use vstd::std_specs::iter::IteratorSpec;
use vstd::string::*;

verus! {

/// The characters of `text`, for looking at them by position.
pub fn characters(text: &str) -> (r: Vec<char>)
    ensures
        r@ == text@,
{
    let mut out: Vec<char> = Vec::new();
    for c in rest: text.chars()
        invariant
            out@ == rest.seq().take(rest.index() as int),
            rest.seq() == text@,
    {
        out.push(c);
        assert(out@ =~= rest.seq().take(rest.index() + 1));
    }
    assert(out@ =~= text@);
    out
}

/// Whether two string slices hold the same characters.
pub fn same_text(a: &str, b: &str) -> (r: bool)
    ensures
        r == (a@ == b@),
{
    let left: String = a.to_owned();
    let right: String = b.to_owned();
    left == right
}

/// `a` followed by `b`.
pub fn concat2(a: &str, b: &str) -> (r: String)
    ensures
        r@ == a@ + b@,
{
    let mut out: String = a.to_owned();
    out.append(b);
    out
}

/// `a`, `b` and `c` in a row.
pub fn concat3(a: &str, b: &str, c: &str) -> (r: String)
    ensures
        r@ == a@ + b@ + c@,
{
    let mut out: String = a.to_owned();
    out.append(b);
    out.append(c);
    out
}

/// Whether `s` ends with `tail`.
pub open spec fn ends_with(s: Seq<char>, tail: Seq<char>) -> bool {
    tail.is_suffix_of(s)
}

/// Whether `s` starts with `head`.
pub open spec fn starts_with(s: Seq<char>, head: Seq<char>) -> bool {
    head.is_prefix_of(s)
}

/// Whether `pattern` occurs in `s` as a contiguous part.
pub open spec fn contains_text(s: Seq<char>, pattern: Seq<char>) -> bool {
    exists|at: int| occurs_at(s, pattern, at)
}

/// Whether `pattern` stands in `s` at position `at`.
pub open spec fn occurs_at(s: Seq<char>, pattern: Seq<char>, at: int) -> bool {
    0 <= at && at + pattern.len() <= s.len() && s.subrange(at, at + pattern.len()) == pattern
}

/// Whether `text` ends with `tail`.
pub fn has_suffix(text: &str, tail: &str) -> (r: bool)
    ensures
        r == ends_with(text@, tail@),
{
    let n: usize = text.unicode_len();
    let m: usize = tail.unicode_len();
    if m > n {
        return false;
    }
    same_text(text.substring_char(n - m, n), tail)
}

/// Whether `text` starts with `head`.
pub fn has_prefix(text: &str, head: &str) -> (r: bool)
    ensures
        r == starts_with(text@, head@),
{
    let n: usize = text.unicode_len();
    let m: usize = head.unicode_len();
    if m > n {
        return false;
    }
    same_text(text.substring_char(0, m), head)
}

/// Whether `pattern` stands in `text` at position `at`.
fn found_at(text: &Vec<char>, pattern: &Vec<char>, at: usize) -> (r: bool)
    requires
        at + pattern.len() <= text.len(),
    ensures
        r == occurs_at(text@, pattern@, at as int),
{
    let ghost part = text@.subrange(at as int, at + pattern.len());
    let mut k: usize = 0;
    while k < pattern.len()
        invariant
            k <= pattern.len(),
            at + pattern.len() <= text.len(),
            part == text@.subrange(at as int, at + pattern.len()),
            forall|j: int| 0 <= j < k ==> part[j] == pattern@[j],
        decreases pattern.len() - k,
    {
        if text[at + k] != pattern[k] {
            assert(part[k as int] != pattern@[k as int]);
            return false;
        }
        k += 1;
    }
    assert(part =~= pattern@);
    true
}

/// Whether `pattern` occurs in `text`.
pub fn contains(text: &str, pattern: &str) -> (r: bool)
    ensures
        r == contains_text(text@, pattern@),
{
    let within: Vec<char> = characters(text);
    let sought: Vec<char> = characters(pattern);
    let n: usize = within.len();
    let m: usize = sought.len();
    if m > n {
        assert(forall|at: int| !occurs_at(text@, pattern@, at));
        return false;
    }
    let last: usize = n - m;
    let mut i: usize = 0;
    loop
        invariant
            within@ == text@,
            sought@ == pattern@,
            n == within.len(),
            m == sought.len(),
            m <= n,
            last == n - m,
            i <= last,
            forall|at: int| 0 <= at < i ==> !occurs_at(text@, pattern@, at),
        decreases last - i,
    {
        if found_at(&within, &sought, i) {
            return true;
        }
        if i == last {
            assert(forall|at: int| !occurs_at(text@, pattern@, at));
            return false;
        }
        i += 1;
    }
}

} // verus!
