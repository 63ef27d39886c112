//! What a prompt and a command line decide from the text that they are given.

use crate::text::chars_of;
use vstd::prelude::*;

verus! {

/// The depth of open braces after one more character: an opening brace adds
/// one, a closing brace takes one; both stop at the ends of the 32-bit range.
pub open spec fn depth_after(depth: int, c: char) -> int {
    if c == '{' && depth < i32::MAX {
        depth + 1
    } else if c == '}' && depth > i32::MIN {
        depth - 1
    } else {
        depth
    }
}

/// The depth of open braces after the first `k` characters of a text.
pub open spec fn depth_at(depth: int, text: Seq<char>, k: nat) -> int
    decreases k,
{
    if k == 0 {
        depth
    } else {
        depth_after(depth_at(depth, text, (k - 1) as nat), text[k - 1])
    }
}

/// Whether `pattern` stands in `text` at the place `at`.
pub open spec fn stands_at(text: Seq<char>, pattern: Seq<char>, at: int) -> bool {
    0 <= at && at + pattern.len() <= text.len() && text.subrange(at, at + pattern.len()) == pattern
}

/// Whether `pattern` stands somewhere in `text`.
pub open spec fn holds(text: Seq<char>, pattern: Seq<char>) -> bool {
    exists|at: int| stands_at(text, pattern, at)
}

/// Whether a source names the entry function with its parentheses, and so is
/// taken for a whole program and not for statements.
pub open spec fn names_entry(source: Seq<char>) -> bool {
    holds(source, "blur()"@) || holds(source, "blur ()"@)
}

/// The depth of open braces after a line, which tells whether more input
/// belongs to what was typed.
pub fn brace_depth(depth: i32, line: &str) -> (r: i32)
    ensures
        r == depth_at(depth as int, line@, line@.len()),
{
    let text: Vec<char> = chars_of(line);
    let mut d: i32 = depth;
    let mut i: usize = 0;
    while i < text.len()
        invariant
            i <= text@.len(),
            text@ == line@,
            d == depth_at(depth as int, line@, i as nat),
        decreases text.len() - i,
    {
        let c: char = text[i];
        if c == '{' && d < i32::MAX {
            d = d + 1;
        } else if c == '}' && d > i32::MIN {
            d = d - 1;
        }
        i += 1;
    }
    d
}

/// Whether `pattern` stands in `text` at the place `at`.
pub fn matches_at(text: &Vec<char>, pattern: &Vec<char>, at: usize) -> (r: bool)
    requires
        at + pattern@.len() <= text@.len(),
    ensures
        r == stands_at(text@, pattern@, at as int),
{
    let n: usize = text.len();
    let mut i: usize = 0;
    while i < pattern.len()
        invariant
            i <= pattern@.len(),
            n == text@.len(),
            at + pattern@.len() <= text@.len(),
            forall|j: int| 0 <= j < i ==> text@[at + j] == pattern@[j],
        decreases pattern.len() - i,
    {
        if text[at + i] != pattern[i] {
            assert(text@.subrange(at as int, at + pattern@.len())[i as int] != pattern@[i as int]);
            return false;
        }
        i += 1;
    }
    assert(text@.subrange(at as int, at + pattern@.len()) =~= pattern@);
    true
}

/// Whether `pattern` stands somewhere in `text`.
pub fn contains(text: &str, pattern: &str) -> (r: bool)
    ensures
        r == holds(text@, pattern@),
{
    let t: Vec<char> = chars_of(text);
    let p: Vec<char> = chars_of(pattern);
    if p.len() > t.len() {
        assert forall|at: int| !stands_at(text@, pattern@, at) by {}
        return false;
    }
    let last: usize = t.len() - p.len();
    let mut at: usize = 0;
    while at <= last
        invariant
            at <= last + 1,
            last == t@.len() - p@.len(),
            t@.len() <= usize::MAX,
            t@ == text@,
            p@ == pattern@,
            forall|k: int| 0 <= k < at ==> !stands_at(text@, pattern@, k),
        decreases last + 1 - at,
    {
        if matches_at(&t, &p, at) {
            return true;
        }
        if at == last {
            assert forall|k: int| !stands_at(text@, pattern@, k) by {}
            return false;
        }
        at += 1;
    }
    assert forall|k: int| !stands_at(text@, pattern@, k) by {}
    false
}

/// Whether a source is taken for a whole program.
pub fn is_program(source: &str) -> (r: bool)
    ensures
        r == names_entry(source@),
{
    contains(source, "blur()") || contains(source, "blur ()")
}

} // verus!
