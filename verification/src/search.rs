//! Small search helpers over lines of text: find the first line containing a
//! pattern, by index or by value, plus a tuple transposition.

use vstd::prelude::*;
use crate::text::{contains_seq, str_contains};

verus! {

/// No line before position `i` contains the pattern.
pub open spec fn no_match_before(lines: Seq<&str>, pattern: Seq<char>, i: int) -> bool {
    forall|j: int| 0 <= j < i ==> !contains_seq(lines[j]@, pattern)
}

/// Position `i` holds the first line containing the pattern.
pub open spec fn is_first_match(lines: Seq<&str>, pattern: Seq<char>, i: int) -> bool {
    &&& 0 <= i < lines.len()
    &&& contains_seq(lines[i]@, pattern)
    &&& no_match_before(lines, pattern, i)
}

/// Find the index of the first line containing the pattern, writing it to
/// `idx`; when no line contains it, write `usize::MAX`.
pub fn search_pattern_for(pattern: &str, lines: &[&str], idx: &mut usize)
    ensures
        no_match_before(lines@, pattern@, lines@.len() as int) ==> *final(idx) == usize::MAX,
        !no_match_before(lines@, pattern@, lines@.len() as int) ==> is_first_match(
            lines@,
            pattern@,
            *final(idx) as int,
        ),
{
    let n = lines.len();
    let mut i: usize = 0;
    while i < n
        invariant
            n == lines@.len(),
            i <= n,
            no_match_before(lines@, pattern@, i as int),
        decreases n - i,
    {
        if str_contains(lines[i], pattern) {
            *idx = i;
            return;
        }
        i += 1;
    }
    *idx = usize::MAX;
}

/// The same search as `search_pattern_for`, returning the index instead of
/// writing it through a reference.
pub fn search_pattern_iter(pattern: &str, lines: &[&str]) -> (idx: usize)
    ensures
        no_match_before(lines@, pattern@, lines@.len() as int) ==> idx == usize::MAX,
        !no_match_before(lines@, pattern@, lines@.len() as int) ==> is_first_match(
            lines@,
            pattern@,
            idx as int,
        ),
{
    let n = lines.len();
    let mut i: usize = 0;
    while i < n
        invariant
            n == lines@.len(),
            i <= n,
            no_match_before(lines@, pattern@, i as int),
        decreases n - i,
    {
        if str_contains(lines[i], pattern) {
            return i;
        }
        i += 1;
    }
    usize::MAX
}

/// The first line containing the pattern, as an owned string; nothing when
/// no line contains it.
pub fn return_match(pattern: &str, lines: Vec<&str>) -> (r: Option<String>)
    ensures
        match r {
            Some(s) => exists|i: int| is_first_match(lines@, pattern@, i) && s@ == lines@[i]@,
            None => no_match_before(lines@, pattern@, lines@.len() as int),
        },
{
    let n = lines.len();
    let mut i: usize = 0;
    while i < n
        invariant
            n == lines@.len(),
            i <= n,
            no_match_before(lines@, pattern@, i as int),
        decreases n - i,
    {
        if str_contains(lines[i], pattern) {
            let s = lines[i].to_owned();
            proof {
                assert(is_first_match(lines@, pattern@, i as int) && s@ == lines@[i as int]@);
            }
            return Some(s);
        }
        i += 1;
    }
    None
}

/// The first line containing the pattern, borrowed from the given lines;
/// nothing when no line contains it.
pub fn return_match_borrow<'a>(pattern: &str, lines: &'a Vec<&str>) -> (r: Option<&'a str>)
    ensures
        match r {
            Some(s) => exists|i: int| is_first_match(lines@, pattern@, i) && s@ == lines@[i]@,
            None => no_match_before(lines@, pattern@, lines@.len() as int),
        },
{
    let n = lines.len();
    let mut i: usize = 0;
    while i < n
        invariant
            n == lines@.len(),
            i <= n,
            no_match_before(lines@, pattern@, i as int),
        decreases n - i,
    {
        if str_contains(lines[i], pattern) {
            let s = lines[i];
            proof {
                assert(is_first_match(lines@, pattern@, i as int) && s@ == lines@[i as int]@);
            }
            return Some(s);
        }
        i += 1;
    }
    None
}

/// Swap the two components of a point.
pub fn transpose(p: &(i32, i32)) -> (r: (i32, i32))
    ensures
        r == (p.1, p.0),
{
    (p.1, p.0)
}

} // verus!
