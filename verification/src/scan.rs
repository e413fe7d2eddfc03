//! Locating the first JSON object inside free-form text.
//!
//! An AI reply may wrap its JSON object in prose or fenced code blocks.  The
//! scanner finds the first `{`, then walks forward tracking brace depth while
//! ignoring braces inside string literals (an unescaped `"` toggles the
//! in-string flag, and the character after a backslash inside a string is
//! skipped), and reports the position where the depth returns to zero.

use vstd::prelude::*;

verus! {

/// Index of the first `{` at or after `i`, if any.
pub open spec fn spec_find_open(s: Seq<char>, i: int) -> Option<int>
    decreases s.len() - i,
{
    if i < 0 || i >= s.len() {
        None
    } else if s[i] == '{' {
        Some(i)
    } else {
        spec_find_open(s, i + 1)
    }
}

/// Index of the character that closes the object opened before position `i`,
/// given the scanner state at `i`: current brace depth, whether the scan is
/// inside a string literal, and whether the previous character was an
/// unconsumed backslash inside a string.
pub open spec fn spec_scan_close(s: Seq<char>, i: int, depth: int, in_str: bool, esc: bool) -> Option<int>
    decreases s.len() - i,
{
    if i < 0 || i >= s.len() {
        None
    } else {
        let c = s[i];
        if esc {
            spec_scan_close(s, i + 1, depth, in_str, false)
        } else if in_str && c == '\\' {
            spec_scan_close(s, i + 1, depth, in_str, true)
        } else if c == '"' {
            spec_scan_close(s, i + 1, depth, !in_str, false)
        } else if in_str {
            spec_scan_close(s, i + 1, depth, in_str, false)
        } else {
            let d = if c == '{' {
                depth + 1
            } else if c == '}' {
                depth - 1
            } else {
                depth
            };
            if d == 0 {
                Some(i)
            } else {
                spec_scan_close(s, i + 1, d, in_str, false)
            }
        }
    }
}

/// Where the candidate JSON object of `s` lies: the first `{` and the
/// position where its brace depth returns to zero.
pub open spec fn spec_candidate(s: Seq<char>) -> Option<(int, int)> {
    match spec_find_open(s, 0) {
        Option::None => None,
        Option::Some(st) => match spec_scan_close(s, st, 0, false, false) {
            Option::None => None,
            Option::Some(e) => Some((st, e)),
        },
    }
}

/// First `{` at or after position `from`.
pub fn find_open(v: &Vec<char>, from: usize) -> (r: Option<usize>)
    requires
        from <= v@.len(),
    ensures
        match r {
            Option::Some(j) => from <= j < v@.len() && spec_find_open(v@, from as int) == Some(j as int),
            Option::None => spec_find_open(v@, from as int).is_none(),
        },
{
    let n = v.len();
    let mut i: usize = from;
    while i < n
        invariant
            from <= i <= n,
            n == v@.len(),
            spec_find_open(v@, from as int) == spec_find_open(v@, i as int),
        decreases n - i,
    {
        if v[i] == '{' {
            return Some(i);
        }
        i = i + 1;
    }
    None
}

/// Walk from the opening brace at `st` and report the index of the matching
/// close, with braces inside string literals ignored.
pub fn scan_close(v: &Vec<char>, st: usize) -> (r: Option<usize>)
    requires
        st < v@.len(),
    ensures
        match r {
            Option::Some(e) => st <= e < v@.len() && spec_scan_close(v@, st as int, 0, false, false) == Some(e as int),
            Option::None => spec_scan_close(v@, st as int, 0, false, false).is_none(),
        },
{
    let n = v.len();
    let mut i: usize = st;
    let mut depth: i128 = 0;
    let mut in_str: bool = false;
    let mut esc: bool = false;
    while i < n
        invariant
            st <= i <= n,
            n == v@.len(),
            -(i - st) - 1 <= depth <= i - st + 1,
            spec_scan_close(v@, st as int, 0, false, false) == spec_scan_close(
                v@,
                i as int,
                depth as int,
                in_str,
                esc,
            ),
        decreases n - i,
    {
        let c = v[i];
        if esc {
            esc = false;
        } else if in_str && c == '\\' {
            esc = true;
        } else if c == '"' {
            in_str = !in_str;
        } else if in_str {
            // character inside a string literal: no effect on depth
        } else {
            if c == '{' {
                depth = depth + 1;
            } else if c == '}' {
                depth = depth - 1;
            }
            if depth == 0 {
                return Some(i);
            }
        }
        i = i + 1;
    }
    None
}

} // verus!
