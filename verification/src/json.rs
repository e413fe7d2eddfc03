//! JSON tokens beyond numbers: whitespace, literals, strings, and the
//! skipping of arbitrary nested values.
//!
//! The recursive walkers carry an explicit step budget (`fuel`); the
//! top-level parsers hand them the length of the text, so that, like a
//! parser with a recursion limit, pathologically nested values are
//! rejected rather than recursed into without bound.

use vstd::prelude::*;
use crate::text::{is_ws, is_digit, ws, digit};
use crate::number::{spec_parse_number, parse_number};

verus! {

/// First index at or after `i` holding a non-whitespace character.
pub open spec fn spec_skip_ws(s: Seq<char>, i: int) -> int
    decreases s.len() - i,
{
    if 0 <= i < s.len() && is_ws(s[i]) {
        spec_skip_ws(s, i + 1)
    } else {
        i
    }
}

pub proof fn lemma_skip_ws_bounds(s: Seq<char>, i: int)
    requires
        0 <= i <= s.len(),
    ensures
        i <= spec_skip_ws(s, i) <= s.len(),
    decreases s.len() - i,
{
    if 0 <= i < s.len() && is_ws(s[i]) {
        lemma_skip_ws_bounds(s, i + 1);
    }
}

/// Hexadecimal digit.
pub open spec fn is_hex(c: char) -> bool {
    is_digit(c) || (97 <= c as u32 <= 102) || (65 <= c as u32 <= 70)
}

/// Value of a hexadecimal digit.
pub open spec fn hex_val(c: char) -> int {
    if is_digit(c) {
        c as u32 - 48
    } else if 97 <= c as u32 <= 102 {
        c as u32 - 87
    } else {
        c as u32 - 55
    }
}

/// Replacement for a single-character escape, if the escape is legal.
pub open spec fn spec_unescape1(e: char) -> Option<char> {
    if e == '"' {
        Some('"')
    } else if e == '\\' {
        Some('\\')
    } else if e == '/' {
        Some('/')
    } else if e == 'b' {
        Some('\u{0008}')
    } else if e == 'f' {
        Some('\u{000C}')
    } else if e == 'n' {
        Some('\n')
    } else if e == 'r' {
        Some('\r')
    } else if e == 't' {
        Some('\t')
    } else {
        None
    }
}

/// Value of the four hex digits at `i`.
pub open spec fn spec_hex4(s: Seq<char>, i: int) -> int {
    hex_val(s[i]) * 4096 + hex_val(s[i + 1]) * 256 + hex_val(s[i + 2]) * 16 + hex_val(s[i + 3])
}

/// Whether positions `i..i+4` hold hex digits.
pub open spec fn spec_hex4_ok(s: Seq<char>, i: int) -> bool {
    &&& i + 4 <= s.len()
    &&& is_hex(s[i])
    &&& is_hex(s[i + 1])
    &&& is_hex(s[i + 2])
    &&& is_hex(s[i + 3])
}

/// Parse the body of a JSON string, starting just after the opening quote:
/// the decoded characters and the index one past the closing quote.
/// Unicode escapes are accepted for code points up to `U+00FF`.
pub open spec fn spec_str_body(s: Seq<char>, i: int) -> Option<(Seq<char>, int)>
    decreases s.len() - i,
{
    if !(0 <= i < s.len()) {
        None
    } else {
        let c = s[i];
        if c == '"' {
            Some((Seq::<char>::empty(), i + 1))
        } else if c == '\\' {
            if i + 1 < s.len() {
                let e = s[i + 1];
                if e == 'u' {
                    if spec_hex4_ok(s, i + 2) && spec_hex4(s, i + 2) <= 0xFF {
                        match spec_str_body(s, i + 6) {
                            Option::Some((t, e2)) => Some(
                                (seq![(spec_hex4(s, i + 2) as u8) as char] + t, e2),
                            ),
                            Option::None => None,
                        }
                    } else {
                        None
                    }
                } else {
                    match spec_unescape1(e) {
                        Option::Some(u) => match spec_str_body(s, i + 2) {
                            Option::Some((t, e2)) => Some((seq![u] + t, e2)),
                            Option::None => None,
                        },
                        Option::None => None,
                    }
                }
            } else {
                None
            }
        } else if (c as u32) < 0x20 {
            None
        } else {
            match spec_str_body(s, i + 1) {
                Option::Some((t, e2)) => Some((seq![c] + t, e2)),
                Option::None => None,
            }
        }
    }
}

pub proof fn lemma_str_body_bounds(s: Seq<char>, i: int)
    requires
        0 <= i,
    ensures
        match spec_str_body(s, i) {
            Option::Some((t, e)) => i < e <= s.len(),
            Option::None => true,
        },
    decreases s.len() - i,
{
    if 0 <= i < s.len() {
        let c = s[i];
        if c == '\\' && i + 1 < s.len() {
            if s[i + 1] == 'u' {
                if spec_hex4_ok(s, i + 2) {
                    lemma_str_body_bounds(s, i + 6);
                }
            } else {
                lemma_str_body_bounds(s, i + 2);
            }
        } else if c != '"' {
            lemma_str_body_bounds(s, i + 1);
        }
    }
}

/// `true` spelled at `i`.
pub open spec fn spec_lit_true(s: Seq<char>, i: int) -> bool {
    i + 4 <= s.len() && s[i] == 't' && s[i + 1] == 'r' && s[i + 2] == 'u' && s[i + 3] == 'e'
}

/// `false` spelled at `i`.
pub open spec fn spec_lit_false(s: Seq<char>, i: int) -> bool {
    i + 5 <= s.len() && s[i] == 'f' && s[i + 1] == 'a' && s[i + 2] == 'l' && s[i + 3] == 's' && s[i
        + 4] == 'e'
}

/// `null` spelled at `i`.
pub open spec fn spec_lit_null(s: Seq<char>, i: int) -> bool {
    i + 4 <= s.len() && s[i] == 'n' && s[i + 1] == 'u' && s[i + 2] == 'l' && s[i + 3] == 'l'
}

/// Index one past the JSON value starting at `i`, spending one unit of
/// `fuel` per recursive step.
pub open spec fn spec_skip_value(s: Seq<char>, i: int, fuel: nat) -> Option<int>
    decreases fuel,
{
    if fuel == 0 {
        None
    } else if !(0 <= i < s.len()) {
        None
    } else {
        let c = s[i];
        if c == '{' {
            spec_skip_object_body(s, spec_skip_ws(s, i + 1), (fuel - 1) as nat)
        } else if c == '[' {
            spec_skip_array_body(s, spec_skip_ws(s, i + 1), (fuel - 1) as nat)
        } else if c == '"' {
            match spec_str_body(s, i + 1) {
                Option::Some((t, e)) => Some(e),
                Option::None => None,
            }
        } else if c == '-' || is_digit(c) {
            match spec_parse_number(s, i) {
                Option::Some((val, e)) => Some(e),
                Option::None => None,
            }
        } else if spec_lit_true(s, i) {
            Some(i + 4)
        } else if spec_lit_false(s, i) {
            Some(i + 5)
        } else if spec_lit_null(s, i) {
            Some(i + 4)
        } else {
            None
        }
    }
}

/// After `{` and whitespace: either `}` or a run of members.
pub open spec fn spec_skip_object_body(s: Seq<char>, i: int, fuel: nat) -> Option<int>
    decreases fuel,
{
    if fuel == 0 {
        None
    } else if !(0 <= i < s.len()) {
        None
    } else if s[i] == '}' {
        Some(i + 1)
    } else {
        spec_skip_members(s, i, (fuel - 1) as nat)
    }
}

/// A run of `"key": value` members, starting at a key, ending at `}`.
pub open spec fn spec_skip_members(s: Seq<char>, i: int, fuel: nat) -> Option<int>
    decreases fuel,
{
    if fuel == 0 {
        None
    } else if !(0 <= i < s.len() && s[i] == '"') {
        None
    } else {
        match spec_str_body(s, i + 1) {
            Option::None => None,
            Option::Some((key, e1)) => {
                let j = spec_skip_ws(s, e1);
                if !(j < s.len() && s[j] == ':') {
                    None
                } else {
                    let k = spec_skip_ws(s, j + 1);
                    match spec_skip_value(s, k, (fuel - 1) as nat) {
                        Option::None => None,
                        Option::Some(e2) => {
                            let l = spec_skip_ws(s, e2);
                            if l < s.len() && s[l] == ',' {
                                spec_skip_members(s, spec_skip_ws(s, l + 1), (fuel - 1) as nat)
                            } else if l < s.len() && s[l] == '}' {
                                Some(l + 1)
                            } else {
                                None
                            }
                        },
                    }
                }
            },
        }
    }
}

/// After `[` and whitespace: either `]` or a run of elements.
pub open spec fn spec_skip_array_body(s: Seq<char>, i: int, fuel: nat) -> Option<int>
    decreases fuel,
{
    if fuel == 0 {
        None
    } else if !(0 <= i < s.len()) {
        None
    } else if s[i] == ']' {
        Some(i + 1)
    } else {
        spec_skip_elements(s, i, (fuel - 1) as nat)
    }
}

/// A run of array elements, starting at a value, ending at `]`.
pub open spec fn spec_skip_elements(s: Seq<char>, i: int, fuel: nat) -> Option<int>
    decreases fuel,
{
    if fuel == 0 {
        None
    } else {
        match spec_skip_value(s, i, (fuel - 1) as nat) {
            Option::None => None,
            Option::Some(e) => {
                let l = spec_skip_ws(s, e);
                if l < s.len() && s[l] == ',' {
                    spec_skip_elements(s, spec_skip_ws(s, l + 1), (fuel - 1) as nat)
                } else if l < s.len() && s[l] == ']' {
                    Some(l + 1)
                } else {
                    None
                }
            },
        }
    }
}

/// First non-whitespace position at or after `i`.
pub fn skip_ws(v: &Vec<char>, i: usize) -> (r: usize)
    requires
        i <= v@.len(),
    ensures
        r == spec_skip_ws(v@, i as int),
        i <= r <= v@.len(),
{
    let n = v.len();
    let mut k: usize = i;
    while k < n && ws(v[k])
        invariant
            i <= k <= n,
            n == v@.len(),
            spec_skip_ws(v@, i as int) == spec_skip_ws(v@, k as int),
        decreases n - k,
    {
        k = k + 1;
    }
    k
}

/// Hexadecimal digit test.
pub fn hex(c: char) -> (r: bool)
    ensures
        r == is_hex(c),
{
    let u = c as u32;
    (48 <= u && u <= 57) || (97 <= u && u <= 102) || (65 <= u && u <= 70)
}

/// Hexadecimal digit value.
pub fn hex_digit_val(c: char) -> (r: u32)
    requires
        is_hex(c),
    ensures
        r == hex_val(c),
        r <= 15,
{
    let u = c as u32;
    if 48 <= u && u <= 57 {
        u - 48
    } else if 97 <= u && u <= 102 {
        u - 87
    } else {
        u - 55
    }
}

/// Decode a string body per `spec_str_body`.
pub fn parse_str_body(v: &Vec<char>, i: usize) -> (r: Option<(Vec<char>, usize)>)
    requires
        i <= v@.len(),
    ensures
        match r {
            Option::Some((t, e)) => {
                &&& spec_str_body(v@, i as int) == Some((t@, e as int))
                &&& i < e <= v@.len()
            },
            Option::None => spec_str_body(v@, i as int).is_none(),
        },
{
    let n = v.len();
    let mut acc: Vec<char> = Vec::new();
    let mut k: usize = i;
    proof {
        lemma_str_body_bounds(v@, i as int);
        if let Option::Some((t0, e0)) = spec_str_body(v@, i as int) {
            assert(Seq::<char>::empty() + t0 =~= t0);
        }
    }
    loop
        invariant
            i <= k <= n,
            n == v@.len(),
            (match spec_str_body(v@, k as int) {
                Option::Some((t, e)) => spec_str_body(v@, i as int) == Some((acc@ + t, e)) && k < e
                    <= n,
                Option::None => spec_str_body(v@, i as int).is_none(),
            }),
        decreases n - k,
    {
        proof {
            lemma_str_body_bounds(v@, k as int);
        }
        if k >= n {
            return None;
        }
        let c = v[k];
        if c == '"' {
            proof {
                assert(acc@ + Seq::<char>::empty() =~= acc@);
            }
            return Some((acc, k + 1));
        } else if c == '\\' {
            if k + 1 >= n {
                return None;
            }
            let e = v[k + 1];
            if e == 'u' {
                if n - k < 6 {
                    return None;
                }
                let h0 = v[k + 2];
                let h1 = v[k + 3];
                let h2 = v[k + 4];
                let h3 = v[k + 5];
                if !(hex(h0) && hex(h1) && hex(h2) && hex(h3)) {
                    return None;
                }
                let code = hex_digit_val(h0) * 4096 + hex_digit_val(h1) * 256 + hex_digit_val(h2)
                    * 16 + hex_digit_val(h3);
                if code > 0xFF {
                    return None;
                }
                let u = (code as u8) as char;
                proof {
                    lemma_str_body_bounds(v@, k as int + 6);
                    if let Option::Some((t2, e2)) = spec_str_body(v@, k as int + 6) {
                        assert(acc@ + (seq![u] + t2) =~= (acc@ + seq![u]) + t2);
                    }
                }
                acc.push(u);
                k = k + 6;
            } else {
                let u: char = if e == '"' {
                    '"'
                } else if e == '\\' {
                    '\\'
                } else if e == '/' {
                    '/'
                } else if e == 'b' {
                    '\u{0008}'
                } else if e == 'f' {
                    '\u{000C}'
                } else if e == 'n' {
                    '\n'
                } else if e == 'r' {
                    '\r'
                } else if e == 't' {
                    '\t'
                } else {
                    return None;
                };
                proof {
                    lemma_str_body_bounds(v@, k as int + 2);
                    if let Option::Some((t2, e2)) = spec_str_body(v@, k as int + 2) {
                        assert(acc@ + (seq![u] + t2) =~= (acc@ + seq![u]) + t2);
                    }
                }
                acc.push(u);
                k = k + 2;
            }
        } else if (c as u32) < 0x20 {
            return None;
        } else {
            proof {
                lemma_str_body_bounds(v@, k as int + 1);
                if let Option::Some((t2, e2)) = spec_str_body(v@, k as int + 1) {
                    assert(acc@ + (seq![c] + t2) =~= (acc@ + seq![c]) + t2);
                }
            }
            acc.push(c);
            k = k + 1;
        }
    }
}

/// Skip one JSON value per `spec_skip_value`.
pub fn skip_value(v: &Vec<char>, i: usize, fuel: usize) -> (r: Option<usize>)
    requires
        i <= v@.len(),
    ensures
        match r {
            Option::Some(e) => spec_skip_value(v@, i as int, fuel as nat) == Some(e as int) && i
                < e <= v@.len(),
            Option::None => spec_skip_value(v@, i as int, fuel as nat).is_none(),
        },
    decreases fuel,
{
    if fuel == 0 {
        return None;
    }
    let n = v.len();
    if i >= n {
        return None;
    }
    let c = v[i];
    if c == '{' {
        let j = skip_ws(v, i + 1);
        skip_object_body(v, j, fuel - 1)
    } else if c == '[' {
        let j = skip_ws(v, i + 1);
        skip_array_body(v, j, fuel - 1)
    } else if c == '"' {
        match parse_str_body(v, i + 1) {
            Option::Some((_t, e)) => Some(e),
            Option::None => None,
        }
    } else if c == '-' || digit(c) {
        match parse_number(v, i) {
            Option::Some((_val, e)) => Some(e),
            Option::None => None,
        }
    } else if c == 't' && n - i >= 4 && v[i + 1] == 'r' && v[i + 2] == 'u' && v[i + 3] == 'e' {
        Some(i + 4)
    } else if c == 'f' && n - i >= 5 && v[i + 1] == 'a' && v[i + 2] == 'l' && v[i + 3] == 's' && v[i
        + 4] == 'e' {
        Some(i + 5)
    } else if c == 'n' && n - i >= 4 && v[i + 1] == 'u' && v[i + 2] == 'l' && v[i + 3] == 'l' {
        Some(i + 4)
    } else {
        proof {
            assert(!spec_lit_true(v@, i as int));
            assert(!spec_lit_false(v@, i as int));
            assert(!spec_lit_null(v@, i as int));
        }
        None
    }
}

/// Skip an object body per `spec_skip_object_body`.
pub fn skip_object_body(v: &Vec<char>, i: usize, fuel: usize) -> (r: Option<usize>)
    requires
        i <= v@.len(),
    ensures
        match r {
            Option::Some(e) => spec_skip_object_body(v@, i as int, fuel as nat) == Some(e as int)
                && i < e <= v@.len(),
            Option::None => spec_skip_object_body(v@, i as int, fuel as nat).is_none(),
        },
    decreases fuel,
{
    if fuel == 0 {
        return None;
    }
    let n = v.len();
    if i >= n {
        return None;
    }
    if v[i] == '}' {
        Some(i + 1)
    } else {
        skip_members(v, i, fuel - 1)
    }
}

/// Skip a run of members per `spec_skip_members`.
pub fn skip_members(v: &Vec<char>, i: usize, fuel: usize) -> (r: Option<usize>)
    requires
        i <= v@.len(),
    ensures
        match r {
            Option::Some(e) => spec_skip_members(v@, i as int, fuel as nat) == Some(e as int) && i
                < e <= v@.len(),
            Option::None => spec_skip_members(v@, i as int, fuel as nat).is_none(),
        },
    decreases fuel,
{
    if fuel == 0 {
        return None;
    }
    let n = v.len();
    if !(i < n && v[i] == '"') {
        return None;
    }
    match parse_str_body(v, i + 1) {
        Option::None => None,
        Option::Some((_key, e1)) => {
            let j = skip_ws(v, e1);
            if !(j < n && v[j] == ':') {
                return None;
            }
            let k = skip_ws(v, j + 1);
            match skip_value(v, k, fuel - 1) {
                Option::None => None,
                Option::Some(e2) => {
                    let l = skip_ws(v, e2);
                    if l < n && v[l] == ',' {
                        let m = skip_ws(v, l + 1);
                        skip_members(v, m, fuel - 1)
                    } else if l < n && v[l] == '}' {
                        Some(l + 1)
                    } else {
                        None
                    }
                },
            }
        },
    }
}

/// Skip an array body per `spec_skip_array_body`.
pub fn skip_array_body(v: &Vec<char>, i: usize, fuel: usize) -> (r: Option<usize>)
    requires
        i <= v@.len(),
    ensures
        match r {
            Option::Some(e) => spec_skip_array_body(v@, i as int, fuel as nat) == Some(e as int)
                && i < e <= v@.len(),
            Option::None => spec_skip_array_body(v@, i as int, fuel as nat).is_none(),
        },
    decreases fuel,
{
    if fuel == 0 {
        return None;
    }
    let n = v.len();
    if i >= n {
        return None;
    }
    if v[i] == ']' {
        Some(i + 1)
    } else {
        skip_elements(v, i, fuel - 1)
    }
}

/// Skip a run of array elements per `spec_skip_elements`.
pub fn skip_elements(v: &Vec<char>, i: usize, fuel: usize) -> (r: Option<usize>)
    requires
        i <= v@.len(),
    ensures
        match r {
            Option::Some(e) => spec_skip_elements(v@, i as int, fuel as nat) == Some(e as int) && i
                < e <= v@.len(),
            Option::None => spec_skip_elements(v@, i as int, fuel as nat).is_none(),
        },
    decreases fuel,
{
    if fuel == 0 {
        return None;
    }
    match skip_value(v, i, fuel - 1) {
        Option::None => None,
        Option::Some(e) => {
            let n = v.len();
            let l = skip_ws(v, e);
            if l < n && v[l] == ',' {
                let m = skip_ws(v, l + 1);
                skip_elements(v, m, fuel - 1)
            } else if l < n && v[l] == ']' {
                Some(l + 1)
            } else {
                None
            }
        },
    }
}

} // verus!
