//! JSON number grammar and its fixed-point value.
//!
//! A number is `-? int frac? exp?` as in JSON, with two crate-specific
//! bounds: at most 25 mantissa digits and at most 3 exponent digits.  Its
//! value is truncated to micro-units and saturated into
//! `[-FIXED_SAT, FIXED_SAT]`.

use vstd::prelude::*;
use crate::fixed::FIXED_SAT;
use crate::text::{is_digit, digit_val, digit};

verus! {

/// Ten to the `n`.
pub open spec fn pow10(n: nat) -> int
    decreases n,
{
    if n == 0 {
        1
    } else {
        10 * pow10((n - 1) as nat)
    }
}

/// First index at or after `i` that does not hold a digit.
pub open spec fn spec_digits_end(s: Seq<char>, i: int) -> int
    decreases s.len() - i,
{
    if 0 <= i < s.len() && is_digit(s[i]) {
        spec_digits_end(s, i + 1)
    } else {
        i
    }
}

/// Value of the digit run `s[i..j)`.
pub open spec fn spec_digits_val(s: Seq<char>, i: int, j: int) -> int
    decreases j - i,
{
    if i < j {
        spec_digits_val(s, i, j - 1) * 10 + digit_val(s[j - 1])
    } else {
        0
    }
}

/// Micro-unit value of the decimal `(-1)^neg * m * 10^e`, truncated toward
/// zero and saturated into the fixed-point band.
pub open spec fn spec_micro_of(neg: bool, m: int, e: int) -> int {
    if m == 0 {
        0
    } else {
        let shift = e + 6;
        let mag = if shift >= 0 {
            m * pow10(shift as nat)
        } else {
            m / pow10((-shift) as nat)
        };
        let magc = if mag > FIXED_SAT {
            FIXED_SAT as int
        } else {
            mag
        };
        if neg {
            -magc
        } else {
            magc
        }
    }
}

/// Parse a JSON number starting at `i`: its micro-unit value and the index
/// one past its last character.
pub open spec fn spec_parse_number(s: Seq<char>, i: int) -> Option<(int, int)> {
    let neg = 0 <= i < s.len() && s[i] == '-';
    let i1 = if neg {
        i + 1
    } else {
        i
    };
    if !(0 <= i1 < s.len() && is_digit(s[i1])) {
        None
    } else {
        let ie = spec_digits_end(s, i1);
        if s[i1] == '0' && ie > i1 + 1 {
            None
        } else {
            let has_frac = ie < s.len() && s[ie] == '.';
            let fs = if has_frac {
                ie + 1
            } else {
                ie
            };
            let fe = if has_frac {
                spec_digits_end(s, fs)
            } else {
                ie
            };
            if has_frac && fe == fs {
                None
            } else {
                let has_exp = fe < s.len() && (s[fe] == 'e' || s[fe] == 'E');
                let es0 = if has_exp {
        fe + 1
    } else {
        fe
    };
                let eneg = has_exp && es0 < s.len() && s[es0] == '-';
                let epos = has_exp && es0 < s.len() && s[es0] == '+';
                let es = if eneg || epos {
                    es0 + 1
                } else {
                    es0
                };
                let ee = if has_exp {
                    spec_digits_end(s, es)
                } else {
                    fe
                };
                if has_exp && ee == es {
                    None
                } else if (ie - i1) + (fe - fs) > 25 {
                    None
                } else if has_exp && ee - es > 3 {
                    None
                } else {
                    let end = if has_exp {
                        ee
                    } else {
                        fe
                    };
                    let m = spec_digits_val(s, i1, ie) * pow10((fe - fs) as nat) + spec_digits_val(
                        s,
                        fs,
                        fe,
                    );
                    let ev = if has_exp {
                        spec_digits_val(s, es, ee)
                    } else {
                        0
                    };
                    let e = (if eneg {
                        -ev
                    } else {
                        ev
                    }) - (fe - fs);
                    Some((spec_micro_of(neg, m, e), end))
                }
            }
        }
    }
}

pub proof fn lemma_pow10_pos(n: nat)
    ensures
        pow10(n) >= 1,
    decreases n,
{
    if n > 0 {
        lemma_pow10_pos((n - 1) as nat);
    }
}

pub proof fn lemma_pow10_mono(a: nat, b: nat)
    requires
        a <= b,
    ensures
        pow10(a) <= pow10(b),
    decreases b,
{
    if a < b {
        lemma_pow10_mono(a, (b - 1) as nat);
        lemma_pow10_pos((b - 1) as nat);
    }
}

pub proof fn lemma_pow10_adds(a: nat, b: nat)
    ensures
        pow10(a + b) == pow10(a) * pow10(b),
    decreases a,
{
    if a == 0 {
    } else {
        lemma_pow10_adds((a - 1) as nat, b);
        assert(pow10(a + b) == 10 * pow10(((a + b) - 1) as nat));
        assert(pow10(a) * pow10(b) == (10 * pow10((a - 1) as nat)) * pow10(b));
        assert((10 * pow10((a - 1) as nat)) * pow10(b) == 10 * (pow10((a - 1) as nat) * pow10(b)))
            by (nonlinear_arith);
    }
}

/// A run of `n` digits has value below `10^n`.
pub proof fn lemma_digits_val_bound(s: Seq<char>, i: int, j: int)
    requires
        i <= j,
        forall|t: int| i <= t < j ==> is_digit(s[t]),
    ensures
        0 <= spec_digits_val(s, i, j) < pow10((j - i) as nat),
    decreases j - i,
{
    if i < j {
        lemma_digits_val_bound(s, i, j - 1);
        let v = spec_digits_val(s, i, j - 1);
        let p = pow10((j - 1 - i) as nat);
        assert(v * 10 <= (p - 1) * 10) by (nonlinear_arith)
            requires
                0 <= v <= p - 1,
        ;
        assert(is_digit(s[j - 1]));
        assert(0 <= digit_val(s[j - 1]) <= 9);
        assert(pow10((j - i) as nat) == 10 * p);
    } else {
        lemma_pow10_pos((j - i) as nat);
    }
}

/// `10^30`, the bound inside the exec power loop.
pub proof fn lemma_pow10_30()
    ensures
        pow10(30) == 1_000_000_000_000_000_000_000_000_000_000,
{
    reveal_with_fuel(pow10, 32);
}

/// Ten to the `k`, executable.
pub fn pow10_i128(k: usize) -> (r: i128)
    requires
        k <= 30,
    ensures
        r == pow10(k as nat),
{
    proof {
        lemma_pow10_30();
    }
    let mut p: i128 = 1;
    let mut t: usize = 0;
    while t < k
        invariant
            t <= k <= 30,
            p == pow10(t as nat),
            pow10(30) == 1_000_000_000_000_000_000_000_000_000_000,
        decreases k - t,
    {
        proof {
            lemma_pow10_pos(t as nat);
            lemma_pow10_mono((t + 1) as nat, 30);
            assert(pow10((t + 1) as nat) == 10 * pow10(t as nat));
        }
        p = p * 10;
        t = t + 1;
    }
    p
}

/// End of the digit run starting at `i`.
pub fn scan_digits(v: &Vec<char>, i: usize) -> (e: usize)
    requires
        i <= v@.len(),
    ensures
        e == spec_digits_end(v@, i as int),
        i <= e <= v@.len(),
{
    let n = v.len();
    let mut k: usize = i;
    while k < n && digit(v[k])
        invariant
            i <= k <= n,
            n == v@.len(),
            spec_digits_end(v@, i as int) == spec_digits_end(v@, k as int),
        decreases n - k,
    {
        k = k + 1;
    }
    k
}

/// Value of the digit run `v[i..j)`, which must hold at most 25 digits.
pub fn digits_value(v: &Vec<char>, i: usize, j: usize) -> (r: i128)
    requires
        i <= j <= v@.len(),
        j - i <= 25,
        forall|t: int| i <= t < j ==> is_digit(v@[t]),
    ensures
        r == spec_digits_val(v@, i as int, j as int),
        0 <= r < pow10((j - i) as nat),
{
    proof {
        lemma_pow10_30();
    }
    let mut val: i128 = 0;
    let mut k: usize = i;
    while k < j
        invariant
            i <= k <= j <= v@.len(),
            j - i <= 25,
            forall|t: int| i <= t < j ==> is_digit(v@[t]),
            val == spec_digits_val(v@, i as int, k as int),
            0 <= val < pow10((k - i) as nat),
            pow10(30) == 1_000_000_000_000_000_000_000_000_000_000,
        decreases j - k,
    {
        let c = v[k];
        let d = (c as u32) - 48;
        proof {
            lemma_pow10_mono((k + 1 - i) as nat, 25);
            lemma_pow10_mono(25, 30);
            let p = pow10((k - i) as nat);
            assert(val * 10 <= (p - 1) * 10) by (nonlinear_arith)
                requires
                    0 <= val <= p - 1,
            ;
            assert(pow10((k + 1 - i) as nat) == 10 * p);
        }
        val = val * 10 + (d as i128);
        k = k + 1;
    }
    val
}

/// Micro-unit value of `(-1)^neg * m * 10^e`, matching `spec_micro_of`.
pub fn micro_of(neg: bool, m: i128, e: i64) -> (r: i64)
    requires
        0 <= m < pow10(25),
        -1024 <= e <= 999,
    ensures
        r == spec_micro_of(neg, m as int, e as int),
        -FIXED_SAT <= r <= FIXED_SAT,
{
    if m == 0 {
        return 0;
    }
    let shift = e + 6;
    let magc: i64 = if shift >= 0 {
        if m > FIXED_SAT as i128 {
            proof {
                lemma_pow10_pos((shift) as nat);
                let p = pow10(shift as nat);
                assert(m * p >= m) by (nonlinear_arith)
                    requires
                        m >= 0 && p >= 1,
                ;
            }
            FIXED_SAT
        } else if shift >= 14 {
            proof {
                let p = pow10(shift as nat);
                lemma_pow10_mono(14, shift as nat);
                lemma_pow10_30();
                lemma_pow10_adds(14, 16);
                lemma_pow10_adds(14, 11);
                assert(pow10(14) == 100_000_000_000_000) by {
                    reveal_with_fuel(pow10, 16);
                }
                assert(m * p >= 1 * p) by (nonlinear_arith)
                    requires
                        m >= 1 && p >= 0,
                ;
            }
            FIXED_SAT
        } else {
            let p = pow10_i128(shift as usize);
            proof {
                lemma_pow10_pos(shift as nat);
                lemma_pow10_mono(shift as nat, 13);
                assert(pow10(13) == 10_000_000_000_000) by {
                    reveal_with_fuel(pow10, 15);
                }
                assert(m * p <= 1_000_000_000_000 * 10_000_000_000_000) by (nonlinear_arith)
                    requires
                        0 <= m <= 1_000_000_000_000 && 0 <= p <= 10_000_000_000_000,
                ;
                assert(m * p >= 0) by (nonlinear_arith)
                    requires
                        m >= 0 && p >= 0,
                ;
            }
            let prod = m * p;
            if prod > FIXED_SAT as i128 {
                FIXED_SAT
            } else {
                prod as i64
            }
        }
    } else {
        let d = -shift;
        if d >= 25 {
            proof {
                lemma_pow10_mono(25, d as nat);
                let p = pow10(d as nat);
                vstd::arithmetic::div_mod::lemma_basic_div(m as int, p);
            }
            0
        } else {
            let p = pow10_i128(d as usize);
            proof {
                lemma_pow10_pos(d as nat);
                vstd::arithmetic::div_mod::lemma_div_pos_is_pos(m as int, p as int);
                vstd::arithmetic::div_mod::lemma_div_nonincreasing(m as int, p as int);
            }
            let q = m / p;
            if q > FIXED_SAT as i128 {
                FIXED_SAT
            } else {
                q as i64
            }
        }
    };
    if neg {
        -magc
    } else {
        magc
    }
}

/// Parse a JSON number at `i` in `v`, per `spec_parse_number`.
#[verifier::rlimit(100)]
pub fn parse_number(v: &Vec<char>, i: usize) -> (r: Option<(i64, usize)>)
    requires
        i <= v@.len(),
    ensures
        match r {
            Option::Some((val, end)) => {
                &&& spec_parse_number(v@, i as int) == Some((val as int, end as int))
                &&& i < end <= v@.len()
                &&& -FIXED_SAT <= val <= FIXED_SAT
            },
            Option::None => spec_parse_number(v@, i as int).is_none(),
        },
{
    let n = v.len();
    let neg = i < n && v[i] == '-';
    let i1 = if neg {
        i + 1
    } else {
        i
    };
    if !(i1 < n && digit(v[i1])) {
        return None;
    }
    let ie = scan_digits(v, i1);
    proof {
        lemma_digits_run(v@, i1 as int);
    }
    if v[i1] == '0' && ie > i1 + 1 {
        return None;
    }
    let has_frac = ie < n && v[ie] == '.';
    let fs = if has_frac {
        ie + 1
    } else {
        ie
    };
    let fe = if has_frac {
        scan_digits(v, fs)
    } else {
        ie
    };
    proof {
        if has_frac {
            lemma_digits_run(v@, fs as int);
        }
    }
    if has_frac && fe == fs {
        return None;
    }
    let has_exp = fe < n && (v[fe] == 'e' || v[fe] == 'E');
    let es0 = if has_exp {
        fe + 1
    } else {
        fe
    };
    let eneg = has_exp && es0 < n && v[es0] == '-';
    let epos = has_exp && es0 < n && v[es0] == '+';
    let es = if eneg || epos {
        es0 + 1
    } else {
        es0
    };
    let ee = if has_exp {
        if es > n {
            es
        } else {
            scan_digits(v, es)
        }
    } else {
        fe
    };
    proof {
        if has_exp && es <= n {
            lemma_digits_run(v@, es as int);
        }
    }
    if has_exp && ee == es {
        return None;
    }
    if (ie - i1) + (fe - fs) > 25 {
        return None;
    }
    if has_exp && ee - es > 3 {
        return None;
    }
    let end = if has_exp {
        ee
    } else {
        fe
    };
    let int_val = digits_value(v, i1, ie);
    let frac_val = digits_value(v, fs, fe);
    let scale = pow10_i128(fe - fs);
    proof {
        lemma_pow10_mono((fe - fs) as nat, 25);
        lemma_pow10_adds((ie - i1) as nat, (fe - fs) as nat);
        lemma_pow10_mono(((ie - i1) + (fe - fs)) as nat, 25);
        lemma_digits_val_bound(v@, i1 as int, ie as int);
        lemma_digits_val_bound(v@, fs as int, fe as int);
        lemma_pow10_30();
        lemma_pow10_mono(25, 30);
        let a = spec_digits_val(v@, i1 as int, ie as int);
        let b = pow10((fe - fs) as nat);
        assert(a * b + (b - 1) < pow10(((ie - i1) + (fe - fs)) as nat)) by (nonlinear_arith)
            requires
                0 <= a < pow10((ie - i1) as nat),
                b >= 1,
                pow10(((ie - i1) + (fe - fs)) as nat) == pow10((ie - i1) as nat) * b,
        ;
        assert(a * b >= 0) by (nonlinear_arith)
            requires
                a >= 0 && b >= 0,
        ;
    }
    let m = int_val * scale + frac_val;
    let ev: i128 = if has_exp {
        digits_value(v, es, ee)
    } else {
        0
    };
    proof {
        if has_exp {
            lemma_digits_val_bound(v@, es as int, ee as int);
            lemma_pow10_mono((ee - es) as nat, 3);
            assert(pow10(3) == 1000) by {
                reveal_with_fuel(pow10, 5);
            }
        }
    }
    let e: i64 = (if eneg {
        -(ev as i64)
    } else {
        ev as i64
    }) - ((fe - fs) as i64);
    let val = micro_of(neg, m, e);
    Some((val, end))
}

/// Every position inside a digit run up to `spec_digits_end` holds a digit,
/// and the run ends at a non-digit or the end of the text.
pub proof fn lemma_digits_run(s: Seq<char>, i: int)
    requires
        0 <= i,
    ensures
        i <= spec_digits_end(s, i),
        spec_digits_end(s, i) <= s.len() || i > s.len(),
        forall|t: int| i <= t < spec_digits_end(s, i) ==> is_digit(s[t]),
        spec_digits_end(s, i) < s.len() ==> !is_digit(s[spec_digits_end(s, i)]),
    decreases s.len() - i,
{
    if 0 <= i < s.len() && is_digit(s[i]) {
        lemma_digits_run(s, i + 1);
    }
}

} // verus!
