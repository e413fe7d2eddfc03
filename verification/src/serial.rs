//! Serialization of responses back to JSON text.
//!
//! The canonical form prints every number with six decimal places, keys
//! in a fixed order, and strings with the escapes the parser reads back:
//! parsing a serialized response recovers it exactly.

use vstd::prelude::*;
use crate::fixed::FIXED_SAT;
use crate::text::{chars_to_string, is_digit};
use crate::parse::{GeometryResponse, FillResponse, PlateBox};
use vstd::string::StrSliceExecFns;

verus! {

/// The character for a single digit.
pub open spec fn digit_char(d: int) -> char {
    ((48 + d) as u8) as char
}

/// Decimal digits of `n`, most significant first.
pub open spec fn spec_digits_of(n: nat) -> Seq<char>
    decreases n,
{
    if n < 10 {
        seq![digit_char(n as int)]
    } else {
        spec_digits_of(n / 10) + seq![digit_char((n % 10) as int)]
    }
}

/// The six fractional digits of a micro remainder, zero padded.
pub open spec fn spec_frac6(f: int) -> Seq<char> {
    seq![
        digit_char(f / 100_000 % 10),
        digit_char(f / 10_000 % 10),
        digit_char(f / 1_000 % 10),
        digit_char(f / 100 % 10),
        digit_char(f / 10 % 10),
        digit_char(f % 10),
    ]
}

/// Canonical text of a micro-unit value: optional sign, the whole units,
/// a point, and exactly six fractional digits.
pub open spec fn spec_print_micro(v: int) -> Seq<char> {
    let m = if v < 0 {
        -v
    } else {
        v
    };
    let sign: Seq<char> = if v < 0 {
        seq!['-']
    } else {
        Seq::empty()
    };
    sign + spec_digits_of((m / 1_000_000) as nat) + seq!['.'] + spec_frac6(m % 1_000_000)
}

/// A character that may stand unescaped inside a JSON string.
pub open spec fn is_plain(c: char) -> bool {
    c as u32 >= 0x20 && c != '"' && c != '\\'
}

/// The lowercase hex digit for a value below sixteen.
pub open spec fn hex_char(d: int) -> char {
    if d < 10 {
        ((48 + d) as u8) as char
    } else {
        ((87 + d) as u8) as char
    }
}

/// Escaped form of one character.
pub open spec fn spec_escape1(c: char) -> Seq<char> {
    if c == '"' {
        seq!['\\', '"']
    } else if c == '\\' {
        seq!['\\', '\\']
    } else if (c as u32) < 0x20 {
        seq!['\\', 'u', '0', '0', hex_char(((c as u32) / 16) as int), hex_char(
            ((c as u32) % 16) as int,
        )]
    } else {
        seq![c]
    }
}

/// Escaped form of a string body.
pub open spec fn spec_escape(s: Seq<char>) -> Seq<char>
    decreases s.len(),
{
    if s.len() == 0 {
        Seq::empty()
    } else {
        spec_escape1(s[0]) + spec_escape(s.drop_first())
    }
}

/// Canonical text of a plate box value.
pub open spec fn spec_print_platebox(pb: Option<PlateBox>) -> Seq<char> {
    match pb {
        Option::Some(b) => seq!['['] + spec_print_micro(b.x0 as int) + seq![',']
            + spec_print_micro(b.y0 as int) + seq![','] + spec_print_micro(b.x1 as int) + seq![',']
            + spec_print_micro(b.y1 as int) + seq![']'],
        Option::None => "null"@,
    }
}

/// Canonical text of a geometry response.
pub open spec fn spec_serialize_geometry(g: GeometryResponse) -> Seq<char> {
    "{\"plateBox\":"@ + spec_print_platebox(g.plate_box) + ",\"tailgateTopY\":"@
        + spec_print_micro(g.tailgate_top_y as int) + ",\"tailgateBottomY\":"@
        + spec_print_micro(g.tailgate_bottom_y as int) + ",\"cargoTopY\":"@ + spec_print_micro(
        g.cargo_top_y as int,
    ) + "}"@
}

/// Canonical text of a string-or-null member value.
pub open spec fn spec_print_strval(sv: Option<Seq<char>>) -> Seq<char> {
    match sv {
        Option::Some(m) => seq!['"'] + spec_escape(m) + seq!['"'],
        Option::None => "null"@,
    }
}

/// Canonical text of a fill response.
pub open spec fn spec_serialize_fill(f: crate::parse::FillView) -> Seq<char> {
    let mat: Seq<char> = spec_print_strval(f.material_type);
    let rea: Seq<char> = spec_print_strval(f.reasoning);
    "{\"fillRatioL\":"@ + spec_print_micro(f.fill_ratio_l as int) + ",\"fillRatioW\":"@
        + spec_print_micro(f.fill_ratio_w as int) + ",\"taperRatio\":"@ + spec_print_micro(
        f.taper_ratio as int,
    ) + ",\"packingDensity\":"@ + spec_print_micro(f.packing_density as int) + ",\"materialType\":"@
        + mat + ",\"reasoning\":"@ + rea + "}"@
}

/// Append the decimal digits of `n`.
fn push_digits(out: &mut Vec<char>, n: u64)
    ensures
        final(out)@ == old(out)@ + spec_digits_of(n as nat),
    decreases n,
{
    if n < 10 {
        let c = ((48 + n) as u8) as char;
        out.push(c);
        proof {
            assert(final(out)@ =~= old(out)@ + spec_digits_of(n as nat));
        }
    } else {
        push_digits(out, n / 10);
        let d = n % 10;
        let c = ((48 + d) as u8) as char;
        out.push(c);
        proof {
            assert(final(out)@ =~= old(out)@ + spec_digits_of(n as nat));
        }
    }
}

/// Append the characters of a literal.
fn push_str_chars(out: &mut Vec<char>, s: &str)
    ensures
        final(out)@ == old(out)@ + s@,
{
    let n = s.unicode_len();
    let mut i: usize = 0;
    proof {
        assert(out@ =~= old(out)@ + s@.subrange(0, 0));
    }
    while i < n
        invariant
            i <= n,
            n == s@.len(),
            out@ == old(out)@ + s@.subrange(0, i as int),
        decreases n - i,
    {
        let c = s.get_char(i);
        out.push(c);
        i = i + 1;
        proof {
            assert(out@ =~= old(out)@ + s@.subrange(0, i as int));
        }
    }
    proof {
        assert(s@.subrange(0, n as int) =~= s@);
    }
}

/// Append the canonical text of a micro-unit value.
fn push_micro(out: &mut Vec<char>, v: i64)
    requires
        -FIXED_SAT <= v <= FIXED_SAT,
    ensures
        final(out)@ == old(out)@ + spec_print_micro(v as int),
{
    let m: u64 = if v < 0 {
        out.push('-');
        (-v) as u64
    } else {
        v as u64
    };
    push_digits(out, m / 1_000_000);
    out.push('.');
    let f = m % 1_000_000;
    let c0 = ((48 + (f / 100_000 % 10)) as u8) as char;
    let c1 = ((48 + (f / 10_000 % 10)) as u8) as char;
    let c2 = ((48 + (f / 1_000 % 10)) as u8) as char;
    let c3 = ((48 + (f / 100 % 10)) as u8) as char;
    let c4 = ((48 + (f / 10 % 10)) as u8) as char;
    let c5 = ((48 + (f % 10)) as u8) as char;
    out.push(c0);
    out.push(c1);
    out.push(c2);
    out.push(c3);
    out.push(c4);
    out.push(c5);
    proof {
        assert(final(out)@ =~= old(out)@ + spec_print_micro(v as int));
    }
}

/// Append one escaped character.
fn push_escaped_char(out: &mut Vec<char>, c: char)
    ensures
        final(out)@ == old(out)@ + spec_escape1(c),
{
    if c == '"' {
        out.push('\\');
        out.push('"');
    } else if c == '\\' {
        out.push('\\');
        out.push('\\');
    } else if (c as u32) < 0x20 {
        let hi = (c as u32) / 16;
        let lo = (c as u32) % 16;
        let hc: char = if hi < 10 {
            ((48 + hi) as u8) as char
        } else {
            ((87 + hi) as u8) as char
        };
        let lc: char = if lo < 10 {
            ((48 + lo) as u8) as char
        } else {
            ((87 + lo) as u8) as char
        };
        out.push('\\');
        out.push('u');
        out.push('0');
        out.push('0');
        out.push(hc);
        out.push(lc);
    } else {
        out.push(c);
    }
    proof {
        assert(final(out)@ =~= old(out)@ + spec_escape1(c));
    }
}

/// Append an escaped string body.
fn push_escaped(out: &mut Vec<char>, s: &str)
    ensures
        final(out)@ == old(out)@ + spec_escape(s@),
{
    let n = s.unicode_len();
    let mut i: usize = 0;
    proof {
        assert(out@ =~= old(out)@ + spec_escape(s@.subrange(0, 0)));
    }
    while i < n
        invariant
            i <= n,
            n == s@.len(),
            out@ == old(out)@ + spec_escape(s@.subrange(0, i as int)),
        decreases n - i,
    {
        let c = s.get_char(i);
        push_escaped_char(out, c);
        i = i + 1;
        proof {
            lemma_escape_snoc(s@.subrange(0, i as int));
            assert(s@.subrange(0, i as int).drop_last() =~= s@.subrange(0, i - 1 as int));
            assert(out@ =~= old(out)@ + spec_escape(s@.subrange(0, i as int)));
        }
    }
    proof {
        assert(s@.subrange(0, n as int) =~= s@);
    }
}

/// Escaping distributes over appending one character at the end.
pub proof fn lemma_escape_snoc(s: Seq<char>)
    requires
        s.len() > 0,
    ensures
        spec_escape(s) == spec_escape(s.drop_last()) + spec_escape1(s.last()),
    decreases s.len(),
{
    if s.len() == 1 {
        assert(s.drop_first() =~= Seq::<char>::empty());
        assert(s.drop_last() =~= Seq::<char>::empty());
        assert(spec_escape(s) == spec_escape1(s[0]) + spec_escape(s.drop_first()));
        assert(spec_escape(Seq::<char>::empty()) =~= Seq::<char>::empty());
        assert(spec_escape(s) =~= spec_escape1(s[0]) + Seq::<char>::empty());
        assert(spec_escape(s.drop_last()) + spec_escape1(s.last()) =~= spec_escape1(s[0]));
        assert(spec_escape1(s[0]) + Seq::<char>::empty() =~= spec_escape1(s[0]));
    } else {
        lemma_escape_snoc(s.drop_first());
        assert(s.drop_first().drop_last() =~= s.drop_last().drop_first());
        assert(s.drop_first().last() == s.last());
        assert(s.drop_last()[0] == s[0]);
        assert(spec_escape(s) == spec_escape1(s[0]) + spec_escape(s.drop_first()));
        assert(spec_escape(s.drop_last()) == spec_escape1(s[0]) + spec_escape(
            s.drop_last().drop_first(),
        ));
        assert(spec_escape1(s[0]) + (spec_escape(s.drop_first().drop_last()) + spec_escape1(
            s.last(),
        )) =~= (spec_escape1(s[0]) + spec_escape(s.drop_first().drop_last())) + spec_escape1(
            s.last(),
        ));
    }
}

/// Serialize a geometry response to its canonical JSON text.
#[verifier::rlimit(100)]
pub fn serialize_geometry(g: &GeometryResponse) -> (r: String)
    requires
        crate::parse::spec_geo_bounded(*g),
    ensures
        r@ == spec_serialize_geometry(*g),
{
    let mut out: Vec<char> = Vec::new();
    push_str_chars(&mut out, "{\"plateBox\":");
    proof {
        assert(out@ =~= "{\"plateBox\":"@);
    }
    match g.plate_box {
        Option::Some(b) => {
            let ghost base = out@;
            out.push('[');
            push_micro(&mut out, b.x0);
            proof {
                assert(out@ =~= base + seq!['['] + spec_print_micro(b.x0 as int));
            }
            let ghost c1 = out@;
            out.push(',');
            push_micro(&mut out, b.y0);
            proof {
                assert(out@ =~= c1 + seq![','] + spec_print_micro(b.y0 as int));
            }
            let ghost c2 = out@;
            out.push(',');
            push_micro(&mut out, b.x1);
            proof {
                assert(out@ =~= c2 + seq![','] + spec_print_micro(b.x1 as int));
            }
            let ghost c3 = out@;
            out.push(',');
            push_micro(&mut out, b.y1);
            out.push(']');
            proof {
                assert(out@ =~= c3 + seq![','] + spec_print_micro(b.y1 as int) + seq![']']);
                assert(out@ =~= "{\"plateBox\":"@ + spec_print_platebox(g.plate_box));
            }
        },
        Option::None => {
            push_str_chars(&mut out, "null");
            proof {
                assert(out@ =~= "{\"plateBox\":"@ + spec_print_platebox(g.plate_box));
            }
        },
    }
    let ghost d0 = out@;
    push_str_chars(&mut out, ",\"tailgateTopY\":");
    push_micro(&mut out, g.tailgate_top_y);
    proof {
        assert(out@ =~= d0 + ",\"tailgateTopY\":"@ + spec_print_micro(g.tailgate_top_y as int));
    }
    let ghost d1 = out@;
    push_str_chars(&mut out, ",\"tailgateBottomY\":");
    push_micro(&mut out, g.tailgate_bottom_y);
    proof {
        assert(out@ =~= d1 + ",\"tailgateBottomY\":"@ + spec_print_micro(
            g.tailgate_bottom_y as int,
        ));
    }
    let ghost d2 = out@;
    push_str_chars(&mut out, ",\"cargoTopY\":");
    push_micro(&mut out, g.cargo_top_y);
    push_str_chars(&mut out, "}");
    proof {
        assert(out@ =~= d2 + ",\"cargoTopY\":"@ + spec_print_micro(g.cargo_top_y as int) + "}"@);
        assert(out@ =~= spec_serialize_geometry(*g));
    }
    chars_to_string(&out)
}

/// Serialize a fill response to its canonical JSON text.
#[verifier::rlimit(100)]
pub fn serialize_fill(f: &FillResponse) -> (r: String)
    requires
        crate::parse::spec_fill_bounded(f@),
    ensures
        r@ == spec_serialize_fill(f@),
{
    let mut out: Vec<char> = Vec::new();
    push_str_chars(&mut out, "{\"fillRatioL\":");
    push_micro(&mut out, f.fill_ratio_l);
    proof {
        assert(out@ =~= "{\"fillRatioL\":"@ + spec_print_micro(f.fill_ratio_l as int));
    }
    let ghost d0 = out@;
    push_str_chars(&mut out, ",\"fillRatioW\":");
    push_micro(&mut out, f.fill_ratio_w);
    proof {
        assert(out@ =~= d0 + ",\"fillRatioW\":"@ + spec_print_micro(f.fill_ratio_w as int));
    }
    let ghost d1 = out@;
    push_str_chars(&mut out, ",\"taperRatio\":");
    push_micro(&mut out, f.taper_ratio);
    proof {
        assert(out@ =~= d1 + ",\"taperRatio\":"@ + spec_print_micro(f.taper_ratio as int));
    }
    let ghost d2 = out@;
    push_str_chars(&mut out, ",\"packingDensity\":");
    push_micro(&mut out, f.packing_density);
    proof {
        assert(out@ =~= d2 + ",\"packingDensity\":"@ + spec_print_micro(
            f.packing_density as int,
        ));
    }
    let ghost d3 = out@;
    push_str_chars(&mut out, ",\"materialType\":");
    match f.material_type {
        Option::Some(ref m) => {
            out.push('"');
            push_escaped(&mut out, m.as_str());
            out.push('"');
            proof {
                assert(out@ =~= d3 + ",\"materialType\":"@ + (seq!['"'] + spec_escape(m@) + seq![
                    '"',
                ]));
            }
        },
        Option::None => {
            push_str_chars(&mut out, "null");
            proof {
                assert(out@ =~= d3 + ",\"materialType\":"@ + "null"@);
            }
        },
    }
    let ghost d4 = out@;
    push_str_chars(&mut out, ",\"reasoning\":");
    match f.reasoning {
        Option::Some(ref rr) => {
            out.push('"');
            push_escaped(&mut out, rr.as_str());
            out.push('"');
            proof {
                assert(out@ =~= d4 + ",\"reasoning\":"@ + (seq!['"'] + spec_escape(rr@) + seq![
                    '"',
                ]));
            }
        },
        Option::None => {
            push_str_chars(&mut out, "null");
            proof {
                assert(out@ =~= d4 + ",\"reasoning\":"@ + "null"@);
            }
        },
    }
    push_str_chars(&mut out, "}");
    proof {
        assert(out@ =~= spec_serialize_fill(f@));
    }
    chars_to_string(&out)
}

/// The word `w` spelled at position `i` of `s`.
pub open spec fn seq_at(s: Seq<char>, i: int, w: Seq<char>) -> bool {
    &&& 0 <= i
    &&& i + w.len() <= s.len()
    &&& forall|t: int| 0 <= t < w.len() ==> s[i + t] == #[trigger] w[t]
}

/// Every character a digit printer emits is a digit, the first one is
/// not zero unless the number itself is zero, and there is at least one.
pub proof fn lemma_digits_of_facts(n: nat)
    ensures
        spec_digits_of(n).len() >= 1,
        forall|t: int|
            0 <= t < spec_digits_of(n).len() ==> is_digit(#[trigger] spec_digits_of(n)[t]),
        n > 0 ==> spec_digits_of(n)[0] != '0',
        n == 0 ==> spec_digits_of(n) =~= seq!['0'],
        forall|t: int|
            0 <= t < spec_digits_of(n).len() ==> crate::text::digit_val(
                #[trigger] spec_digits_of(n)[t],
            ) <= 9,
    decreases n,
{
    if n < 10 {
        assert(is_digit(digit_char(n as int)));
    } else {
        lemma_digits_of_facts(n / 10);
        assert(is_digit(digit_char((n % 10) as int)));
        assert(spec_digits_of(n)[0] == spec_digits_of(n / 10)[0]);
    }
}

/// A digit printer for `n < 10^k` emits at most `k` digits.
pub proof fn lemma_digits_of_len(n: nat, k: nat)
    requires
        k >= 1,
        n < crate::number::pow10(k),
    ensures
        spec_digits_of(n).len() <= k,
    decreases n,
{
    if n < 10 {
    } else {
        assert(crate::number::pow10(k) == 10 * crate::number::pow10((k - 1) as nat));
        assert(k >= 2) by {
            crate::number::lemma_pow10_pos((k - 1) as nat);
            if k == 1 {
                assert(crate::number::pow10(1nat) == 10) by {
                    reveal_with_fuel(crate::number::pow10, 3);
                }
            }
        }
        vstd::arithmetic::div_mod::lemma_div_is_ordered(
            n as int,
            crate::number::pow10(k) - 1,
            10,
        );
        assert((crate::number::pow10(k) - 1) / 10 < crate::number::pow10((k - 1) as nat)) by {
            crate::number::lemma_pow10_pos((k - 1) as nat);
            vstd::arithmetic::div_mod::lemma_fundamental_div_mod(crate::number::pow10(k) - 1, 10);
            vstd::arithmetic::div_mod::lemma_mod_bound(crate::number::pow10(k) - 1, 10);
        }
        lemma_digits_of_len(n / 10, (k - 1) as nat);
    }
}

/// A digit run bounded on the right by a non-digit ends exactly there.
pub proof fn lemma_digits_end_at(s: Seq<char>, i: int, j: int)
    requires
        0 <= i <= j <= s.len(),
        forall|t: int| i <= t < j ==> is_digit(s[t]),
        j == s.len() || !is_digit(s[j]),
    ensures
        crate::number::spec_digits_end(s, i) == j,
    decreases j - i,
{
    if i < j {
        lemma_digits_end_at(s, i + 1, j);
    }
}

/// Parsing the digits a printer emitted recovers the number.
pub proof fn lemma_digits_val_at(s: Seq<char>, i: int, n: nat)
    requires
        seq_at(s, i, spec_digits_of(n)),
    ensures
        crate::number::spec_digits_val(s, i, i + spec_digits_of(n).len()) == n,
    decreases n,
{
    lemma_digits_of_facts(n);
    let w = spec_digits_of(n);
    if n < 10 {
        assert(s[i] == w[0]);
        assert(crate::number::spec_digits_val(s, i, i + 1) == crate::number::spec_digits_val(
            s,
            i,
            i,
        ) * 10 + crate::text::digit_val(s[i]));
        assert(crate::text::digit_val(digit_char(n as int)) == n);
    } else {
        let wh = spec_digits_of(n / 10);
        assert(w =~= wh + seq![digit_char((n % 10) as int)]);
        assert forall|t: int| 0 <= t < wh.len() implies s[i + t] == #[trigger] wh[t] by {
            assert(w[t] == wh[t]);
            assert(s[i + t] == w[t]);
        }
        assert(seq_at(s, i, wh));
        lemma_digits_val_at(s, i, n / 10);
        let j = i + w.len();
        assert(s[j - 1] == w[w.len() - 1]);
        assert(crate::text::digit_val(digit_char((n % 10) as int)) == n % 10);
        assert(crate::number::spec_digits_val(s, i, j) == crate::number::spec_digits_val(
            s,
            i,
            j - 1,
        ) * 10 + (n % 10));
        vstd::arithmetic::div_mod::lemma_fundamental_div_mod(n as int, 10);
    }
}

/// Parsing the six padded fraction digits recovers the remainder.
pub proof fn lemma_frac6_val_at(s: Seq<char>, i: int, f: int)
    requires
        0 <= f < 1_000_000,
        seq_at(s, i, spec_frac6(f)),
    ensures
        crate::number::spec_digits_val(s, i, i + 6) == f,
        forall|t: int| i <= t < i + 6 ==> is_digit(s[t]),
    decreases f,
{
    let w = spec_frac6(f);
    assert forall|t: int| i <= t < i + 6 implies is_digit(s[t]) by {
        assert(s[t] == w[t - i]);
        vstd::arithmetic::div_mod::lemma_mod_bound(f / 100_000, 10);
        vstd::arithmetic::div_mod::lemma_mod_bound(f / 10_000, 10);
        vstd::arithmetic::div_mod::lemma_mod_bound(f / 1_000, 10);
        vstd::arithmetic::div_mod::lemma_mod_bound(f / 100, 10);
        vstd::arithmetic::div_mod::lemma_mod_bound(f / 10, 10);
        vstd::arithmetic::div_mod::lemma_mod_bound(f, 10);
    }
    vstd::arithmetic::div_mod::lemma_mod_bound(f / 100_000, 10);
    vstd::arithmetic::div_mod::lemma_mod_bound(f / 10_000, 10);
    vstd::arithmetic::div_mod::lemma_mod_bound(f / 1_000, 10);
    vstd::arithmetic::div_mod::lemma_mod_bound(f / 100, 10);
    vstd::arithmetic::div_mod::lemma_mod_bound(f / 10, 10);
    vstd::arithmetic::div_mod::lemma_mod_bound(f, 10);
    assert(crate::text::digit_val(digit_char(f / 100_000 % 10)) == f / 100_000 % 10);
    assert(crate::text::digit_val(digit_char(f / 10_000 % 10)) == f / 10_000 % 10);
    assert(crate::text::digit_val(digit_char(f / 1_000 % 10)) == f / 1_000 % 10);
    assert(crate::text::digit_val(digit_char(f / 100 % 10)) == f / 100 % 10);
    assert(crate::text::digit_val(digit_char(f / 10 % 10)) == f / 10 % 10);
    assert(crate::text::digit_val(digit_char(f % 10)) == f % 10);
    // Horner evaluation equals f, peeling one digit of precision at a time.
    vstd::arithmetic::div_mod::lemma_div_denominator(f, 10, 10);
    vstd::arithmetic::div_mod::lemma_div_denominator(f, 100, 10);
    vstd::arithmetic::div_mod::lemma_div_denominator(f, 1_000, 10);
    vstd::arithmetic::div_mod::lemma_div_denominator(f, 10_000, 10);
    vstd::arithmetic::div_mod::lemma_fundamental_div_mod(f, 10);
    vstd::arithmetic::div_mod::lemma_fundamental_div_mod(f / 10, 10);
    vstd::arithmetic::div_mod::lemma_fundamental_div_mod(f / 100, 10);
    vstd::arithmetic::div_mod::lemma_fundamental_div_mod(f / 1_000, 10);
    vstd::arithmetic::div_mod::lemma_fundamental_div_mod(f / 10_000, 10);
    assert(f / 100_000 < 10) by {
        vstd::arithmetic::div_mod::lemma_div_is_ordered(f, 999_999, 100_000);
    }
    assert(f / 100_000 % 10 == f / 100_000) by {
        vstd::arithmetic::div_mod::lemma_small_mod((f / 100_000) as nat, 10);
    }
    assert((f / 10_000) / 10 == f / 100_000) by {
        vstd::arithmetic::div_mod::lemma_div_denominator(f, 10_000, 10);
    }
    assert((f / 1_000) / 10 == f / 10_000) by {
        vstd::arithmetic::div_mod::lemma_div_denominator(f, 1_000, 10);
    }
    assert((f / 100) / 10 == f / 1_000) by {
        vstd::arithmetic::div_mod::lemma_div_denominator(f, 100, 10);
    }
    assert((f / 10) / 10 == f / 100) by {
        vstd::arithmetic::div_mod::lemma_div_denominator(f, 10, 10);
    }
    vstd::arithmetic::div_mod::lemma_fundamental_div_mod(f / 100_000, 10);
    let v1 = crate::number::spec_digits_val(s, i, i + 1);
    let v2 = crate::number::spec_digits_val(s, i, i + 2);
    let v3 = crate::number::spec_digits_val(s, i, i + 3);
    let v4 = crate::number::spec_digits_val(s, i, i + 4);
    let v5 = crate::number::spec_digits_val(s, i, i + 5);
    let v6 = crate::number::spec_digits_val(s, i, i + 6);
    assert(s[i] == w[0] && s[i + 1] == w[1] && s[i + 2] == w[2] && s[i + 3] == w[3] && s[i + 4]
        == w[4] && s[i + 5] == w[5]);
    assert(w[0] == digit_char(f / 100_000 % 10));
    assert(w[1] == digit_char(f / 10_000 % 10));
    assert(w[2] == digit_char(f / 1_000 % 10));
    assert(w[3] == digit_char(f / 100 % 10));
    assert(w[4] == digit_char(f / 10 % 10));
    assert(w[5] == digit_char(f % 10));
    assert(v1 == crate::number::spec_digits_val(s, i, i) * 10 + crate::text::digit_val(s[i]));
    assert(crate::number::spec_digits_val(s, i, i) == 0);
    assert(v1 == f / 100_000);
    assert(v2 == v1 * 10 + f / 10_000 % 10);
    assert(v2 == f / 10_000) by {
        vstd::arithmetic::div_mod::lemma_fundamental_div_mod(f / 10_000, 10);
    }
    assert(v3 == v2 * 10 + f / 1_000 % 10);
    assert(v3 == f / 1_000) by {
        vstd::arithmetic::div_mod::lemma_fundamental_div_mod(f / 1_000, 10);
    }
    assert(v4 == v3 * 10 + f / 100 % 10);
    assert(v4 == f / 100) by {
        vstd::arithmetic::div_mod::lemma_fundamental_div_mod(f / 100, 10);
    }
    assert(v5 == v4 * 10 + f / 10 % 10);
    assert(v5 == f / 10) by {
        vstd::arithmetic::div_mod::lemma_fundamental_div_mod(f / 10, 10);
    }
    assert(v6 == v5 * 10 + f % 10);
    assert(v6 == f) by {
        vstd::arithmetic::div_mod::lemma_fundamental_div_mod(f, 10);
    }
}


/// Parsing a printed micro-unit value recovers it exactly, when the
/// character after it closes a member or an array slot.
pub proof fn lemma_print_micro_parse(s: Seq<char>, i: int, v: i64)
    requires
        -FIXED_SAT <= v <= FIXED_SAT,
        seq_at(s, i, spec_print_micro(v as int)),
        i + spec_print_micro(v as int).len() < s.len(),
        ({
            let c = s[i + spec_print_micro(v as int).len()];
            c == ',' || c == '}' || c == ']'
        }),
    ensures
        crate::number::spec_parse_number(s, i) == Some(
            (v as int, i + spec_print_micro(v as int).len()),
        ),
{
    let w = spec_print_micro(v as int);
    let m = if (v as int) < 0 {
        -(v as int)
    } else {
        v as int
    };
    let neg = (v as int) < 0;
    let ip = (m / 1_000_000) as nat;
    let f = m % 1_000_000;
    let wi = spec_digits_of(ip);
    let wf = spec_frac6(f);
    let sign: Seq<char> = if neg {
        seq!['-']
    } else {
        Seq::<char>::empty()
    };
    assert(w =~= sign + wi + seq!['.'] + wf);
    lemma_digits_of_facts(ip);
    vstd::arithmetic::div_mod::lemma_mod_bound(m, 1_000_000);
    vstd::arithmetic::div_mod::lemma_div_pos_is_pos(m, 1_000_000);
    let i1 = if neg {
        i + 1
    } else {
        i
    };
    // layout: integer digits at i1, the point, six fraction digits
    assert(seq_at(s, i1, wi)) by {
        assert forall|t: int| 0 <= t < wi.len() implies s[i1 + t] == #[trigger] wi[t] by {
            assert(w[i1 - i + t] == wi[t]);
        }
    }
    let ie = i1 + wi.len();
    assert(s[ie] == '.') by {
        assert(w[ie - i] == '.');
    }
    let fs = ie + 1;
    assert(seq_at(s, fs, wf)) by {
        assert forall|t: int| 0 <= t < 6 implies s[fs + t] == #[trigger] wf[t] by {
            assert(w[fs - i + t] == wf[t]);
        }
    }
    let fe = fs + 6;
    assert(fe == i + w.len());
    lemma_frac6_val_at(s, fs, f);
    assert forall|t: int| i1 <= t < ie implies is_digit(s[t]) by {
        assert(s[t] == wi[t - i1]);
    }
    lemma_digits_end_at(s, i1, ie);
    lemma_digits_end_at(s, fs, fe);
    lemma_digits_val_at(s, i1, ip);
    if neg {
        assert(s[i] == '-') by {
            assert(w[0] == '-');
        }
    } else {
        assert(is_digit(s[i]));
        assert(s[i] != '-');
    }
    assert(is_digit(s[i1]));
    // the leading-zero rule holds of canonical output
    if s[i1] == '0' {
        if ip > 0 {
            assert(wi[0] != '0');
            assert(s[i1] == wi[0]);
            assert(false);
        }
        assert(wi.len() == 1);
        assert(ie == i1 + 1);
    }
    // mantissa digit count within the accepted band
    assert(wi.len() <= 7) by {
        assert(ip < crate::number::pow10(7)) by {
            assert(crate::number::pow10(7) == 10_000_000) by {
                reveal_with_fuel(crate::number::pow10, 9);
            }
            vstd::arithmetic::div_mod::lemma_div_is_ordered(m, 1_000_000_000_000, 1_000_000);
        }
        lemma_digits_of_len(ip, 7);
    }
    // value: mantissa recombines to m, exponent is minus six
    let mval = crate::number::spec_digits_val(s, i1, ie) * crate::number::pow10(6nat)
        + crate::number::spec_digits_val(s, fs, fe);
    assert(crate::number::pow10(6nat) == 1_000_000) by {
        reveal_with_fuel(crate::number::pow10, 8);
    }
    vstd::arithmetic::div_mod::lemma_fundamental_div_mod(m, 1_000_000);
    assert(mval == m);
    assert(crate::number::spec_micro_of(neg, m, -6) == v as int) by {
        if m == 0 {
        } else {
            assert(crate::number::pow10(0nat) == 1);
            assert(m * 1 == m) by (nonlinear_arith);
        }
    }
    assert(crate::number::spec_parse_number(s, i) == Some((v as int, fe)));
}

/// A quoted key of plain characters parses back to itself.
pub proof fn lemma_key_body_parse(s: Seq<char>, i: int, k: Seq<char>)
    requires
        0 <= i,
        i + k.len() + 1 <= s.len(),
        forall|t: int| 0 <= t < k.len() ==> is_plain(#[trigger] k[t]),
        forall|t: int| 0 <= t < k.len() ==> s[i + t] == #[trigger] k[t],
        s[i + k.len()] == '"',
    ensures
        crate::json::spec_str_body(s, i) == Some((k, i + k.len() + 1)),
    decreases k.len(),
{
    if k.len() == 0 {
        assert(s[i] == '"');
        assert(crate::json::spec_str_body(s, i) == Some((Seq::<char>::empty(), i + 1)));
        assert(Seq::<char>::empty() =~= k);
    } else {
        let c = s[i];
        assert(c == k[0]);
        assert(is_plain(c));
        assert(c != '"' && c != '\\' && c as u32 >= 0x20);
        let kt = k.drop_first();
        assert forall|t: int| 0 <= t < kt.len() implies s[i + 1 + t] == #[trigger] kt[t] by {
            assert(kt[t] == k[t + 1]);
            assert(s[i + 1 + t] == k[t + 1]);
        }
        lemma_key_body_parse(s, i + 1, kt);
        assert(crate::json::spec_str_body(s, i) == Some((seq![c] + kt, i + k.len() + 1)));
        assert(seq![c] + kt =~= k);
    }
}


/// A printed number starts with a sign or a digit, and is never empty.
pub proof fn lemma_print_micro_first(v: int)
    ensures
        spec_print_micro(v).len() >= 8,
        spec_print_micro(v)[0] == '-' || is_digit(spec_print_micro(v)[0]),
        !crate::text::is_ws(spec_print_micro(v)[0]),
{
    let m = if v < 0 {
        -v
    } else {
        v
    };
    lemma_digits_of_facts((m / 1_000_000) as nat);
    let w = spec_print_micro(v);
    if v < 0 {
        assert(w[0] == '-');
    } else {
        assert(w[0] == spec_digits_of((m / 1_000_000) as nat)[0]);
    }
}

/// Skipping whitespace at a non-whitespace position stays put.
pub proof fn lemma_skip_ws_here(s: Seq<char>, i: int)
    requires
        0 <= i,
        i >= s.len() || !crate::text::is_ws(s[i]),
    ensures
        crate::json::spec_skip_ws(s, i) == i,
{
}


/// One number member of a serialized geometry object: reading it fills
/// its accumulator field and hands the scan to the character after it.
#[verifier::rlimit(100)]
pub proof fn lemma_geo_step_tg_top(
    s: Seq<char>,
    i: int,
    v: i64,
    acc: crate::parse::GeoAcc,
    fuel: nat,
)
    requires
        -FIXED_SAT <= v <= FIXED_SAT,
        fuel >= 1,
        0 <= i,
        s[i] == '"',
        i + 15 <= s.len(),
        forall|t: int| 0 <= t < 12 ==> s[i + 1 + t] == #[trigger] ("tailgateTopY"@)[t],
        s[i + 13] == '"',
        s[i + 14] == ':',
        seq_at(s, i + 15, spec_print_micro(v as int)),
        i + 15 + spec_print_micro(v as int).len() < s.len(),
        ({
            let c = s[i + 15 + spec_print_micro(v as int).len()];
            c == ',' || c == '}'
        }),
        s[i + 15 + spec_print_micro(v as int).len()] == ',' ==> i + 15
            + spec_print_micro(v as int).len() + 1 < s.len() && !crate::text::is_ws(
            s[i + 15 + spec_print_micro(v as int).len() + 1],
        ),
        acc.tailgate_top_y is None,
    ensures
        ({
            let e = i + 15 + spec_print_micro(v as int).len();
            let acc2 = (crate::parse::GeoAcc { tailgate_top_y: Some(v), ..acc });
            if s[e] == ',' {
                crate::parse::spec_geo_members(s, i, acc, fuel) == crate::parse::spec_geo_members(
                    s,
                    e + 1,
                    acc2,
                    (fuel - 1) as nat,
                )
            } else {
                crate::parse::spec_geo_members(s, i, acc, fuel) == Some((acc2, e + 1))
            }
        }),
{
    reveal_strlit("tailgateTopY");
    let key = "tailgateTopY"@;
    assert forall|t: int| 0 <= t < 12 implies is_plain(#[trigger] key[t]) by {
        assert(s[i + 1 + t] == key[t]);
    }
    lemma_key_body_parse(s, i + 1, key);
    assert(crate::json::spec_str_body(s, i + 1) == Some((key, i + 14)));
    lemma_skip_ws_here(s, i + 14);
    assert(!crate::text::is_ws(s[i + 15])) by {
        lemma_print_micro_first(v as int);
        assert(s[i + 15] == spec_print_micro(v as int)[0]);
    }
    lemma_skip_ws_here(s, i + 15);
    assert(!(key == "plateBox"@)) by {
        reveal_strlit("plateBox");
        assert(key.len() == 12 && "plateBox"@.len() == 8);
    }
    assert(key == "tailgateTopY"@);
    lemma_print_micro_parse(s, i + 15, v);
    let e = i + 15 + spec_print_micro(v as int).len();
    lemma_skip_ws_here(s, e);
    if s[e] == ',' {
        lemma_skip_ws_here(s, e + 1);
    }
}

/// One number member of a serialized geometry object: reading it fills
/// its accumulator field and hands the scan to the character after it.
#[verifier::rlimit(100)]
pub proof fn lemma_geo_step_tg_bot(
    s: Seq<char>,
    i: int,
    v: i64,
    acc: crate::parse::GeoAcc,
    fuel: nat,
)
    requires
        -FIXED_SAT <= v <= FIXED_SAT,
        fuel >= 1,
        0 <= i,
        s[i] == '"',
        i + 18 <= s.len(),
        forall|t: int| 0 <= t < 15 ==> s[i + 1 + t] == #[trigger] ("tailgateBottomY"@)[t],
        s[i + 16] == '"',
        s[i + 17] == ':',
        seq_at(s, i + 18, spec_print_micro(v as int)),
        i + 18 + spec_print_micro(v as int).len() < s.len(),
        ({
            let c = s[i + 18 + spec_print_micro(v as int).len()];
            c == ',' || c == '}'
        }),
        s[i + 18 + spec_print_micro(v as int).len()] == ',' ==> i + 18
            + spec_print_micro(v as int).len() + 1 < s.len() && !crate::text::is_ws(
            s[i + 18 + spec_print_micro(v as int).len() + 1],
        ),
        acc.tailgate_bottom_y is None,
    ensures
        ({
            let e = i + 18 + spec_print_micro(v as int).len();
            let acc2 = (crate::parse::GeoAcc { tailgate_bottom_y: Some(v), ..acc });
            if s[e] == ',' {
                crate::parse::spec_geo_members(s, i, acc, fuel) == crate::parse::spec_geo_members(
                    s,
                    e + 1,
                    acc2,
                    (fuel - 1) as nat,
                )
            } else {
                crate::parse::spec_geo_members(s, i, acc, fuel) == Some((acc2, e + 1))
            }
        }),
{
    reveal_strlit("tailgateBottomY");
    let key = "tailgateBottomY"@;
    assert forall|t: int| 0 <= t < 15 implies is_plain(#[trigger] key[t]) by {
        assert(s[i + 1 + t] == key[t]);
    }
    lemma_key_body_parse(s, i + 1, key);
    assert(crate::json::spec_str_body(s, i + 1) == Some((key, i + 17)));
    lemma_skip_ws_here(s, i + 17);
    assert(!crate::text::is_ws(s[i + 18])) by {
        lemma_print_micro_first(v as int);
        assert(s[i + 18] == spec_print_micro(v as int)[0]);
    }
    lemma_skip_ws_here(s, i + 18);
    assert(!(key == "plateBox"@)) by {
        reveal_strlit("plateBox");
        assert(key.len() == 15 && "plateBox"@.len() == 8);
    }
    assert(!(key == "tailgateTopY"@)) by {
        reveal_strlit("tailgateTopY");
        assert(key.len() == 15 && "tailgateTopY"@.len() == 12);
    }
    assert(key == "tailgateBottomY"@);
    lemma_print_micro_parse(s, i + 18, v);
    let e = i + 18 + spec_print_micro(v as int).len();
    lemma_skip_ws_here(s, e);
    if s[e] == ',' {
        lemma_skip_ws_here(s, e + 1);
    }
}

/// One number member of a serialized geometry object: reading it fills
/// its accumulator field and hands the scan to the character after it.
#[verifier::rlimit(100)]
pub proof fn lemma_geo_step_cargo(
    s: Seq<char>,
    i: int,
    v: i64,
    acc: crate::parse::GeoAcc,
    fuel: nat,
)
    requires
        -FIXED_SAT <= v <= FIXED_SAT,
        fuel >= 1,
        0 <= i,
        s[i] == '"',
        i + 12 <= s.len(),
        forall|t: int| 0 <= t < 9 ==> s[i + 1 + t] == #[trigger] ("cargoTopY"@)[t],
        s[i + 10] == '"',
        s[i + 11] == ':',
        seq_at(s, i + 12, spec_print_micro(v as int)),
        i + 12 + spec_print_micro(v as int).len() < s.len(),
        ({
            let c = s[i + 12 + spec_print_micro(v as int).len()];
            c == ',' || c == '}'
        }),
        s[i + 12 + spec_print_micro(v as int).len()] == ',' ==> i + 12
            + spec_print_micro(v as int).len() + 1 < s.len() && !crate::text::is_ws(
            s[i + 12 + spec_print_micro(v as int).len() + 1],
        ),
        acc.cargo_top_y is None,
    ensures
        ({
            let e = i + 12 + spec_print_micro(v as int).len();
            let acc2 = (crate::parse::GeoAcc { cargo_top_y: Some(v), ..acc });
            if s[e] == ',' {
                crate::parse::spec_geo_members(s, i, acc, fuel) == crate::parse::spec_geo_members(
                    s,
                    e + 1,
                    acc2,
                    (fuel - 1) as nat,
                )
            } else {
                crate::parse::spec_geo_members(s, i, acc, fuel) == Some((acc2, e + 1))
            }
        }),
{
    reveal_strlit("cargoTopY");
    let key = "cargoTopY"@;
    assert forall|t: int| 0 <= t < 9 implies is_plain(#[trigger] key[t]) by {
        assert(s[i + 1 + t] == key[t]);
    }
    lemma_key_body_parse(s, i + 1, key);
    assert(crate::json::spec_str_body(s, i + 1) == Some((key, i + 11)));
    lemma_skip_ws_here(s, i + 11);
    assert(!crate::text::is_ws(s[i + 12])) by {
        lemma_print_micro_first(v as int);
        assert(s[i + 12] == spec_print_micro(v as int)[0]);
    }
    lemma_skip_ws_here(s, i + 12);
    assert(!(key == "plateBox"@)) by {
        reveal_strlit("plateBox");
        assert(key.len() == 9 && "plateBox"@.len() == 8);
    }
    assert(!(key == "tailgateTopY"@)) by {
        reveal_strlit("tailgateTopY");
        assert(key.len() == 9 && "tailgateTopY"@.len() == 12);
    }
    assert(!(key == "tailgateBottomY"@)) by {
        reveal_strlit("tailgateBottomY");
        assert(key.len() == 9 && "tailgateBottomY"@.len() == 15);
    }
    assert(key == "cargoTopY"@);
    lemma_print_micro_parse(s, i + 12, v);
    let e = i + 12 + spec_print_micro(v as int).len();
    lemma_skip_ws_here(s, e);
    if s[e] == ',' {
        lemma_skip_ws_here(s, e + 1);
    }
}


/// Parsing a printed plate box recovers it.
#[verifier::rlimit(100)]
pub proof fn lemma_platebox_parse(s: Seq<char>, k: int, pb: Option<PlateBox>)
    requires
        0 <= k,
        (match pb {
            Option::Some(b) => -FIXED_SAT <= b.x0 <= FIXED_SAT && -FIXED_SAT <= b.y0 <= FIXED_SAT
                && -FIXED_SAT <= b.x1 <= FIXED_SAT && -FIXED_SAT <= b.y1 <= FIXED_SAT,
            Option::None => true,
        }),
        seq_at(s, k, spec_print_platebox(pb)),
        k + spec_print_platebox(pb).len() < s.len(),
        s[k + spec_print_platebox(pb).len()] == ',',
    ensures
        crate::parse::spec_parse_platebox(s, k) == Some((pb, k + spec_print_platebox(pb).len())),
{
    reveal_strlit("null");
    let w = spec_print_platebox(pb);
    match pb {
        Option::None => {
            assert(s[k] == 'n' && s[k + 1] == 'u' && s[k + 2] == 'l' && s[k + 3] == 'l') by {
                assert(s[k] == w[0] && s[k + 1] == w[1] && s[k + 2] == w[2] && s[k + 3] == w[3]);
            }
            assert(crate::json::spec_lit_null(s, k));
        },
        Option::Some(b) => {
            let w0 = spec_print_micro(b.x0 as int);
            let w1 = spec_print_micro(b.y0 as int);
            let w2 = spec_print_micro(b.x1 as int);
            let w3 = spec_print_micro(b.y1 as int);
            let a0 = k + 1;
            let a1 = a0 + w0.len() + 1;
            let a2 = a1 + w1.len() + 1;
            let a3 = a2 + w2.len() + 1;
            let close = a3 + w3.len();
            assert(s[k] == '[') by {
                assert(s[k] == w[0]);
            }
            assert(!crate::json::spec_lit_null(s, k)) by {
                assert(s[k] == '[');
            }
            assert(seq_at(s, a0, w0)) by {
                assert forall|t: int| 0 <= t < w0.len() implies s[a0 + t] == #[trigger] w0[t] by {
                    assert(s[a0 + t] == w[1 + t]);
                }
            }
            assert(s[a0 + w0.len()] == ',') by {
                assert(s[a0 + w0.len()] == w[a0 + w0.len() - k]);
            }
            assert(seq_at(s, a1, w1)) by {
                assert forall|t: int| 0 <= t < w1.len() implies s[a1 + t] == #[trigger] w1[t] by {
                    assert(s[a1 + t] == w[a1 - k + t]);
                }
            }
            assert(s[a1 + w1.len()] == ',') by {
                assert(s[a1 + w1.len()] == w[a1 + w1.len() - k]);
            }
            assert(seq_at(s, a2, w2)) by {
                assert forall|t: int| 0 <= t < w2.len() implies s[a2 + t] == #[trigger] w2[t] by {
                    assert(s[a2 + t] == w[a2 - k + t]);
                }
            }
            assert(s[a2 + w2.len()] == ',') by {
                assert(s[a2 + w2.len()] == w[a2 + w2.len() - k]);
            }
            assert(seq_at(s, a3, w3)) by {
                assert forall|t: int| 0 <= t < w3.len() implies s[a3 + t] == #[trigger] w3[t] by {
                    assert(s[a3 + t] == w[a3 - k + t]);
                }
            }
            assert(s[a3 + w3.len()] == ']') by {
                assert(s[a3 + w3.len()] == w[a3 + w3.len() - k]);
            }
            lemma_print_micro_first(b.x0 as int);
            lemma_print_micro_first(b.y0 as int);
            lemma_print_micro_first(b.x1 as int);
            lemma_print_micro_first(b.y1 as int);
            assert(!crate::text::is_ws(s[a0])) by {
                assert(s[a0] == w0[0]);
            }
            assert(!crate::text::is_ws(s[a1])) by {
                assert(s[a1] == w1[0]);
            }
            assert(!crate::text::is_ws(s[a2])) by {
                assert(s[a2] == w2[0]);
            }
            assert(!crate::text::is_ws(s[a3])) by {
                assert(s[a3] == w3[0]);
            }
            lemma_skip_ws_here(s, a0);
            lemma_print_micro_parse(s, a0, b.x0);
            lemma_skip_ws_here(s, a0 + w0.len());
            lemma_skip_ws_here(s, a1);
            lemma_print_micro_parse(s, a1, b.y0);
            lemma_skip_ws_here(s, a1 + w1.len());
            lemma_skip_ws_here(s, a2);
            lemma_print_micro_parse(s, a2, b.x1);
            lemma_skip_ws_here(s, a2 + w2.len());
            lemma_skip_ws_here(s, a3);
            lemma_print_micro_parse(s, a3, b.y1);
            lemma_skip_ws_here(s, a3 + w3.len());
            assert(crate::parse::spec_parse_platebox(s, k) == Some((Some(b), close + 1)));
        },
    }
}


/// The three trailing number members of a serialized geometry object.
#[verifier::rlimit(100)]
pub proof fn lemma_geo_members_tail(
    s: Seq<char>,
    k1: int,
    v1: i64,
    v2: i64,
    v3: i64,
    pbacc: Option<PlateBox>,
    fuel: nat,
)
    requires
        -FIXED_SAT <= v1 <= FIXED_SAT,
        -FIXED_SAT <= v2 <= FIXED_SAT,
        -FIXED_SAT <= v3 <= FIXED_SAT,
        fuel >= 3,
        0 <= k1,
        seq_at(s, k1, "\"tailgateTopY\":"@),
        seq_at(s, k1 + 15, spec_print_micro(v1 as int)),
        seq_at(s, k1 + 15 + spec_print_micro(v1 as int).len(), ",\"tailgateBottomY\":"@),
        seq_at(
            s,
            k1 + 15 + spec_print_micro(v1 as int).len() + 19,
            spec_print_micro(v2 as int),
        ),
        seq_at(
            s,
            k1 + 15 + spec_print_micro(v1 as int).len() + 19 + spec_print_micro(v2 as int).len(),
            ",\"cargoTopY\":"@,
        ),
        seq_at(
            s,
            k1 + 15 + spec_print_micro(v1 as int).len() + 19 + spec_print_micro(v2 as int).len()
                + 13,
            spec_print_micro(v3 as int),
        ),
        s.len() == k1 + 15 + spec_print_micro(v1 as int).len() + 19 + spec_print_micro(
            v2 as int,
        ).len() + 13 + spec_print_micro(v3 as int).len() + 1,
        s[s.len() - 1] == '}',
    ensures
        crate::parse::spec_geo_members(
            s,
            k1,
            (crate::parse::GeoAcc {
                plate_box: Some(pbacc),
                tailgate_top_y: None,
                tailgate_bottom_y: None,
                cargo_top_y: None,
            }),
            fuel,
        ) == Some(
            (
                (crate::parse::GeoAcc {
                    plate_box: Some(pbacc),
                    tailgate_top_y: Some(v1),
                    tailgate_bottom_y: Some(v2),
                    cargo_top_y: Some(v3),
                }),
                s.len() as int,
            ),
        ),
{
    reveal_strlit("\"tailgateTopY\":");
    reveal_strlit(",\"tailgateBottomY\":");
    reveal_strlit(",\"cargoTopY\":");
    reveal_strlit("tailgateTopY");
    reveal_strlit("tailgateBottomY");
    reveal_strlit("cargoTopY");
    let w1 = spec_print_micro(v1 as int);
    let w2 = spec_print_micro(v2 as int);
    let w3 = spec_print_micro(v3 as int);
    let lit1 = "\"tailgateTopY\":"@;
    let lit2 = ",\"tailgateBottomY\":"@;
    let lit3 = ",\"cargoTopY\":"@;
    let key1 = "tailgateTopY"@;
    let key2 = "tailgateBottomY"@;
    let key3 = "cargoTopY"@;
    let p1 = k1 + 15;
    let l2 = p1 + w1.len();
    let p2 = l2 + 19;
    let l3 = p2 + w2.len();
    let p3 = l3 + 13;
    let close = p3 + w3.len();
    let acc0 = crate::parse::GeoAcc {
        plate_box: Some(pbacc),
        tailgate_top_y: None,
        tailgate_bottom_y: None,
        cargo_top_y: None,
    };
    let acc1 = crate::parse::GeoAcc { tailgate_top_y: Some(v1), ..acc0 };
    let acc2 = crate::parse::GeoAcc { tailgate_bottom_y: Some(v2), ..acc1 };
    let acc3 = crate::parse::GeoAcc { cargo_top_y: Some(v3), ..acc2 };
    // first member
    assert(s[k1] == '"') by {
        assert(s[k1] == lit1[0]);
    }
    assert forall|t: int| 0 <= t < 12 implies s[k1 + 1 + t] == #[trigger] key1[t] by {
        assert(s[k1 + 1 + t] == lit1[1 + t]);
        assert(lit1[1 + t] == key1[t]);
    }
    assert(s[k1 + 13] == '"') by {
        assert(s[k1 + 13] == lit1[13]);
    }
    assert(s[k1 + 14] == ':') by {
        assert(s[k1 + 14] == lit1[14]);
    }
    assert(s[l2] == ',') by {
        assert(s[l2] == lit2[0]);
    }
    assert(s[l2 + 1] == '"') by {
        assert(s[l2 + 1] == lit2[1]);
    }
    lemma_geo_step_tg_top(s, k1, v1, acc0, fuel);
    // second member
    let k2 = l2 + 1;
    assert forall|t: int| 0 <= t < 15 implies s[k2 + 1 + t] == #[trigger] key2[t] by {
        assert(s[k2 + 1 + t] == lit2[2 + t]);
        assert(lit2[2 + t] == key2[t]);
    }
    assert(s[k2 + 16] == '"') by {
        assert(s[k2 + 16] == lit2[17]);
    }
    assert(s[k2 + 17] == ':') by {
        assert(s[k2 + 17] == lit2[18]);
    }
    assert(seq_at(s, k2 + 18, w2)) by {
        assert(k2 + 18 == p2);
    }
    assert(s[l3] == ',') by {
        assert(s[l3] == lit3[0]);
    }
    assert(s[l3 + 1] == '"') by {
        assert(s[l3 + 1] == lit3[1]);
    }
    lemma_geo_step_tg_bot(s, k2, v2, acc1, (fuel - 1) as nat);
    // third member
    let k3 = l3 + 1;
    assert forall|t: int| 0 <= t < 9 implies s[k3 + 1 + t] == #[trigger] key3[t] by {
        assert(s[k3 + 1 + t] == lit3[2 + t]);
        assert(lit3[2 + t] == key3[t]);
    }
    assert(s[k3 + 10] == '"') by {
        assert(s[k3 + 10] == lit3[11]);
    }
    assert(s[k3 + 11] == ':') by {
        assert(s[k3 + 11] == lit3[12]);
    }
    assert(seq_at(s, k3 + 12, w3)) by {
        assert(k3 + 12 == p3);
    }
    assert(s[close] == '}');
    lemma_geo_step_cargo(s, k3, v3, acc2, (fuel - 2) as nat);
    assert(crate::parse::spec_geo_members(s, k1, acc0, fuel) == Some((acc3, close + 1)));
}

/// Extraction idempotence, serialization side: parsing the canonical
/// text of a bounded geometry response as a whole document recovers the
/// response exactly.
#[verifier::rlimit(100)]
pub proof fn lemma_geo_roundtrip(g: GeometryResponse)
    requires
        crate::parse::spec_geo_bounded(g),
    ensures
        crate::parse::spec_geo_doc(spec_serialize_geometry(g)) == Some(g),
{
    reveal_strlit("{\"plateBox\":");
    reveal_strlit("plateBox");
    let s = spec_serialize_geometry(g);
    let lit0 = "{\"plateBox\":"@;
    let key0 = "plateBox"@;
    let wp = spec_print_platebox(g.plate_box);
    let w1 = spec_print_micro(g.tailgate_top_y as int);
    let w2 = spec_print_micro(g.tailgate_bottom_y as int);
    let w3 = spec_print_micro(g.cargo_top_y as int);
    let lit1 = ",\"tailgateTopY\":"@;
    let lit2 = ",\"tailgateBottomY\":"@;
    let lit3 = ",\"cargoTopY\":"@;
    reveal_strlit(",\"tailgateTopY\":");
    reveal_strlit("\"tailgateTopY\":");
    reveal_strlit(",\"tailgateBottomY\":");
    reveal_strlit(",\"cargoTopY\":");
    reveal_strlit("}");
    assert(s =~= lit0 + wp + lit1 + w1 + lit2 + w2 + lit3 + w3 + "}"@);
    let q0: int = 12;
    let lp = q0 + wp.len();
    let k1 = lp + 1;
    let p1 = k1 + 15;
    let l2 = p1 + w1.len();
    let p2 = l2 + 19;
    let l3 = p2 + w2.len();
    let p3 = l3 + 13;
    let close = p3 + w3.len();
    assert(s.len() == close + 1);
    assert(wp.len() >= 4) by {
        reveal_strlit("null");
        match g.plate_box {
            Option::Some(b) => {
                lemma_print_micro_first(b.x0 as int);
                lemma_print_micro_first(b.y0 as int);
                lemma_print_micro_first(b.x1 as int);
                lemma_print_micro_first(b.y1 as int);
            },
            Option::None => {},
        }
    }
    // character layout
    assert forall|t: int| 0 <= t < 12 implies s[t] == #[trigger] lit0[t] by {}
    assert(seq_at(s, q0, wp)) by {
        assert forall|t: int| 0 <= t < wp.len() implies s[q0 + t] == #[trigger] wp[t] by {}
    }
    assert(s[lp] == ',') by {
        assert(s[lp] == lit1[0]);
    }
    let lit1b = "\"tailgateTopY\":"@;
    assert(seq_at(s, k1, lit1b)) by {
        assert forall|t: int| 0 <= t < 15 implies s[k1 + t] == #[trigger] lit1b[t] by {
            assert(s[k1 + t] == lit1[1 + t]);
            assert(lit1[1 + t] == lit1b[t]);
        }
    }
    assert(seq_at(s, p1, w1)) by {
        assert forall|t: int| 0 <= t < w1.len() implies s[p1 + t] == #[trigger] w1[t] by {}
    }
    assert(seq_at(s, l2, lit2)) by {
        assert forall|t: int| 0 <= t < 19 implies s[l2 + t] == #[trigger] lit2[t] by {}
    }
    assert(seq_at(s, p2, w2)) by {
        assert forall|t: int| 0 <= t < w2.len() implies s[p2 + t] == #[trigger] w2[t] by {}
    }
    assert(seq_at(s, l3, lit3)) by {
        assert forall|t: int| 0 <= t < 13 implies s[l3 + t] == #[trigger] lit3[t] by {}
    }
    assert(seq_at(s, p3, w3)) by {
        assert forall|t: int| 0 <= t < w3.len() implies s[p3 + t] == #[trigger] w3[t] by {}
    }
    assert(s[close] == '}');
    // document structure
    assert(s[0] == '{') by {
        assert(s[0] == lit0[0]);
    }
    lemma_skip_ws_here(s, 0);
    assert(s[1] == '"') by {
        assert(s[1] == lit0[1]);
    }
    lemma_skip_ws_here(s, 1);
    // the plateBox member
    assert forall|t: int| 0 <= t < 8 implies s[2 + t] == #[trigger] key0[t] by {
        assert(s[2 + t] == lit0[2 + t]);
        assert(lit0[2 + t] == key0[t]);
    }
    assert forall|t: int| 0 <= t < 8 implies is_plain(#[trigger] key0[t]) by {
        assert(key0[t] == lit0[2 + t]);
    }
    assert(s[10] == '"') by {
        assert(s[10] == lit0[10]);
    }
    lemma_key_body_parse(s, 2, key0);
    assert(s[11] == ':') by {
        assert(s[11] == lit0[11]);
    }
    lemma_skip_ws_here(s, 11);
    assert(!crate::text::is_ws(s[q0])) by {
        reveal_strlit("null");
        match g.plate_box {
            Option::Some(b) => {
                assert(s[q0] == wp[0]);
                assert(wp[0] == '[');
            },
            Option::None => {
                assert(s[q0] == wp[0]);
                assert(wp[0] == 'n');
            },
        }
    }
    lemma_skip_ws_here(s, q0);
    lemma_platebox_parse(s, q0, g.plate_box);
    lemma_skip_ws_here(s, lp);
    assert(s[lp + 1] == '"') by {
        assert(s[lp + 1] == lit1[1]);
    }
    lemma_skip_ws_here(s, lp + 1);
    // the three number members
    let acc0 = crate::parse::spec_geo_acc0();
    let fuel = s.len() as nat;
    assert(fuel >= 4) by {
        lemma_print_micro_first(g.tailgate_top_y as int);
    }
    lemma_geo_members_tail(
        s,
        k1,
        g.tailgate_top_y,
        g.tailgate_bottom_y,
        g.cargo_top_y,
        g.plate_box,
        (fuel - 1) as nat,
    );
    assert(crate::parse::spec_geo_members(s, 1, acc0, fuel) == Some(
        (
            (crate::parse::GeoAcc {
                plate_box: Some(g.plate_box),
                tailgate_top_y: Some(g.tailgate_top_y),
                tailgate_bottom_y: Some(g.tailgate_bottom_y),
                cargo_top_y: Some(g.cargo_top_y),
            }),
            s.len() as int,
        ),
    ));
    lemma_skip_ws_here(s, s.len() as int);
    assert(crate::parse::spec_geo_doc(s) == Some(g));
}


/// Extraction idempotence: when a reply text yields a geometry response,
/// serializing that response and extracting again yields the same
/// response.  (Every response the executable parser returns satisfies
/// `spec_geo_bounded`, so the bound costs callers nothing.)
pub proof fn lemma_extraction_idempotent(text: Seq<char>, g: GeometryResponse)
    requires
        crate::parse::spec_geo_extract(text) == Ok::<GeometryResponse, crate::parse::ExtractErr>(g),
        crate::parse::spec_geo_bounded(g),
    ensures
        crate::parse::spec_geo_extract(spec_serialize_geometry(g)) == crate::parse::spec_geo_extract(
            text,
        ),
{
    lemma_geo_roundtrip(g);
}


/// Characters with equal code points are equal.
pub proof fn lemma_char_injective(a: char, b: char)
    requires
        a as u32 == b as u32,
    ensures
        a == b,
{
}

/// A hex digit printer emits a hex digit, and parsing recovers its value.
pub proof fn lemma_hex_char_facts(d: int)
    requires
        0 <= d <= 15,
    ensures
        crate::json::is_hex(hex_char(d)),
        crate::json::hex_val(hex_char(d)) == d,
{
}

/// Parsing an escaped string body followed by a closing quote recovers
/// the original characters.
pub proof fn lemma_escaped_body_parse(s: Seq<char>, i: int, sq: Seq<char>)
    requires
        0 <= i,
        i + spec_escape(sq).len() + 1 <= s.len(),
        forall|t: int|
            0 <= t < spec_escape(sq).len() ==> s[i + t] == #[trigger] spec_escape(sq)[t],
        s[i + spec_escape(sq).len()] == '"',
    ensures
        crate::json::spec_str_body(s, i) == Some((sq, i + spec_escape(sq).len() + 1)),
    decreases sq.len(),
{
    let w = spec_escape(sq);
    if sq.len() == 0 {
        assert(s[i] == '"');
        assert(crate::json::spec_str_body(s, i) == Some((Seq::<char>::empty(), i + 1)));
        assert(Seq::<char>::empty() =~= sq);
    } else {
        let c = sq[0];
        let e1 = spec_escape1(c);
        let tail = sq.drop_first();
        let wt = spec_escape(tail);
        assert(w == e1 + wt);
        assert forall|t: int| 0 <= t < wt.len() implies s[i + e1.len() + t] == #[trigger] wt[t] by {
            assert(w[e1.len() + t] == wt[t]);
            assert(s[i + (e1.len() + t)] == w[e1.len() + t]);
        }
        assert(s[i + e1.len() + wt.len()] == '"');
        lemma_escaped_body_parse(s, i + e1.len() as int, tail);
        if c == '"' {
            assert(s[i] == '\\' && s[i + 1] == '"') by {
                assert(s[i] == w[0] && s[i + 1] == w[1]);
            }
            assert(crate::json::spec_unescape1('"') == Some('"'));
            assert(seq!['"'] + tail =~= sq);
        } else if c == '\\' {
            assert(s[i] == '\\' && s[i + 1] == '\\') by {
                assert(s[i] == w[0] && s[i + 1] == w[1]);
            }
            assert(crate::json::spec_unescape1('\\') == Some('\\'));
            assert(seq!['\\'] + tail =~= sq);
        } else if (c as u32) < 0x20 {
            let hi = ((c as u32) / 16) as int;
            let lo = ((c as u32) % 16) as int;
            vstd::arithmetic::div_mod::lemma_mod_bound(c as u32 as int, 16);
            vstd::arithmetic::div_mod::lemma_div_pos_is_pos(c as u32 as int, 16);
            vstd::arithmetic::div_mod::lemma_div_is_ordered(c as u32 as int, 0x1F, 16);
            assert(s[i] == '\\' && s[i + 1] == 'u' && s[i + 2] == '0' && s[i + 3] == '0' && s[i
                + 4] == hex_char(hi) && s[i + 5] == hex_char(lo)) by {
                assert(s[i] == w[0] && s[i + 1] == w[1] && s[i + 2] == w[2] && s[i + 3] == w[3]
                    && s[i + 4] == w[4] && s[i + 5] == w[5]);
            }
            lemma_hex_char_facts(hi);
            lemma_hex_char_facts(lo);
            assert(crate::json::is_hex('0') && crate::json::hex_val('0') == 0);
            assert(crate::json::spec_hex4_ok(s, i + 2));
            vstd::arithmetic::div_mod::lemma_fundamental_div_mod(c as u32 as int, 16);
            assert(crate::json::spec_hex4(s, i + 2) == hi * 16 + lo);
            assert(hi * 16 + lo == c as u32) by {
                assert(16 * ((c as u32 as int) / 16) == ((c as u32 as int) / 16) * 16);
            }
            let code = crate::json::spec_hex4(s, i + 2);
            assert(0 <= code <= 0xFF);
            assert(code as u8 == code);
            assert(((code as u8) as char) as u32 == code);
            assert(((code as u8) as char) as u32 == c as u32);
            lemma_char_injective((code as u8) as char, c);
            assert(((code as u8) as char) == c);
            assert(seq![c] + tail =~= sq);
        } else {
            assert(is_plain(c) || c == '/');
            assert(s[i] == c) by {
                assert(s[i] == w[0]);
            }
            assert(c != '"' && c != '\\' && (c as u32) >= 0x20);
            assert(seq![c] + tail =~= sq);
        }
    }
}


/// One member of a serialized fill object: reading it fills its
/// accumulator field and hands the scan to the character after it.
#[verifier::rlimit(100)]
pub proof fn lemma_fill_step_l(
    s: Seq<char>,
    i: int,
    v: i64,
    acc: crate::parse::FillAcc,
    fuel: nat,
)
    requires
        -FIXED_SAT <= v <= FIXED_SAT,
        fuel >= 1,
        0 <= i,
        s[i] == '"',
        i + 13 <= s.len(),
        forall|t: int| 0 <= t < 10 ==> s[i + 1 + t] == #[trigger] ("fillRatioL"@)[t],
        s[i + 11] == '"',
        s[i + 12] == ':',
        seq_at(s, i + 13, spec_print_micro(v as int)),
        i + 13 + spec_print_micro(v as int).len() < s.len(),
        ({
            let c = s[i + 13 + spec_print_micro(v as int).len()];
            c == ',' || c == '}'
        }),
        s[i + 13 + spec_print_micro(v as int).len()] == ',' ==> i + 13 + spec_print_micro(v as int).len() + 1 < s.len()
            && !crate::text::is_ws(s[i + 13 + spec_print_micro(v as int).len() + 1]),
        acc.fill_ratio_l is None,
    ensures
        ({
            let e = i + 13 + spec_print_micro(v as int).len();
            let acc2 = (crate::parse::FillAcc { fill_ratio_l: Some(v), ..acc });
            if s[e] == ',' {
                crate::parse::spec_fill_members(s, i, acc, fuel) == crate::parse::spec_fill_members(
                    s,
                    e + 1,
                    acc2,
                    (fuel - 1) as nat,
                )
            } else {
                crate::parse::spec_fill_members(s, i, acc, fuel) == Some((acc2, e + 1))
            }
        }),
{
    reveal_strlit("fillRatioL");
    let key = "fillRatioL"@;
    assert forall|t: int| 0 <= t < 10 implies is_plain(#[trigger] key[t]) by {
        assert(s[i + 1 + t] == key[t]);
    }
    lemma_key_body_parse(s, i + 1, key);
    assert(crate::json::spec_str_body(s, i + 1) == Some((key, i + 12)));
    lemma_skip_ws_here(s, i + 12);

    assert(key == "fillRatioL"@);
    assert(!crate::text::is_ws(s[i + 13])) by {
        lemma_print_micro_first(v as int);
        assert(s[i + 13] == spec_print_micro(v as int)[0]);
    }
    lemma_skip_ws_here(s, i + 13);
    lemma_print_micro_parse(s, i + 13, v);
    let e = i + 13 + spec_print_micro(v as int).len();
    lemma_skip_ws_here(s, e);
    if s[e] == ',' {
        lemma_skip_ws_here(s, e + 1);
    }
}

/// One member of a serialized fill object: reading it fills its
/// accumulator field and hands the scan to the character after it.
#[verifier::rlimit(100)]
pub proof fn lemma_fill_step_w(
    s: Seq<char>,
    i: int,
    v: i64,
    acc: crate::parse::FillAcc,
    fuel: nat,
)
    requires
        -FIXED_SAT <= v <= FIXED_SAT,
        fuel >= 1,
        0 <= i,
        s[i] == '"',
        i + 13 <= s.len(),
        forall|t: int| 0 <= t < 10 ==> s[i + 1 + t] == #[trigger] ("fillRatioW"@)[t],
        s[i + 11] == '"',
        s[i + 12] == ':',
        seq_at(s, i + 13, spec_print_micro(v as int)),
        i + 13 + spec_print_micro(v as int).len() < s.len(),
        ({
            let c = s[i + 13 + spec_print_micro(v as int).len()];
            c == ',' || c == '}'
        }),
        s[i + 13 + spec_print_micro(v as int).len()] == ',' ==> i + 13 + spec_print_micro(v as int).len() + 1 < s.len()
            && !crate::text::is_ws(s[i + 13 + spec_print_micro(v as int).len() + 1]),
        acc.fill_ratio_w is None,
    ensures
        ({
            let e = i + 13 + spec_print_micro(v as int).len();
            let acc2 = (crate::parse::FillAcc { fill_ratio_w: Some(v), ..acc });
            if s[e] == ',' {
                crate::parse::spec_fill_members(s, i, acc, fuel) == crate::parse::spec_fill_members(
                    s,
                    e + 1,
                    acc2,
                    (fuel - 1) as nat,
                )
            } else {
                crate::parse::spec_fill_members(s, i, acc, fuel) == Some((acc2, e + 1))
            }
        }),
{
    reveal_strlit("fillRatioW");
    let key = "fillRatioW"@;
    assert forall|t: int| 0 <= t < 10 implies is_plain(#[trigger] key[t]) by {
        assert(s[i + 1 + t] == key[t]);
    }
    lemma_key_body_parse(s, i + 1, key);
    assert(crate::json::spec_str_body(s, i + 1) == Some((key, i + 12)));
    lemma_skip_ws_here(s, i + 12);
    assert(!(key == "fillRatioL"@)) by {
        reveal_strlit("fillRatioL");
        assert(key[9] != ("fillRatioL"@)[9]);
    }
    assert(key == "fillRatioW"@);
    assert(!crate::text::is_ws(s[i + 13])) by {
        lemma_print_micro_first(v as int);
        assert(s[i + 13] == spec_print_micro(v as int)[0]);
    }
    lemma_skip_ws_here(s, i + 13);
    lemma_print_micro_parse(s, i + 13, v);
    let e = i + 13 + spec_print_micro(v as int).len();
    lemma_skip_ws_here(s, e);
    if s[e] == ',' {
        lemma_skip_ws_here(s, e + 1);
    }
}

/// One member of a serialized fill object: reading it fills its
/// accumulator field and hands the scan to the character after it.
#[verifier::rlimit(100)]
pub proof fn lemma_fill_step_taper(
    s: Seq<char>,
    i: int,
    v: i64,
    acc: crate::parse::FillAcc,
    fuel: nat,
)
    requires
        -FIXED_SAT <= v <= FIXED_SAT,
        fuel >= 1,
        0 <= i,
        s[i] == '"',
        i + 13 <= s.len(),
        forall|t: int| 0 <= t < 10 ==> s[i + 1 + t] == #[trigger] ("taperRatio"@)[t],
        s[i + 11] == '"',
        s[i + 12] == ':',
        seq_at(s, i + 13, spec_print_micro(v as int)),
        i + 13 + spec_print_micro(v as int).len() < s.len(),
        ({
            let c = s[i + 13 + spec_print_micro(v as int).len()];
            c == ',' || c == '}'
        }),
        s[i + 13 + spec_print_micro(v as int).len()] == ',' ==> i + 13 + spec_print_micro(v as int).len() + 1 < s.len()
            && !crate::text::is_ws(s[i + 13 + spec_print_micro(v as int).len() + 1]),
        acc.taper_ratio is None,
    ensures
        ({
            let e = i + 13 + spec_print_micro(v as int).len();
            let acc2 = (crate::parse::FillAcc { taper_ratio: Some(v), ..acc });
            if s[e] == ',' {
                crate::parse::spec_fill_members(s, i, acc, fuel) == crate::parse::spec_fill_members(
                    s,
                    e + 1,
                    acc2,
                    (fuel - 1) as nat,
                )
            } else {
                crate::parse::spec_fill_members(s, i, acc, fuel) == Some((acc2, e + 1))
            }
        }),
{
    reveal_strlit("taperRatio");
    let key = "taperRatio"@;
    assert forall|t: int| 0 <= t < 10 implies is_plain(#[trigger] key[t]) by {
        assert(s[i + 1 + t] == key[t]);
    }
    lemma_key_body_parse(s, i + 1, key);
    assert(crate::json::spec_str_body(s, i + 1) == Some((key, i + 12)));
    lemma_skip_ws_here(s, i + 12);
    assert(!(key == "fillRatioL"@)) by {
        reveal_strlit("fillRatioL");
        assert(key[0] != ("fillRatioL"@)[0]);
    }
    assert(!(key == "fillRatioW"@)) by {
        reveal_strlit("fillRatioW");
        assert(key[0] != ("fillRatioW"@)[0]);
    }
    assert(key == "taperRatio"@);
    assert(!crate::text::is_ws(s[i + 13])) by {
        lemma_print_micro_first(v as int);
        assert(s[i + 13] == spec_print_micro(v as int)[0]);
    }
    lemma_skip_ws_here(s, i + 13);
    lemma_print_micro_parse(s, i + 13, v);
    let e = i + 13 + spec_print_micro(v as int).len();
    lemma_skip_ws_here(s, e);
    if s[e] == ',' {
        lemma_skip_ws_here(s, e + 1);
    }
}

/// One member of a serialized fill object: reading it fills its
/// accumulator field and hands the scan to the character after it.
#[verifier::rlimit(100)]
pub proof fn lemma_fill_step_packing(
    s: Seq<char>,
    i: int,
    v: i64,
    acc: crate::parse::FillAcc,
    fuel: nat,
)
    requires
        -FIXED_SAT <= v <= FIXED_SAT,
        fuel >= 1,
        0 <= i,
        s[i] == '"',
        i + 17 <= s.len(),
        forall|t: int| 0 <= t < 14 ==> s[i + 1 + t] == #[trigger] ("packingDensity"@)[t],
        s[i + 15] == '"',
        s[i + 16] == ':',
        seq_at(s, i + 17, spec_print_micro(v as int)),
        i + 17 + spec_print_micro(v as int).len() < s.len(),
        ({
            let c = s[i + 17 + spec_print_micro(v as int).len()];
            c == ',' || c == '}'
        }),
        s[i + 17 + spec_print_micro(v as int).len()] == ',' ==> i + 17 + spec_print_micro(v as int).len() + 1 < s.len()
            && !crate::text::is_ws(s[i + 17 + spec_print_micro(v as int).len() + 1]),
        acc.packing_density is None,
    ensures
        ({
            let e = i + 17 + spec_print_micro(v as int).len();
            let acc2 = (crate::parse::FillAcc { packing_density: Some(v), ..acc });
            if s[e] == ',' {
                crate::parse::spec_fill_members(s, i, acc, fuel) == crate::parse::spec_fill_members(
                    s,
                    e + 1,
                    acc2,
                    (fuel - 1) as nat,
                )
            } else {
                crate::parse::spec_fill_members(s, i, acc, fuel) == Some((acc2, e + 1))
            }
        }),
{
    reveal_strlit("packingDensity");
    let key = "packingDensity"@;
    assert forall|t: int| 0 <= t < 14 implies is_plain(#[trigger] key[t]) by {
        assert(s[i + 1 + t] == key[t]);
    }
    lemma_key_body_parse(s, i + 1, key);
    assert(crate::json::spec_str_body(s, i + 1) == Some((key, i + 16)));
    lemma_skip_ws_here(s, i + 16);
    assert(!(key == "fillRatioL"@)) by {
        reveal_strlit("fillRatioL");
        assert(key.len() == 14 && "fillRatioL"@.len() == 10);
    }
    assert(!(key == "fillRatioW"@)) by {
        reveal_strlit("fillRatioW");
        assert(key.len() == 14 && "fillRatioW"@.len() == 10);
    }
    assert(!(key == "taperRatio"@)) by {
        reveal_strlit("taperRatio");
        assert(key.len() == 14 && "taperRatio"@.len() == 10);
    }
    assert(key == "packingDensity"@);
    assert(!crate::text::is_ws(s[i + 17])) by {
        lemma_print_micro_first(v as int);
        assert(s[i + 17] == spec_print_micro(v as int)[0]);
    }
    lemma_skip_ws_here(s, i + 17);
    lemma_print_micro_parse(s, i + 17, v);
    let e = i + 17 + spec_print_micro(v as int).len();
    lemma_skip_ws_here(s, e);
    if s[e] == ',' {
        lemma_skip_ws_here(s, e + 1);
    }
}

/// One member of a serialized fill object: reading it fills its
/// accumulator field and hands the scan to the character after it.
#[verifier::rlimit(100)]
pub proof fn lemma_fill_step_material(
    s: Seq<char>,
    i: int,
    sv: Option<Seq<char>>,
    acc: crate::parse::FillAcc,
    fuel: nat,
)
    requires
        
        fuel >= 1,
        0 <= i,
        s[i] == '"',
        i + 15 <= s.len(),
        forall|t: int| 0 <= t < 12 ==> s[i + 1 + t] == #[trigger] ("materialType"@)[t],
        s[i + 13] == '"',
        s[i + 14] == ':',
        seq_at(s, i + 15, spec_print_strval(sv)),
        i + 15 + spec_print_strval(sv).len() < s.len(),
        ({
            let c = s[i + 15 + spec_print_strval(sv).len()];
            c == ',' || c == '}'
        }),
        s[i + 15 + spec_print_strval(sv).len()] == ',' ==> i + 15 + spec_print_strval(sv).len() + 1 < s.len()
            && !crate::text::is_ws(s[i + 15 + spec_print_strval(sv).len() + 1]),
        acc.material_type is None,
    ensures
        ({
            let e = i + 15 + spec_print_strval(sv).len();
            let acc2 = (crate::parse::FillAcc { material_type: Some(sv), ..acc });
            if s[e] == ',' {
                crate::parse::spec_fill_members(s, i, acc, fuel) == crate::parse::spec_fill_members(
                    s,
                    e + 1,
                    acc2,
                    (fuel - 1) as nat,
                )
            } else {
                crate::parse::spec_fill_members(s, i, acc, fuel) == Some((acc2, e + 1))
            }
        }),
{
    reveal_strlit("materialType");
    let key = "materialType"@;
    assert forall|t: int| 0 <= t < 12 implies is_plain(#[trigger] key[t]) by {
        assert(s[i + 1 + t] == key[t]);
    }
    lemma_key_body_parse(s, i + 1, key);
    assert(crate::json::spec_str_body(s, i + 1) == Some((key, i + 14)));
    lemma_skip_ws_here(s, i + 14);
    assert(!(key == "fillRatioL"@)) by {
        reveal_strlit("fillRatioL");
        assert(key.len() == 12 && "fillRatioL"@.len() == 10);
    }
    assert(!(key == "fillRatioW"@)) by {
        reveal_strlit("fillRatioW");
        assert(key.len() == 12 && "fillRatioW"@.len() == 10);
    }
    assert(!(key == "taperRatio"@)) by {
        reveal_strlit("taperRatio");
        assert(key.len() == 12 && "taperRatio"@.len() == 10);
    }
    assert(!(key == "packingDensity"@)) by {
        reveal_strlit("packingDensity");
        assert(key.len() == 12 && "packingDensity"@.len() == 14);
    }
    assert(key == "materialType"@);
    reveal_strlit("null");
    let wv = spec_print_strval(sv);
    match sv {
        Option::None => {
            assert(s[i + 15] == 'n' && s[i + 15 + 1] == 'u' && s[i + 15 + 2]
                == 'l' && s[i + 15 + 3] == 'l') by {
                assert(s[i + 15] == wv[0] && s[i + 15 + 1] == wv[1] && s[i + 15
                    + 2] == wv[2] && s[i + 15 + 3] == wv[3]);
            }
            lemma_skip_ws_here(s, i + 15);
            assert(crate::json::spec_lit_null(s, i + 15));
            assert(crate::parse::spec_parse_strval(s, i + 15) == Some(
                (None::<Seq<char>>, i + 15 + 4),
            ));
        },
        Option::Some(m) => {
            assert(s[i + 15] == '"') by {
                assert(s[i + 15] == wv[0]);
            }
            lemma_skip_ws_here(s, i + 15);
            assert(!crate::json::spec_lit_null(s, i + 15));
            let we = spec_escape(m);
            assert forall|t: int| 0 <= t < we.len() implies s[i + 15 + 1 + t]
                == #[trigger] we[t] by {
                assert(wv[1 + t] == we[t]);
                assert(s[i + 15 + (1 + t)] == wv[1 + t]);
            }
            assert(s[i + 15 + 1 + we.len()] == '"') by {
                assert(wv[1 + we.len() as int] == '"');
                assert(s[i + 15 + (1 + we.len() as int)] == wv[1 + we.len() as int]);
            }
            lemma_escaped_body_parse(s, i + 15 + 1, m);
            assert(crate::parse::spec_parse_strval(s, i + 15) == Some(
                (Some(m), i + 15 + wv.len() as int),
            ));
        },
    }
    let e = i + 15 + spec_print_strval(sv).len();
    lemma_skip_ws_here(s, e);
    if s[e] == ',' {
        lemma_skip_ws_here(s, e + 1);
    }
}

/// One member of a serialized fill object: reading it fills its
/// accumulator field and hands the scan to the character after it.
#[verifier::rlimit(100)]
pub proof fn lemma_fill_step_reasoning(
    s: Seq<char>,
    i: int,
    sv: Option<Seq<char>>,
    acc: crate::parse::FillAcc,
    fuel: nat,
)
    requires
        
        fuel >= 1,
        0 <= i,
        s[i] == '"',
        i + 12 <= s.len(),
        forall|t: int| 0 <= t < 9 ==> s[i + 1 + t] == #[trigger] ("reasoning"@)[t],
        s[i + 10] == '"',
        s[i + 11] == ':',
        seq_at(s, i + 12, spec_print_strval(sv)),
        i + 12 + spec_print_strval(sv).len() < s.len(),
        ({
            let c = s[i + 12 + spec_print_strval(sv).len()];
            c == ',' || c == '}'
        }),
        s[i + 12 + spec_print_strval(sv).len()] == ',' ==> i + 12 + spec_print_strval(sv).len() + 1 < s.len()
            && !crate::text::is_ws(s[i + 12 + spec_print_strval(sv).len() + 1]),
        acc.reasoning is None,
    ensures
        ({
            let e = i + 12 + spec_print_strval(sv).len();
            let acc2 = (crate::parse::FillAcc { reasoning: Some(sv), ..acc });
            if s[e] == ',' {
                crate::parse::spec_fill_members(s, i, acc, fuel) == crate::parse::spec_fill_members(
                    s,
                    e + 1,
                    acc2,
                    (fuel - 1) as nat,
                )
            } else {
                crate::parse::spec_fill_members(s, i, acc, fuel) == Some((acc2, e + 1))
            }
        }),
{
    reveal_strlit("reasoning");
    let key = "reasoning"@;
    assert forall|t: int| 0 <= t < 9 implies is_plain(#[trigger] key[t]) by {
        assert(s[i + 1 + t] == key[t]);
    }
    lemma_key_body_parse(s, i + 1, key);
    assert(crate::json::spec_str_body(s, i + 1) == Some((key, i + 11)));
    lemma_skip_ws_here(s, i + 11);
    assert(!(key == "fillRatioL"@)) by {
        reveal_strlit("fillRatioL");
        assert(key.len() == 9 && "fillRatioL"@.len() == 10);
    }
    assert(!(key == "fillRatioW"@)) by {
        reveal_strlit("fillRatioW");
        assert(key.len() == 9 && "fillRatioW"@.len() == 10);
    }
    assert(!(key == "taperRatio"@)) by {
        reveal_strlit("taperRatio");
        assert(key.len() == 9 && "taperRatio"@.len() == 10);
    }
    assert(!(key == "packingDensity"@)) by {
        reveal_strlit("packingDensity");
        assert(key.len() == 9 && "packingDensity"@.len() == 14);
    }
    assert(!(key == "materialType"@)) by {
        reveal_strlit("materialType");
        assert(key.len() == 9 && "materialType"@.len() == 12);
    }
    assert(key == "reasoning"@);
    reveal_strlit("null");
    let wv = spec_print_strval(sv);
    match sv {
        Option::None => {
            assert(s[i + 12] == 'n' && s[i + 12 + 1] == 'u' && s[i + 12 + 2]
                == 'l' && s[i + 12 + 3] == 'l') by {
                assert(s[i + 12] == wv[0] && s[i + 12 + 1] == wv[1] && s[i + 12
                    + 2] == wv[2] && s[i + 12 + 3] == wv[3]);
            }
            lemma_skip_ws_here(s, i + 12);
            assert(crate::json::spec_lit_null(s, i + 12));
            assert(crate::parse::spec_parse_strval(s, i + 12) == Some(
                (None::<Seq<char>>, i + 12 + 4),
            ));
        },
        Option::Some(m) => {
            assert(s[i + 12] == '"') by {
                assert(s[i + 12] == wv[0]);
            }
            lemma_skip_ws_here(s, i + 12);
            assert(!crate::json::spec_lit_null(s, i + 12));
            let we = spec_escape(m);
            assert forall|t: int| 0 <= t < we.len() implies s[i + 12 + 1 + t]
                == #[trigger] we[t] by {
                assert(wv[1 + t] == we[t]);
                assert(s[i + 12 + (1 + t)] == wv[1 + t]);
            }
            assert(s[i + 12 + 1 + we.len()] == '"') by {
                assert(wv[1 + we.len() as int] == '"');
                assert(s[i + 12 + (1 + we.len() as int)] == wv[1 + we.len() as int]);
            }
            lemma_escaped_body_parse(s, i + 12 + 1, m);
            assert(crate::parse::spec_parse_strval(s, i + 12) == Some(
                (Some(m), i + 12 + wv.len() as int),
            ));
        },
    }
    let e = i + 12 + spec_print_strval(sv).len();
    lemma_skip_ws_here(s, e);
    if s[e] == ',' {
        lemma_skip_ws_here(s, e + 1);
    }
}



/// The two trailing string members of a serialized fill object.
#[verifier::rlimit(100)]
pub proof fn lemma_fill_tail_strings(
    s: Seq<char>,
    k5: int,
    mt: Option<Seq<char>>,
    rs: Option<Seq<char>>,
    acc: crate::parse::FillAcc,
    fuel: nat,
)
    requires
        fuel >= 2,
        0 <= k5,
        acc.material_type is None,
        acc.reasoning is None,
        seq_at(s, k5, "\"materialType\":"@),
        seq_at(s, k5 + 15, spec_print_strval(mt)),
        seq_at(s, k5 + 15 + spec_print_strval(mt).len(), ",\"reasoning\":"@),
        seq_at(s, k5 + 15 + spec_print_strval(mt).len() + 13, spec_print_strval(rs)),
        s.len() == k5 + 15 + spec_print_strval(mt).len() + 13 + spec_print_strval(rs).len() + 1,
        s[s.len() - 1] == '}',
    ensures
        crate::parse::spec_fill_members(s, k5, acc, fuel) == Some(
            (
                (crate::parse::FillAcc { material_type: Some(mt), reasoning: Some(rs), ..acc }),
                s.len() as int,
            ),
        ),
{
    reveal_strlit("\"materialType\":");
    reveal_strlit(",\"reasoning\":");
    reveal_strlit("materialType");
    reveal_strlit("reasoning");
    let litm = "\"materialType\":"@;
    let litr = ",\"reasoning\":"@;
    let mat = spec_print_strval(mt);
    let rea = spec_print_strval(rs);
    let p5 = k5 + 15;
    let l5 = p5 + mat.len();
    let k6 = l5 + 1;
    let p6 = l5 + 13;
    let close = p6 + rea.len();
    let acc5 = crate::parse::FillAcc { material_type: Some(mt), ..acc };
    let acc6 = crate::parse::FillAcc { reasoning: Some(rs), ..acc5 };
    assert(s[k5] == '"') by {
        assert(s[k5] == litm[0]);
    }
    assert forall|t: int| 0 <= t < 12 implies s[k5 + 1 + t] == #[trigger] ("materialType"@)[t] by {
        assert(s[k5 + 1 + t] == litm[1 + t]);
        assert(litm[1 + t] == ("materialType"@)[t]);
    }
    assert(s[k5 + 13] == '"') by {
        assert(s[k5 + 13] == litm[13]);
    }
    assert(s[k5 + 14] == ':') by {
        assert(s[k5 + 14] == litm[14]);
    }
    assert(s[l5] == ',') by {
        assert(s[l5] == litr[0]);
    }
    assert(s[l5 + 1] == '"') by {
        assert(s[l5 + 1] == litr[1]);
    }
    lemma_fill_step_material(s, k5, mt, acc, fuel);
    assert(s[k6] == '"');
    assert forall|t: int| 0 <= t < 9 implies s[k6 + 1 + t] == #[trigger] ("reasoning"@)[t] by {
        assert(s[k6 + 1 + t] == litr[2 + t]);
        assert(litr[2 + t] == ("reasoning"@)[t]);
    }
    assert(s[k6 + 10] == '"') by {
        assert(s[k6 + 10] == litr[11]);
    }
    assert(s[k6 + 11] == ':') by {
        assert(s[k6 + 11] == litr[12]);
    }
    assert(seq_at(s, k6 + 12, rea)) by {
        assert(k6 + 12 == p6);
    }
    assert(s[close] == '}');
    lemma_fill_step_reasoning(s, k6, rs, acc5, (fuel - 1) as nat);
}

/// The three trailing number members of a serialized fill object,
/// followed by its two string members.
#[verifier::rlimit(100)]
pub proof fn lemma_fill_tail_numbers(
    s: Seq<char>,
    k2: int,
    v2: i64,
    v3: i64,
    v4: i64,
    mt: Option<Seq<char>>,
    rs: Option<Seq<char>>,
    acc: crate::parse::FillAcc,
    fuel: nat,
)
    requires
        fuel >= 5,
        0 <= k2,
        -FIXED_SAT <= v2 <= FIXED_SAT,
        -FIXED_SAT <= v3 <= FIXED_SAT,
        -FIXED_SAT <= v4 <= FIXED_SAT,
        acc.fill_ratio_w is None,
        acc.taper_ratio is None,
        acc.packing_density is None,
        acc.material_type is None,
        acc.reasoning is None,
        seq_at(s, k2, "\"fillRatioW\":"@),
        seq_at(s, k2 + 13, spec_print_micro(v2 as int)),
        seq_at(s, k2 + 13 + spec_print_micro(v2 as int).len(), ",\"taperRatio\":"@),
        seq_at(
            s,
            k2 + 13 + spec_print_micro(v2 as int).len() + 14,
            spec_print_micro(v3 as int),
        ),
        seq_at(
            s,
            k2 + 13 + spec_print_micro(v2 as int).len() + 14 + spec_print_micro(v3 as int).len(),
            ",\"packingDensity\":"@,
        ),
        seq_at(
            s,
            k2 + 13 + spec_print_micro(v2 as int).len() + 14 + spec_print_micro(v3 as int).len()
                + 18,
            spec_print_micro(v4 as int),
        ),
        seq_at(
            s,
            k2 + 13 + spec_print_micro(v2 as int).len() + 14 + spec_print_micro(v3 as int).len()
                + 18 + spec_print_micro(v4 as int).len(),
            ",\"materialType\":"@,
        ),
        seq_at(
            s,
            k2 + 13 + spec_print_micro(v2 as int).len() + 14 + spec_print_micro(v3 as int).len()
                + 18 + spec_print_micro(v4 as int).len() + 16,
            spec_print_strval(mt),
        ),
        seq_at(
            s,
            k2 + 13 + spec_print_micro(v2 as int).len() + 14 + spec_print_micro(v3 as int).len()
                + 18 + spec_print_micro(v4 as int).len() + 16 + spec_print_strval(mt).len(),
            ",\"reasoning\":"@,
        ),
        seq_at(
            s,
            k2 + 13 + spec_print_micro(v2 as int).len() + 14 + spec_print_micro(v3 as int).len()
                + 18 + spec_print_micro(v4 as int).len() + 16 + spec_print_strval(mt).len() + 13,
            spec_print_strval(rs),
        ),
        s.len() == k2 + 13 + spec_print_micro(v2 as int).len() + 14 + spec_print_micro(
            v3 as int,
        ).len() + 18 + spec_print_micro(v4 as int).len() + 16 + spec_print_strval(mt).len() + 13
            + spec_print_strval(rs).len() + 1,
        s[s.len() - 1] == '}',
    ensures
        crate::parse::spec_fill_members(s, k2, acc, fuel) == Some(
            (
                (crate::parse::FillAcc {
                    fill_ratio_w: Some(v2),
                    taper_ratio: Some(v3),
                    packing_density: Some(v4),
                    material_type: Some(mt),
                    reasoning: Some(rs),
                    ..acc
                }),
                s.len() as int,
            ),
        ),
{
    reveal_strlit("\"fillRatioW\":");
    reveal_strlit(",\"taperRatio\":");
    reveal_strlit(",\"packingDensity\":");
    reveal_strlit(",\"materialType\":");
    reveal_strlit("fillRatioW");
    reveal_strlit("taperRatio");
    reveal_strlit("packingDensity");
    let litw = "\"fillRatioW\":"@;
    let litt = ",\"taperRatio\":"@;
    let litp = ",\"packingDensity\":"@;
    let litm = ",\"materialType\":"@;
    let w2 = spec_print_micro(v2 as int);
    let w3 = spec_print_micro(v3 as int);
    let w4 = spec_print_micro(v4 as int);
    let mat = spec_print_strval(mt);
    let p2 = k2 + 13;
    let l2 = p2 + w2.len();
    let k3 = l2 + 1;
    let p3 = l2 + 14;
    let l3 = p3 + w3.len();
    let k4 = l3 + 1;
    let p4 = l3 + 18;
    let l4 = p4 + w4.len();
    let k5 = l4 + 1;
    let p5 = l4 + 16;
    let acc2 = crate::parse::FillAcc { fill_ratio_w: Some(v2), ..acc };
    let acc3 = crate::parse::FillAcc { taper_ratio: Some(v3), ..acc2 };
    let acc4 = crate::parse::FillAcc { packing_density: Some(v4), ..acc3 };
    // fillRatioW
    assert(s[k2] == '"') by {
        assert(s[k2] == litw[0]);
    }
    assert forall|t: int| 0 <= t < 10 implies s[k2 + 1 + t] == #[trigger] ("fillRatioW"@)[t] by {
        assert(s[k2 + 1 + t] == litw[1 + t]);
        assert(litw[1 + t] == ("fillRatioW"@)[t]);
    }
    assert(s[k2 + 11] == '"') by {
        assert(s[k2 + 11] == litw[11]);
    }
    assert(s[k2 + 12] == ':') by {
        assert(s[k2 + 12] == litw[12]);
    }
    assert(s[l2] == ',') by {
        assert(s[l2] == litt[0]);
    }
    assert(s[l2 + 1] == '"') by {
        assert(s[l2 + 1] == litt[1]);
    }
    lemma_fill_step_w(s, k2, v2, acc, fuel);
    // taperRatio
    assert(s[k3] == '"');
    assert forall|t: int| 0 <= t < 10 implies s[k3 + 1 + t] == #[trigger] ("taperRatio"@)[t] by {
        assert(s[k3 + 1 + t] == litt[2 + t]);
        assert(litt[2 + t] == ("taperRatio"@)[t]);
    }
    assert(s[k3 + 11] == '"') by {
        assert(s[k3 + 11] == litt[12]);
    }
    assert(s[k3 + 12] == ':') by {
        assert(s[k3 + 12] == litt[13]);
    }
    assert(seq_at(s, k3 + 13, w3)) by {
        assert(k3 + 13 == p3);
    }
    assert(s[l3] == ',') by {
        assert(s[l3] == litp[0]);
    }
    assert(s[l3 + 1] == '"') by {
        assert(s[l3 + 1] == litp[1]);
    }
    lemma_fill_step_taper(s, k3, v3, acc2, (fuel - 1) as nat);
    // packingDensity
    assert(s[k4] == '"');
    assert forall|t: int| 0 <= t < 14 implies s[k4 + 1 + t] == #[trigger] ("packingDensity"@)[t]
        by {
        assert(s[k4 + 1 + t] == litp[2 + t]);
        assert(litp[2 + t] == ("packingDensity"@)[t]);
    }
    assert(s[k4 + 15] == '"') by {
        assert(s[k4 + 15] == litp[16]);
    }
    assert(s[k4 + 16] == ':') by {
        assert(s[k4 + 16] == litp[17]);
    }
    assert(seq_at(s, k4 + 17, w4)) by {
        assert(k4 + 17 == p4);
    }
    assert(s[l4] == ',') by {
        assert(s[l4] == litm[0]);
    }
    assert(s[l4 + 1] == '"') by {
        assert(s[l4 + 1] == litm[1]);
    }
    lemma_fill_step_packing(s, k4, v4, acc3, (fuel - 2) as nat);
    // hand over to the string members, whose literal drops the comma
    reveal_strlit("\"materialType\":");
    let litmb = "\"materialType\":"@;
    assert(seq_at(s, k5, litmb)) by {
        assert forall|t: int| 0 <= t < 15 implies s[k5 + t] == #[trigger] litmb[t] by {
            assert(s[k5 + t] == litm[1 + t]);
            assert(litm[1 + t] == litmb[t]);
        }
    }
    assert(seq_at(s, k5 + 15, mat)) by {
        assert(k5 + 15 == p5 + 0);
    }
    lemma_fill_tail_strings(s, k5, mt, rs, acc4, (fuel - 3) as nat);
}

/// Parsing the canonical text of a bounded fill response as a whole
/// document recovers the response exactly.
#[verifier::rlimit(100)]
pub proof fn lemma_fill_roundtrip(f: crate::parse::FillView)
    requires
        crate::parse::spec_fill_bounded(f),
    ensures
        crate::parse::spec_fill_doc(spec_serialize_fill(f)) == Some(f),
{
    reveal_strlit("{\"fillRatioL\":");
    reveal_strlit(",\"fillRatioW\":");
    reveal_strlit(",\"taperRatio\":");
    reveal_strlit(",\"packingDensity\":");
    reveal_strlit(",\"materialType\":");
    reveal_strlit(",\"reasoning\":");
    reveal_strlit("}");
    reveal_strlit("fillRatioL");
    let s = spec_serialize_fill(f);
    let lit0 = "{\"fillRatioL\":"@;
    let lit1 = ",\"fillRatioW\":"@;
    let lit2 = ",\"taperRatio\":"@;
    let lit3 = ",\"packingDensity\":"@;
    let lit4 = ",\"materialType\":"@;
    let lit5 = ",\"reasoning\":"@;
    let w1 = spec_print_micro(f.fill_ratio_l as int);
    let w2 = spec_print_micro(f.fill_ratio_w as int);
    let w3 = spec_print_micro(f.taper_ratio as int);
    let w4 = spec_print_micro(f.packing_density as int);
    let mat = spec_print_strval(f.material_type);
    let rea = spec_print_strval(f.reasoning);
    assert(s =~= lit0 + w1 + lit1 + w2 + lit2 + w3 + lit3 + w4 + lit4 + mat + lit5 + rea + "}"@);
    let p1: int = 14;
    let l1 = p1 + w1.len();
    let k2 = l1 + 1;
    let p2 = l1 + 14;
    let l2 = p2 + w2.len();
    let p3 = l2 + 14;
    let l3 = p3 + w3.len();
    let p4 = l3 + 18;
    let l4 = p4 + w4.len();
    let p5 = l4 + 16;
    let l5 = p5 + mat.len();
    let p6 = l5 + 13;
    let close = p6 + rea.len();
    assert(s.len() == close + 1);
    lemma_print_micro_first(f.fill_ratio_l as int);
    // layout of every piece
    assert forall|t: int| 0 <= t < 14 implies s[t] == #[trigger] lit0[t] by {}
    assert(seq_at(s, p1, w1)) by {
        assert forall|t: int| 0 <= t < w1.len() implies s[p1 + t] == #[trigger] w1[t] by {}
    }
    assert forall|t: int| 0 <= t < 14 implies s[l1 + t] == #[trigger] lit1[t] by {}
    assert(seq_at(s, p2, w2)) by {
        assert forall|t: int| 0 <= t < w2.len() implies s[p2 + t] == #[trigger] w2[t] by {}
    }
    assert(seq_at(s, l2, lit2)) by {
        assert forall|t: int| 0 <= t < 14 implies s[l2 + t] == #[trigger] lit2[t] by {}
    }
    assert(seq_at(s, p3, w3)) by {
        assert forall|t: int| 0 <= t < w3.len() implies s[p3 + t] == #[trigger] w3[t] by {}
    }
    assert(seq_at(s, l3, lit3)) by {
        assert forall|t: int| 0 <= t < 18 implies s[l3 + t] == #[trigger] lit3[t] by {}
    }
    assert(seq_at(s, p4, w4)) by {
        assert forall|t: int| 0 <= t < w4.len() implies s[p4 + t] == #[trigger] w4[t] by {}
    }
    assert(seq_at(s, l4, lit4)) by {
        assert forall|t: int| 0 <= t < 16 implies s[l4 + t] == #[trigger] lit4[t] by {}
    }
    assert(seq_at(s, p5, mat)) by {
        assert forall|t: int| 0 <= t < mat.len() implies s[p5 + t] == #[trigger] mat[t] by {}
    }
    assert(seq_at(s, l5, lit5)) by {
        assert forall|t: int| 0 <= t < 13 implies s[l5 + t] == #[trigger] lit5[t] by {}
    }
    assert(seq_at(s, p6, rea)) by {
        assert forall|t: int| 0 <= t < rea.len() implies s[p6 + t] == #[trigger] rea[t] by {}
    }
    assert(s[close] == '}');
    // document structure and the first member
    assert(s[0] == '{');
    lemma_skip_ws_here(s, 0);
    assert(s[1] == '"');
    lemma_skip_ws_here(s, 1);
    let fuel = s.len() as nat;
    assert(fuel >= 6);
    let acc0 = crate::parse::spec_fill_acc0();
    let acc1 = crate::parse::FillAcc { fill_ratio_l: Some(f.fill_ratio_l), ..acc0 };
    assert(s[12] == '"' && s[13] == ':');
    assert forall|t: int| 0 <= t < 10 implies s[1 + 1 + t] == #[trigger] ("fillRatioL"@)[t] by {
        assert(s[2 + t] == lit0[2 + t]);
        assert(lit0[2 + t] == ("fillRatioL"@)[t]);
    }
    assert(s[l1] == ',') by {
        assert(s[l1] == lit1[0]);
    }
    assert(s[l1 + 1] == '"') by {
        assert(s[l1 + 1] == lit1[1]);
    }
    lemma_fill_step_l(s, 1, f.fill_ratio_l, acc0, fuel);
    // hand the remaining members to the tail, whose first literal drops
    // the comma
    reveal_strlit("\"fillRatioW\":");
    let litwb = "\"fillRatioW\":"@;
    assert(seq_at(s, k2, litwb)) by {
        assert forall|t: int| 0 <= t < 13 implies s[k2 + t] == #[trigger] litwb[t] by {
            assert(s[k2 + t] == lit1[1 + t]);
            assert(lit1[1 + t] == litwb[t]);
        }
    }
    assert(seq_at(s, k2 + 13, w2)) by {
        assert(k2 + 13 == p2);
    }
    lemma_fill_tail_numbers(
        s,
        k2,
        f.fill_ratio_w,
        f.taper_ratio,
        f.packing_density,
        f.material_type,
        f.reasoning,
        acc1,
        (fuel - 1) as nat,
    );
    let acc6 = crate::parse::FillAcc {
        fill_ratio_w: Some(f.fill_ratio_w),
        taper_ratio: Some(f.taper_ratio),
        packing_density: Some(f.packing_density),
        material_type: Some(f.material_type),
        reasoning: Some(f.reasoning),
        ..acc1
    };
    assert(crate::parse::spec_fill_members(s, 1, acc0, fuel) == Some((acc6, s.len() as int)));
    lemma_skip_ws_here(s, s.len() as int);
    assert(crate::parse::spec_fill_finish(acc6) == f);
    assert(crate::parse::spec_fill_doc(s) == Some(f));
}

/// Extraction idempotence for fill replies: serializing a parsed fill
/// response and extracting again yields the same response.
pub proof fn lemma_fill_extraction_idempotent(text: Seq<char>, f: crate::parse::FillView)
    requires
        crate::parse::spec_fill_extract(text) == Ok::<crate::parse::FillView, crate::parse::ExtractErr>(f),
        crate::parse::spec_fill_bounded(f),
    ensures
        crate::parse::spec_fill_extract(spec_serialize_fill(f)) == crate::parse::spec_fill_extract(
            text,
        ),
{
    lemma_fill_roundtrip(f);
}


/// A character the brace scanner passes over without changing state,
/// outside and inside string literals alike.
pub open spec fn scan_neutral(c: char) -> bool {
    c != '"' && c != '\\' && c != '{' && c != '}'
}

/// The scanner walks a run of neutral characters without changing its
/// depth or string state.
pub proof fn lemma_scan_neutral_run(s: Seq<char>, i: int, j: int, depth: int, in_str: bool)
    requires
        0 <= i <= j <= s.len(),
        depth != 0,
        forall|t: int| i <= t < j ==> scan_neutral(s[t]),
    ensures
        crate::scan::spec_scan_close(s, i, depth, in_str, false) == crate::scan::spec_scan_close(
            s,
            j,
            depth,
            in_str,
            false,
        ),
    decreases j - i,
{
    if i < j {
        lemma_scan_neutral_run(s, i + 1, j, depth, in_str);
    }
}

/// The scanner walks an escaped string body without leaving the string.
pub proof fn lemma_scan_escaped_body(s: Seq<char>, i: int, depth: int, m: Seq<char>)
    requires
        0 <= i,
        depth != 0,
        i + spec_escape(m).len() <= s.len(),
        forall|t: int|
            0 <= t < spec_escape(m).len() ==> s[i + t] == #[trigger] spec_escape(m)[t],
    ensures
        crate::scan::spec_scan_close(s, i, depth, true, false) == crate::scan::spec_scan_close(
            s,
            i + spec_escape(m).len(),
            depth,
            true,
            false,
        ),
    decreases m.len(),
{
    if m.len() > 0 {
        let c = m[0];
        let e1 = spec_escape1(c);
        let tail = m.drop_first();
        let w = spec_escape(m);
        assert(w == e1 + spec_escape(tail));
        assert forall|t: int|
            0 <= t < spec_escape(tail).len() implies s[i + e1.len() + t] == #[trigger] spec_escape(
            tail,
        )[t] by {
            assert(w[e1.len() + t] == spec_escape(tail)[t]);
            assert(s[i + (e1.len() + t)] == w[e1.len() + t]);
        }
        lemma_scan_escaped_body(s, i + e1.len() as int, depth, tail);
        if c == '"' || c == '\\' {
            assert(s[i] == '\\' && (s[i + 1] == '"' || s[i + 1] == '\\')) by {
                assert(s[i] == w[0] && s[i + 1] == w[1]);
            }
            assert(crate::scan::spec_scan_close(s, i, depth, true, false)
                == crate::scan::spec_scan_close(s, i + 1, depth, true, true));
            assert(crate::scan::spec_scan_close(s, i + 1, depth, true, true)
                == crate::scan::spec_scan_close(s, i + 2, depth, true, false));
        } else if (c as u32) < 0x20 {
            assert(s[i] == '\\' && s[i + 1] == 'u' && s[i + 2] == '0' && s[i + 3] == '0') by {
                assert(s[i] == w[0] && s[i + 1] == w[1] && s[i + 2] == w[2] && s[i + 3] == w[3]);
            }
            let hi = ((c as u32) / 16) as int;
            let lo = ((c as u32) % 16) as int;
            vstd::arithmetic::div_mod::lemma_mod_bound(c as u32 as int, 16);
            vstd::arithmetic::div_mod::lemma_div_pos_is_pos(c as u32 as int, 16);
            vstd::arithmetic::div_mod::lemma_div_is_ordered(c as u32 as int, 0x1F, 16);
            assert(s[i + 4] == hex_char(hi) && s[i + 5] == hex_char(lo)) by {
                assert(s[i + 4] == w[4] && s[i + 5] == w[5]);
            }
            assert(scan_neutral(hex_char(hi)) && scan_neutral(hex_char(lo)));
            assert(scan_neutral(s[i + 2]) && scan_neutral(s[i + 3]));
            assert(crate::scan::spec_scan_close(s, i, depth, true, false)
                == crate::scan::spec_scan_close(s, i + 1, depth, true, true));
            assert(crate::scan::spec_scan_close(s, i + 1, depth, true, true)
                == crate::scan::spec_scan_close(s, i + 2, depth, true, false));
            lemma_scan_neutral_run(s, i + 2, i + 6, depth, true);
        } else {
            assert(s[i] == c) by {
                assert(s[i] == w[0]);
            }
            assert(c != '"' && c != '\\');
            assert(crate::scan::spec_scan_close(s, i, depth, true, false)
                == crate::scan::spec_scan_close(s, i + 1, depth, true, false));
        }
    }
}

/// The scanner walks a whole quoted, escaped string and comes back out
/// of the string state.
pub proof fn lemma_scan_quoted(s: Seq<char>, i: int, depth: int, m: Seq<char>)
    requires
        0 <= i,
        depth != 0,
        i + spec_escape(m).len() + 2 <= s.len(),
        s[i] == '"',
        forall|t: int|
            0 <= t < spec_escape(m).len() ==> s[i + 1 + t] == #[trigger] spec_escape(m)[t],
        s[i + 1 + spec_escape(m).len()] == '"',
    ensures
        crate::scan::spec_scan_close(s, i, depth, false, false) == crate::scan::spec_scan_close(
            s,
            i + spec_escape(m).len() + 2,
            depth,
            false,
            false,
        ),
{
    lemma_scan_escaped_body(s, i + 1, depth, m);
}

/// Plain characters escape to themselves.
pub proof fn lemma_escape_plain_id(k: Seq<char>)
    requires
        forall|t: int| 0 <= t < k.len() ==> is_plain(#[trigger] k[t]),
    ensures
        spec_escape(k) == k,
    decreases k.len(),
{
    if k.len() > 0 {
        assert(is_plain(k[0]));
        assert(spec_escape1(k[0]) =~= seq![k[0]]);
        lemma_escape_plain_id(k.drop_first());
        assert(spec_escape(k) =~= seq![k[0]] + k.drop_first());
        assert(seq![k[0]] + k.drop_first() =~= k);
    }
}

/// The first brace of a text that opens with brace-free prose stands
/// where the prose ends.
pub proof fn lemma_find_open_skip(s: Seq<char>, i: int, j: int)
    requires
        0 <= i <= j < s.len(),
        forall|t: int| i <= t < j ==> s[t] != '{',
        s[j] == '{',
    ensures
        crate::scan::spec_find_open(s, i) == Some(j),
    decreases j - i,
{
    if i < j {
        lemma_find_open_skip(s, i + 1, j);
    }
}


/// Every character of a printed number is neutral to the brace scanner.
pub proof fn lemma_print_micro_neutral(v: int)
    ensures
        forall|t: int|
            0 <= t < spec_print_micro(v).len() ==> scan_neutral(#[trigger] spec_print_micro(v)[t]),
{
    let m = if v < 0 {
        -v
    } else {
        v
    };
    lemma_digits_of_facts((m / 1_000_000) as nat);
    let w = spec_print_micro(v);
    let wi = spec_digits_of((m / 1_000_000) as nat);
    let wf = spec_frac6(m % 1_000_000);
    vstd::arithmetic::div_mod::lemma_mod_bound(m, 1_000_000);
    assert forall|t: int| 0 <= t < w.len() implies scan_neutral(#[trigger] w[t]) by {
        let sign_len: int = if v < 0 {
            1
        } else {
            0
        };
        if t < sign_len {
            assert(w[t] == '-');
        } else if t < sign_len + wi.len() {
            assert(w[t] == wi[t - sign_len]);
            assert(is_digit(wi[t - sign_len]));
        } else if t == sign_len + wi.len() {
            assert(w[t] == '.');
        } else {
            let f = m % 1_000_000;
            assert(w[t] == wf[t - sign_len - wi.len() - 1]);
            vstd::arithmetic::div_mod::lemma_mod_bound(f / 100_000, 10);
            vstd::arithmetic::div_mod::lemma_mod_bound(f / 10_000, 10);
            vstd::arithmetic::div_mod::lemma_mod_bound(f / 1_000, 10);
            vstd::arithmetic::div_mod::lemma_mod_bound(f / 100, 10);
            vstd::arithmetic::div_mod::lemma_mod_bound(f / 10, 10);
            vstd::arithmetic::div_mod::lemma_mod_bound(f, 10);
        }
    }
}

/// The brace scanner passes over the text of a serialized geometry
/// object and reports its closing brace.
#[verifier::rlimit(100)]
pub proof fn lemma_scan_serialized_geometry(s: Seq<char>, st: int, g: GeometryResponse)
    requires
        0 <= st,
        seq_at(s, st, spec_serialize_geometry(g)),
    ensures
        crate::scan::spec_scan_close(s, st, 0, false, false) == Some(
            st + spec_serialize_geometry(g).len() - 1,
        ),
{
    reveal_strlit("{\"plateBox\":");
    reveal_strlit(",\"tailgateTopY\":");
    reveal_strlit(",\"tailgateBottomY\":");
    reveal_strlit(",\"cargoTopY\":");
    reveal_strlit("plateBox");
    reveal_strlit("tailgateTopY");
    reveal_strlit("tailgateBottomY");
    reveal_strlit("cargoTopY");
    reveal_strlit("null");
    reveal_strlit("}");
    let w = spec_serialize_geometry(g);
    let lit0 = "{\"plateBox\":"@;
    let lit1 = ",\"tailgateTopY\":"@;
    let lit2 = ",\"tailgateBottomY\":"@;
    let lit3 = ",\"cargoTopY\":"@;
    let wp = spec_print_platebox(g.plate_box);
    let w1 = spec_print_micro(g.tailgate_top_y as int);
    let w2 = spec_print_micro(g.tailgate_bottom_y as int);
    let w3 = spec_print_micro(g.cargo_top_y as int);
    let q0 = st + 12;
    let lp = q0 + wp.len();
    let k1 = lp + 1;
    let p1 = k1 + 15;
    let l2 = p1 + w1.len();
    let p2 = l2 + 19;
    let l3 = p2 + w2.len();
    let p3 = l3 + 13;
    let close = p3 + w3.len();
    assert(st + w.len() == close + 1);
    // depth opens at the leading brace
    assert(s[st] == '{') by {
        assert(s[st + 0] == w[0]);
        assert(w[0] == lit0[0]);
    }
    assert(crate::scan::spec_scan_close(s, st, 0, false, false)
        == crate::scan::spec_scan_close(s, st + 1, 1, false, false));
    // key "plateBox"
    assert(s[st + 1] == '"') by {
        assert(s[st + 1] == w[1]);
        assert(w[1] == lit0[1]);
    }
    let key0 = "plateBox"@;
    assert forall|t: int| 0 <= t < 8 implies s[st + 2 + t] == #[trigger] key0[t] by {
        assert(s[st + 2 + t] == w[2 + t]);
        assert(w[2 + t] == lit0[2 + t]);
        assert(lit0[2 + t] == key0[t]);
    }
    assert forall|t: int| 0 <= t < 8 implies is_plain(#[trigger] key0[t]) by {
        assert(key0[t] == lit0[2 + t]);
    }
    lemma_escape_plain_id(key0);
    assert(s[st + 10] == '"') by {
        assert(s[st + 10] == w[10]);
        assert(w[10] == lit0[10]);
    }
    lemma_scan_quoted(s, st + 1, 1, key0);
    // ':' and the whole plate box text are neutral
    assert forall|t: int| st + 11 <= t < lp implies scan_neutral(s[t]) by {
        assert(s[t] == w[t - st]);
        if t == st + 11 {
            assert(w[11] == lit0[11]);
        } else {
            assert(w[t - st] == wp[t - q0]);
            match g.plate_box {
                Option::Some(b) => {
                    lemma_print_micro_neutral(b.x0 as int);
                    lemma_print_micro_neutral(b.y0 as int);
                    lemma_print_micro_neutral(b.x1 as int);
                    lemma_print_micro_neutral(b.y1 as int);
                },
                Option::None => {},
            }
        }
    }
    lemma_scan_neutral_run(s, st + 11, lp, 1, false);
    // each remaining member: a neutral comma, a quoted key, a neutral
    // colon and a neutral number
    assert forall|t: int| 0 <= t < 16 implies s[lp + t] == #[trigger] lit1[t] by {
        assert(s[lp + t] == w[lp - st + t]);
    }
    assert(seq_at(s, p1, w1)) by {
        assert forall|t: int| 0 <= t < w1.len() implies s[p1 + t] == #[trigger] w1[t] by {
            assert(s[p1 + t] == w[p1 - st + t]);
        }
    }
    assert forall|t: int| 0 <= t < 19 implies s[l2 + t] == #[trigger] lit2[t] by {
        assert(s[l2 + t] == w[l2 - st + t]);
    }
    assert(seq_at(s, p2, w2)) by {
        assert forall|t: int| 0 <= t < w2.len() implies s[p2 + t] == #[trigger] w2[t] by {
            assert(s[p2 + t] == w[p2 - st + t]);
        }
    }
    assert forall|t: int| 0 <= t < 13 implies s[l3 + t] == #[trigger] lit3[t] by {
        assert(s[l3 + t] == w[l3 - st + t]);
    }
    assert(seq_at(s, p3, w3)) by {
        assert forall|t: int| 0 <= t < w3.len() implies s[p3 + t] == #[trigger] w3[t] by {
            assert(s[p3 + t] == w[p3 - st + t]);
        }
    }
    assert forall|t: int| 0 <= t < 12 implies is_plain(#[trigger] ("tailgateTopY"@)[t]) by {
        assert(("tailgateTopY"@)[t] == lit1[2 + t]);
    }
    assert forall|t: int| 0 <= t < 15 implies is_plain(#[trigger] ("tailgateBottomY"@)[t]) by {
        assert(("tailgateBottomY"@)[t] == lit2[2 + t]);
    }
    assert forall|t: int| 0 <= t < 9 implies is_plain(#[trigger] ("cargoTopY"@)[t]) by {
        assert(("cargoTopY"@)[t] == lit3[2 + t]);
    }
    lemma_scan_member_number(s, lp, "tailgateTopY"@, lit1, 16, g.tailgate_top_y);
    lemma_scan_member_number(s, l2, "tailgateBottomY"@, lit2, 19, g.tailgate_bottom_y);
    lemma_scan_member_number(s, l3, "cargoTopY"@, lit3, 13, g.cargo_top_y);
    // the closing brace returns the depth to zero
    assert(s[close] == '}') by {
        assert(s[close] == w[close - st]);
    }
    assert(crate::scan::spec_scan_close(s, close, 1, false, false) == Some(close));
}

/// The brace scanner passes over one `,"key":number` stretch of a
/// serialized object at depth one.
#[verifier::rlimit(100)]
pub proof fn lemma_scan_member_number(
    s: Seq<char>,
    l: int,
    key: Seq<char>,
    lit: Seq<char>,
    litlen: int,
    v: i64,
)
    requires
        0 <= l,
        litlen == lit.len(),
        litlen == key.len() + 4,
        lit[0] == ',',
        lit[1] == '"',
        forall|t: int| 0 <= t < key.len() ==> lit[2 + t] == #[trigger] key[t],
        lit[litlen - 2] == '"',
        lit[litlen - 1] == ':',
        forall|t: int| 0 <= t < key.len() ==> is_plain(#[trigger] key[t]),
        l + litlen + spec_print_micro(v as int).len() <= s.len(),
        forall|t: int| 0 <= t < litlen ==> s[l + t] == #[trigger] lit[t],
        seq_at(s, l + litlen, spec_print_micro(v as int)),
    ensures
        crate::scan::spec_scan_close(s, l, 1, false, false) == crate::scan::spec_scan_close(
            s,
            l + litlen + spec_print_micro(v as int).len(),
            1,
            false,
            false,
        ),
{
    let wv = spec_print_micro(v as int);
    assert(scan_neutral(s[l])) by {
        assert(s[l] == lit[0]);
    }
    lemma_scan_neutral_run(s, l, l + 1, 1, false);
    assert(s[l + 1] == '"') by {
        assert(s[l + 1] == lit[1]);
    }
    lemma_escape_plain_id(key);
    assert forall|t: int| 0 <= t < key.len() implies s[l + 2 + t] == #[trigger] key[t] by {
        assert(s[l + 2 + t] == lit[2 + t]);
    }
    assert(s[l + 2 + key.len()] == '"') by {
        assert(s[l + 2 + key.len() as int] == lit[litlen - 2]);
    }
    lemma_scan_quoted(s, l + 1, 1, key);
    assert forall|t: int| l + litlen - 1 <= t < l + litlen + wv.len() implies scan_neutral(
        s[t],
    ) by {
        if t == l + litlen - 1 {
            assert(s[t] == lit[litlen - 1]);
        } else {
            lemma_print_micro_neutral(v as int);
            assert(s[t] == wv[t - l - litlen]);
        }
    }
    lemma_scan_neutral_run(s, l + litlen - 1, l + litlen + wv.len(), 1, false);
}

/// Extraction robustness: a serialized geometry object surrounded by
/// prose extracts correctly, provided the prose before it opens with a
/// visible character and carries no brace of its own.
pub proof fn lemma_geo_extract_from_prose(pre: Seq<char>, g: GeometryResponse, post: Seq<char>)
    requires
        crate::parse::spec_geo_bounded(g),
        pre.len() > 0,
        !crate::text::is_ws(pre[0]),
        pre[0] != '{',
        forall|t: int| 0 <= t < pre.len() ==> pre[t] != '{',
    ensures
        crate::parse::spec_geo_extract(pre + spec_serialize_geometry(g) + post) == Ok::<
            GeometryResponse,
            crate::parse::ExtractErr,
        >(g),
{
    reveal_strlit("{\"plateBox\":");
    let w = spec_serialize_geometry(g);
    let s = pre + w + post;
    let st = pre.len() as int;
    assert(w[0] == '{') by {
        assert(w[0] == ("{\"plateBox\":"@)[0]);
    }
    assert(s[0] == pre[0]);
    assert(crate::json::spec_skip_ws(s, 0) == 0);
    assert(crate::parse::spec_geo_doc(s) is None);
    assert forall|t: int| 0 <= t < st implies s[t] != '{' by {
        assert(s[t] == pre[t]);
    }
    assert(s[st] == '{') by {
        assert(s[st] == w[0]);
    }
    lemma_find_open_skip(s, 0, st);
    assert(seq_at(s, st, w)) by {
        assert forall|t: int| 0 <= t < w.len() implies s[st + t] == #[trigger] w[t] by {}
    }
    lemma_scan_serialized_geometry(s, st, g);
    let e = st + w.len() - 1;
    assert(s.subrange(st, e + 1) =~= w);
    lemma_geo_roundtrip(g);
}

} // verus!
