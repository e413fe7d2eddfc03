//! Ensemble aggregation helpers: median, arithmetic mean, and the mode of
//! a list of names.
//!
//! The median of an even-sized sample is deliberately the upper median —
//! the element at index `len / 2` of the ascending sort, not an
//! interpolation — for output compatibility.  The mode breaks ties by the
//! first value to reach the maximal count.

use vstd::prelude::*;
use vstd::relations::sorted_by;
use vstd::multiset::Multiset;
use vstd::seq_lib::lemma_sorted_unique;
use crate::fixed::{FIXED_SAT, spec_tdiv, tdiv_i128};

verus! {

/// The ascending order the sample is sorted by.
pub open spec fn spec_leq() -> spec_fn(i64, i64) -> bool {
    |a: i64, b: i64| a <= b
}

/// Upper median: element `len / 2` of the ascending sort.
pub open spec fn spec_median(s: Seq<i64>) -> i64 {
    s.sort_by(spec_leq())[(s.len() / 2) as int]
}

/// Sum of a sample.
pub open spec fn spec_sum(s: Seq<i64>) -> int
    decreases s.len(),
{
    if s.len() == 0 {
        0
    } else {
        spec_sum(s.drop_last()) + s.last()
    }
}

/// Arithmetic mean, truncated toward zero.
pub open spec fn spec_average(s: Seq<i64>) -> int {
    spec_tdiv(spec_sum(s), s.len() as int)
}

/// Insert a value into an ascending vector, keeping it ascending.
fn sorted_insert(v: &mut Vec<i64>, x: i64)
    requires
        sorted_by(old(v)@, spec_leq()),
    ensures
        sorted_by(final(v)@, spec_leq()),
        final(v)@.to_multiset() == old(v)@.to_multiset().insert(x),
        final(v)@.len() == old(v)@.len() + 1,
{
    broadcast use vstd::seq_lib::group_to_multiset_ensures;

    let n = v.len();
    let mut idx: usize = 0;
    while idx < n && v[idx] <= x
        invariant
            idx <= n,
            n == v@.len(),
            sorted_by(v@, spec_leq()),
            v@ == old(v)@,
            forall|t: int| 0 <= t < idx ==> v@[t] <= x,
        decreases n - idx,
    {
        idx = idx + 1;
    }
    proof {
        assert(idx < n ==> x < v@[idx as int]);
    }
    v.insert(idx, x);
    proof {
        let s0 = old(v)@;
        let s1 = v@;
        assert(s1 =~= s0.subrange(0, idx as int) + seq![x] + s0.subrange(idx as int, n as int));
        let leq = spec_leq();
        assert forall|a: int, b: int| 0 <= a < b < s1.len() implies leq(s1[a], s1[b]) by {
            if b < idx {
            } else if a > idx {
            } else if a == idx {
                assert(s1[a] == x);
                assert(s1[b] == s0[b - 1]);
                assert(x < s0[idx as int] || idx == n);
                if idx < n {
                    assert(sorted_by(s0, spec_leq()));
                    if (idx as int) <= b - 1 {
                        if (idx as int) < b - 1 {
                            assert(leq(s0[idx as int], s0[b - 1]));
                        }
                    }
                }
            } else if b == idx {
                assert(s1[b] == x);
                assert(s1[a] == s0[a]);
                assert(s0[a] <= x);
            } else {
                // a < idx < b
                assert(s1[a] == s0[a]);
                assert(s1[b] == s0[b - 1]);
                assert(s0[a] <= x);
                assert(idx < n && x < s0[idx as int]);
                if (idx as int) < b - 1 {
                    assert(leq(s0[idx as int], s0[b - 1]));
                }
            }
        }
        assert(sorted_by(s1, spec_leq()));
        // multiset: split around the insertion point
        let pre = s0.subrange(0, idx as int);
        let post = s0.subrange(idx as int, n as int);
        assert(s0 =~= pre + post);
        vstd::seq_lib::lemma_multiset_commutative(pre, post);
        vstd::seq_lib::lemma_multiset_commutative(pre + seq![x], post);
        assert(s1 =~= (pre + seq![x]) + post);
        vstd::seq_lib::lemma_multiset_commutative(pre, seq![x]);
        assert(seq![x].to_multiset() =~= Multiset::<i64>::empty().insert(x)) by {
            assert(seq![x] =~= Seq::<i64>::empty().push(x));
        }
        assert(s1.to_multiset() =~= s0.to_multiset().insert(x));
    }
}

/// Upper median of a non-empty sample: sort ascending, take the element
/// at index `len / 2`.  For `[1, 2, 3, 4]` this is `3`, not an
/// interpolated middle.
pub fn median(arr: &[i64]) -> (r: i64)
    requires
        arr@.len() > 0,
    ensures
        r == spec_median(arr@),
{
    broadcast use vstd::seq_lib::group_to_multiset_ensures;

    let n = arr.len();
    let mut sorted: Vec<i64> = Vec::new();
    let mut i: usize = 0;
    proof {
        assert(arr@.subrange(0, 0) =~= Seq::<i64>::empty());
        assert(Seq::<i64>::empty().to_multiset() =~= Multiset::<i64>::empty());
    }
    while i < n
        invariant
            i <= n,
            n == arr@.len(),
            sorted_by(sorted@, spec_leq()),
            sorted@.to_multiset() == arr@.subrange(0, i as int).to_multiset(),
            sorted@.len() == i,
        decreases n - i,
    {
        let x = arr[i];
        sorted_insert(&mut sorted, x);
        proof {
            vstd::seq_lib::to_multiset_build(arr@.subrange(0, i as int), x);
            assert(arr@.subrange(0, i + 1 as int) =~= arr@.subrange(0, i as int).push(x));
            assert(sorted@.to_multiset() == arr@.subrange(0, i + 1 as int).to_multiset());
        }
        i = i + 1;
    }
    proof {
        assert(arr@.subrange(0, n as int) =~= arr@);
        arr@.lemma_sort_by_ensures(spec_leq());
        lemma_sorted_unique(sorted@, arr@.sort_by(spec_leq()), spec_leq());
        assert(sorted@ =~= arr@.sort_by(spec_leq()));
    }
    sorted[n / 2]
}

/// Arithmetic mean of a non-empty sample, truncated toward zero.
/// Every element must lie in the saturated fixed-point band; the mean
/// then lies in it too.
pub fn average(arr: &[i64]) -> (r: i64)
    requires
        arr@.len() > 0,
        forall|i: int| 0 <= i < arr@.len() ==> -FIXED_SAT <= #[trigger] arr@[i] <= FIXED_SAT,
    ensures
        r == spec_average(arr@),
        -FIXED_SAT <= r <= FIXED_SAT,
{
    let n = arr.len();
    let mut sum: i128 = 0;
    let mut i: usize = 0;
    proof {
        assert(arr@.subrange(0, 0) =~= Seq::<i64>::empty());
    }
    while i < n
        invariant
            i <= n,
            n == arr@.len(),
            forall|t: int| 0 <= t < n ==> -FIXED_SAT <= #[trigger] arr@[t] <= FIXED_SAT,
            sum == spec_sum(arr@.subrange(0, i as int)),
            -(i as int) * (FIXED_SAT as int) <= sum <= (i as int) * (FIXED_SAT as int),
        decreases n - i,
    {
        let x = arr[i];
        proof {
            assert(arr@.subrange(0, i + 1 as int).drop_last() =~= arr@.subrange(0, i as int));
            assert((i + 1) * (FIXED_SAT as int) == i * (FIXED_SAT as int) + FIXED_SAT)
                by (nonlinear_arith);
        }
        sum = sum + (x as i128);
        i = i + 1;
    }
    proof {
        assert(arr@.subrange(0, n as int) =~= arr@);
    }
    let q = tdiv_i128(sum, n as i128);
    proof {
        let m = (n as int) * (FIXED_SAT as int);
        crate::fixed::lemma_tdiv_bound(sum as int, m, n as int);
        vstd::arithmetic::div_mod::lemma_div_multiples_vanish(FIXED_SAT as int, n as int);
        assert(m / (n as int) == FIXED_SAT);
    }
    q as i64
}

/// A sample whose elements lie in a band has its median in the band.
pub proof fn lemma_median_bounds(s: Seq<i64>, lo: i64, hi: i64)
    requires
        s.len() > 0,
        forall|i: int| 0 <= i < s.len() ==> lo <= #[trigger] s[i] <= hi,
    ensures
        lo <= spec_median(s) <= hi,
{
    broadcast use vstd::seq_lib::group_to_multiset_ensures;

    s.lemma_sort_by_ensures(spec_leq());
    let t = s.sort_by(spec_leq());
    assert(t.to_multiset().len() == s.to_multiset().len());
    assert(t.len() == s.len());
    let k = (s.len() / 2) as int;
    let x = t[k];
    assert(t.contains(x));
    if !s.contains(x) {
        assert(!t.contains(x));
    }
    let j = choose|j: int| 0 <= j < s.len() && s[j] == x;
    assert(lo <= s[j] <= hi);
}

/// The character sequences of a list of strings.
pub open spec fn spec_views_of(s: Seq<String>) -> Seq<Seq<char>> {
    s.map_values(|v: String| v@)
}

/// How many entries of `s` spell `x`.
pub open spec fn spec_count_str(s: Seq<Seq<char>>, x: Seq<char>) -> int
    decreases s.len(),
{
    if s.len() == 0 {
        0
    } else {
        spec_count_str(s.drop_last(), x) + if s.last() == x {
            1int
        } else {
            0int
        }
    }
}

/// The running mode scan: the best value so far is replaced only by one
/// with a strictly greater count, so the first value to reach the
/// maximal count wins.
pub open spec fn spec_mode_from(s: Seq<Seq<char>>, i: int, best: Seq<char>) -> Seq<char>
    decreases s.len() - i,
{
    if i < 0 || i >= s.len() {
        best
    } else if spec_count_str(s, s[i]) > spec_count_str(s, best) {
        spec_mode_from(s, i + 1, s[i])
    } else {
        spec_mode_from(s, i + 1, best)
    }
}

/// Mode of a list of names: the most frequent value, ties broken by the
/// first value to reach the maximal count; `None` for an empty list.
pub open spec fn spec_mode(s: Seq<Seq<char>>) -> Option<Seq<char>> {
    if s.len() == 0 {
        None
    } else {
        Some(spec_mode_from(s, 1, s[0]))
    }
}

/// Count the entries spelling the same characters as `x`.
fn count_str(values: &[String], x: &String) -> (r: usize)
    ensures
        r == spec_count_str(spec_views_of(values@), x@),
{
    let n = values.len();
    let mut c: usize = 0;
    let mut i: usize = 0;
    proof {
        assert(spec_views_of(values@.subrange(0, 0)) =~= Seq::<Seq<char>>::empty());
    }
    while i < n
        invariant
            i <= n,
            n == values@.len(),
            c == spec_count_str(spec_views_of(values@.subrange(0, i as int)), x@),
            c <= i,
        decreases n - i,
    {
        proof {
            assert(spec_views_of(values@.subrange(0, i + 1 as int)).drop_last() =~= spec_views_of(
                values@.subrange(0, i as int),
            ));
            assert(spec_views_of(values@.subrange(0, i + 1 as int)).last() == values@[i as int]@);
        }
        if values[i] == *x {
            c = c + 1;
        }
        i = i + 1;
    }
    proof {
        assert(values@.subrange(0, n as int) =~= values@);
    }
    c
}

/// Most common string of a list: its mode, `None` when the list is empty.
/// Ties go to the first value that reached the maximal count.
pub fn mode_string(values: &[String]) -> (r: Option<String>)
    ensures
        (match r {
            Option::Some(ref m) => spec_mode(spec_views_of(values@)) == Some(m@),
            Option::None => values@.len() == 0 && spec_mode(spec_views_of(values@)).is_none(),
        }),
{
    let n = values.len();
    if n == 0 {
        return None;
    }
    let mut best: usize = 0;
    let mut best_count: usize = count_str(values, &values[0]);
    let mut i: usize = 1;
    while i < n
        invariant
            1 <= i <= n,
            best < n,
            n == values@.len(),
            best_count == spec_count_str(spec_views_of(values@), values@[best as int]@),
            spec_mode_from(spec_views_of(values@), 1, values@[0]@) == spec_mode_from(
                spec_views_of(values@),
                i as int,
                values@[best as int]@,
            ),
        decreases n - i,
    {
        let c = count_str(values, &values[i]);
        if c > best_count {
            best = i;
            best_count = c;
        }
        i = i + 1;
    }
    Some(values[best].clone())
}

} // verus!
