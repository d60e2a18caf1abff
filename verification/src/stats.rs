//! Exact integer statistics over fixed-point samples.
//!
//! Sums are accumulated in 128-bit integers, so every mean and every sample
//! variance is computed without rounding until the single final division,
//! whose truncation-toward-zero behaviour is stated precisely.

use vstd::prelude::*;
use vstd::arithmetic::div_mod::{lemma_div_multiples_vanish, lemma_div_is_ordered, lemma_div_is_ordered_by_denominator, lemma_div_pos_is_pos};
use crate::vector::{scalar_in_range, VAL_LIMIT};

verus! {

/// Cap on the number of samples a variance estimate may use; keeps every
/// intermediate product inside a 128-bit accumulator.
pub const MAX_STAT_SAMPLES: usize = 1_000_000;

/// Sum of a sequence of integers.
pub open spec fn sum_seq(s: Seq<int>) -> int
    decreases s.len(),
{
    if s.len() == 0 {
        0
    } else {
        sum_seq(s.drop_last()) + s.last()
    }
}

/// Sum of the squares of a sequence of integers.
pub open spec fn sum_sq_seq(s: Seq<int>) -> int
    decreases s.len(),
{
    if s.len() == 0 {
        0
    } else {
        sum_sq_seq(s.drop_last()) + s.last() * s.last()
    }
}

/// Division truncated toward zero, as the executable divisions below behave.
pub open spec fn div_tz(a: int, b: int) -> int {
    if a >= 0 {
        a / b
    } else {
        -((-a) / b)
    }
}

/// Arithmetic mean of a sequence, truncated toward zero.
pub open spec fn mean_of(s: Seq<int>) -> int {
    div_tz(sum_seq(s), s.len() as int)
}

/// Numerator of the Bessel-corrected sample variance:
/// `n * sum of squares - square of sum`, which equals
/// `n * (n - 1) * variance` before the final division.
pub open spec fn variance_num(s: Seq<int>) -> int {
    s.len() * sum_sq_seq(s) - sum_seq(s) * sum_seq(s)
}

/// Bessel-corrected (denominator `n - 1`) sample variance, truncated toward
/// zero; meaningful for `s.len() >= 2`.
pub open spec fn variance_of(s: Seq<int>) -> int {
    div_tz(variance_num(s), s.len() * (s.len() - 1))
}

/// Extending a prefix by one element adds that element to its sum.
pub proof fn lemma_sum_take_step(s: Seq<int>, i: int)
    requires
        0 <= i < s.len(),
    ensures
        sum_seq(s.take(i + 1)) == sum_seq(s.take(i)) + s[i],
        sum_sq_seq(s.take(i + 1)) == sum_sq_seq(s.take(i)) + s[i] * s[i],
{
    assert(s.take(i + 1).drop_last() =~= s.take(i));
    assert(s.take(i + 1).last() == s[i]);
}

/// Sum and sum of squares of a constant sequence.
pub proof fn lemma_sum_const(s: Seq<int>, c: int)
    requires
        forall|i: int| 0 <= i < s.len() ==> #[trigger] s[i] == c,
    ensures
        sum_seq(s) == s.len() * c,
        sum_sq_seq(s) == s.len() * (c * c),
    decreases s.len(),
{
    if s.len() == 0 {
        assert(s.len() * c == 0) by (nonlinear_arith)
            requires s.len() == 0;
        assert(s.len() * (c * c) == 0) by (nonlinear_arith)
            requires s.len() == 0;
    } else {
        lemma_sum_const(s.drop_last(), c);
        assert(s.drop_last().len() * c + c == s.len() * c) by (nonlinear_arith)
            requires s.len() >= 1, s.drop_last().len() == s.len() - 1;
        assert(s.drop_last().len() * (c * c) + c * c == s.len() * (c * c)) by (nonlinear_arith)
            requires s.len() >= 1, s.drop_last().len() == s.len() - 1;
    }
}

/// Truncated division of a magnitude-bounded value keeps the bound:
/// `|a| <= n * b` implies `|a / n| <= b`.
pub proof fn lemma_div_tz_bound(a: int, n: int, b: int)
    requires
        n >= 1,
        b >= 0,
        -(n * b) <= a <= n * b,
    ensures
        -b <= div_tz(a, n) <= b,
{
    if a >= 0 {
        lemma_div_pos_is_pos(a, n);
        lemma_div_is_ordered(a, n * b, n);
        lemma_div_multiples_vanish(b, n);
    } else {
        lemma_div_pos_is_pos(-a, n);
        lemma_div_is_ordered(-a, n * b, n);
        lemma_div_multiples_vanish(b, n);
    }
}

/// The mean of any number of copies of one value is that value exactly.
pub proof fn lemma_mean_const(s: Seq<int>, c: int)
    requires
        s.len() >= 1,
        forall|i: int| 0 <= i < s.len() ==> #[trigger] s[i] == c,
    ensures
        mean_of(s) == c,
{
    lemma_sum_const(s, c);
    if c >= 0 {
        lemma_div_multiples_vanish(c, s.len() as int);
    } else {
        lemma_div_multiples_vanish(-c, s.len() as int);
        assert(s.len() * c == -(s.len() * (-c))) by (nonlinear_arith);
    }
}

/// The mean of a single sample is that sample exactly.
pub proof fn lemma_mean_single(s: Seq<int>)
    requires
        s.len() == 1,
    ensures
        mean_of(s) == s[0],
{
    lemma_mean_const(s, s[0]);
}

/// The sample variance of a constant stream is exactly zero.
pub proof fn lemma_variance_const(s: Seq<int>, c: int)
    requires
        s.len() >= 2,
        forall|i: int| 0 <= i < s.len() ==> #[trigger] s[i] == c,
    ensures
        variance_num(s) == 0,
        variance_of(s) == 0,
{
    lemma_sum_const(s, c);
    let n = s.len() as int;
    assert(n * (n * (c * c)) - (n * c) * (n * c) == 0) by (nonlinear_arith);
    assert(n * (n - 1) >= 1) by (nonlinear_arith)
        requires n >= 2;
    assert(div_tz(0, n * (n - 1)) == 0) by {
        lemma_div_multiples_vanish(0, n * (n - 1));
        assert((n * (n - 1)) * 0 == 0) by (nonlinear_arith);
    }
}

/// Division of a 128-bit value by a positive divisor, truncated toward zero.
fn div_trunc(a: i128, d: u64) -> (q: i128)
    requires
        d >= 1,
        a > i128::MIN,
    ensures
        q == div_tz(a as int, d as int),
{
    if a >= 0 {
        let au = a as u128;
        let du = d as u128;
        let qu = au / du;
        assert(qu <= au) by {
            lemma_div_is_ordered_by_denominator(au as int, 1, du as int);
            vstd::arithmetic::div_mod::lemma_div_basics(au as int);
        }
        qu as i128
    } else {
        let m = (-a) as u128;
        let du = d as u128;
        let qu = m / du;
        assert(qu <= m) by {
            lemma_div_is_ordered_by_denominator(m as int, 1, du as int);
            vstd::arithmetic::div_mod::lemma_div_basics(m as int);
        }
        -(qu as i128)
    }
}

/// Exact truncated mean of a non-empty batch of fixed-point samples.
///
/// The sum is accumulated in 128 bits, so no intermediate rounding occurs;
/// the single final division truncates toward zero.
#[verifier::loop_isolation(false)]
pub fn mean_fixed(vals: &Vec<i64>) -> (m: i64)
    requires
        vals@.len() >= 1,
        forall|i: int| 0 <= i < vals@.len() ==> scalar_in_range(#[trigger] vals@[i]),
    ensures
        m == mean_of(vals@.map_values(|v: i64| v as int)),
        scalar_in_range(m),
{
    let ghost s = vals@.map_values(|v: i64| v as int);
    let mut sum: i128 = 0;
    let mut i: usize = 0;
    while i < vals.len()
        invariant
            0 <= i <= vals@.len(),
            sum == sum_seq(s.take(i as int)),
            -((i as int) * (VAL_LIMIT as int)) <= sum <= (i as int) * (VAL_LIMIT as int),
        decreases vals@.len() - i,
    {
        proof {
            lemma_sum_take_step(s, i as int);
        }
        sum = sum + vals[i] as i128;
        i = i + 1;
    }
    proof {
        assert(s.take(vals@.len() as int) =~= s);
    }
    let q = div_trunc(sum, vals.len() as u64);
    proof {
        lemma_div_tz_bound(sum as int, vals@.len() as int, VAL_LIMIT as int);
    }
    q as i64
}

/// Exact Bessel-corrected sample variance of a batch of bias-corrected
/// fixed-point samples (each within twice the channel bound), truncated
/// toward zero.  Needs at least two samples; the sample-count cap keeps all
/// intermediate products inside 128-bit accumulators.
#[verifier::loop_isolation(false)]
pub fn variance_fixed(vals: &Vec<i64>) -> (v: i128)
    requires
        2 <= vals@.len() <= MAX_STAT_SAMPLES,
        forall|i: int| 0 <= i < vals@.len()
            ==> -2 * VAL_LIMIT <= #[trigger] vals@[i] <= 2 * VAL_LIMIT,
    ensures
        v == variance_of(vals@.map_values(|x: i64| x as int)),
{
    let ghost s = vals@.map_values(|x: i64| x as int);
    let mut sum: i128 = 0;
    let mut sum_sq: i128 = 0;
    let mut i: usize = 0;
    while i < vals.len()
        invariant
            0 <= i <= vals@.len(),
            sum == sum_seq(s.take(i as int)),
            sum_sq == sum_sq_seq(s.take(i as int)),
            -((i as int) * (2 * VAL_LIMIT as int)) <= sum <= (i as int) * (2 * VAL_LIMIT as int),
            0 <= sum_sq <= (i as int) * (4_000_000_000_000_000_000 as int),
        decreases vals@.len() - i,
    {
        proof {
            lemma_sum_take_step(s, i as int);
        }
        let x = vals[i] as i128;
        proof {
            assert(x * x <= 4_000_000_000_000_000_000 && x * x >= 0) by (nonlinear_arith)
                requires -2_000_000_000 <= x <= 2_000_000_000;
        }
        sum = sum + x;
        sum_sq = sum_sq + x * x;
        i = i + 1;
    }
    proof {
        assert(s.take(vals@.len() as int) =~= s);
    }
    let n = vals.len();
    proof {
        assert(0 <= (n as int) * sum_sq
            <= 4_000_000_000_000_000_000_000_000_000_000_i128 as int) by (nonlinear_arith)
            requires
                0 <= sum_sq <= (n as int) * 4_000_000_000_000_000_000,
                2 <= n <= 1_000_000;
        assert(0 <= sum * sum <= 4_000_000_000_000_000_000_000_000_000_000_i128 as int)
            by (nonlinear_arith)
            requires -2_000_000_000_000_000 <= sum <= 2_000_000_000_000_000;
        assert(1 <= (n as int) * ((n as int) - 1) <= 1_000_000_000_000_i128 as int)
            by (nonlinear_arith)
            requires 2 <= n <= 1_000_000;
    }
    let num = (n as i128) * sum_sq - sum * sum;
    let denom = (n as u64) * ((n - 1) as u64);
    div_trunc(num, denom)
}

/// The two-valued alternating stream `v, v + d, v, v + d, ...`.
pub open spec fn alternating(v: int, d: int, n: nat) -> Seq<int> {
    Seq::new(n, |i: int| if i % 2 == 0 { v } else { v + d })
}

/// Sum and sum of squares of an alternating stream of even length `2 * m`.
pub proof fn lemma_alternating_sums(v: int, d: int, m: nat)
    ensures
        sum_seq(alternating(v, d, 2 * m)) == m * (2 * v + d),
        sum_sq_seq(alternating(v, d, 2 * m)) == m * (v * v + (v + d) * (v + d)),
    decreases m,
{
    if m == 0 {
        assert(alternating(v, d, 0) =~= Seq::<int>::empty());
        assert(m * (2 * v + d) == 0) by (nonlinear_arith)
            requires m == 0;
        assert(m * (v * v + (v + d) * (v + d)) == 0) by (nonlinear_arith)
            requires m == 0;
    } else {
        let prev = (m - 1) as nat;
        lemma_alternating_sums(v, d, prev);
        let s = alternating(v, d, 2 * m);
        let t = s.drop_last();
        assert(t.drop_last() =~= alternating(v, d, 2 * prev));
        assert(s.last() == v + d) by {
            assert((2 * m - 1) % 2 == 1);
        }
        assert(t.last() == v) by {
            assert((2 * m - 2) % 2 == 0);
        }
        assert(sum_seq(s) == sum_seq(t) + (v + d));
        assert(sum_seq(t) == sum_seq(alternating(v, d, 2 * prev)) + v);
        assert(sum_sq_seq(s) == sum_sq_seq(t) + (v + d) * (v + d));
        assert(sum_sq_seq(t) == sum_sq_seq(alternating(v, d, 2 * prev)) + v * v);
        assert(prev * (2 * v + d) + v + (v + d) == m * (2 * v + d)) by (nonlinear_arith)
            requires prev == m - 1, m >= 1;
        assert(prev * (v * v + (v + d) * (v + d)) + v * v + (v + d) * (v + d)
            == m * (v * v + (v + d) * (v + d))) by (nonlinear_arith)
            requires prev == m - 1, m >= 1;
    }
}

/// Exact sample variance of the alternating stream `v, v + d, ...` of even
/// length `2 * m`: the variance numerator is `m * m * d * d`, so the variance
/// is `m * m * d * d / (2 * m * (2 * m - 1))`, which approaches the analytic
/// limit `d * d / 4` as `m` grows.
pub proof fn lemma_variance_alternating(v: int, d: int, m: nat)
    requires
        m >= 1,
    ensures
        variance_num(alternating(v, d, 2 * m)) == m * m * d * d,
        variance_of(alternating(v, d, 2 * m))
            == div_tz(m * m * d * d, 2 * m * (2 * m - 1)),
{
    lemma_alternating_sums(v, d, m);
    let s = alternating(v, d, 2 * m);
    assert(s.len() == 2 * m);
    assert((2 * m) * (m * (v * v + (v + d) * (v + d))) - (m * (2 * v + d)) * (m * (2 * v + d))
        == m * m * d * d) by (nonlinear_arith);
    assert(s.len() * (s.len() - 1) == 2 * m * (2 * m - 1)) by (nonlinear_arith)
        requires s.len() == 2 * m;
}

} // verus!
