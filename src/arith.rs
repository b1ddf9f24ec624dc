//! Integer helpers shared by the indicators and the accounting code.
use vstd::prelude::*;

verus! {

/// Bound on the 128-bit intermediates that the rounded division accepts (2^125).
pub const WIDE_LIMIT: i128 = 0x2000_0000_0000_0000_0000_0000_0000_0000;

/// `n / d` rounded to the nearest integer, halves rounded up (`d > 0`).
pub open spec fn round_div(n: int, d: int) -> int {
    (2 * n + d) / (2 * d)
}

/// Floor division of `n` by a positive `d`.
pub fn floor_div(n: i128, d: i128) -> (q: i128)
    requires
        d > 0,
    ensures
        q == n / d,
{
    if n >= 0 {
        let q = ((n as u128) / (d as u128)) as i128;
        proof {
            vstd::arithmetic::div_mod::lemma_div_is_ordered_by_denominator(n as int, 1, d as int);
        }
        q
    } else {
        // n < 0: floor(n / d) == -ceil(-n / d) == -((-n + d - 1) / d)
        let m: u128 = (0i128 - (n + 1)) as u128;  // -n - 1 >= 0
        let c: u128 = m / (d as u128);  // floor((-n - 1) / d)
        proof {
            lemma_floor_div_negative(n as int, d as int);
            vstd::arithmetic::div_mod::lemma_div_is_ordered_by_denominator(m as int, 1, d as int);
        }
        -(c as i128) - 1
    }
}

proof fn lemma_floor_div_negative(n: int, d: int)
    requires
        n < 0,
        d > 0,
    ensures
        n / d == -((-n - 1) / d) - 1,
{
    let m = -n - 1;
    vstd::arithmetic::div_mod::lemma_fundamental_div_mod(m, d);
    let q = m / d;
    let r = m % d;
    assert(m == d * q + r);
    assert(0 <= r < d);
    // n == -m - 1 == d * (-q - 1) + (d - 1 - r)
    assert(n == d * (-q - 1) + (d - 1 - r)) by (nonlinear_arith)
        requires m == d * q + r, n == -m - 1;
    vstd::arithmetic::div_mod::lemma_fundamental_div_mod_converse(n, d, -q - 1, d - 1 - r);
}

/// `n / d` rounded to the nearest integer, halves rounded up.
pub fn div_round(n: i128, d: i128) -> (q: i128)
    requires
        d > 0,
        -WIDE_LIMIT <= n <= WIDE_LIMIT,
        d <= WIDE_LIMIT,
    ensures
        q == round_div(n as int, d as int),
{
    floor_div(2 * n + d, 2 * d)
}

/// Dividing a multiple of `k` by `k` needs no rounding.
pub proof fn lemma_round_div_exact(k: int, e: int)
    requires
        k > 0,
    ensures
        round_div(k * e, k) == e,
{
    assert(2 * (k * e) + k == e * (2 * k) + k) by (nonlinear_arith);
    vstd::arithmetic::div_mod::lemma_fundamental_div_mod_converse(2 * (k * e) + k, 2 * k, e, k);
}

/// A rounded quotient lies between the bounds that its numerator allows.
pub proof fn lemma_round_div_bounds(n: int, d: int, lo: int, hi: int)
    requires
        d > 0,
        lo * d <= n <= hi * d,
    ensures
        lo <= round_div(n, d) <= hi,
{
    let q = round_div(n, d);
    let m = 2 * n + d;
    vstd::arithmetic::div_mod::lemma_fundamental_div_mod(m, 2 * d);
    let r = m % (2 * d);
    assert(m == (2 * d) * q + r);
    assert(0 <= r < 2 * d);
    assert(lo <= q) by (nonlinear_arith)
        requires m == (2 * d) * q + r, r < 2 * d, lo * d <= n, m == 2 * n + d, d > 0;
    assert(q <= hi) by (nonlinear_arith)
        requires m == (2 * d) * q + r, r >= 0, n <= hi * d, m == 2 * n + d, d > 0;
}

} // verus!
