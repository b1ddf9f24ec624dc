//! Sums over windows of a series, and their bounds.
use vstd::prelude::*;

verus! {

/// `x[lo] + ... + x[hi - 1]`.
pub open spec fn sum_range(x: Seq<i64>, lo: int, hi: int) -> int
    decreases hi - lo,
{
    if hi <= lo {
        0
    } else {
        sum_range(x, lo, hi - 1) + x[hi - 1]
    }
}

/// A sum of `hi - lo` values of `i64` stays within `hi - lo` times the `i64` bounds.
pub proof fn lemma_sum_range_bounds(x: Seq<i64>, lo: int, hi: int)
    requires
        0 <= lo <= hi <= x.len(),
    ensures
        (hi - lo) * (i64::MIN as int) <= sum_range(x, lo, hi) <= (hi - lo) * (i64::MAX as int),
    decreases hi - lo,
{
    if hi > lo {
        lemma_sum_range_bounds(x, lo, hi - 1);
        assert((hi - lo) * (i64::MIN as int) == (hi - 1 - lo) * (i64::MIN as int) + (i64::MIN as int))
            by (nonlinear_arith);
        assert((hi - lo) * (i64::MAX as int) == (hi - 1 - lo) * (i64::MAX as int) + (i64::MAX as int))
            by (nonlinear_arith);
    }
}

/// Moving a window one step right adds the new value and drops the oldest.
pub proof fn lemma_sum_range_slide(x: Seq<i64>, lo: int, hi: int)
    requires
        0 <= lo < hi < x.len(),
    ensures
        sum_range(x, lo + 1, hi + 1) == sum_range(x, lo, hi) + x[hi] - x[lo],
{
    lemma_sum_range_front(x, lo, hi);
    assert(sum_range(x, lo + 1, hi + 1) == sum_range(x, lo + 1, hi) + x[hi]);
}

/// Summing from the left: the first value plus the rest.
pub proof fn lemma_sum_range_front(x: Seq<i64>, lo: int, hi: int)
    requires
        0 <= lo < hi <= x.len(),
    ensures
        sum_range(x, lo, hi) == x[lo] + sum_range(x, lo + 1, hi),
    decreases hi - lo,
{
    if hi - lo > 1 {
        lemma_sum_range_front(x, lo, hi - 1);
        assert(sum_range(x, lo + 1, hi) == sum_range(x, lo + 1, hi - 1) + x[hi - 1]);
    } else {
        assert(sum_range(x, lo, hi - 1) == 0);
        assert(sum_range(x, lo + 1, hi) == 0);
    }
}

} // verus!

verus! {

/// `x[lo] + ... + x[hi - 1]` for a window of at most `MAX_PERIOD` values.
pub fn window_sum(x: &[i64], lo: usize, hi: usize) -> (r: i128)
    requires
        lo <= hi <= x.len(),
        hi - lo <= crate::line::MAX_PERIOD,
    ensures
        r == sum_range(x@, lo as int, hi as int),
{
    let mut acc: i128 = 0;
    let mut j: usize = lo;
    while j < hi
        invariant
            lo <= j <= hi <= x.len(),
            hi - lo <= crate::line::MAX_PERIOD,
            acc == sum_range(x@, lo as int, j as int),
        decreases hi - j,
    {
        proof {
            lemma_sum_range_bounds(x@, lo as int, j + 1);
            assert((j + 1 - lo) * (i64::MIN as int) >= 0xffff_ffff * (i64::MIN as int)) by (nonlinear_arith)
                requires j + 1 - lo <= 0xffff_ffff;
            assert((j + 1 - lo) * (i64::MAX as int) <= 0xffff_ffff * (i64::MAX as int)) by (nonlinear_arith)
                requires j + 1 - lo <= 0xffff_ffff, j + 1 - lo >= 0;
        }
        acc = acc + x[j] as i128;
        j = j + 1;
    }
    acc
}

} // verus!
