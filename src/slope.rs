//! Least-squares slope over a trailing window.
use vstd::prelude::*;
use crate::arith::{div_round, round_div};
use crate::line::{get_vec_at, DataLine, DataLineFeed, IndicatorView};
use crate::window::{lemma_sum_range_bounds, sum_range};

verus! {

/// The largest window length that the slope accepts: its sums are taken in
/// 128-bit arithmetic.
pub const MAX_SLOPE_PERIOD: usize = 0x0100_0000;

/// `0 * x[lo] + 1 * x[lo + 1] + ... + (hi - 1 - lo) * x[hi - 1]`.
pub open spec fn weighted_sum(x: Seq<i64>, lo: int, hi: int) -> int
    decreases hi - lo,
{
    if hi <= lo {
        0
    } else {
        weighted_sum(x, lo, hi - 1) + (hi - 1 - lo) * x[hi - 1]
    }
}

/// The ordinary least-squares slope of the points `(t, x[i + 1 - p + t])`,
/// `t = 0 .. p - 1`, rounded to the nearest unit. With `W = sum t * x` and
/// `S = sum x`, the closed form `(p W - sum t * S) / (p sum t^2 - (sum t)^2)`
/// reduces to `6 (2 W - (p - 1) S) / (p (p - 1) (p + 1))`.
pub open spec fn slope_value(x: Seq<i64>, p: int, i: int) -> int {
    let lo = i + 1 - p;
    round_div(
        6 * (2 * weighted_sum(x, lo, i + 1) - (p - 1) * sum_range(x, lo, i + 1)),
        p * (p - 1) * (p + 1),
    )
}

/// Every slope that the output holds fits in `i64`.
pub open spec fn slope_fits(x: Seq<i64>, first: int, p: int) -> bool {
    forall|i: int| first <= i < x.len() ==> i64::MIN <= #[trigger] slope_value(x, p, i) <= i64::MAX
}

/// The whole output: the slope from `first` on, 0 as a placeholder before.
pub open spec fn slope_output(x: Seq<i64>, first: int, p: int) -> Seq<i64> {
    Seq::new(x.len(), |i: int| if i >= first { slope_value(x, p, i) as i64 } else { 0 })
}

/// The state after feeding a series with values `x` valid from `s`.
pub open spec fn slope_fed(st: IndicatorView, x: Seq<i64>, s: nat) -> IndicatorView {
    IndicatorView {
        period: st.period,
        start_pos: (s + st.period - 1) as nat,
        data: slope_output(x, s + st.period - 1, st.period as int),
    }
}

/// Feeding the same series a second time changes nothing.
pub proof fn lemma_slope_feed_idempotent(st: IndicatorView, x: Seq<i64>, s: nat)
    requires
        st.period >= 2,
    ensures
        slope_fed(slope_fed(st, x, s), x, s) == slope_fed(st, x, s),
        slope_fed(st, x, s).data.len() == x.len(),
{
}

proof fn lemma_weighted_sum_bounds(x: Seq<i64>, lo: int, hi: int)
    requires
        0 <= lo <= hi <= x.len(),
    ensures
        -((hi - lo) * (hi - lo) * 0x8000_0000_0000_0000) <= weighted_sum(x, lo, hi)
            <= (hi - lo) * (hi - lo) * 0x8000_0000_0000_0000,
    decreases hi - lo,
{
    if hi > lo {
        lemma_weighted_sum_bounds(x, lo, hi - 1);
        let k = hi - lo;
        let v = x[hi - 1] as int;
        let w = weighted_sum(x, lo, hi - 1);
        assert(-((k - 1) * 0x8000_0000_0000_0000) <= (k - 1) * v <= (k - 1) * 0x8000_0000_0000_0000)
            by (nonlinear_arith)
            requires k >= 1, -0x8000_0000_0000_0000 <= v < 0x8000_0000_0000_0000;
        assert((k - 1) * (k - 1) * 0x8000_0000_0000_0000 + (k - 1) * 0x8000_0000_0000_0000 <= k * k
            * 0x8000_0000_0000_0000) by (nonlinear_arith)
            requires k >= 1;
    }
}

/// The weighted sum and the plain sum of the window `x[lo .. hi]`.
fn window_sums(x: &[i64], lo: usize, hi: usize) -> (r: (i128, i128))
    requires
        lo <= hi <= x.len(),
        hi - lo <= MAX_SLOPE_PERIOD,
    ensures
        r.0 == weighted_sum(x@, lo as int, hi as int),
        r.1 == sum_range(x@, lo as int, hi as int),
{
    let mut w: i128 = 0;
    let mut s: i128 = 0;
    let mut j: usize = lo;
    while j < hi
        invariant
            lo <= j <= hi <= x.len(),
            hi - lo <= MAX_SLOPE_PERIOD,
            w == weighted_sum(x@, lo as int, j as int),
            s == sum_range(x@, lo as int, j as int),
        decreases hi - j,
    {
        proof {
            let k = j + 1 - lo;
            lemma_weighted_sum_bounds(x@, lo as int, j + 1);
            lemma_sum_range_bounds(x@, lo as int, j + 1);
            assert(k * k * 0x8000_0000_0000_0000 <= 0x0100_0000 * 0x0100_0000 * 0x8000_0000_0000_0000)
                by (nonlinear_arith)
                requires 0 <= k <= 0x0100_0000;
            assert(k * (i64::MIN as int) >= 0x0100_0000 * (i64::MIN as int)) by (nonlinear_arith)
                requires 0 <= k <= 0x0100_0000;
            assert(k * (i64::MAX as int) <= 0x0100_0000 * (i64::MAX as int)) by (nonlinear_arith)
                requires 0 <= k <= 0x0100_0000;
            assert(-(0x0100_0000 * 0x8000_0000_0000_0000) <= ((j - lo) as int) * (x@[j as int] as int)
                <= 0x0100_0000 * 0x8000_0000_0000_0000) by (nonlinear_arith)
                requires 0 <= j - lo <= 0x0100_0000, i64::MIN <= x@[j as int] <= i64::MAX;
        }
        w = w + ((j - lo) as i128) * (x[j] as i128);
        s = s + x[j] as i128;
        j = j + 1;
    }
    (w, s)
}

/// Least-squares slope over `period` samples.
pub struct LinearregSlopeIndicator {
    pub period: usize,
    pub start_pos: usize,
    pub data: Vec<i64>,
}

impl View for LinearregSlopeIndicator {
    type V = IndicatorView;

    open spec fn view(&self) -> IndicatorView {
        IndicatorView { period: self.period as nat, start_pos: self.start_pos as nat, data: self.data@ }
    }
}

impl LinearregSlopeIndicator {
    pub fn new(period: usize) -> (r: LinearregSlopeIndicator)
        requires
            2 <= period <= MAX_SLOPE_PERIOD,
        ensures
            r@ == (IndicatorView { period: period as nat, start_pos: 0, data: Seq::empty() }),
    {
        LinearregSlopeIndicator { period, start_pos: 0, data: Vec::new() }
    }

    /// Recomputes the whole output from `data_line`, each value from its own window.
    pub fn feed<D: DataLineFeed>(&mut self, data_line: &D)
        requires
            2 <= old(self).period <= MAX_SLOPE_PERIOD,
            old(self).data.len() == 0 || old(self).data.len() == data_line.values().len(),
            data_line.valid_start() + old(self).period <= usize::MAX,
            slope_fits(
                data_line.values(),
                data_line.valid_start() + old(self).period - 1,
                old(self).period as int,
            ),
        ensures
            final(self)@ == slope_fed(old(self)@, data_line.values(), data_line.valid_start()),
    {
        let (src, s) = data_line.inner();
        let p = self.period;
        let first = s + p - 1;
        let n = src.len();
        let ghost x = src@;
        let pi = p as i128;
        proof {
            assert(0 < (p as int) * (p - 1) <= 0x0100_0000 * 0x0100_0000) by (nonlinear_arith)
                requires 2 <= p <= 0x0100_0000;
            assert(0 < (p as int) * (p - 1) * (p + 1) <= 0x0100_0000 * 0x0100_0000 * 0x0100_0001)
                by (nonlinear_arith)
                requires 2 <= p <= 0x0100_0000;
        }
        let denom = pi * (pi - 1) * (pi + 1);
        let mut out: Vec<i64> = Vec::with_capacity(n);
        let mut i: usize = 0;
        while i < n
            invariant
                x == src@,
                n == x.len(),
                2 <= p <= MAX_SLOPE_PERIOD,
                pi == p,
                denom == (p as int) * (p - 1) * (p + 1),
                0 < denom <= 0x0100_0000 * 0x0100_0000 * 0x0100_0001,
                first == s + p - 1,
                slope_fits(x, first as int, p as int),
                i <= n,
                out.len() == i,
                forall|j: int| 0 <= j < i ==> out@[j] == slope_output(x, first as int, p as int)[j],
            decreases n - i,
        {
            if i >= first {
                let (w, sum) = window_sums(src, i + 1 - p, i + 1);
                proof {
                    lemma_weighted_sum_bounds(x, i + 1 - p, i + 1);
                    lemma_sum_range_bounds(x, i + 1 - p, i + 1);
                    let pp = p as int;
                    assert(pp * pp * 0x8000_0000_0000_0000 <= 0x0100_0000 * 0x0100_0000 * 0x8000_0000_0000_0000)
                        by (nonlinear_arith)
                        requires 0 <= pp <= 0x0100_0000;
                    assert(-(0x0100_0000 * 0x0100_0000 * 0x8000_0000_0000_0000) <= (pp - 1) * (sum as int)
                        <= 0x0100_0000 * 0x0100_0000 * 0x8000_0000_0000_0000) by (nonlinear_arith)
                        requires
                            1 <= pp <= 0x0100_0000,
                            pp * (i64::MIN as int) <= sum <= pp * (i64::MAX as int);
                    assert(i64::MIN <= slope_value(x, p as int, i as int) <= i64::MAX);
                }
                let num = 6 * (2 * w - (pi - 1) * sum);
                let v = div_round(num, denom);
                out.push(v as i64);
            } else {
                out.push(0);
            }
            i = i + 1;
        }
        proof {
            assert(out@ =~= slope_output(x, first as int, p as int));
        }
        self.data = out;
        self.start_pos = first;
    }
}

impl DataLineFeed for LinearregSlopeIndicator {
    open spec fn values(&self) -> Seq<i64> {
        self.data@
    }

    open spec fn valid_start(&self) -> nat {
        self.start_pos as nat
    }

    fn inner(&self) -> (r: (&[i64], usize)) {
        (self.data.as_slice(), self.start_pos)
    }
}

impl DataLine for LinearregSlopeIndicator {
    open spec fn line_view(&self) -> (Seq<i64>, nat) {
        (self.data@, self.start_pos as nat)
    }

    fn at(&self, index: usize) -> (r: Option<i64>) {
        get_vec_at(self.data.as_slice(), self.start_pos, index)
    }
}

} // verus!
