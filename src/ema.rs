//! Exponential moving average.
use vstd::prelude::*;
use crate::arith::{div_round, lemma_round_div_bounds, round_div};
use crate::line::{get_vec_at, DataLine, DataLineFeed, IndicatorView, MAX_PERIOD};
use crate::sma::{lemma_sma_value_fits, sma_value};
use crate::window::window_sum;

verus! {

/// The average at index `i >= first`: seeded at `first` by the simple mean of
/// the first window, then `(2 x[i] + (p - 1) ema[i - 1]) / (p + 1)`, that is a
/// smoothing factor of `2 / (p + 1)`, each step rounded to the nearest unit.
pub open spec fn ema_value(x: Seq<i64>, p: int, first: int, i: int) -> int
    decreases i - first,
{
    if i <= first {
        sma_value(x, p, first)
    } else {
        round_div(2 * x[i] + (p - 1) * ema_value(x, p, first, i - 1), p + 1)
    }
}

/// The whole output: the average from `first` on, 0 as a placeholder before.
pub open spec fn ema_output(x: Seq<i64>, first: int, p: int) -> Seq<i64> {
    Seq::new(x.len(), |i: int| if i >= first { ema_value(x, p, first, i) as i64 } else { 0 })
}

/// The state after feeding a series with values `x` valid from `s`.
pub open spec fn ema_fed(st: IndicatorView, x: Seq<i64>, s: nat) -> IndicatorView {
    IndicatorView {
        period: st.period,
        start_pos: (s + st.period - 1) as nat,
        data: ema_output(x, s + st.period - 1, st.period as int),
    }
}

/// Feeding the same series a second time changes nothing.
pub proof fn lemma_ema_feed_idempotent(st: IndicatorView, x: Seq<i64>, s: nat)
    requires
        st.period >= 2,
    ensures
        ema_fed(ema_fed(st, x, s), x, s) == ema_fed(st, x, s),
        ema_fed(st, x, s).data.len() == x.len(),
{
}

/// One smoothing step of two `i64` values gives an `i64` value.
proof fn lemma_ema_step_fits(xi: int, prev: int, p: int)
    requires
        p >= 1,
        i64::MIN <= xi <= i64::MAX,
        i64::MIN <= prev <= i64::MAX,
    ensures
        i64::MIN <= round_div(2 * xi + (p - 1) * prev, p + 1) <= i64::MAX,
{
    let lo = i64::MIN as int;
    let hi = i64::MAX as int;
    assert(lo * (p + 1) <= 2 * xi + (p - 1) * prev) by (nonlinear_arith)
        requires lo <= xi, lo <= prev, p >= 1;
    assert(2 * xi + (p - 1) * prev <= hi * (p + 1)) by (nonlinear_arith)
        requires xi <= hi, prev <= hi, p >= 1;
    lemma_round_div_bounds(2 * xi + (p - 1) * prev, p + 1, lo, hi);
}

/// Exponential moving average over `period` samples.
pub struct EMAIndicator {
    pub period: usize,
    pub start_pos: usize,
    pub data: Vec<i64>,
}

impl View for EMAIndicator {
    type V = IndicatorView;

    open spec fn view(&self) -> IndicatorView {
        IndicatorView { period: self.period as nat, start_pos: self.start_pos as nat, data: self.data@ }
    }
}

impl EMAIndicator {
    pub fn new(period: usize) -> (r: EMAIndicator)
        requires
            2 <= period <= MAX_PERIOD,
        ensures
            r@ == (IndicatorView { period: period as nat, start_pos: 0, data: Seq::empty() }),
    {
        EMAIndicator { period, start_pos: 0, data: Vec::new() }
    }

    /// Recomputes the whole output from `data_line`.
    pub fn feed<D: DataLineFeed>(&mut self, data_line: &D)
        requires
            2 <= old(self).period <= MAX_PERIOD,
            old(self).data.len() == 0 || old(self).data.len() == data_line.values().len(),
            data_line.valid_start() + old(self).period <= usize::MAX,
        ensures
            final(self)@ == ema_fed(old(self)@, data_line.values(), data_line.valid_start()),
    {
        let (src, s) = data_line.inner();
        let p = self.period;
        let first = s + p - 1;
        let n = src.len();
        let ghost x = src@;
        let mut out: Vec<i64> = Vec::with_capacity(n);
        let mut prev: i64 = 0;
        let mut i: usize = 0;
        while i < n
            invariant
                x == src@,
                n == x.len(),
                2 <= p <= MAX_PERIOD,
                first == s + p - 1,
                i <= n,
                out.len() == i,
                i > first ==> prev == ema_value(x, p as int, first as int, i - 1),
                forall|j: int| 0 <= j < i ==> out@[j] == ema_output(x, first as int, p as int)[j],
            decreases n - i,
        {
            if i < first {
                out.push(0);
            } else {
                let v: i128;
                if i == first {
                    let sum = window_sum(src, i + 1 - p, i + 1);
                    proof {
                        crate::window::lemma_sum_range_bounds(x, i + 1 - p, i + 1);
                        assert(p * (i64::MIN as int) >= 0xffff_ffff * (i64::MIN as int)) by (nonlinear_arith)
                            requires p <= 0xffff_ffff;
                        assert(p * (i64::MAX as int) <= 0xffff_ffff * (i64::MAX as int)) by (nonlinear_arith)
                            requires p <= 0xffff_ffff, p >= 0;
                        lemma_sma_value_fits(x, p as int, i as int);
                    }
                    v = div_round(sum, p as i128);
                } else {
                    proof {
                        lemma_ema_step_fits(x[i as int] as int, prev as int, p as int);
                        assert(-0x1_0000_0000 * 0x8000_0000_0000_0000 <= (p as int - 1) * prev) by (nonlinear_arith)
                            requires 1 <= p <= 0xffff_ffff, i64::MIN <= prev <= i64::MAX;
                        assert((p as int - 1) * prev <= 0x1_0000_0000 * 0x8000_0000_0000_0000) by (nonlinear_arith)
                            requires 1 <= p <= 0xffff_ffff, i64::MIN <= prev <= i64::MAX;
                    }
                    let num = 2 * (src[i] as i128) + ((p - 1) as i128) * (prev as i128);
                    v = div_round(num, (p + 1) as i128);
                }
                prev = v as i64;
                out.push(prev);
            }
            i = i + 1;
        }
        proof {
            assert(out@ =~= ema_output(x, first as int, p as int));
        }
        self.data = out;
        self.start_pos = first;
    }
}

impl DataLineFeed for EMAIndicator {
    open spec fn values(&self) -> Seq<i64> {
        self.data@
    }

    open spec fn valid_start(&self) -> nat {
        self.start_pos as nat
    }

    fn inner(&self) -> (r: (&[i64], usize)) {
        (self.data.as_slice(), self.start_pos)
    }
}

impl DataLine for EMAIndicator {
    open spec fn line_view(&self) -> (Seq<i64>, nat) {
        (self.data@, self.start_pos as nat)
    }

    fn at(&self, index: usize) -> (r: Option<i64>) {
        get_vec_at(self.data.as_slice(), self.start_pos, index)
    }
}

} // verus!
