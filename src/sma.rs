//! Simple moving average.
use vstd::prelude::*;
use crate::arith::{div_round, lemma_round_div_bounds, round_div};
use crate::line::{get_vec_at, DataLine, DataLineFeed, IndicatorView, MAX_PERIOD};
use crate::window::{lemma_sum_range_bounds, lemma_sum_range_slide, sum_range};

verus! {

/// The rounded mean of the `p` values that end at index `i`.
pub open spec fn sma_value(x: Seq<i64>, p: int, i: int) -> int {
    round_div(sum_range(x, i + 1 - p, i + 1), p)
}

/// The whole output: the mean from `first` on, 0 as a placeholder before.
pub open spec fn sma_output(x: Seq<i64>, first: int, p: int) -> Seq<i64> {
    Seq::new(x.len(), |i: int| if i >= first { sma_value(x, p, i) as i64 } else { 0 })
}

/// The state after feeding a series with values `x` valid from `s`.
pub open spec fn sma_fed(st: IndicatorView, x: Seq<i64>, s: nat) -> IndicatorView {
    IndicatorView {
        period: st.period,
        start_pos: (s + st.period - 1) as nat,
        data: sma_output(x, s + st.period - 1, st.period as int),
    }
}

/// Feeding the same series a second time changes nothing.
pub proof fn lemma_sma_feed_idempotent(st: IndicatorView, x: Seq<i64>, s: nat)
    requires
        st.period >= 2,
    ensures
        sma_fed(sma_fed(st, x, s), x, s) == sma_fed(st, x, s),
        sma_fed(st, x, s).data.len() == x.len(),
{
}

/// The mean of a full window fits in `i64`.
pub proof fn lemma_sma_value_fits(x: Seq<i64>, p: int, i: int)
    requires
        1 <= p,
        p - 1 <= i < x.len(),
    ensures
        i64::MIN <= sma_value(x, p, i) <= i64::MAX,
{
    lemma_sum_range_bounds(x, i + 1 - p, i + 1);
    lemma_round_div_bounds(sum_range(x, i + 1 - p, i + 1), p, i64::MIN as int, i64::MAX as int);
}

/// Simple moving average over a window of `period` values.
pub struct SMAIndicator {
    pub period: usize,
    pub start_pos: usize,
    pub data: Vec<i64>,
}

impl View for SMAIndicator {
    type V = IndicatorView;

    open spec fn view(&self) -> IndicatorView {
        IndicatorView { period: self.period as nat, start_pos: self.start_pos as nat, data: self.data@ }
    }
}

impl SMAIndicator {
    pub fn new(period: usize) -> (r: SMAIndicator)
        requires
            2 <= period <= MAX_PERIOD,
        ensures
            r@ == (IndicatorView { period: period as nat, start_pos: 0, data: Seq::empty() }),
    {
        SMAIndicator { period, start_pos: 0, data: Vec::new() }
    }

    /// Recomputes the whole output from `data_line`.
    pub fn feed<D: DataLineFeed>(&mut self, data_line: &D)
        requires
            2 <= old(self).period <= MAX_PERIOD,
            old(self).data.len() == 0 || old(self).data.len() == data_line.values().len(),
            data_line.valid_start() + old(self).period <= usize::MAX,
        ensures
            final(self)@ == sma_fed(old(self)@, data_line.values(), data_line.valid_start()),
    {
        let (src, s) = data_line.inner();
        let p = self.period;
        let first = s + p - 1;
        let n = src.len();
        let ghost x = src@;
        let mut out: Vec<i64> = Vec::with_capacity(n);
        let mut sum: i128 = 0;
        let mut i: usize = 0;
        while i < n
            invariant
                x == src@,
                n == x.len(),
                2 <= p <= MAX_PERIOD,
                first == s + p - 1,
                i <= n,
                out.len() == i,
                sum == sum_range(x, if i >= p { i - p } else { 0 }, i as int),
                forall|j: int| 0 <= j < i ==> out@[j] == sma_output(x, first as int, p as int)[j],
            decreases n - i,
        {
            let ghost lo: int = if i >= p { i - p } else { 0 };
            proof {
                lemma_sum_range_bounds(x, lo, i + 1);
                lemma_sum_range_bounds(x, lo, i as int);
                assert((i + 1 - lo) * (i64::MIN as int) >= (p + 1) * (i64::MIN as int)) by (nonlinear_arith)
                    requires i + 1 - lo <= p + 1;
                assert((i + 1 - lo) * (i64::MAX as int) <= (p + 1) * (i64::MAX as int)) by (nonlinear_arith)
                    requires i + 1 - lo <= p + 1, i + 1 - lo >= 0;
                assert((i - lo) * (i64::MIN as int) >= (p + 1) * (i64::MIN as int)) by (nonlinear_arith)
                    requires i - lo <= p + 1;
                assert((i - lo) * (i64::MAX as int) <= (p + 1) * (i64::MAX as int)) by (nonlinear_arith)
                    requires i - lo <= p + 1, i - lo >= 0;
                assert((p + 1) * (i64::MAX as int) <= 0x1_0000_0001 * (i64::MAX as int)) by (nonlinear_arith)
                    requires p <= 0xffff_ffff;
                assert((p + 1) * (i64::MIN as int) >= 0x1_0000_0001 * (i64::MIN as int)) by (nonlinear_arith)
                    requires p <= 0xffff_ffff;
            }
            sum = sum + src[i] as i128;
            if i >= p {
                proof {
                    lemma_sum_range_slide(x, i - p, i as int);
                }
                sum = sum - src[i - p] as i128;
            }
            if i >= first {
                proof {
                    lemma_sma_value_fits(x, p as int, i as int);
                }
                let v = div_round(sum, p as i128);
                out.push(v as i64);
            } else {
                out.push(0);
            }
            i = i + 1;
        }
        proof {
            assert(out@ =~= sma_output(x, first as int, p as int));
        }
        self.data = out;
        self.start_pos = first;
    }
}

impl DataLineFeed for SMAIndicator {
    open spec fn values(&self) -> Seq<i64> {
        self.data@
    }

    open spec fn valid_start(&self) -> nat {
        self.start_pos as nat
    }

    fn inner(&self) -> (r: (&[i64], usize)) {
        (self.data.as_slice(), self.start_pos)
    }
}

impl DataLine for SMAIndicator {
    open spec fn line_view(&self) -> (Seq<i64>, nat) {
        (self.data@, self.start_pos as nat)
    }

    fn at(&self, index: usize) -> (r: Option<i64>) {
        get_vec_at(self.data.as_slice(), self.start_pos, index)
    }
}

} // verus!
