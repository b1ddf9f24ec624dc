//! Momentum: the change over `period` samples.
use vstd::prelude::*;
use crate::line::{get_vec_at, DataLine, DataLineFeed, IndicatorView, MAX_PERIOD};

verus! {

/// The whole output: `x[i] - x[i - p]` from `first` on, 0 as a placeholder before.
pub open spec fn mom_output(x: Seq<i64>, first: int, p: int) -> Seq<i64> {
    Seq::new(x.len(), |i: int| if i >= first { (x[i] - x[i - p]) as i64 } else { 0 })
}

/// Every change that the output holds fits in `i64`.
pub open spec fn mom_fits(x: Seq<i64>, first: int, p: int) -> bool {
    forall|i: int| first <= i < x.len() ==> i64::MIN <= #[trigger] x[i] - x[i - p] <= i64::MAX
}

/// The state after feeding a series with values `x` valid from `s`.
pub open spec fn mom_fed(st: IndicatorView, x: Seq<i64>, s: nat) -> IndicatorView {
    IndicatorView {
        period: st.period,
        start_pos: s + st.period,
        data: mom_output(x, (s + st.period) as int, st.period as int),
    }
}

/// Feeding the same series a second time changes nothing.
pub proof fn lemma_mom_feed_idempotent(st: IndicatorView, x: Seq<i64>, s: nat)
    ensures
        mom_fed(mom_fed(st, x, s), x, s) == mom_fed(st, x, s),
        mom_fed(st, x, s).data.len() == x.len(),
{
}

/// Momentum over `period` samples.
pub struct MOMIndicator {
    pub period: usize,
    pub start_pos: usize,
    pub data: Vec<i64>,
}

impl View for MOMIndicator {
    type V = IndicatorView;

    open spec fn view(&self) -> IndicatorView {
        IndicatorView { period: self.period as nat, start_pos: self.start_pos as nat, data: self.data@ }
    }
}

impl MOMIndicator {
    pub fn new(period: usize) -> (r: MOMIndicator)
        requires
            2 <= period <= MAX_PERIOD,
        ensures
            r@ == (IndicatorView { period: period as nat, start_pos: 0, data: Seq::empty() }),
    {
        MOMIndicator { period, start_pos: 0, data: Vec::new() }
    }

    /// Recomputes the whole output from `data_line`.
    pub fn feed<D: DataLineFeed>(&mut self, data_line: &D)
        requires
            2 <= old(self).period <= MAX_PERIOD,
            old(self).data.len() == 0 || old(self).data.len() == data_line.values().len(),
            data_line.valid_start() + old(self).period <= usize::MAX,
            mom_fits(
                data_line.values(),
                data_line.valid_start() + old(self).period,
                old(self).period as int,
            ),
        ensures
            final(self)@ == mom_fed(old(self)@, data_line.values(), data_line.valid_start()),
    {
        let (src, s) = data_line.inner();
        let p = self.period;
        let first = s + p;
        let n = src.len();
        let ghost x = src@;
        let mut out: Vec<i64> = Vec::with_capacity(n);
        let mut i: usize = 0;
        while i < n
            invariant
                x == src@,
                n == x.len(),
                2 <= p,
                first == s + p,
                mom_fits(x, first as int, p as int),
                i <= n,
                out.len() == i,
                forall|j: int| 0 <= j < i ==> out@[j] == mom_output(x, first as int, p as int)[j],
            decreases n - i,
        {
            if i >= first {
                assert(i64::MIN <= x[i as int] - x[i - p] <= i64::MAX);
                out.push(src[i] - src[i - p]);
            } else {
                out.push(0);
            }
            i = i + 1;
        }
        proof {
            assert(out@ =~= mom_output(x, first as int, p as int));
        }
        self.data = out;
        self.start_pos = first;
    }
}

impl DataLineFeed for MOMIndicator {
    open spec fn values(&self) -> Seq<i64> {
        self.data@
    }

    open spec fn valid_start(&self) -> nat {
        self.start_pos as nat
    }

    fn inner(&self) -> (r: (&[i64], usize)) {
        (self.data.as_slice(), self.start_pos)
    }
}

impl DataLine for MOMIndicator {
    open spec fn line_view(&self) -> (Seq<i64>, nat) {
        (self.data@, self.start_pos as nat)
    }

    fn at(&self, index: usize) -> (r: Option<i64>) {
        get_vec_at(self.data.as_slice(), self.start_pos, index)
    }
}

} // verus!
