//! Elementwise maximum and minimum of two series.
use vstd::prelude::*;
use crate::line::{get_vec_at, DataLine, DataLineFeed, IndicatorView};

verus! {

pub open spec fn max_of(a: i64, b: i64) -> i64 {
    if a >= b { a } else { b }
}

pub open spec fn min_of(a: i64, b: i64) -> i64 {
    if a <= b { a } else { b }
}

/// The first index at which both inputs are valid.
pub open spec fn both_valid_from(sa: nat, sb: nat) -> nat {
    if sa >= sb { sa } else { sb }
}

/// Pairwise maximum (or minimum) from `first` on, 0 as a placeholder before.
pub open spec fn extremum_output(a: Seq<i64>, b: Seq<i64>, first: int, is_max: bool) -> Seq<i64> {
    Seq::new(
        a.len(),
        |i: int|
            if i < first {
                0
            } else if is_max {
                max_of(a[i], b[i])
            } else {
                min_of(a[i], b[i])
            },
    )
}

/// The state after feeding two series.
pub open spec fn extremum_fed(a: Seq<i64>, sa: nat, b: Seq<i64>, sb: nat, is_max: bool) -> IndicatorView {
    IndicatorView {
        period: 0,
        start_pos: both_valid_from(sa, sb),
        data: extremum_output(a, b, both_valid_from(sa, sb) as int, is_max),
    }
}

/// The output of an extremum is as long as its inputs.
pub proof fn lemma_extremum_output_len(a: Seq<i64>, sa: nat, b: Seq<i64>, sb: nat, is_max: bool)
    ensures
        extremum_fed(a, sa, b, sb, is_max).data.len() == a.len(),
{
}

fn fill_extremum(a: &[i64], b: &[i64], first: usize, is_max: bool) -> (out: Vec<i64>)
    requires
        a.len() == b.len(),
    ensures
        out@ == extremum_output(a@, b@, first as int, is_max),
{
    let n = a.len();
    let mut out: Vec<i64> = Vec::with_capacity(n);
    let mut i: usize = 0;
    while i < n
        invariant
            n == a.len(),
            a.len() == b.len(),
            i <= n,
            out.len() == i,
            forall|j: int|
                0 <= j < i ==> out@[j] == extremum_output(a@, b@, first as int, is_max)[j],
        decreases n - i,
    {
        let v = if i < first {
            0
        } else if is_max {
            if a[i] >= b[i] { a[i] } else { b[i] }
        } else {
            if a[i] <= b[i] { a[i] } else { b[i] }
        };
        out.push(v);
        i = i + 1;
    }
    proof {
        assert(out@ =~= extremum_output(a@, b@, first as int, is_max));
    }
    out
}

/// Elementwise maximum of two series of equal length.
pub struct MaxIndicator {
    pub start_pos: usize,
    pub data: Vec<i64>,
}

/// Elementwise minimum of two series of equal length.
pub struct MinIndicator {
    pub start_pos: usize,
    pub data: Vec<i64>,
}

impl View for MaxIndicator {
    type V = IndicatorView;

    open spec fn view(&self) -> IndicatorView {
        IndicatorView { period: 0, start_pos: self.start_pos as nat, data: self.data@ }
    }
}

impl View for MinIndicator {
    type V = IndicatorView;

    open spec fn view(&self) -> IndicatorView {
        IndicatorView { period: 0, start_pos: self.start_pos as nat, data: self.data@ }
    }
}

impl MaxIndicator {
    pub fn new() -> (r: MaxIndicator)
        ensures
            r@ == (IndicatorView { period: 0, start_pos: 0, data: Seq::empty() }),
    {
        MaxIndicator { start_pos: 0, data: Vec::new() }
    }

    /// Recomputes the whole output from two series of equal length.
    pub fn feed<DA: DataLineFeed, DB: DataLineFeed>(&mut self, data_line_a: &DA, data_line_b: &DB)
        requires
            data_line_a.values().len() == data_line_b.values().len(),
            old(self).data.len() == 0 || old(self).data.len() == data_line_a.values().len(),
        ensures
            final(self)@ == extremum_fed(
                data_line_a.values(),
                data_line_a.valid_start(),
                data_line_b.values(),
                data_line_b.valid_start(),
                true,
            ),
    {
        let (buf_a, start_a) = data_line_a.inner();
        let (buf_b, start_b) = data_line_b.inner();
        let start = if start_a >= start_b { start_a } else { start_b };
        self.data = fill_extremum(buf_a, buf_b, start, true);
        self.start_pos = start;
    }
}

impl MinIndicator {
    pub fn new() -> (r: MinIndicator)
        ensures
            r@ == (IndicatorView { period: 0, start_pos: 0, data: Seq::empty() }),
    {
        MinIndicator { start_pos: 0, data: Vec::new() }
    }

    /// Recomputes the whole output from two series of equal length.
    pub fn feed<DA: DataLineFeed, DB: DataLineFeed>(&mut self, data_line_a: &DA, data_line_b: &DB)
        requires
            data_line_a.values().len() == data_line_b.values().len(),
            old(self).data.len() == 0 || old(self).data.len() == data_line_a.values().len(),
        ensures
            final(self)@ == extremum_fed(
                data_line_a.values(),
                data_line_a.valid_start(),
                data_line_b.values(),
                data_line_b.valid_start(),
                false,
            ),
    {
        let (buf_a, start_a) = data_line_a.inner();
        let (buf_b, start_b) = data_line_b.inner();
        let start = if start_a >= start_b { start_a } else { start_b };
        self.data = fill_extremum(buf_a, buf_b, start, false);
        self.start_pos = start;
    }
}

impl Default for MaxIndicator {
    fn default() -> (r: MaxIndicator)
        ensures
            r@ == (IndicatorView { period: 0, start_pos: 0, data: Seq::empty() }),
    {
        MaxIndicator::new()
    }
}

impl DataLineFeed for MaxIndicator {
    open spec fn values(&self) -> Seq<i64> {
        self.data@
    }

    open spec fn valid_start(&self) -> nat {
        self.start_pos as nat
    }

    fn inner(&self) -> (r: (&[i64], usize)) {
        (self.data.as_slice(), self.start_pos)
    }
}

impl DataLine for MaxIndicator {
    open spec fn line_view(&self) -> (Seq<i64>, nat) {
        (self.data@, self.start_pos as nat)
    }

    fn at(&self, index: usize) -> (r: Option<i64>) {
        get_vec_at(self.data.as_slice(), self.start_pos, index)
    }
}

impl Default for MinIndicator {
    fn default() -> (r: MinIndicator)
        ensures
            r@ == (IndicatorView { period: 0, start_pos: 0, data: Seq::empty() }),
    {
        MinIndicator::new()
    }
}

impl DataLineFeed for MinIndicator {
    open spec fn values(&self) -> Seq<i64> {
        self.data@
    }

    open spec fn valid_start(&self) -> nat {
        self.start_pos as nat
    }

    fn inner(&self) -> (r: (&[i64], usize)) {
        (self.data.as_slice(), self.start_pos)
    }
}

impl DataLine for MinIndicator {
    open spec fn line_view(&self) -> (Seq<i64>, nat) {
        (self.data@, self.start_pos as nat)
    }

    fn at(&self, index: usize) -> (r: Option<i64>) {
        get_vec_at(self.data.as_slice(), self.start_pos, index)
    }
}

} // verus!
