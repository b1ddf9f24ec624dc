//! Numeric series with a valid-start index.
use vstd::prelude::*;

verus! {

/// Reads `data[index]` when `index >= start_pos` and in range, else nothing.
pub fn get_vec_at(data: &[i64], start_pos: usize, index: usize) -> (r: Option<i64>)
    ensures
        r == line_at(data@, start_pos as int, index as int),
{
    if index < start_pos || index >= data.len() {
        None
    } else {
        Some(data[index])
    }
}

/// The value of a series at `index`, absent before `start` and past the end.
pub open spec fn line_at(data: Seq<i64>, start: int, index: int) -> Option<i64> {
    if start <= index < data.len() {
        Some(data[index])
    } else {
        None
    }
}

/// Bulk read access to a series: its buffer and its valid-start index.
pub trait DataLineFeed {
    spec fn values(&self) -> Seq<i64>;

    spec fn valid_start(&self) -> nat;

    fn inner(&self) -> (r: (&[i64], usize))
        ensures
            r.0@ == self.values(),
            r.1 == self.valid_start(),
    ;
}

/// Checked access to a series.
pub trait DataLine {
    spec fn line_view(&self) -> (Seq<i64>, nat);

    fn at(&self, index: usize) -> (r: Option<i64>)
        ensures
            r == line_at(self.line_view().0, self.line_view().1 as int, index as int),
    ;
}

/// A plain series: values and the index of the first meaningful one.
pub struct Series {
    pub data: Vec<i64>,
    pub start_pos: usize,
}

impl Series {
    pub fn new(data: Vec<i64>, start_pos: usize) -> (r: Series)
        ensures
            r.data@ == data@,
            r.start_pos == start_pos,
    {
        Series { data, start_pos }
    }
}

impl DataLineFeed for Series {
    open spec fn values(&self) -> Seq<i64> {
        self.data@
    }

    open spec fn valid_start(&self) -> nat {
        self.start_pos as nat
    }

    fn inner(&self) -> (r: (&[i64], usize)) {
        (self.data.as_slice(), self.start_pos)
    }
}

impl DataLine for Series {
    open spec fn line_view(&self) -> (Seq<i64>, nat) {
        (self.data@, self.start_pos as nat)
    }

    fn at(&self, index: usize) -> (r: Option<i64>) {
        get_vec_at(self.data.as_slice(), self.start_pos, index)
    }
}

} // verus!

verus! {

/// What an indicator holds, as mathematical values: its window length (0 for
/// indicators without one), its valid-start index and its output buffer.
pub struct IndicatorView {
    pub period: nat,
    pub start_pos: nat,
    pub data: Seq<i64>,
}

/// The largest window length that the windowed indicators accept.
pub const MAX_PERIOD: usize = 0xffff_ffff;

/// An output buffer as long as its input reads as present exactly from the
/// valid-start index to the end, and absent everywhere else.
pub proof fn lemma_output_presence(out: IndicatorView, input_len: nat)
    requires
        out.data.len() == input_len,
    ensures
        forall|i: int|
            #![trigger line_at(out.data, out.start_pos as int, i)]
            (line_at(out.data, out.start_pos as int, i) is Some) <==> (out.start_pos <= i
                < input_len),
        forall|i: int|
            0 <= i < out.start_pos ==> line_at(out.data, out.start_pos as int, i) is None,
{
}

} // verus!
