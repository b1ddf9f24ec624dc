//! Bar data held in memory: timestamps, open and close prices.
use vstd::prelude::*;
use crate::broker::CsvBroker;
use crate::builder::CsvDataSourceBuilder;
use crate::line::{DataLine, DataLineFeed};
use crate::strategy::Strategy;

verus! {

/// A run from bar `data.offset` to the last: `ss[0]` is the strategy after
/// feeding on `data`, `bs[0]` the broker as it was, each next pair follows by
/// one decision at the next bar, and the last pair is `(s_end, b_end)`.
pub open spec fn replay_of<S: Strategy>(
    s0: S,
    b0: CsvBroker,
    data: CsvDataSource,
    ss: Seq<S>,
    bs: Seq<CsvBroker>,
    s_end: S,
    b_end: CsvBroker,
) -> bool {
    &&& ss.len() == bs.len()
    &&& ss.len() == data.len_spec() - data.offset + 1
    &&& s0.fed(data, ss[0])
    &&& bs[0] == b0
    &&& forall|i: int|
        0 <= i < ss.len() - 1 ==> #[trigger] ss[i].stepped(
            (data.offset + i) as usize,
            data.at_bar((data.offset + i) as usize),
            bs[i],
            ss[i + 1],
            bs[i + 1],
        )
    &&& ss.last() == s_end
    &&& bs.last() == b_end
}

/// Bar timestamps, in milliseconds since the Unix epoch, UTC.
pub struct CsvTimeLine {
    pub data: Vec<i64>,
}

impl CsvTimeLine {
    pub fn at(&self, index: usize) -> (r: Option<i64>)
        ensures
            r == (if index < self.data.len() { Some(self.data@[index as int]) } else { None::<i64> }),
    {
        if index < self.data.len() {
            Some(self.data[index])
        } else {
            None
        }
    }
}

/// A price column, valid from its first bar.
pub struct CsvDataLine {
    pub data: Vec<i64>,
}

impl DataLine for CsvDataLine {
    open spec fn line_view(&self) -> (Seq<i64>, nat) {
        (self.data@, 0)
    }

    fn at(&self, index: usize) -> (r: Option<i64>) {
        if index < self.data.len() {
            Some(self.data[index])
        } else {
            None
        }
    }
}

impl DataLineFeed for CsvDataLine {
    open spec fn values(&self) -> Seq<i64> {
        self.data@
    }

    open spec fn valid_start(&self) -> nat {
        0
    }

    fn inner(&self) -> (r: (&[i64], usize)) {
        (self.data.as_slice(), 0)
    }
}

/// The loaded history and the index of the bar being processed.
pub struct CsvDataSource {
    pub offset: usize,
    pub timestamp: CsvTimeLine,
    pub close: CsvDataLine,
    pub open: CsvDataLine,
}

impl CsvDataSource {
    /// A configuration to load a history with.
    pub fn builder() -> (r: CsvDataSourceBuilder)
        ensures
            r.time_type is Unknown,
            r.time_field@ == Seq::<char>::empty(),
    {
        CsvDataSourceBuilder::new()
    }

    /// Parallel columns of equal length, replay starting at the first bar.
    pub fn new(timestamp: Vec<i64>, open: Vec<i64>, close: Vec<i64>) -> (r: CsvDataSource)
        requires
            timestamp.len() == open.len(),
            timestamp.len() == close.len(),
        ensures
            r.wf(),
            r.offset == 0,
            r.timestamp.data@ == timestamp@,
            r.open.data@ == open@,
            r.close.data@ == close@,
    {
        CsvDataSource {
            offset: 0,
            timestamp: CsvTimeLine { data: timestamp },
            open: CsvDataLine { data: open },
            close: CsvDataLine { data: close },
        }
    }

    /// Columns of equal length, and an offset that does not pass their end.
    pub open spec fn wf(&self) -> bool {
        &&& self.open.data.len() == self.timestamp.data.len()
        &&& self.close.data.len() == self.timestamp.data.len()
        &&& self.offset <= self.timestamp.data.len()
    }

    pub open spec fn len_spec(&self) -> nat {
        self.timestamp.data.len() as nat
    }

    /// The number of bars.
    pub fn len(&self) -> (r: usize)
        ensures
            r == self.len_spec(),
    {
        self.timestamp.data.len()
    }

    /// The price at which an order placed at the current bar is filled: the
    /// next bar's open, or the current close at the last bar.
    pub open spec fn fill_price(&self) -> i64 {
        if self.offset + 1 < self.open.data.len() {
            self.open.data@[self.offset + 1]
        } else {
            self.close.data@[self.offset as int]
        }
    }

    /// The time of that fill, by the same rule.
    pub open spec fn fill_time(&self) -> i64 {
        if self.offset + 1 < self.timestamp.data.len() {
            self.timestamp.data@[self.offset + 1]
        } else {
            self.timestamp.data@[self.offset as int]
        }
    }

    /// The same history with the replay standing at bar `k`.
    pub open spec fn at_bar(self, k: usize) -> CsvDataSource {
        CsvDataSource { offset: k, timestamp: self.timestamp, close: self.close, open: self.open }
    }

    /// Replays the history: the strategy computes its indicators once, then
    /// decides at every bar from the current one to the last, in ascending
    /// order. Returns whether more data remains to be read, which for data
    /// held in memory is never the case.
    pub fn read<S: Strategy>(&mut self, strat: &mut S, broker: &mut CsvBroker) -> (r: bool)
        requires
            old(self).wf(),
            old(broker).wf(),
        ensures
            !r,
            *final(self) == old(self).at_bar(old(self).len_spec() as usize),
            final(broker).wf(),
            exists|ss: Seq<S>, bs: Seq<CsvBroker>|
                #[trigger] replay_of(
                    *old(strat),
                    *old(broker),
                    *old(self),
                    ss,
                    bs,
                    *final(strat),
                    *final(broker),
                ),
    {
        strat.feed(self);
        let ghost first = old(self).offset as int;
        let ghost mut ss: Seq<S> = seq![*strat];
        let ghost mut bs: Seq<CsvBroker> = seq![*broker];
        let len = self.timestamp.data.len();
        while self.offset < len
            invariant
                self.wf(),
                len == self.len_spec(),
                *self == old(self).at_bar(self.offset),
                self.offset >= first,
                broker.wf(),
                ss.len() == bs.len(),
                ss.len() == self.offset - first + 1,
                old(strat).fed(*old(self), ss[0]),
                bs[0] == *old(broker),
                ss.last() == *strat,
                bs.last() == *broker,
                forall|i: int|
                    0 <= i < ss.len() - 1 ==> #[trigger] ss[i].stepped(
                        (first + i) as usize,
                        old(self).at_bar((first + i) as usize),
                        bs[i],
                        ss[i + 1],
                        bs[i + 1],
                    ),
            decreases len - self.offset,
        {
            strat.next(self.offset, self, broker);
            proof {
                ss = ss.push(*strat);
                bs = bs.push(*broker);
            }
            self.offset = self.offset + 1;
        }
        proof {
            assert(replay_of(*old(strat), *old(broker), *old(self), ss, bs, *strat, *broker));
        }
        false
    }

    /// The value of `position_size` units at the close of the last processed bar.
    pub fn calc_position_value(&self, position_size: isize) -> (r: i128)
        requires
            self.wf(),
            1 <= self.offset,
        ensures
            r == position_size * self.close.data@[self.offset - 1],
    {
        proof {
            let c = self.close.data@[self.offset - 1] as int;
            let s = position_size as int;
            assert(-0x4000_0000_0000_0000_0000_0000_0000_0000 <= s * c <= 0x4000_0000_0000_0000_0000_0000_0000_0000)
                by (nonlinear_arith)
                requires
                    -0x8000_0000_0000_0000 <= s <= 0x8000_0000_0000_0000,
                    -0x8000_0000_0000_0000 <= c <= 0x8000_0000_0000_0000;
        }
        position_size as i128 * self.close.data[self.offset - 1] as i128
    }
}

} // verus!
