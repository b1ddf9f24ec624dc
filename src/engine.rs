//! The replay loop.
use vstd::prelude::*;
use crate::broker::CsvBroker;
use crate::source::{replay_of, CsvDataSource};
use crate::strategy::Strategy;

verus! {

/// One backtest run: the history, the strategy and the broker.
pub struct Engine<S: Strategy> {
    pub data: CsvDataSource,
    pub strategy: S,
    pub broker: CsvBroker,
}

impl<S: Strategy> Engine<S> {
    pub fn new(data: CsvDataSource, strategy: S, broker: CsvBroker) -> (r: Engine<S>)
        ensures
            r.data == data,
            r.strategy == strategy,
            r.broker == broker,
    {
        Engine { data, strategy, broker }
    }

    /// Runs the strategy over every bar once, in ascending order, between its
    /// start and finish callbacks.
    pub fn run(&mut self)
        requires
            old(self).data.wf(),
            old(self).broker.wf(),
        ensures
            final(self).data == old(self).data.at_bar(old(self).data.len_spec() as usize),
            final(self).broker.wf(),
            exists|ss: Seq<S>, bs: Seq<CsvBroker>|
                #[trigger] replay_of(
                    old(self).strategy,
                    old(self).broker,
                    old(self).data,
                    ss,
                    bs,
                    final(self).strategy,
                    final(self).broker,
                ),
    {
        self.strategy.on_start(&self.data, &self.broker);
        // Data held in memory is replayed in one read.
        let _ = self.data.read(&mut self.strategy, &mut self.broker);
        self.strategy.on_finish(&self.data, &self.broker);
    }
}

} // verus!
