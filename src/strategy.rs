//! The interface that a trading strategy implements.
use vstd::prelude::*;
use crate::broker::CsvBroker;
use crate::order::{Order, Trade};
use crate::source::CsvDataSource;

verus! {

/// A trading strategy, driven bar by bar by the engine.
pub trait Strategy: Sized {
    /// What feeding `data` does to the strategy: `after` is its state afterwards.
    spec fn fed(&self, data: CsvDataSource, after: Self) -> bool;

    /// What deciding at bar `index` of `data` does: the strategy goes to
    /// `after` and the broker from `broker` to `broker_after`.
    spec fn stepped(
        &self,
        index: usize,
        data: CsvDataSource,
        broker: CsvBroker,
        after: Self,
        broker_after: CsvBroker,
    ) -> bool;

    /// The commission for a fill of `size` units at `price`.
    spec fn commission(&self, size: isize, price: i64) -> i64;

    /// Computes the strategy's indicators over the whole history, once per run.
    fn feed(&mut self, data: &CsvDataSource)
        ensures
            old(self).fed(*data, *final(self)),
    ;

    /// Decides at bar `index`; orders placed here fill at the next bar.
    fn next(&mut self, index: usize, data: &CsvDataSource, broker: &mut CsvBroker)
        requires
            data.wf(),
            index == data.offset,
            index < data.len_spec(),
            old(broker).wf(),
        ensures
            final(broker).wf(),
            old(self).stepped(index, *data, *old(broker), *final(self), *final(broker)),
    ;

    /// The commission for a fill of `size` units at `price`; never negative.
    fn calc_commission(&self, size: isize, price: i64) -> (r: i64)
        ensures
            r == self.commission(size, price),
            r >= 0,
    ;

    /// Called once for every completed order.
    fn on_order(&self, order: &Order, broker: &CsvBroker) {
    }

    /// Called when a trade opens or closes.
    fn on_trade(&self, trade: &Trade, broker: &CsvBroker) {
    }

    fn on_start(&self, data: &CsvDataSource, broker: &CsvBroker) {
    }

    fn on_finish(&self, data: &CsvDataSource, broker: &CsvBroker) {
    }
}

} // verus!
