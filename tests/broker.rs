use std::cell::{Cell, RefCell};

use rushtrader::{
    get_column_indexies, parse_time_field, ConfigError, CsvBroker, CsvDataSource, CsvDataSourceBuilder, CsvTimeType,
    Engine, Order, OrderPositionType, OrderStatus, Position, Strategy, TimeFieldError, Trade,
    TradeStatus,
};

/// A strategy that places no orders of its own and records what it is told.
struct Recorder {
    fee_per_unit: i64,
    trades: RefCell<Vec<Trade>>,
    orders: Cell<usize>,
}

impl Recorder {
    fn new(fee_per_unit: i64) -> Self {
        Recorder { fee_per_unit, trades: RefCell::new(Vec::new()), orders: Cell::new(0) }
    }
}

impl Strategy for Recorder {
    fn fed(&self, _data: CsvDataSource, _after: Self) -> bool {
        true
    }

    fn stepped(
        &self,
        _index: usize,
        _data: CsvDataSource,
        _broker: CsvBroker,
        _after: Self,
        _broker_after: CsvBroker,
    ) -> bool {
        true
    }

    fn commission(&self, size: isize, price: i64) -> i64 {
        self.calc_commission(size, price)
    }

    fn feed(&mut self, _data: &CsvDataSource) {}

    fn next(&mut self, _index: usize, _data: &CsvDataSource, _broker: &mut CsvBroker) {}

    fn calc_commission(&self, size: isize, _price: i64) -> i64 {
        self.fee_per_unit * size.abs() as i64
    }

    fn on_order(&self, _order: &Order, _broker: &CsvBroker) {
        self.orders.set(self.orders.get() + 1);
    }

    fn on_trade(&self, trade: &Trade, _broker: &CsvBroker) {
        self.trades.borrow_mut().push(*trade);
    }
}

/// Bars whose opens and closes are given; times are 1000, 2000, ...
fn bars(open: Vec<i64>, close: Vec<i64>) -> CsvDataSource {
    let times = (1..=open.len() as i64).map(|t| t * 1000).collect();
    CsvDataSource::new(times, open, close)
}

#[test]
fn average_price_of_two_buys() {
    // prices in units of 1e-3
    let mut data = bars(vec![10_000, 10_000, 12_000], vec![10_000, 10_000, 12_000]);
    let strat = Recorder::new(0);
    let mut broker = CsvBroker::new(10_000_000);
    data.offset = 0;
    broker.buy(100, &data, &strat);
    data.offset = 1;
    broker.buy(50, &data, &strat);
    let p: &Position = broker.position();
    assert_eq!(p.size, 150);
    assert_eq!(p.basis, 100 * 10_000 + 50 * 12_000);
    assert_eq!(p.price, 10_667);
    assert_eq!(p.origin_price, 10_000);
    assert_eq!(broker.cash(), 10_000_000 - 1_600_000);
    // one trade opened, none closed
    assert_eq!(strat.trades.borrow().len(), 1);
    assert_eq!(strat.orders.get(), 2);
}

#[test]
fn sign_flip_closes_and_reopens() {
    let mut data = bars(vec![10, 10, 12], vec![10, 10, 12]);
    let strat = Recorder::new(0);
    let mut broker = CsvBroker::new(0);
    data.offset = 0;
    broker.buy(100, &data, &strat);
    assert_eq!(strat.trades.borrow().len(), 1);
    data.offset = 1;
    let (order, events) = broker.sell(150, &data, &strat);
    assert_eq!(order.exe_price, 12);
    assert_eq!(order.cost, -1800);
    assert_eq!(events.len(), 2);
    assert_eq!(events[0].status, TradeStatus::Closed(3000));
    assert_eq!(events[0].pnl, 200);
    assert_eq!(events[1].status, TradeStatus::Open(3000));
    assert_eq!(events[1].pnl, 600);
    let p = broker.position();
    assert_eq!(p.size, -50);
    assert_eq!(p.price, 12);
    assert_eq!(p.origin_price, 12);
    let trades = strat.trades.borrow();
    assert_eq!(trades.len(), 3);
    // closing share: 100 of 150 units of the 1800 received
    assert_eq!(trades[1].status, TradeStatus::Closed(3000));
    assert_eq!(trades[1].pnl, -1000 + 1200);
    // opening share: the other 50 units
    assert_eq!(trades[2].status, TradeStatus::Open(3000));
    assert_eq!(trades[2].pnl, 600);
    assert_eq!(broker.trade().status, TradeStatus::Open(3000));
    assert_eq!(broker.trade().pnl, 600);
}

#[test]
fn sign_flip_splits_commission() {
    let mut data = bars(vec![10, 10, 12], vec![10, 10, 12]);
    let strat = Recorder::new(1);
    let mut broker = CsvBroker::new(0);
    data.offset = 0;
    broker.buy(100, &data, &strat);
    data.offset = 1;
    let (order, _) = broker.sell(150, &data, &strat);
    assert_eq!(order.comm, 150);
    let trades = strat.trades.borrow();
    assert_eq!(trades[0].pnlcomm, -1000 - 100);
    // 100 of the 150 commission goes with the closing share
    assert_eq!(trades[1].pnlcomm, -1100 + 1200 - 100);
    assert_eq!(trades[2].pnlcomm, 600 - 50);
    assert_eq!(broker.cash(), -1000 - 100 + 1800 - 150);
}

#[test]
fn closing_to_flat_resets_trade() {
    let mut data = bars(vec![10, 10, 15], vec![10, 10, 15]);
    let strat = Recorder::new(0);
    let mut broker = CsvBroker::new(0);
    data.offset = 0;
    broker.sell(20, &data, &strat);
    data.offset = 1;
    let (_, events) = broker.buy(20, &data, &strat);
    assert_eq!(events.len(), 1);
    assert!(broker.is_position_empty());
    // landing on flat resets both prices to the fill price
    assert_eq!(broker.position().price, 15);
    assert_eq!(broker.position().origin_price, 15);
    assert_eq!(broker.position().basis, 0);
    assert_eq!(broker.position_size(), 0);
    let trades = strat.trades.borrow();
    assert_eq!(trades.len(), 2);
    assert_eq!(trades[1].status, TradeStatus::Closed(3000));
    assert_eq!(trades[1].pnl, 200 - 300);
    assert_eq!(broker.trade().status, TradeStatus::Uninit);
}

#[test]
fn extending_position_emits_no_trade_event() {
    let mut data = bars(vec![10, 11, 12, 13], vec![10, 11, 12, 13]);
    let strat = Recorder::new(0);
    let mut broker = CsvBroker::new(0);
    data.offset = 0;
    broker.buy(10, &data, &strat);
    data.offset = 1;
    broker.buy(10, &data, &strat);
    data.offset = 2;
    let (_, events) = broker.sell(5, &data, &strat);
    assert!(events.is_empty());
    assert_eq!(strat.trades.borrow().len(), 1);
    assert_eq!(broker.trade().pnl, -110 - 120 + 65);
    assert_eq!(broker.position().size, 15);
    // basis 110 + 120 - 65 over 15 units
    assert_eq!(broker.position().price, 11);
}

#[test]
fn fills_at_next_open_or_last_close() {
    let mut data = bars(vec![100, 200, 300], vec![150, 250, 350]);
    let strat = Recorder::new(0);
    let mut broker = CsvBroker::new(0);
    data.offset = 0;
    let (order, _) = broker.buy(1, &data, &strat);
    assert_eq!(order.exe_price, 200);
    assert_eq!(order.created_at, 1000);
    assert_eq!(order.status, OrderStatus::Completed(2000));
    assert_eq!(order.completed_at, Some(2000));
    assert_eq!(order.position_type, OrderPositionType::Buy);
    assert!(order.is_buy());
    data.offset = 2;
    let (order, _) = broker.sell(1, &data, &strat);
    assert_eq!(order.exe_price, 350);
    assert_eq!(order.status, OrderStatus::Completed(3000));
    assert!(!order.is_buy());
}

#[test]
fn position_value_at_last_close() {
    let mut data = bars(vec![1, 2, 3], vec![4, 5, 6]);
    data.offset = 2;
    assert_eq!(data.calc_position_value(-3), -15);
}

#[test]
fn position_description() {
    let p = Position::new();
    assert_eq!(p.describe(), "size: 0, price: 0, origin_price: 0");
}

/// Buys one unit at every bar and records the indices it was called with.
struct Stepper {
    seen: Vec<usize>,
    started: Cell<bool>,
    finished: Cell<bool>,
    fed: bool,
}

impl Strategy for Stepper {
    fn fed(&self, _data: CsvDataSource, _after: Self) -> bool {
        true
    }

    fn stepped(
        &self,
        _index: usize,
        _data: CsvDataSource,
        _broker: CsvBroker,
        _after: Self,
        _broker_after: CsvBroker,
    ) -> bool {
        true
    }

    fn commission(&self, size: isize, price: i64) -> i64 {
        self.calc_commission(size, price)
    }

    fn feed(&mut self, _data: &CsvDataSource) {
        self.fed = true;
    }

    fn next(&mut self, index: usize, data: &CsvDataSource, broker: &mut CsvBroker) {
        self.seen.push(index);
        broker.buy(1, data, self);
    }

    fn calc_commission(&self, _size: isize, _price: i64) -> i64 {
        0
    }

    fn on_start(&self, _data: &CsvDataSource, _broker: &CsvBroker) {
        self.started.set(true);
    }

    fn on_finish(&self, _data: &CsvDataSource, _broker: &CsvBroker) {
        self.finished.set(true);
    }
}

#[test]
fn engine_visits_every_bar_in_order() {
    let data = bars(vec![1, 2, 3, 4], vec![5, 6, 7, 8]);
    let strat = Stepper { seen: Vec::new(), started: Cell::new(false), finished: Cell::new(false), fed: false };
    let mut engine = Engine::new(data, strat, CsvBroker::new(0));
    engine.run();
    assert_eq!(engine.strategy.seen, vec![0, 1, 2, 3]);
    assert!(engine.strategy.started.get());
    assert!(engine.strategy.finished.get());
    assert!(engine.strategy.fed);
    // fills at the next opens 2, 3, 4, then the last close 8
    assert_eq!(engine.broker.cash(), -(2 + 3 + 4 + 8));
    assert_eq!(engine.broker.position_size(), 4);
    assert_eq!(engine.data.offset, 4);
}

#[test]
fn config_needs_time_field_and_type() {
    let b = CsvDataSource::builder();
    assert_eq!(b.check_config(), Err(ConfigError::TimeFieldMissing));
    let b = b.time_field("Date");
    assert_eq!(b.time_field, "date");
    assert_eq!(b.check_config(), Err(ConfigError::TimeTypeMissing));
    let b = b.time_type(CsvTimeType::Date("%Y-%m-%d"));
    assert_eq!(b.check_config(), Ok(()));
}

#[test]
fn header_columns_are_trimmed_and_case_blind() {
    let b = CsvDataSourceBuilder::new().time_field("DATE").time_type(CsvTimeType::Second);
    let idx = get_column_indexies(&b, "Date, Open ,High,Low,CLOSE,Adj Close,Volume").unwrap();
    assert_eq!(
        idx,
        vec![Some(0), Some(1), Some(4), Some(2), Some(3), Some(6), None, Some(5)]
    );
    let b = b.close_field("Adj Close");
    let idx = get_column_indexies(&b, "date,open,close,adj close").unwrap();
    assert_eq!(idx[2], Some(3));
    assert_eq!(idx[7], None);
}

#[test]
fn header_without_time_column_is_refused() {
    let b = CsvDataSourceBuilder::new().time_field("time").time_type(CsvTimeType::Second);
    assert_eq!(get_column_indexies(&b, "date,open,close"), Err(ConfigError::TimestampColumnMissing));
}

#[test]
fn time_cells_in_each_form() {
    assert_eq!(parse_time_field(&CsvTimeType::Millsecond, "1500"), Ok(1500));
    assert_eq!(parse_time_field(&CsvTimeType::Second, "2"), Ok(2000));
    assert_eq!(parse_time_field(&CsvTimeType::Second, "-3"), Ok(-3000));
    assert_eq!(
        parse_time_field(&CsvTimeType::Date("%Y-%m-%d"), "1970-01-02"),
        Ok(86_400_000)
    );
    assert_eq!(
        parse_time_field(&CsvTimeType::Datetime("%Y-%m-%d %H:%M:%S"), "1970-01-01 00:00:01"),
        Ok(1000)
    );
    assert_eq!(parse_time_field(&CsvTimeType::Millsecond, "abc"), Err(TimeFieldError::Invalid));
    assert_eq!(
        parse_time_field(&CsvTimeType::Date("%Y-%m-%d"), "02/01/1970"),
        Err(TimeFieldError::Invalid)
    );
    assert_eq!(
        parse_time_field(&CsvTimeType::Second, "9223372036854776"),
        Err(TimeFieldError::OutOfRange)
    );
}
