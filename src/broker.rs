//! The simulated broker: fills market orders at the next bar and keeps the
//! position and the realized-profit window.
use vstd::prelude::*;
use crate::arith::{div_round, floor_div, lemma_round_div_exact, round_div, WIDE_LIMIT};
use crate::order::{Order, OrderPositionType, OrderStatus, Position, Trade, TradeStatus};
use crate::source::CsvDataSource;
use crate::strategy::Strategy;

verus! {

/// `v` keeps room for one more fill of `size` units at any `i64` price and an
/// `i64` commission without leaving the 128-bit range that the accounting uses.
pub open spec fn money_room(v: int, size: int) -> bool {
    let m = (size + 1) * 0x8000_0000_0000_0000;
    -(WIDE_LIMIT - m) <= v <= WIDE_LIMIT - m
}

/// The average entry price of a nonzero position with cost basis `basis`.
pub open spec fn avg_price(basis: int, size: int) -> int {
    if size > 0 {
        round_div(basis, size)
    } else {
        round_div(-basis, -size)
    }
}

pub open spec fn abs(v: int) -> int {
    if v < 0 {
        -v
    } else {
        v
    }
}

/// The position after a fill of signed size `deal` at price `exe`.
pub open spec fn filled_position(pos: Position, deal: int, exe: i64) -> Position {
    let pre = pos.size as int;
    let post = pre + deal;
    if pre == 0 {
        Position { size: post as isize, price: exe as i128, origin_price: exe, basis: (deal * exe) as i128 }
    } else if post == 0 {
        Position { size: 0, price: exe as i128, origin_price: exe, basis: 0 }
    } else if (pre > 0) == (post > 0) {
        let b = pos.basis + deal * exe;
        Position {
            size: post as isize,
            price: avg_price(b, post) as i128,
            origin_price: pos.origin_price,
            basis: b as i128,
        }
    } else {
        Position { size: post as isize, price: exe as i128, origin_price: exe, basis: (post * exe) as i128 }
    }
}

/// The share of a commission charged to the part of a deal that closes the
/// old position, rounded down.
pub open spec fn closing_commission(comm: int, pre: int, deal: int) -> int {
    (comm * abs(pre)) / abs(deal)
}

/// The trade after a fill, and the trade records that the fill reports, in order.
pub open spec fn filled_trade(t: Trade, pre: int, deal: int, exe: i64, comm: i64, at: i64) -> (
    Trade,
    Seq<Trade>,
) {
    let post = pre + deal;
    let flow = -(deal * exe);
    if pre == 0 {
        let o = Trade { pnl: flow as i128, pnlcomm: (flow - comm) as i128, status: TradeStatus::Open(at) };
        (o, seq![o])
    } else if post == 0 {
        let c = Trade {
            pnl: (t.pnl + flow) as i128,
            pnlcomm: (t.pnlcomm + flow - comm) as i128,
            status: TradeStatus::Closed(at),
        };
        (Trade { pnl: c.pnl, pnlcomm: c.pnlcomm, status: TradeStatus::Uninit }, seq![c])
    } else if (pre > 0) != (post > 0) {
        let cc = closing_commission(comm as int, pre, deal);
        let c = Trade {
            pnl: (t.pnl + pre * exe) as i128,
            pnlcomm: (t.pnlcomm + pre * exe - cc) as i128,
            status: TradeStatus::Closed(at),
        };
        let o = Trade {
            pnl: (-(post * exe)) as i128,
            pnlcomm: (-(post * exe) - (comm - cc)) as i128,
            status: TradeStatus::Open(at),
        };
        (o, seq![c, o])
    } else {
        (
            Trade {
                pnl: (t.pnl + flow) as i128,
                pnlcomm: (t.pnlcomm + flow - comm) as i128,
                status: t.status,
            },
            seq![],
        )
    }
}

/// A buy of `size` units is a deal of `size`, a sell of `-size`.
pub open spec fn deal_size(position_type: OrderPositionType, size: int) -> int {
    if position_type == OrderPositionType::Buy {
        size
    } else {
        -size
    }
}

/// A fill that flips the position's sign reports two trade records: the old
/// trade, closed with the part of the fill that offsets it, then a new trade,
/// opened with the rest, which stays open. The gross cash flow of the fill is
/// split exactly in proportion to the units that close and the units that
/// open, and the two parts of each flow add up to the whole.
pub proof fn lemma_flip_splits_fill(t: Trade, pre: int, deal: int, exe: i64, comm: i64, at: i64)
    requires
        pre != 0,
        pre + deal != 0,
        (pre > 0) != (pre + deal > 0),
        0 <= comm,
        abs(deal) <= isize::MAX,
        money_room(t.pnl as int, abs(deal)),
        money_room(t.pnlcomm as int, abs(deal)),
    ensures
        ({
            let (nt, ev) = filled_trade(t, pre, deal, exe, comm, at);
            let flow = -(deal * exe);
            &&& ev.len() == 2
            &&& ev[0].status == TradeStatus::Closed(at)
            &&& ev[1].status == TradeStatus::Open(at)
            &&& nt == ev[1]
            &&& (ev[0].pnl - t.pnl) * abs(deal) == flow * abs(pre)
            &&& ev[1].pnl * abs(deal) == flow * abs(pre + deal)
            &&& (ev[0].pnl - t.pnl) + ev[1].pnl == flow
            &&& (ev[0].pnlcomm - t.pnlcomm) + ev[1].pnlcomm == flow - comm
        }),
{
    let post = pre + deal;
    lemma_deal_bound(pre, exe as int);
    lemma_deal_bound(post, exe as int);
    assert(abs(pre) <= abs(deal));
    assert(abs(post) <= abs(deal));
    assert(abs(pre) * 0x8000_0000_0000_0000 <= abs(deal) * 0x8000_0000_0000_0000) by (nonlinear_arith)
        requires abs(pre) <= abs(deal);
    assert(abs(post) * 0x8000_0000_0000_0000 <= abs(deal) * 0x8000_0000_0000_0000) by (nonlinear_arith)
        requires abs(post) <= abs(deal);
    let cc = closing_commission(comm as int, pre, deal);
    assert(0 <= cc <= comm) by {
        assert((comm as int) * abs(pre) <= (comm as int) * abs(deal)) by (nonlinear_arith)
            requires 0 <= comm, abs(pre) <= abs(deal);
        vstd::arithmetic::div_mod::lemma_div_is_ordered((comm as int) * abs(pre), (comm as int) * abs(deal), abs(deal));
        vstd::arithmetic::div_mod::lemma_div_multiples_vanish(comm as int, abs(deal));
        vstd::arithmetic::div_mod::lemma_div_pos_is_pos((comm as int) * abs(pre), abs(deal));
    }
    let e = exe as int;
    if pre > 0 {
        assert((pre * e) * abs(deal) == -(deal * e) * abs(pre)) by (nonlinear_arith)
            requires pre > 0, deal < 0;
        assert(-(post * e) * abs(deal) == -(deal * e) * abs(post)) by (nonlinear_arith)
            requires post < 0, deal < 0;
    } else {
        assert((pre * e) * abs(deal) == -(deal * e) * abs(pre)) by (nonlinear_arith)
            requires pre < 0, deal > 0;
        assert(-(post * e) * abs(deal) == -(deal * e) * abs(post)) by (nonlinear_arith)
            requires post > 0, deal > 0;
    }
    assert(pre * e - post * e == -(deal * e)) by (nonlinear_arith)
        requires post == pre + deal;
}

proof fn lemma_deal_bound(deal: int, exe: int)
    requires
        -0x8000_0000_0000_0000 <= exe < 0x8000_0000_0000_0000,
    ensures
        -(abs(deal) * 0x8000_0000_0000_0000) <= deal * exe <= abs(deal) * 0x8000_0000_0000_0000,
{
    if deal >= 0 {
        assert(-(deal * 0x8000_0000_0000_0000) <= deal * exe <= deal * 0x8000_0000_0000_0000)
            by (nonlinear_arith)
            requires deal >= 0, -0x8000_0000_0000_0000 <= exe < 0x8000_0000_0000_0000;
    } else {
        assert(-((-deal) * 0x8000_0000_0000_0000) <= deal * exe <= (-deal) * 0x8000_0000_0000_0000)
            by (nonlinear_arith)
            requires deal < 0, -0x8000_0000_0000_0000 <= exe < 0x8000_0000_0000_0000;
    }
}

fn fill_position(pos: &Position, deal: isize, exe: i64) -> (r: Position)
    requires
        deal != 0,
        isize::MIN <= pos.size + deal <= isize::MAX,
        money_room(pos.basis as int, abs(deal as int)),
    ensures
        r == filled_position(*pos, deal as int, exe),
        r.size == 0 ==> r.basis == 0,
        r.size != 0 ==> r.price == avg_price(r.basis as int, r.size as int),
{
    let pre = pos.size;
    let post = pre + deal;
    proof {
        if post > 0 {
            lemma_round_div_exact(post as int, exe as int);
        } else if post < 0 {
            lemma_round_div_exact(-post, exe as int);
            assert(-((post as int) * exe) == (-post) * exe) by (nonlinear_arith);
        }
        lemma_deal_bound(deal as int, exe as int);
        lemma_deal_bound(post as int, exe as int);
        assert(abs(deal as int) * 0x8000_0000_0000_0000 <= WIDE_LIMIT);
    }
    if pre == 0 {
        Position { size: post, price: exe as i128, origin_price: exe, basis: deal as i128 * exe as i128 }
    } else if post == 0 {
        Position { size: 0, price: exe as i128, origin_price: exe, basis: 0 }
    } else if (pre > 0) == (post > 0) {
        let b = pos.basis + deal as i128 * exe as i128;
        let price = if post > 0 {
            div_round(b, post as i128)
        } else {
            div_round(-b, -(post as i128))
        };
        Position { size: post, price, origin_price: pos.origin_price, basis: b }
    } else {
        proof {
            assert(abs(post as int) <= abs(deal as int));
            assert(abs(post as int) * 0x8000_0000_0000_0000 <= abs(deal as int) * 0x8000_0000_0000_0000)
                by (nonlinear_arith)
                requires abs(post as int) <= abs(deal as int);
        }
        Position { size: post, price: exe as i128, origin_price: exe, basis: post as i128 * exe as i128 }
    }
}

/// Cash, the net position and the open trade of a single-asset account.
pub struct CsvBroker {
    pub cash: i128,
    pub position: Position,
    pub trade: Trade,
}

impl CsvBroker {
    pub fn new(cash: i128) -> (r: CsvBroker)
        ensures
            r.wf(),
            r.cash == cash,
            r.position == (Position { size: 0, price: 0, origin_price: 0, basis: 0 }),
            r.trade == (Trade { pnl: 0, pnlcomm: 0, status: TradeStatus::Uninit }),
    {
        CsvBroker { cash, position: Position::new(), trade: Trade::new() }
    }

    /// A trade is open exactly while the position is not flat, and the
    /// average price is the rounded quotient of the cost basis by the size.
    pub open spec fn wf(&self) -> bool {
        &&& self.position.size == 0 ==> self.trade.status == TradeStatus::Uninit
            && self.position.basis == 0
        &&& self.position.size != 0 ==> self.trade.status is Open && self.position.price
            == avg_price(self.position.basis as int, self.position.size as int)
    }

    /// There is room for one more fill of `size` units.
    pub open spec fn can_fill(&self, size: int) -> bool {
        &&& money_room(self.cash as int, size)
        &&& money_room(self.position.basis as int, size)
        &&& money_room(self.trade.pnl as int, size)
        &&& money_room(self.trade.pnlcomm as int, size)
        &&& isize::MIN <= self.position.size - size
        &&& self.position.size + size <= isize::MAX
    }

    /// The cash left.
    pub fn cash(&self) -> (r: i128)
        ensures
            r == self.cash,
    {
        self.cash
    }

    /// The signed size of the position.
    pub fn position_size(&self) -> (r: isize)
        ensures
            r == self.position.size,
    {
        self.position.size
    }

    pub fn position(&self) -> (r: &Position)
        ensures
            *r == self.position,
    {
        &self.position
    }

    /// Whether the position is flat.
    pub fn is_position_empty(&self) -> (r: bool)
        ensures
            r == (self.position.size == 0),
    {
        self.position.size == 0
    }

    pub fn trade(&self) -> (r: &Trade)
        ensures
            *r == self.trade,
    {
        &self.trade
    }

    /// What a completed order of `size` units in direction `position_type`,
    /// placed at the current bar of `data` with commissions by `strat`, leaves
    /// in the broker, and the trade records that it reports, in order.
    pub open spec fn after_fill<S: Strategy>(
        old_b: CsvBroker,
        new_b: CsvBroker,
        order: Order,
        events: Seq<Trade>,
        position_type: OrderPositionType,
        size: isize,
        data: CsvDataSource,
        strat: S,
    ) -> bool {
        let deal = deal_size(position_type, size as int);
        let exe = data.fill_price();
        let at = data.fill_time();
        &&& order.position_type == position_type
        &&& order.size == size
        &&& order.exe_size == size
        &&& order.exe_price == exe
        &&& order.cost == deal * exe
        &&& order.comm == strat.commission(size, exe)
        &&& order.comm >= 0
        &&& order.status == OrderStatus::Completed(at)
        &&& order.completed_at == Some(at)
        &&& order.created_at == data.timestamp.data@[data.offset as int]
        &&& new_b.cash == old_b.cash - deal * exe - order.comm
        &&& new_b.position == filled_position(old_b.position, deal, exe)
        &&& new_b.trade == filled_trade(
            old_b.trade,
            old_b.position.size as int,
            deal,
            exe,
            order.comm,
            at,
        ).0
        &&& events == filled_trade(old_b.trade, old_b.position.size as int, deal, exe, order.comm, at).1
        &&& new_b.wf()
    }

    /// Buys `size` units at the next bar's open (the current close at the last bar).
    /// Returns the completed order and the trade records reported, in order.
    pub fn buy<S: Strategy>(&mut self, size: isize, data: &CsvDataSource, strat: &S) -> (r: (
        Order,
        Vec<Trade>,
    ))
        requires
            size > 0,
            old(self).wf(),
            old(self).can_fill(size as int),
            data.wf(),
            data.offset < data.len_spec(),
        ensures
            CsvBroker::after_fill(
                *old(self),
                *final(self),
                r.0,
                r.1@,
                OrderPositionType::Buy,
                size,
                *data,
                *strat,
            ),
    {
        let order = Order::buy(size, data.timestamp.data[data.offset]);
        self.submit_order(order, data, strat)
    }

    /// Sells `size` units at the next bar's open (the current close at the last bar).
    /// Returns the completed order and the trade records reported, in order.
    pub fn sell<S: Strategy>(&mut self, size: isize, data: &CsvDataSource, strat: &S) -> (r: (
        Order,
        Vec<Trade>,
    ))
        requires
            size > 0,
            old(self).wf(),
            old(self).can_fill(size as int),
            data.wf(),
            data.offset < data.len_spec(),
        ensures
            CsvBroker::after_fill(
                *old(self),
                *final(self),
                r.0,
                r.1@,
                OrderPositionType::Sell,
                size,
                *data,
                *strat,
            ),
    {
        let order = Order::sell(size, data.timestamp.data[data.offset]);
        self.submit_order(order, data, strat)
    }

    fn submit_order<S: Strategy>(&mut self, order: Order, data: &CsvDataSource, strat: &S) -> (r: (
        Order,
        Vec<Trade>,
    ))
        requires
            data.wf(),
            data.offset < data.len_spec(),
            order.size > 0,
            order.status == OrderStatus::Created,
            order.created_at == data.timestamp.data@[data.offset as int],
            order.completed_at == None::<i64>,
            old(self).wf(),
            old(self).can_fill(order.size as int),
        ensures
            CsvBroker::after_fill(
                *old(self),
                *final(self),
                r.0,
                r.1@,
                order.position_type,
                order.size,
                *data,
                *strat,
            ),
    {
        let mut order = order;
        let next = data.offset + 1;
        let exe_price = if next < data.open.data.len() {
            data.open.data[next]
        } else {
            data.close.data[data.offset]
        };
        let exe_time = if next < data.timestamp.data.len() {
            data.timestamp.data[next]
        } else {
            data.timestamp.data[data.offset]
        };
        order.exe_price = exe_price;
        order.exe_size = order.size;
        let events = self.complete_order(&mut order, strat, exe_time);
        (order, events)
    }

    /// Settles a filled order: cash, position, then the trade window, with the
    /// notifications to the strategy. Returns the trade records reported.
    fn complete_order<S: Strategy>(&mut self, order: &mut Order, strat: &S, completed_at: i64) -> (events: Vec<Trade>)
        requires
            old(order).exe_size > 0,
            old(self).wf(),
            old(self).can_fill(old(order).exe_size as int),
        ensures
            ({
                let deal = deal_size(old(order).position_type, old(order).exe_size as int);
                let exe = old(order).exe_price;
                let ft = filled_trade(
                    old(self).trade,
                    old(self).position.size as int,
                    deal,
                    exe,
                    final(order).comm,
                    completed_at,
                );
                &&& *final(order) == (Order {
                    cost: (deal * exe) as i128,
                    comm: final(order).comm,
                    status: OrderStatus::Completed(completed_at),
                    completed_at: Some(completed_at),
                    ..*old(order)
                })
                &&& final(order).cost == deal * exe
                &&& final(order).comm == strat.commission(old(order).exe_size, exe)
                &&& final(order).comm >= 0
                &&& final(self).cash == old(self).cash - deal * exe - final(order).comm
                &&& final(self).position == filled_position(old(self).position, deal, exe)
                &&& final(self).trade == ft.0
                &&& events@ == ft.1
                &&& final(self).wf()
            }),
    {
        let exe_price = order.exe_price;
        let exe_size = order.exe_size;
        let deal: isize = if order.is_buy() { exe_size } else { -exe_size };
        proof {
            lemma_deal_bound(deal as int, exe_price as int);
        }
        order.cost = deal as i128 * exe_price as i128;
        self.cash = self.cash - order.cost;
        let comm = strat.calc_commission(exe_size, exe_price);
        order.comm = comm;
        self.cash = self.cash - comm as i128;
        let pre = self.position.size;
        self.position = fill_position(&self.position, deal, exe_price);
        let post = self.position.size;
        order.status = OrderStatus::Completed(completed_at);
        order.completed_at = Some(completed_at);
        strat.on_order(order, self);

        let flow: i128 = -order.cost;
        let netflow: i128 = flow - comm as i128;
        let mut events: Vec<Trade> = Vec::new();
        if pre == 0 {
            self.trade = Trade { pnl: flow, pnlcomm: netflow, status: TradeStatus::Open(completed_at) };
            events.push(self.trade);
            strat.on_trade(&self.trade, self);
        } else if post == 0 {
            self.trade = Trade {
                pnl: self.trade.pnl + flow,
                pnlcomm: self.trade.pnlcomm + netflow,
                status: TradeStatus::Closed(completed_at),
            };
            events.push(self.trade);
            strat.on_trade(&self.trade, self);
            self.trade.status = TradeStatus::Uninit;
        } else if (pre > 0) != (post > 0) {
            let pre_abs: i128 = if pre < 0 { -(pre as i128) } else { pre as i128 };
            let deal_abs: i128 = exe_size as i128;
            proof {
                lemma_deal_bound(pre as int, exe_price as int);
                lemma_deal_bound(post as int, exe_price as int);
                assert(abs(pre as int) <= abs(deal as int));
                assert(abs(post as int) <= abs(deal as int));
                assert(abs(pre as int) * 0x8000_0000_0000_0000 <= abs(deal as int) * 0x8000_0000_0000_0000)
                    by (nonlinear_arith)
                    requires abs(pre as int) <= abs(deal as int);
                assert(abs(post as int) * 0x8000_0000_0000_0000 <= abs(deal as int) * 0x8000_0000_0000_0000)
                    by (nonlinear_arith)
                    requires abs(post as int) <= abs(deal as int);
                assert(0 <= (comm as int) * pre_abs <= 0x8000_0000_0000_0000 * 0x8000_0000_0000_0000)
                    by (nonlinear_arith)
                    requires 0 <= comm < 0x8000_0000_0000_0000, 0 <= pre_abs <= 0x8000_0000_0000_0000;
                assert(0 <= ((comm as int) * pre_abs) / (deal_abs as int) <= comm) by {
                    assert((comm as int) * pre_abs <= (comm as int) * deal_abs) by (nonlinear_arith)
                        requires 0 <= comm, pre_abs <= deal_abs;
                    vstd::arithmetic::div_mod::lemma_div_is_ordered((comm as int) * pre_abs, (comm as int) * deal_abs, deal_abs as int);
                    vstd::arithmetic::div_mod::lemma_div_multiples_vanish(comm as int, deal_abs as int);
                    vstd::arithmetic::div_mod::lemma_div_pos_is_pos((comm as int) * pre_abs, deal_abs as int);
                }
            }
            let close_comm = floor_div(comm as i128 * pre_abs, deal_abs);
            let close_flow = pre as i128 * exe_price as i128;
            let open_flow = -(post as i128 * exe_price as i128);
            self.trade = Trade {
                pnl: self.trade.pnl + close_flow,
                pnlcomm: self.trade.pnlcomm + close_flow - close_comm,
                status: TradeStatus::Closed(completed_at),
            };
            events.push(self.trade);
            strat.on_trade(&self.trade, self);
            self.trade = Trade {
                pnl: open_flow,
                pnlcomm: open_flow - (comm as i128 - close_comm),
                status: TradeStatus::Open(completed_at),
            };
            events.push(self.trade);
            strat.on_trade(&self.trade, self);
        } else {
            self.trade.pnl = self.trade.pnl + flow;
            self.trade.pnlcomm = self.trade.pnlcomm + netflow;
        }
        proof {
            let ft = filled_trade(
                old(self).trade,
                old(self).position.size as int,
                deal as int,
                exe_price,
                comm,
                completed_at,
            );
            assert(events@ =~= ft.1);
        }
        events
    }
}

} // verus!
