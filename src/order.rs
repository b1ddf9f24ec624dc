//! Orders, positions and trades: the records that the broker keeps and reports.
use vstd::prelude::*;

verus! {

/// How an order is executed: only market orders exist.
#[derive(Clone, Copy, Debug, PartialEq, Eq, Structural)]
pub enum OrderType {
    Market,
}

/// The direction of an order.
#[derive(Clone, Copy, Debug, PartialEq, Eq, Structural)]
pub enum OrderPositionType {
    Buy,
    Sell,
}

/// An order is created, then completed at a time (milliseconds since the Unix epoch, UTC).
#[derive(Clone, Copy, Debug, PartialEq, Eq, Structural)]
pub enum OrderStatus {
    Created,
    Completed(i64),
}

/// One order and, once completed, its fill.
#[derive(Clone, Copy, Debug)]
pub struct Order {
    pub ordertype: OrderType,
    pub position_type: OrderPositionType,
    /// Requested size, in whole units.
    pub size: isize,
    pub status: OrderStatus,
    /// Executed size, in whole units.
    pub exe_size: isize,
    /// Commission charged for the fill.
    pub comm: i64,
    /// Execution price, in price units.
    pub exe_price: i64,
    /// Signed deal size times execution price: positive for a buy.
    pub cost: i128,
    pub created_at: i64,
    pub completed_at: Option<i64>,
}

impl Order {
    pub(crate) fn new(size: isize, position_type: OrderPositionType, created_at: i64) -> (r: Order)
        ensures
            r == (Order {
                ordertype: OrderType::Market,
                position_type,
                size,
                status: OrderStatus::Created,
                exe_size: 0,
                comm: 0,
                exe_price: 0,
                cost: 0,
                created_at,
                completed_at: None,
            }),
    {
        Order {
            ordertype: OrderType::Market,
            position_type,
            size,
            status: OrderStatus::Created,
            exe_size: 0,
            comm: 0,
            exe_price: 0,
            cost: 0,
            created_at,
            completed_at: None,
        }
    }

    pub(crate) fn buy(size: isize, created_at: i64) -> (r: Order)
        ensures
            r == Order::new_spec(size, OrderPositionType::Buy, created_at),
    {
        Order::new(size, OrderPositionType::Buy, created_at)
    }

    pub(crate) fn sell(size: isize, created_at: i64) -> (r: Order)
        ensures
            r == Order::new_spec(size, OrderPositionType::Sell, created_at),
    {
        Order::new(size, OrderPositionType::Sell, created_at)
    }

    pub open spec fn new_spec(size: isize, position_type: OrderPositionType, created_at: i64) -> Order {
        Order {
            ordertype: OrderType::Market,
            position_type,
            size,
            status: OrderStatus::Created,
            exe_size: 0,
            comm: 0,
            exe_price: 0,
            cost: 0,
            created_at,
            completed_at: None,
        }
    }

    /// Whether this is a buy order; `false` means a sell order.
    pub fn is_buy(&self) -> (r: bool)
        ensures
            r == (self.position_type == OrderPositionType::Buy),
    {
        match self.position_type {
            OrderPositionType::Buy => true,
            OrderPositionType::Sell => false,
        }
    }
}

/// The net position: signed size (positive long, negative short), its average
/// entry price, the price at which the current direction was opened, and the
/// exact cost basis (sum of signed deal size times price since it was opened).
#[derive(Clone, Copy, Debug)]
pub struct Position {
    pub size: isize,
    pub price: i128,
    pub origin_price: i64,
    pub basis: i128,
}

impl Position {
    pub fn new() -> (r: Position)
        ensures
            r == (Position { size: 0, price: 0, origin_price: 0, basis: 0 }),
    {
        Position { size: 0, price: 0, origin_price: 0, basis: 0 }
    }

    /// A line that describes the position.
    pub fn describe(&self) -> String {
        format_position(self)
    }
}

impl Default for Position {
    fn default() -> (r: Position)
        ensures
            r == (Position { size: 0, price: 0, origin_price: 0, basis: 0 }),
    {
        Position::new()
    }
}

/// Relies on std's formatting of integers: renders the three reported fields.
#[verifier::external_body]
fn format_position(p: &Position) -> String {
    format!("size: {}, price: {}, origin_price: {}", p.size, p.price, p.origin_price)
}

/// The state of the realized-profit window; times are milliseconds since the Unix epoch, UTC.
#[derive(Clone, Copy, Debug, PartialEq, Eq, Structural)]
pub enum TradeStatus {
    Open(i64),
    Closed(i64),
    Uninit,
}

/// The realized-profit window of a position from flat to flat: cash flows
/// gross and net of commission.
#[derive(Clone, Copy, Debug)]
pub struct Trade {
    pub pnl: i128,
    pub pnlcomm: i128,
    pub status: TradeStatus,
}

impl Trade {
    pub(crate) fn new() -> (r: Trade)
        ensures
            r == (Trade { pnl: 0, pnlcomm: 0, status: TradeStatus::Uninit }),
    {
        Trade { status: TradeStatus::Uninit, pnl: 0, pnlcomm: 0 }
    }
}

} // verus!
