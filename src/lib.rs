//! A single-asset, bar-by-bar backtesting library.
//!
//! Prices and indicator values are integers in a caller-chosen price unit
//! (for example 1e-8 of a currency unit); order sizes are whole units.
//! Indicators track which prefix of their output is meaningful; the broker
//! fills market orders at the next bar's open and keeps a net position with
//! an exact cost basis and a realized profit-and-loss window.

pub mod arith;
pub mod broker;
pub mod builder;
pub mod cross_over;
pub mod ema;
pub mod engine;
pub mod extrema;
pub mod line;
pub mod mom;
pub mod order;
pub mod slope;
pub mod source;
pub mod sma;
pub mod strategy;
pub mod timefield;
pub mod window;

pub use broker::CsvBroker;
pub use builder::{get_column_indexies, ConfigError, CsvDataSourceBuilder, CsvTimeType};
pub use cross_over::CrossOverIndicator;
pub use ema::EMAIndicator;
pub use engine::Engine;
pub use extrema::{MaxIndicator, MinIndicator};
pub use line::{get_vec_at, DataLine, DataLineFeed, Series};
pub use mom::MOMIndicator;
pub use order::{Order, OrderPositionType, OrderStatus, OrderType, Position, Trade, TradeStatus};
pub use slope::LinearregSlopeIndicator;
pub use sma::SMAIndicator;
pub use source::{CsvDataLine, CsvDataSource, CsvTimeLine};
pub use strategy::Strategy;
pub use timefield::{parse_time_field, TimeFieldError};
