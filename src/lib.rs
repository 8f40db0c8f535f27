//! A stock market feed consumed by competing broker workers.
//!
//! `stock` holds the instruments and their sectors, `market` the price
//! generator's tick, `order` the orders that brokers place, and `broker`
//! each broker worker's per-client rule engine and quota bookkeeping.

pub mod stock;
pub mod market;
pub mod order;
pub mod broker;
mod draw;

pub use broker::{Broker, ClientPreference, OrderCategory, Side};
pub use order::Order;
pub use stock::{ConfigError, Stock, StockType};
