//! Types that the trading layers share: markets, orders, positions, decisions.

pub mod brain;
pub mod error;
pub mod exchange;
pub mod instrument;
pub mod market;
pub mod metrics;
pub mod signal;
pub mod store;
pub mod types;
