//! Verified core of a trading-bot framework: order and position rules, risk
//! gates, a replay engine for backtests, and a supervisor for long-running
//! services.

pub mod backtest;
pub mod domain;
pub mod keyed;
pub mod num;
pub mod risk;
pub mod supervisor;
pub mod text;
pub mod time;
