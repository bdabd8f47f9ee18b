//! Risk gates: loss breakers, session limits, portfolio limits, sizing.

pub mod circuit_breaker;
pub mod clock;
pub mod portfolio;
pub mod session_pnl;
pub mod sizing;
