//! Replay of candle series through a strategy: configuration, fills, funding,
//! risk gates and results.

pub mod book;
pub mod book_laws;
pub mod candles;
pub mod chronology;
pub mod config;
pub mod costs;
pub mod error;
pub mod fill_laws;
pub mod fills;
pub mod funding;
pub mod holding;
pub mod laws;
pub mod machine;
pub mod replay;
pub mod result;
pub mod runs;
pub mod step_laws;
