//! What can go wrong in a backtest.

use vstd::prelude::*;

use crate::backtest::funding::FundingFault;
use crate::num::Binary64;

verus! {

/// A setting that cannot be used.
#[derive(Clone, Copy, Debug, PartialEq, Eq, Structural)]
pub enum ConfigFault {
    /// There is no symbol to trade.
    NoSymbols,
    /// The starting balance is not a finite number above zero.
    InitialCash,
    /// The contract value is not a finite number above zero.
    ContractValue,
    /// The risk-free rate is not finite.
    RiskFreeRate,
    /// There are no periods in a year.
    PeriodsPerYear,
    /// The session loss limit is a NaN, and would never halt.
    SessionLossLimit,
    /// The funding schedule cannot be used.
    Funding(FundingFault),
}

/// A field of a candle.
#[derive(Clone, Copy, Debug, PartialEq, Eq, Structural)]
pub enum CandleField {
    /// First price.
    Open,
    /// Highest price.
    High,
    /// Lowest price.
    Low,
    /// Last price.
    Close,
    /// Traded volume.
    Volume,
}

/// A candle value that cannot be used: a price that is not finite and above
/// zero, or a volume that is not finite and at least zero.
#[derive(Clone, Copy, Debug, PartialEq, Eq, Structural)]
pub struct CandleFault {
    /// The field.
    pub field: CandleField,
    /// Its value.
    pub value: Binary64,
}

/// Errors of a backtest.
#[derive(Clone, Copy, Debug, PartialEq, Eq, Structural)]
pub enum Error {
    /// The configuration is invalid.
    Config(ConfigFault),
    /// A row of a candle file cannot be read as a candle.
    Unreadable {
        /// Line of the row, the header being line 1.
        row: u128,
    },
    /// A row of a candle file holds a candle that cannot be used.
    Row {
        /// Line of the row, the header being line 1.
        row: u128,
        /// What is wrong with it.
        fault: CandleFault,
    },
    /// A replayed candle cannot be used.
    Candle {
        /// Index of the series it belongs to.
        series: usize,
        /// Time of the candle.
        time: i64,
        /// What is wrong with it.
        fault: CandleFault,
    },
    /// A session has counted as many trades as it can.
    SessionFull,
}

} // verus!
