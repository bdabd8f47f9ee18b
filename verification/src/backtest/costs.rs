//! Fee and slippage schedules: which rate applies to a fill, and which way it
//! moves the price. The products are worked out by the caller.

use vstd::prelude::*;

use crate::domain::market::Side;
use crate::num::Binary64;

verus! {

/// Bit pattern of five basis points.
pub const DEFAULT_FEE_BITS: u64 = 0x3f40_624d_d2f1_a9fc;

/// Fee schedule of an exchange.
#[derive(Clone, Copy, Debug, PartialEq, Eq, Structural)]
pub enum FeeModel {
    /// No fees.
    Zero,
    /// One rate, as a fraction of notional.
    Flat(Binary64),
    /// One rate for fills that rested and one for fills that took.
    MakerTaker {
        /// Rate of resting fills.
        maker: Binary64,
        /// Rate of taking fills.
        taker: Binary64,
    },
}

impl Default for FeeModel {
    /// Five basis points.
    fn default() -> (r: Self)
        ensures
            r == FeeModel::Flat(Binary64 { bits: DEFAULT_FEE_BITS }),
    {
        FeeModel::Flat(Binary64::from_bits(DEFAULT_FEE_BITS))
    }
}

impl FeeModel {
    /// The rate that applies to a fill.
    pub open spec fn rate(self, is_taker: bool) -> Option<Binary64> {
        match self {
            FeeModel::Zero => None,
            FeeModel::Flat(rate) => Some(rate),
            FeeModel::MakerTaker { maker, taker } => Some(
                if is_taker {
                    taker
                } else {
                    maker
                },
            ),
        }
    }

    /// The fraction of notional that a fill is charged; `None` for no fee.
    pub fn rate_for(self, is_taker: bool) -> (r: Option<Binary64>)
        ensures
            r == self.rate(is_taker),
    {
        match self {
            FeeModel::Zero => None,
            FeeModel::Flat(rate) => Some(rate),
            FeeModel::MakerTaker { maker, taker } => Some(
                if is_taker {
                    taker
                } else {
                    maker
                },
            ),
        }
    }
}

/// Slippage of fills that take.
#[derive(Clone, Copy, Debug, PartialEq, Eq, Structural)]
pub enum SlippageModel {
    /// None.
    Zero,
    /// A fixed number of basis points against the taker.
    FixedBps(Binary64),
}

impl Default for SlippageModel {
    fn default() -> (r: Self)
        ensures
            r == SlippageModel::Zero,
    {
        SlippageModel::Zero
    }
}

/// A shift of the reference price.
#[derive(Clone, Copy, Debug, PartialEq, Eq, Structural)]
pub struct Shift {
    /// Size of the shift in basis points.
    pub bps: Binary64,
    /// Whether the price goes up by it; else it goes down.
    pub upward: bool,
}

impl SlippageModel {
    /// The shift of a fill on the given side.
    pub open spec fn shift(self, side: Side, is_taker: bool) -> Option<Shift> {
        match self {
            SlippageModel::Zero => None,
            SlippageModel::FixedBps(bps) => if is_taker {
                Some(Shift { bps, upward: side == Side::Buy })
            } else {
                None
            },
        }
    }

    /// How a fill slips: a taker pays up when buying and gets less when
    /// selling; a fill that rested does not slip.
    pub fn shift_for(self, side: Side, is_taker: bool) -> (r: Option<Shift>)
        ensures
            r == self.shift(side, is_taker),
    {
        match self {
            SlippageModel::Zero => None,
            SlippageModel::FixedBps(bps) => {
                if !is_taker {
                    return None;
                }
                let upward = match side {
                    Side::Buy => true,
                    Side::Sell => false,
                };
                Some(Shift { bps, upward })
            },
        }
    }
}

/// Slippage is symmetric: the two sides slip by the same amount, in opposite
/// directions.
pub proof fn slippage_is_symmetric(model: SlippageModel, side: Side)
    ensures
        model.shift(side, true) is Some <==> model.shift(side.spec_opposite(), true) is Some,
        model.shift(side, true) is Some ==> model.shift(side, true)->0.bps == model.shift(
            side.spec_opposite(),
            true,
        )->0.bps && model.shift(side, true)->0.upward != model.shift(
            side.spec_opposite(),
            true,
        )->0.upward,
{
}

/// A schedule charges a fraction exactly where it has one: a flat one the same
/// to all fills, a split one the maker's to fills that rested and the taker's
/// to fills that took.
pub proof fn rates_go_by_the_kind_of_fill(model: FeeModel, is_taker: bool)
    ensures
        model.rate(is_taker) is None <==> model == FeeModel::Zero,
        model matches FeeModel::Flat(rate) ==> model.rate(is_taker) == Some(rate),
        model matches FeeModel::MakerTaker { maker, taker } ==> {
            &&& model.rate(true) == Some(taker)
            &&& model.rate(false) == Some(maker)
        },
{
}

/// Slippage works against the taker: it raises the price of a buy and lowers
/// that of a sell, by the configured basis points. Fills that rested do not
/// slip.
pub proof fn slippage_works_against_takers(model: SlippageModel, side: Side)
    ensures
        model.shift(side, false) is None,
        model == SlippageModel::Zero ==> model.shift(side, true) is None,
        model matches SlippageModel::FixedBps(bps) ==> (model.shift(side, true) matches Some(shift)
            && {
            &&& shift.bps == bps
            &&& shift.upward <==> side == Side::Buy
        }),
{
}

} // verus!
