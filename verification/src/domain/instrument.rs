//! Instrument metadata: contract size, tick, lot and minimum notional.

use vstd::prelude::*;

use crate::domain::brain::ONE_BITS;
use crate::num::Binary64;

verus! {

/// Broad asset class of an instrument.
#[derive(Clone, Copy, Debug, PartialEq, Eq, Hash, Structural)]
#[non_exhaustive]
pub enum AssetClass {
    /// Perpetual or dated crypto futures.
    CryptoPerp,
    /// Crypto spot.
    CryptoSpot,
    /// Foreign exchange.
    Fx,
    /// Traditional dated futures.
    Future,
    /// Cash equities.
    Equity,
    /// Anything else.
    Other,
}

impl Default for AssetClass {
    fn default() -> (r: Self)
        ensures
            r == AssetClass::CryptoPerp,
    {
        AssetClass::CryptoPerp
    }
}

/// Metadata of one instrument.
#[derive(Clone, Copy, Debug, PartialEq, Eq, Structural)]
pub struct InstrumentSpec {
    /// Broad asset class.
    pub asset_class: AssetClass,
    /// Base-asset units per contract; one for spot.
    pub contract_value: Binary64,
    /// Smallest price step; zero if unknown.
    pub tick_size: Binary64,
    /// Smallest quantity step; zero if unknown.
    pub lot_size: Binary64,
    /// Smallest notional of an order; zero for none.
    pub min_notional: Binary64,
}

/// How a value is brought onto a grid of steps.
#[derive(Clone, Copy, Debug, PartialEq, Eq, Structural)]
pub enum Rounding {
    /// The value stays as it is.
    Keep,
    /// The value moves to the nearest multiple of the step.
    Nearest {
        /// The step.
        step: Binary64,
    },
    /// The value moves down to a multiple of the step.
    Down {
        /// The step.
        step: Binary64,
    },
}

/// Whether a step puts a grid on values: finite and not zero or below.
pub open spec fn is_step(step: Binary64) -> bool {
    step.spec_is_finite() && !step.spec_le(Binary64::spec_zero())
}

fn has_step(step: Binary64) -> (r: bool)
    ensures
        r == is_step(step),
{
    !step.le(Binary64::zero()) && step.is_finite()
}

impl InstrumentSpec {
    /// An instrument without constraints.
    pub open spec fn unconstrained(asset_class: AssetClass, contract_value: Binary64) -> Self {
        InstrumentSpec {
            asset_class,
            contract_value,
            tick_size: Binary64::spec_zero(),
            lot_size: Binary64::spec_zero(),
            min_notional: Binary64::spec_zero(),
        }
    }

    /// Spot, one unit per contract, no constraints.
    pub fn spot_default() -> (r: Self)
        ensures
            r == Self::unconstrained(AssetClass::CryptoSpot, Binary64 { bits: ONE_BITS }),
    {
        InstrumentSpec {
            asset_class: AssetClass::CryptoSpot,
            contract_value: Binary64::from_bits(ONE_BITS),
            tick_size: Binary64::zero(),
            lot_size: Binary64::zero(),
            min_notional: Binary64::zero(),
        }
    }

    /// A futures contract of the given value, no other constraints.
    pub fn from_contract_value(contract_value: Binary64) -> (r: Self)
        ensures
            r == Self::unconstrained(AssetClass::CryptoPerp, contract_value),
    {
        InstrumentSpec {
            asset_class: AssetClass::CryptoPerp,
            contract_value,
            tick_size: Binary64::zero(),
            lot_size: Binary64::zero(),
            min_notional: Binary64::zero(),
        }
    }

    /// How a price is rounded: to the nearest tick, if there is one.
    pub fn price_rounding(&self) -> (r: Rounding)
        ensures
            r == (if is_step(self.tick_size) {
                Rounding::Nearest { step: self.tick_size }
            } else {
                Rounding::Keep
            }),
    {
        if has_step(self.tick_size) {
            Rounding::Nearest { step: self.tick_size }
        } else {
            Rounding::Keep
        }
    }

    /// How a quantity is rounded: down to a whole lot, if there is one, so that
    /// an order never exceeds the intended risk.
    pub fn qty_rounding(&self) -> (r: Rounding)
        ensures
            r == (if is_step(self.lot_size) {
                Rounding::Down { step: self.lot_size }
            } else {
                Rounding::Keep
            }),
    {
        if has_step(self.lot_size) {
            Rounding::Down { step: self.lot_size }
        } else {
            Rounding::Keep
        }
    }

    /// Whether a notional meets the minimum.
    pub fn meets_min_notional(&self, notional: Binary64) -> (r: bool)
        ensures
            r == self.min_notional.spec_le(notional),
    {
        self.min_notional.le(notional)
    }
}

impl Default for InstrumentSpec {
    fn default() -> (r: Self)
        ensures
            r == Self::unconstrained(AssetClass::CryptoSpot, Binary64 { bits: ONE_BITS }),
    {
        Self::spot_default()
    }
}

/// An instrument without constraints takes every notional from zero up.
pub proof fn unconstrained_takes_any_notional(class: AssetClass, value: Binary64, notional: Binary64)
    requires
        notional.spec_is_zero() || notional.spec_is_positive(),
    ensures
        InstrumentSpec::unconstrained(class, value).min_notional.spec_le(notional),
{
}

/// A step puts a grid on values exactly where it is a finite number above zero.
pub proof fn steps_are_positive_and_finite(step: Binary64)
    ensures
        is_step(step) <==> step.spec_is_finite() && Binary64::spec_zero().spec_lt(step),
{
}

/// An instrument without constraints has no steps and no minimum.
pub proof fn unconstrained_instruments_have_no_grid(class: AssetClass, value: Binary64)
    ensures
        ({
            let spec = InstrumentSpec::unconstrained(class, value);
            &&& spec.asset_class == class
            &&& spec.contract_value == value
            &&& !is_step(spec.tick_size)
            &&& !is_step(spec.lot_size)
            &&& spec.min_notional.spec_is_zero()
        }),
{
}

} // verus!
