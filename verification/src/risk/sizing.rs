//! Notional-based position sizing.
//!
//! The quotient `margin × leverage / (price × contract value)` is worked out
//! by the caller and handed in as a whole number of contracts; the sizer
//! decides which margin goes into it, whether a trade can be sized at all, and
//! where the size is capped.

use vstd::prelude::*;

use crate::domain::brain::{SizeHint, ONE_BITS};
use crate::num::Binary64;

verus! {

/// Bit pattern of five hundred.
pub const DEFAULT_MARGIN_BITS: u64 = 0x407f_4000_0000_0000;

/// Configuration of a [`PositionSizer`].
#[derive(Clone, Copy, Debug, PartialEq, Eq, Structural)]
pub struct SizingConfig {
    /// Default margin to commit per trade, in quote currency.
    pub margin_per_trade: Binary64,
    /// Leverage multiplier.
    pub leverage: u32,
    /// Hard ceiling on contracts per trade.
    pub max_contracts: u32,
}

impl Default for SizingConfig {
    /// Five hundred units of margin, five times leverage, fifty contracts.
    fn default() -> (r: Self)
        ensures
            r == (SizingConfig {
                margin_per_trade: Binary64 { bits: DEFAULT_MARGIN_BITS },
                leverage: 5,
                max_contracts: 50,
            }),
    {
        SizingConfig {
            margin_per_trade: Binary64::from_bits(DEFAULT_MARGIN_BITS),
            leverage: 5,
            max_contracts: 50,
        }
    }
}

/// The smaller of two counts.
pub open spec fn at_most(raw: u32, cap: u32) -> u32 {
    if raw < cap {
        raw
    } else {
        cap
    }
}

/// Whether a value is zero or below.
pub open spec fn not_positive(v: Binary64) -> bool {
    v.spec_le(Binary64::spec_zero())
}

fn is_not_positive(v: Binary64) -> (r: bool)
    ensures
        r == not_positive(v),
{
    v.le(Binary64::zero())
}

/// Contracts for a trade: none where an input is zero or below, else the
/// quotient up to the ceiling.
pub open spec fn sized(
    config: SizingConfig,
    margin: Binary64,
    price: Binary64,
    contract_value: Binary64,
    raw: u32,
) -> u32 {
    if not_positive(price) || not_positive(contract_value) || not_positive(margin)
        || config.leverage == 0 {
        0
    } else {
        at_most(raw, config.max_contracts)
    }
}

/// Computes order sizes.
///
/// A size of 0 means that the trade is too small, or cannot be sized.
#[derive(Clone, Copy, Debug)]
pub struct PositionSizer {
    config: SizingConfig,
}

/// How the caller works out the margin, or the size, that a hint asks for.
#[derive(Clone, Copy, Debug, PartialEq, Eq, Structural)]
pub enum SizeRule {
    /// The margin is this value.
    Margin(Binary64),
    /// The margin is the configured one times this fraction.
    MarginTimes(Binary64),
    /// The margin is this notional divided by this leverage.
    NotionalOver {
        /// Notional.
        notional: Binary64,
        /// Leverage, at least one.
        leverage: u32,
    },
    /// The size is the whole part of this quantity.
    WholePartOf(Binary64),
}

/// A fraction brought into the range from zero to one.
pub open spec fn clamped_fraction(f: Binary64) -> Binary64 {
    let one = Binary64 { bits: ONE_BITS };
    if f.spec_lt(Binary64::spec_zero()) {
        Binary64::spec_zero()
    } else if one.spec_lt(f) {
        one
    } else {
        f
    }
}

/// The rule that a hint stands for.
pub open spec fn rule_for(config: SizingConfig, hint: SizeHint) -> SizeRule {
    match hint {
        SizeHint::Default => SizeRule::Margin(config.margin_per_trade),
        SizeHint::MarginFraction(f) => SizeRule::MarginTimes(clamped_fraction(f)),
        SizeHint::NotionalUsd(n) => SizeRule::NotionalOver {
            notional: n,
            leverage: if config.leverage == 0 { 1 } else { config.leverage },
        },
        SizeHint::Quantity(q) => SizeRule::WholePartOf(q.0.spec_max(Binary64::spec_zero())),
    }
}

/// Contracts that a hint comes to. `margin` and `raw` are what the caller made
/// of the rule: the margin of a margin rule, and the quotient or whole part.
pub open spec fn sized_by_hint(
    config: SizingConfig,
    hint: SizeHint,
    margin: Binary64,
    price: Binary64,
    contract_value: Binary64,
    raw: u32,
) -> u32 {
    match hint {
        SizeHint::Default => sized(config, config.margin_per_trade, price, contract_value, raw),
        SizeHint::Quantity(_) => at_most(raw, config.max_contracts),
        _ => sized(config, margin, price, contract_value, raw),
    }
}

impl PositionSizer {
    /// The sizer's configuration.
    pub closed spec fn settings(self) -> SizingConfig {
        self.config
    }

    /// A sizer with the given configuration.
    pub fn new(config: SizingConfig) -> (r: Self)
        ensures
            r.settings() == config,
    {
        PositionSizer { config }
    }

    /// Contracts for a trade with the configured margin. `raw` is the whole
    /// part of `margin × leverage / (price × contract value)`.
    pub fn contracts(&self, price: Binary64, contract_value: Binary64, raw: u32) -> (r: u32)
        ensures
            r == sized(self.settings(), self.settings().margin_per_trade, price, contract_value, raw),
    {
        self.contracts_with_margin(self.config.margin_per_trade, price, contract_value, raw)
    }

    /// Contracts for a trade with the given margin.
    pub fn contracts_with_margin(
        &self,
        margin: Binary64,
        price: Binary64,
        contract_value: Binary64,
        raw: u32,
    ) -> (r: u32)
        ensures
            r == sized(self.settings(), margin, price, contract_value, raw),
    {
        if is_not_positive(price) || is_not_positive(contract_value) || is_not_positive(margin)
            || self.config.leverage == 0 {
            return 0;
        }
        self.cap(raw)
    }

    fn cap(&self, raw: u32) -> (r: u32)
        ensures
            r == at_most(raw, self.settings().max_contracts),
    {
        if raw < self.config.max_contracts {
            raw
        } else {
            self.config.max_contracts
        }
    }

    /// What a hint asks the caller to work out.
    pub fn size_rule(&self, hint: SizeHint) -> (r: SizeRule)
        ensures
            r == rule_for(self.settings(), hint),
            r matches SizeRule::NotionalOver { leverage, .. } ==> leverage > 0,
    {
        match hint {
            SizeHint::Default => SizeRule::Margin(self.config.margin_per_trade),
            SizeHint::MarginFraction(f) => {
                let one = Binary64::from_bits(ONE_BITS);
                let clamped = if f.lt(Binary64::zero()) {
                    Binary64::zero()
                } else if one.lt(f) {
                    one
                } else {
                    f
                };
                SizeRule::MarginTimes(clamped)
            },
            SizeHint::NotionalUsd(n) => {
                let leverage: u32 = if self.config.leverage == 0 {
                    1
                } else {
                    self.config.leverage
                };
                SizeRule::NotionalOver { notional: n, leverage }
            },
            SizeHint::Quantity(q) => SizeRule::WholePartOf(q.0.max(Binary64::zero())),
        }
    }

    /// Contracts that a hint comes to, from what the caller made of its rule.
    pub fn size_from_hint(
        &self,
        hint: SizeHint,
        margin: Binary64,
        price: Binary64,
        contract_value: Binary64,
        raw: u32,
    ) -> (r: u32)
        ensures
            r == sized_by_hint(self.settings(), hint, margin, price, contract_value, raw),
    {
        match hint {
            SizeHint::Default => self.contracts(price, contract_value, raw),
            SizeHint::Quantity(_) => self.cap(raw),
            _ => self.contracts_with_margin(margin, price, contract_value, raw),
        }
    }

    /// The sizer's configuration.
    pub fn config(&self) -> (r: &SizingConfig)
        ensures
            *r == self.settings(),
    {
        &self.config
    }
}

/// No size exceeds the ceiling, whatever was asked for.
pub proof fn size_never_exceeds_cap(
    config: SizingConfig,
    hint: SizeHint,
    margin: Binary64,
    price: Binary64,
    contract_value: Binary64,
    raw: u32,
)
    ensures
        sized(config, margin, price, contract_value, raw) <= config.max_contracts,
        sized_by_hint(config, hint, margin, price, contract_value, raw) <= config.max_contracts,
{
}

/// Any input that is zero or below gives a size of zero.
pub proof fn degenerate_inputs_size_to_zero(
    config: SizingConfig,
    margin: Binary64,
    price: Binary64,
    contract_value: Binary64,
    raw: u32,
)
    requires
        price.spec_is_zero() || price.spec_is_negative() || contract_value.spec_is_zero()
            || contract_value.spec_is_negative() || margin.spec_is_zero() || margin.spec_is_negative()
            || config.leverage == 0,
    ensures
        sized(config, margin, price, contract_value, raw) == 0,
{
}

/// No size exceeds the quotient handed in, nor the ceiling, and where nothing
/// stands against the trade it is the smaller of the two. A trade by quantity
/// asks for no margin and is held to the ceiling alone.
pub proof fn sizes_are_the_quotient_up_to_the_ceiling(
    config: SizingConfig,
    hint: SizeHint,
    margin: Binary64,
    price: Binary64,
    contract_value: Binary64,
    raw: u32,
)
    ensures
        ({
            let size = sized_by_hint(config, hint, margin, price, contract_value, raw);
            let zero = Binary64::spec_zero();
            let base = match hint {
                SizeHint::Default => config.margin_per_trade,
                _ => margin,
            };
            let sizable = !price.spec_le(zero) && !contract_value.spec_le(zero) && !base.spec_le(zero)
                && config.leverage > 0;
            &&& size <= raw
            &&& size <= config.max_contracts
            &&& sizable || hint is Quantity ==> size == raw || size == config.max_contracts
            &&& !sizable && !(hint is Quantity) ==> size == 0
        }),
        ({
            let size = sized(config, margin, price, contract_value, raw);
            let zero = Binary64::spec_zero();
            let sizable = !price.spec_le(zero) && !contract_value.spec_le(zero)
                && !margin.spec_le(zero) && config.leverage > 0;
            &&& size <= raw
            &&& size <= config.max_contracts
            &&& sizable ==> size == raw || size == config.max_contracts
            &&& !sizable ==> size == 0
        }),
{
}

/// A larger quotient never gives a smaller size, and neither does a higher
/// ceiling.
pub proof fn sizes_grow_with_quotient_and_ceiling(
    config: SizingConfig,
    hint: SizeHint,
    margin: Binary64,
    price: Binary64,
    contract_value: Binary64,
    raw: u32,
    more: u32,
    ceiling: u32,
)
    requires
        raw <= more,
        config.max_contracts <= ceiling,
    ensures
        sized_by_hint(config, hint, margin, price, contract_value, raw) <= sized_by_hint(
            config,
            hint,
            margin,
            price,
            contract_value,
            more,
        ),
        sized_by_hint(config, hint, margin, price, contract_value, raw) <= sized_by_hint(
            (SizingConfig { max_contracts: ceiling, ..config }),
            hint,
            margin,
            price,
            contract_value,
            raw,
        ),
{
}

/// What a hint asks the caller to work out: the configured margin without a
/// hint; a fraction of it that is the hint's own between zero and one, and the
/// nearer end beyond them; the notional over the leverage, which counts as one
/// where there is none; and the whole part of a quantity that is not negative.
pub proof fn hints_name_their_margin(config: SizingConfig, hint: SizeHint)
    ensures
        hint is Default <==> rule_for(config, hint) is Margin,
        hint is Default ==> rule_for(config, hint)->Margin_0 == config.margin_per_trade,
        hint matches SizeHint::MarginFraction(f) ==> (rule_for(config, hint)
            matches SizeRule::MarginTimes(used) && {
            let (zero, one) = (Binary64::spec_zero(), Binary64 { bits: 0x3ff0_0000_0000_0000 });
            &&& f.spec_lt(zero) ==> used == zero
            &&& one.spec_lt(f) ==> used == one
            &&& !f.spec_lt(zero) && !one.spec_lt(f) ==> used == f
        }),
        hint matches SizeHint::NotionalUsd(n) ==> (rule_for(config, hint)
            matches SizeRule::NotionalOver { notional, leverage } && {
            &&& notional == n
            &&& config.leverage > 0 ==> leverage == config.leverage
            &&& config.leverage == 0 ==> leverage == 1
        }),
        hint matches SizeHint::Quantity(q) ==> (rule_for(config, hint)
            matches SizeRule::WholePartOf(used) && {
            &&& q.0.spec_is_nan() || q.0.spec_is_negative() ==> used.spec_is_zero()
            &&& !q.0.spec_is_nan() && !q.0.spec_is_negative() ==> used == q.0
        }),
{
}

} // verus!
