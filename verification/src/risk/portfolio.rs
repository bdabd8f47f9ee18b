//! Account-wide risk: a daily-loss halt that latches, and a gate for new
//! entries over aggregate exposure and concurrency.
//!
//! Account profit and exposure are summed up outside the library and handed in.

use vstd::prelude::*;

use crate::num::{Binary64, INFINITY_BITS};
use crate::risk::clock::{Clock, SystemClock};
use crate::text::{decimal, digits};

verus! {

/// Bit pattern of negative infinity.
pub const NEGATIVE_INFINITY_BITS: u64 = 0xfff0_0000_0000_0000;

/// Limits for a whole account. Each can be switched off on its own.
#[derive(Clone, Copy, Debug, PartialEq, Eq, Structural)]
pub struct PortfolioRiskConfig {
    /// Net loss ceiling for the day, a negative number. Negative infinity
    /// switches the halt off.
    pub max_daily_loss: Binary64,
    /// Number of symbols that may hold a position at once; 0 is no limit.
    pub max_concurrent_positions: u32,
    /// Cap on gross exposure. Infinity switches the cap off.
    pub max_gross_exposure: Binary64,
}

impl Default for PortfolioRiskConfig {
    /// Everything off.
    fn default() -> (r: Self)
        ensures
            r == Self::spec_off(),
    {
        PortfolioRiskConfig {
            max_daily_loss: Binary64::from_bits(NEGATIVE_INFINITY_BITS),
            max_concurrent_positions: 0,
            max_gross_exposure: Binary64::from_bits(INFINITY_BITS),
        }
    }
}

impl PortfolioRiskConfig {
    /// Every limit switched off.
    pub open spec fn spec_off() -> Self {
        PortfolioRiskConfig {
            max_daily_loss: Binary64 { bits: NEGATIVE_INFINITY_BITS },
            max_concurrent_positions: 0,
            max_gross_exposure: Binary64 { bits: INFINITY_BITS },
        }
    }
}

/// Why a new entry was blocked.
#[derive(Clone, Copy, Debug, PartialEq, Eq, Structural)]
pub enum PortfolioBlock {
    /// The account-wide daily loss limit is breached.
    DailyLossHalt {
        /// Net realised result of the account.
        net_pnl: Binary64,
        /// The ceiling.
        limit: Binary64,
    },
    /// The maximum number of positions is open.
    MaxConcurrentPositions {
        /// Symbols that hold a position.
        open: u32,
        /// The ceiling.
        limit: u32,
    },
    /// The position would exceed the cap on gross exposure.
    GrossExposureCap {
        /// Gross exposure on the book.
        current: Binary64,
        /// Notional that the entry would add.
        additional: Binary64,
        /// The ceiling.
        limit: Binary64,
    },
}

/// Amounts of a block, written out. A block reads those that it has.
#[derive(Clone, Debug)]
pub struct BlockFigures {
    /// Net realised result of the account.
    pub net_pnl: String,
    /// Gross exposure on the book.
    pub current: String,
    /// Notional that the entry would add.
    pub additional: String,
    /// The ceiling.
    pub limit: String,
}

impl PortfolioBlock {
    /// The block as text.
    pub open spec fn text(self, figures: BlockFigures) -> Seq<char> {
        match self {
            PortfolioBlock::DailyLossHalt { .. } => "account daily-loss halt (net "@
                + figures.net_pnl@ + " ≤ limit "@ + figures.limit@ + ")"@,
            PortfolioBlock::MaxConcurrentPositions { open, limit } =>
            "max concurrent positions reached ("@ + digits(open as nat) + " open ≥ limit "@
                + digits(limit as nat) + ")"@,
            PortfolioBlock::GrossExposureCap { .. } => "gross-exposure cap (current "@
                + figures.current@ + " + "@ + figures.additional@ + " > limit "@ + figures.limit@
                + ")"@,
        }
    }

    /// The block as text, with its amounts as they are written out.
    pub fn render(&self, figures: &BlockFigures) -> (r: String)
        ensures
            r@ == self.text(*figures),
    {
        match self {
            PortfolioBlock::DailyLossHalt { .. } => {
                let mut text = "account daily-loss halt (net ".to_string();
                text.append(figures.net_pnl.as_str());
                text.append(" ≤ limit ");
                text.append(figures.limit.as_str());
                text.append(")");
                text
            },
            PortfolioBlock::MaxConcurrentPositions { open, limit } => {
                let mut text = "max concurrent positions reached (".to_string();
                text.append(decimal(*open as u128).as_str());
                text.append(" open ≥ limit ");
                text.append(decimal(*limit as u128).as_str());
                text.append(")");
                text
            },
            PortfolioBlock::GrossExposureCap { .. } => {
                let mut text = "gross-exposure cap (current ".to_string();
                text.append(figures.current.as_str());
                text.append(" + ");
                text.append(figures.additional.as_str());
                text.append(" > limit ");
                text.append(figures.limit.as_str());
                text.append(")");
                text
            },
        }
    }
}

/// Aggregate account state at a pre-trade check.
#[derive(Clone, Copy, Debug, PartialEq, Eq, Structural)]
pub struct PortfolioState {
    /// Symbols that hold a position.
    pub open_positions: u32,
    /// Gross exposure on the book.
    pub gross_exposure: Binary64,
    /// Notional that the entry would add.
    pub new_notional: Binary64,
    /// Gross exposure with the entry: the sum of the two above.
    pub gross_after: Binary64,
    /// Whether the entry's symbol already holds a position.
    pub symbol_already_open: bool,
    /// Net realised result of the account.
    pub account_net_pnl: Binary64,
}

/// Restart-durable state: the latch and the day it belongs to.
#[derive(Clone, Copy, Debug, PartialEq, Eq, Structural)]
pub struct PortfolioRiskSnapshot {
    /// Whether the daily-loss limit has halted the account.
    pub halted: bool,
    /// UTC day number of the last reset.
    pub last_reset_day: u64,
}

impl PortfolioRiskSnapshot {
    /// The latch after a look at the account's result.
    pub open spec fn observed(self, limit: Binary64, net: Binary64) -> Self {
        PortfolioRiskSnapshot { halted: self.halted || net.spec_le(limit), ..self }
    }

    /// The latch after a look at the calendar.
    pub open spec fn rolled(self, today: u64) -> Self {
        if today > self.last_reset_day {
            PortfolioRiskSnapshot { halted: false, last_reset_day: today }
        } else {
            self
        }
    }
}

/// The first limit that blocks an entry, if one does: the daily loss, then the
/// number of positions, then the exposure.
pub open spec fn blocked_by(
    config: PortfolioRiskConfig,
    halted: bool,
    state: PortfolioState,
) -> Option<PortfolioBlock> {
    if halted || state.account_net_pnl.spec_le(config.max_daily_loss) {
        Some(
            PortfolioBlock::DailyLossHalt {
                net_pnl: state.account_net_pnl,
                limit: config.max_daily_loss,
            },
        )
    } else if config.max_concurrent_positions > 0 && !state.symbol_already_open
        && state.open_positions >= config.max_concurrent_positions {
        Some(
            PortfolioBlock::MaxConcurrentPositions {
                open: state.open_positions,
                limit: config.max_concurrent_positions,
            },
        )
    } else if config.max_gross_exposure.spec_lt(state.gross_after) {
        Some(
            PortfolioBlock::GrossExposureCap {
                current: state.gross_exposure,
                additional: state.new_notional,
                limit: config.max_gross_exposure,
            },
        )
    } else {
        None
    }
}

/// Account-wide risk on a clock.
#[derive(Clone, Debug)]
pub struct PortfolioRisk<C: Clock = SystemClock> {
    config: PortfolioRiskConfig,
    latch: PortfolioRiskSnapshot,
    clock: C,
}

impl PortfolioRisk<SystemClock> {
    /// Account risk on the system clock.
    pub fn new(config: PortfolioRiskConfig) -> (r: Self)
        ensures
            r.limits() == config,
            r.clock() == SystemClock,
            exists|day: u64|
                #[trigger] r.may_read_day(day) && r.state() == (PortfolioRiskSnapshot {
                    halted: false,
                    last_reset_day: day,
                }),
    {
        Self::with_clock(config, SystemClock)
    }
}

impl<C: Clock> PortfolioRisk<C> {
    /// The limits.
    pub closed spec fn limits(&self) -> PortfolioRiskConfig {
        self.config
    }

    /// The latch.
    pub closed spec fn state(&self) -> PortfolioRiskSnapshot {
        self.latch
    }

    /// The clock that the account's day is read from.
    pub closed spec fn clock(&self) -> C {
        self.clock
    }

    /// Whether a day is one that the account's clock gives.
    pub open spec fn may_read_day(&self, day: u64) -> bool {
        call_ensures(C::utc_day_number, (&self.clock(),), day)
    }

    /// Account risk on the given clock, not halted, with today as its day.
    pub fn with_clock(config: PortfolioRiskConfig, clock: C) -> (r: Self)
        ensures
            r.limits() == config,
            r.clock() == clock,
            exists|day: u64|
                #[trigger] r.may_read_day(day) && r.state() == (PortfolioRiskSnapshot {
                    halted: false,
                    last_reset_day: day,
                }),
    {
        let last_reset_day: u64 = clock.utc_day_number();
        let risk = PortfolioRisk {
            config,
            latch: PortfolioRiskSnapshot { halted: false, last_reset_day },
            clock,
        };
        assert(risk.may_read_day(last_reset_day));
        risk
    }

    /// Whether the daily-loss limit has halted the account.
    pub fn is_halted(&self) -> (r: bool)
        ensures
            r == self.state().halted,
    {
        self.latch.halted
    }

    /// The limits.
    pub fn config(&self) -> (r: &PortfolioRiskConfig)
        ensures
            *r == self.limits(),
    {
        &self.config
    }

    /// Look at the account's net realised result, and latch the halt if it is
    /// at or below the limit.
    pub fn observe(&mut self, account_net_pnl: Binary64)
        ensures
            final(self).state() == old(self).state().observed(
                old(self).limits().max_daily_loss,
                account_net_pnl,
            ),
            final(self).limits() == old(self).limits(),
            final(self).clock() == old(self).clock(),
    {
        if !self.latch.halted && account_net_pnl.le(self.config.max_daily_loss) {
            self.latch.halted = true;
        }
    }

    /// Gate for a new entry. The daily-loss check fires on the latch or on a
    /// live breach.
    pub fn check_entry(&self, state: PortfolioState) -> (r: Result<(), PortfolioBlock>)
        ensures
            r == (match blocked_by(self.limits(), self.state().halted, state) {
                Some(block) => Err(block),
                None => Ok::<(), PortfolioBlock>(()),
            }),
    {
        if self.latch.halted || state.account_net_pnl.le(self.config.max_daily_loss) {
            return Err(
                PortfolioBlock::DailyLossHalt {
                    net_pnl: state.account_net_pnl,
                    limit: self.config.max_daily_loss,
                },
            );
        }
        if self.config.max_concurrent_positions > 0 && !state.symbol_already_open
            && state.open_positions >= self.config.max_concurrent_positions {
            return Err(
                PortfolioBlock::MaxConcurrentPositions {
                    open: state.open_positions,
                    limit: self.config.max_concurrent_positions,
                },
            );
        }
        if self.config.max_gross_exposure.lt(state.gross_after) {
            return Err(
                PortfolioBlock::GrossExposureCap {
                    current: state.gross_exposure,
                    additional: state.new_notional,
                    limit: self.config.max_gross_exposure,
                },
            );
        }
        Ok(())
    }

    /// Call periodically: a new UTC day lifts the halt.
    pub fn tick(&mut self)
        ensures
            exists|today: u64|
                old(self).may_read_day(today) && final(self).state()
                    == #[trigger] old(self).state().rolled(today),
            final(self).limits() == old(self).limits(),
            final(self).clock() == old(self).clock(),
    {
        let today: u64 = self.clock.utc_day_number();
        if today > self.latch.last_reset_day {
            self.reset_session();
            self.latch.last_reset_day = today;
        }
        assert(self.state() == old(self).state().rolled(today));
    }

    /// Lift the halt by hand.
    pub fn reset_session(&mut self)
        ensures
            final(self).state() == (PortfolioRiskSnapshot { halted: false, ..old(self).state() }),
            final(self).limits() == old(self).limits(),
            final(self).clock() == old(self).clock(),
    {
        self.latch.halted = false;
    }

    /// Capture the latch for persistence.
    pub fn snapshot(&self) -> (r: PortfolioRiskSnapshot)
        ensures
            r == self.state(),
    {
        self.latch
    }

    /// Take over a captured latch. Call [`Self::tick`] afterwards so that one
    /// from an earlier day rolls over.
    pub fn restore(&mut self, snap: PortfolioRiskSnapshot)
        ensures
            final(self).state() == snap,
            final(self).limits() == old(self).limits(),
            final(self).clock() == old(self).clock(),
    {
        self.latch = snap;
    }
}

/// A halt lasts for the day: a later recovery does not lift it, and while it
/// lasts every entry is blocked by it, whatever the other limits say.
pub proof fn halt_is_sticky(
    latch: PortfolioRiskSnapshot,
    config: PortfolioRiskConfig,
    net: Binary64,
    today: u64,
    state: PortfolioState,
)
    requires
        latch.halted,
        today <= latch.last_reset_day,
    ensures
        latch.observed(config.max_daily_loss, net).halted,
        latch.rolled(today).halted,
        blocked_by(config, latch.halted, state) == Some(
            PortfolioBlock::DailyLossHalt {
                net_pnl: state.account_net_pnl,
                limit: config.max_daily_loss,
            },
        ),
{
}

/// With every limit switched off no entry is blocked on a finite result,
/// however large the exposure and however many the positions.
pub proof fn off_blocks_nothing(state: PortfolioState)
    requires
        state.account_net_pnl.spec_is_finite(),
    ensures
        blocked_by(PortfolioRiskConfig::spec_off(), false, state) is None,
{
}

/// Adding to a symbol that is open already never counts against the number of
/// positions.
pub proof fn open_symbols_take_no_slot(config: PortfolioRiskConfig, halted: bool, state: PortfolioState)
    requires
        state.symbol_already_open,
    ensures
        !(blocked_by(config, halted, state) matches Some(
            PortfolioBlock::MaxConcurrentPositions { .. },
        )),
{
}

/// An entry passes exactly where the account is not halted, its result is not
/// at or below the daily limit, a slot is free or none is needed, and the
/// exposure with the entry does not exceed the cap. The last holds of every
/// symbol, whether or not it already has a position.
pub proof fn entries_pass_within_every_limit(
    config: PortfolioRiskConfig,
    halted: bool,
    state: PortfolioState,
)
    ensures
        blocked_by(config, halted, state) is None <==> {
            &&& !halted
            &&& !state.account_net_pnl.spec_le(config.max_daily_loss)
            &&& config.max_concurrent_positions == 0 || state.symbol_already_open
                || state.open_positions < config.max_concurrent_positions
            &&& !config.max_gross_exposure.spec_lt(state.gross_after)
        },
{
}

/// A block names the first limit that is breached, in the order daily loss,
/// positions, exposure, with the amounts that breach it.
pub proof fn blocks_name_the_first_breach(
    config: PortfolioRiskConfig,
    halted: bool,
    state: PortfolioState,
)
    ensures
        match blocked_by(config, halted, state) {
            None => true,
            Some(PortfolioBlock::DailyLossHalt { net_pnl, limit }) => {
                &&& halted || state.account_net_pnl.spec_le(config.max_daily_loss)
                &&& net_pnl == state.account_net_pnl
                &&& limit == config.max_daily_loss
            },
            Some(PortfolioBlock::MaxConcurrentPositions { open, limit }) => {
                &&& !halted && !state.account_net_pnl.spec_le(config.max_daily_loss)
                &&& open >= limit > 0
                &&& !state.symbol_already_open
                &&& open == state.open_positions
                &&& limit == config.max_concurrent_positions
            },
            Some(PortfolioBlock::GrossExposureCap { current, additional, limit }) => {
                &&& !halted && !state.account_net_pnl.spec_le(config.max_daily_loss)
                &&& state.symbol_already_open || config.max_concurrent_positions == 0
                    || state.open_positions < config.max_concurrent_positions
                &&& limit.spec_lt(state.gross_after)
                &&& current == state.gross_exposure
                &&& additional == state.new_notional
                &&& limit == config.max_gross_exposure
            },
        },
{
}

/// Looking at the account's result halts it exactly where the result is at or
/// below the limit, and never lifts a halt.
pub proof fn observing_latches_breaches(latch: PortfolioRiskSnapshot, limit: Binary64, net: Binary64)
    ensures
        latch.observed(limit, net).halted <==> latch.halted || net.spec_le(limit),
        latch.observed(limit, net).last_reset_day == latch.last_reset_day,
{
}

/// A later day lifts the halt and becomes the account's day; an earlier or the
/// same day changes nothing.
pub proof fn later_days_lift_the_halt(latch: PortfolioRiskSnapshot, today: u64)
    ensures
        today > latch.last_reset_day ==> !latch.rolled(today).halted && latch.rolled(
            today,
        ).last_reset_day == today,
        today <= latch.last_reset_day ==> latch.rolled(today) == latch,
{
}

} // verus!
