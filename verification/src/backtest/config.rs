//! Configuration of a backtest, and its builder.

use vstd::prelude::*;

use crate::backtest::chronology::sorts;
use crate::backtest::costs::{FeeModel, SlippageModel, DEFAULT_FEE_BITS};
use crate::backtest::error::{ConfigFault, Error};
use crate::backtest::fills::{is_price, FillModel};
use crate::backtest::funding::{
    fault_is_unique, fault_of, times_are_those_of_settlements, FundingModel, FundingView,
};
use crate::domain::brain::ONE_BITS;
use crate::domain::market::Symbol;
use crate::num::Binary64;
use crate::risk::circuit_breaker::CircuitBreakerConfig;
use crate::risk::session_pnl::SessionPnlConfig;
use crate::risk::sizing::{SizingConfig, DEFAULT_MARGIN_BITS};

verus! {

/// Bit pattern of ten thousand.
pub const DEFAULT_CASH_BITS: u64 = 0x40c3_8800_0000_0000;

/// Configuration of a backtest.
#[derive(Clone, Debug)]
pub struct BacktestConfig {
    /// Symbols to trade. Candles of other symbols are shown to the strategy
    /// and not traded.
    pub symbols: Vec<Symbol>,
    /// Starting balance in quote currency, shared by all symbols.
    pub initial_cash: Binary64,
    /// How a decision becomes a number of contracts.
    pub sizing: SizingConfig,
    /// Slippage of fills that take.
    pub slippage: SlippageModel,
    /// Fee schedule.
    pub fees: FeeModel,
    /// How orders turn into fills.
    pub fill_model: FillModel,
    /// Funding schedule of open positions.
    pub funding: FundingModel,
    /// Base-asset units per contract.
    pub contract_value: Binary64,
    /// Risk-free rate per period.
    pub risk_free_rate: Binary64,
    /// Periods in a year.
    pub periods_per_year: u32,
    /// Session halt per symbol, on replay time; off if absent.
    pub session_pnl: Option<SessionPnlConfig>,
    /// Circuit breaker per symbol, on replay time; off if absent.
    pub circuit_breaker: Option<CircuitBreakerConfig>,
}

impl BacktestConfig {
    /// The symbol of a configuration that has exactly one.
    pub fn symbol(&self) -> (r: &Symbol)
        requires
            self.symbols@.len() == 1,
        ensures
            *r == self.symbols@[0],
    {
        &self.symbols[0]
    }

    /// A builder with nothing set.
    pub fn builder() -> (r: BacktestConfigBuilder)
        ensures
            r.is_blank(),
    {
        BacktestConfigBuilder::default()
    }
}

/// Collects the settings of a [`BacktestConfig`] and checks them at the end.
#[derive(Clone, Debug)]
pub struct BacktestConfigBuilder {
    /// Symbols.
    pub symbols: Vec<Symbol>,
    /// Starting balance; ten thousand if unset.
    pub initial_cash: Option<Binary64>,
    /// Sizing; the default if unset.
    pub sizing: Option<SizingConfig>,
    /// Slippage; none if unset.
    pub slippage: Option<SlippageModel>,
    /// Fees; five basis points if unset.
    pub fees: Option<FeeModel>,
    /// Fill model; single-candle fills if unset.
    pub fill_model: Option<FillModel>,
    /// Funding; off if unset.
    pub funding: Option<FundingModel>,
    /// Contract value; one if unset.
    pub contract_value: Option<Binary64>,
    /// Risk-free rate; zero if unset.
    pub risk_free_rate: Option<Binary64>,
    /// Periods in a year; 252 if unset.
    pub periods_per_year: Option<u32>,
    /// Session halt; off if unset.
    pub session_pnl: Option<SessionPnlConfig>,
    /// Circuit breaker; off if unset.
    pub circuit_breaker: Option<CircuitBreakerConfig>,
}

impl Default for BacktestConfigBuilder {
    fn default() -> (r: Self)
        ensures
            r.is_blank(),
    {
        BacktestConfigBuilder {
            symbols: Vec::new(),
            initial_cash: None,
            sizing: None,
            slippage: None,
            fees: None,
            fill_model: None,
            funding: None,
            contract_value: None,
            risk_free_rate: None,
            periods_per_year: None,
            session_pnl: None,
            circuit_breaker: None,
        }
    }
}

/// A setting, or what stands in for it.
pub open spec fn or<T>(setting: Option<T>, otherwise: T) -> T {
    match setting {
        Some(v) => v,
        None => otherwise,
    }
}

impl BacktestConfigBuilder {
    /// Nothing is set.
    pub open spec fn is_blank(self) -> bool {
        &&& self.symbols@ == Seq::<Symbol>::empty()
        &&& self.initial_cash is None
        &&& self.sizing is None
        &&& self.slippage is None
        &&& self.fees is None
        &&& self.fill_model is None
        &&& self.funding is None
        &&& self.contract_value is None
        &&& self.risk_free_rate is None
        &&& self.periods_per_year is None
        &&& self.session_pnl is None
        &&& self.circuit_breaker is None
    }

    /// The starting balance that the settings come to.
    pub open spec fn cash(self) -> Binary64 {
        or(self.initial_cash, Binary64 { bits: DEFAULT_CASH_BITS })
    }

    /// The contract value that the settings come to.
    pub open spec fn value(self) -> Binary64 {
        or(self.contract_value, Binary64 { bits: ONE_BITS })
    }

    /// The risk-free rate that the settings come to.
    pub open spec fn rate(self) -> Binary64 {
        or(self.risk_free_rate, Binary64::spec_zero())
    }

    /// The periods in a year that the settings come to.
    pub open spec fn periods(self) -> u32 {
        or(self.periods_per_year, 252)
    }

    /// The funding schedule that the settings come to, before it is sorted.
    pub open spec fn schedule(self) -> FundingView {
        match self.funding {
            Some(f) => f@,
            None => FundingView::Off,
        }
    }

    /// Whether the session limit, if there is one, is a number.
    pub open spec fn session_limit_ok(self) -> bool {
        self.session_pnl is Some ==> !self.session_pnl->0.loss_limit.spec_is_nan()
    }

    /// Whether a fault is the first one in the settings. They are looked at in
    /// this order: symbols, balance, contract value, rate, periods, session
    /// limit, funding.
    pub open spec fn first_fault(self, fault: ConfigFault) -> bool {
        if self.symbols@.len() == 0 {
            fault == ConfigFault::NoSymbols
        } else if !is_price(self.cash()) {
            fault == ConfigFault::InitialCash
        } else if !is_price(self.value()) {
            fault == ConfigFault::ContractValue
        } else if !self.rate().spec_is_finite() {
            fault == ConfigFault::RiskFreeRate
        } else if self.periods() == 0 {
            fault == ConfigFault::PeriodsPerYear
        } else if !self.session_limit_ok() {
            fault == ConfigFault::SessionLossLimit
        } else {
            !self.schedule().is_valid() && fault is Funding && fault_of(
                self.schedule(),
                fault->Funding_0,
            )
        }
    }

    /// Whether every setting can be used.
    pub open spec fn is_valid(self) -> bool {
        &&& self.symbols@.len() > 0
        &&& is_price(self.cash())
        &&& is_price(self.value())
        &&& self.rate().spec_is_finite()
        &&& self.periods() > 0
        &&& self.session_limit_ok()
        &&& self.schedule().is_valid()
    }

    /// Trade a single symbol.
    pub fn symbol<S: Into<Symbol>>(self, sym: S) -> (r: Self)
        ensures
            r.symbols@.len() == 1,
            call_ensures(<S as Into<Symbol>>::into, (sym,), r.symbols@[0]),
            r == (BacktestConfigBuilder { symbols: r.symbols, ..self }),
    {
        let mut symbols: Vec<Symbol> = Vec::new();
        symbols.push(sym.into());
        BacktestConfigBuilder { symbols, ..self }
    }

    /// Trade the given symbols.
    pub fn symbols(self, symbols: Vec<Symbol>) -> (r: Self)
        ensures
            r == (BacktestConfigBuilder { symbols, ..self }),
    {
        BacktestConfigBuilder { symbols, ..self }
    }

    /// Set the starting balance.
    pub fn initial_cash(self, cash: Binary64) -> (r: Self)
        ensures
            r == (BacktestConfigBuilder { initial_cash: Some(cash), ..self }),
    {
        BacktestConfigBuilder { initial_cash: Some(cash), ..self }
    }

    /// Set the sizing.
    pub fn sizing(self, sizing: SizingConfig) -> (r: Self)
        ensures
            r == (BacktestConfigBuilder { sizing: Some(sizing), ..self }),
    {
        BacktestConfigBuilder { sizing: Some(sizing), ..self }
    }

    /// Set the slippage.
    pub fn slippage(self, m: SlippageModel) -> (r: Self)
        ensures
            r == (BacktestConfigBuilder { slippage: Some(m), ..self }),
    {
        BacktestConfigBuilder { slippage: Some(m), ..self }
    }

    /// Set the fees.
    pub fn fees(self, m: FeeModel) -> (r: Self)
        ensures
            r == (BacktestConfigBuilder { fees: Some(m), ..self }),
    {
        BacktestConfigBuilder { fees: Some(m), ..self }
    }

    /// Set the fill model.
    pub fn fill_model(self, m: FillModel) -> (r: Self)
        ensures
            r == (BacktestConfigBuilder { fill_model: Some(m), ..self }),
    {
        BacktestConfigBuilder { fill_model: Some(m), ..self }
    }

    /// Set the funding schedule.
    pub fn funding(self, m: FundingModel) -> (r: Self)
        ensures
            r == (BacktestConfigBuilder { funding: Some(m), ..self }),
    {
        BacktestConfigBuilder { funding: Some(m), ..self }
    }

    /// Set the contract value.
    pub fn contract_value(self, cv: Binary64) -> (r: Self)
        ensures
            r == (BacktestConfigBuilder { contract_value: Some(cv), ..self }),
    {
        BacktestConfigBuilder { contract_value: Some(cv), ..self }
    }

    /// Set the risk-free rate per period.
    pub fn risk_free_rate(self, rate: Binary64) -> (r: Self)
        ensures
            r == (BacktestConfigBuilder { risk_free_rate: Some(rate), ..self }),
    {
        BacktestConfigBuilder { risk_free_rate: Some(rate), ..self }
    }

    /// Set the number of periods in a year.
    pub fn periods_per_year(self, n: u32) -> (r: Self)
        ensures
            r == (BacktestConfigBuilder { periods_per_year: Some(n), ..self }),
    {
        BacktestConfigBuilder { periods_per_year: Some(n), ..self }
    }

    /// Enable the session halt.
    pub fn session_pnl(self, cfg: SessionPnlConfig) -> (r: Self)
        ensures
            r == (BacktestConfigBuilder { session_pnl: Some(cfg), ..self }),
    {
        BacktestConfigBuilder { session_pnl: Some(cfg), ..self }
    }

    /// Enable the circuit breaker.
    pub fn circuit_breaker(self, cfg: CircuitBreakerConfig) -> (r: Self)
        ensures
            r == (BacktestConfigBuilder { circuit_breaker: Some(cfg), ..self }),
    {
        BacktestConfigBuilder { circuit_breaker: Some(cfg), ..self }
    }

    /// Check the settings, fill in the defaults and put the funding series in
    /// order.
    pub fn build(self) -> (r: Result<BacktestConfig, Error>)
        ensures
            r is Ok <==> self.is_valid(),
            r is Err ==> r->Err_0 is Config && self.first_fault(r->Err_0->Config_0),
            r is Ok ==> {
                let config = r->Ok_0;
                &&& config.symbols == self.symbols
                &&& config.initial_cash == self.cash()
                &&& config.sizing == or(
                    self.sizing,
                    (SizingConfig {
                        margin_per_trade: Binary64 { bits: DEFAULT_MARGIN_BITS },
                        leverage: 5,
                        max_contracts: 50,
                    }),
                )
                &&& config.slippage == or(self.slippage, SlippageModel::Zero)
                &&& config.fees == or(self.fees, FeeModel::Flat(Binary64 { bits: DEFAULT_FEE_BITS }))
                &&& config.fill_model == or(self.fill_model, FillModel::TakerAtClose)
                &&& config.funding@.is_normal()
                &&& !(self.schedule() is Series) ==> config.funding@ == self.schedule()
                &&& self.schedule() is Series ==> config.funding@ is Series && sorts(
                    self.schedule()->Series_0,
                    config.funding@->Series_0,
                )
                &&& config.contract_value == self.value()
                &&& config.risk_free_rate == self.rate()
                &&& config.periods_per_year == self.periods()
                &&& config.session_pnl == self.session_pnl
                &&& config.circuit_breaker == self.circuit_breaker
            },
    {
        if self.symbols.len() == 0 {
            return Err(Error::Config(ConfigFault::NoSymbols));
        }
        let initial_cash = match self.initial_cash {
            Some(cash) => cash,
            None => Binary64::from_bits(DEFAULT_CASH_BITS),
        };
        if !initial_cash.is_finite() || !initial_cash.is_positive() {
            return Err(Error::Config(ConfigFault::InitialCash));
        }
        let contract_value = match self.contract_value {
            Some(value) => value,
            None => Binary64::from_bits(ONE_BITS),
        };
        if !contract_value.is_finite() || !contract_value.is_positive() {
            return Err(Error::Config(ConfigFault::ContractValue));
        }
        let risk_free_rate = match self.risk_free_rate {
            Some(rate) => rate,
            None => Binary64::zero(),
        };
        if !risk_free_rate.is_finite() {
            return Err(Error::Config(ConfigFault::RiskFreeRate));
        }
        let periods_per_year: u32 = match self.periods_per_year {
            Some(n) => n,
            None => 252,
        };
        if periods_per_year == 0 {
            return Err(Error::Config(ConfigFault::PeriodsPerYear));
        }
        if let Some(session) = self.session_pnl {
            if session.loss_limit.is_nan() {
                return Err(Error::Config(ConfigFault::SessionLossLimit));
            }
        }
        let schedule = match self.funding {
            Some(model) => model,
            None => FundingModel::off(),
        };
        let funding = match schedule.validated() {
            Ok(model) => model,
            Err(fault) => {
                return Err(Error::Config(ConfigFault::Funding(fault)));
            },
        };
        let sizing = match self.sizing {
            Some(s) => s,
            None => SizingConfig::default(),
        };
        let slippage = match self.slippage {
            Some(m) => m,
            None => SlippageModel::default(),
        };
        let fees = match self.fees {
            Some(m) => m,
            None => FeeModel::default(),
        };
        let fill_model = match self.fill_model {
            Some(m) => m,
            None => FillModel::default(),
        };
        Ok(
            BacktestConfig {
                symbols: self.symbols,
                initial_cash,
                sizing,
                slippage,
                fees,
                fill_model,
                funding,
                contract_value,
                risk_free_rate,
                periods_per_year,
                session_pnl: self.session_pnl,
                circuit_breaker: self.circuit_breaker,
            },
        )
    }
}

/// The faults that a set of settings can be refused for are those of settings
/// that are not valid, and no other fault is reported for them.
pub proof fn refusal_has_one_reason(b: BacktestConfigBuilder, f: ConfigFault, g: ConfigFault)
    requires
        b.first_fault(f),
        b.first_fault(g),
    ensures
        !b.is_valid(),
        f == g,
{
    if f is Funding && g is Funding {
        fault_is_unique(b.schedule(), f->Funding_0, g->Funding_0);
    }
}

/// Settings are accepted exactly where at least one symbol is named and every
/// setting that is there can be used: a balance and a contract value that are
/// finite and above zero, a finite rate, at least one period, a session limit
/// that is a number, and a funding schedule with finite rates, a positive
/// interval and no two settlements at one time. What is left unset stands in no
/// one's way.
pub proof fn usable_settings_are_accepted(b: BacktestConfigBuilder)
    ensures
        b.is_valid() <==> {
            let zero = Binary64::spec_zero();
            &&& b.symbols@.len() > 0
            &&& b.initial_cash matches Some(cash) ==> cash.spec_is_finite() && zero.spec_lt(cash)
            &&& b.contract_value matches Some(value) ==> value.spec_is_finite() && zero.spec_lt(value)
            &&& b.risk_free_rate matches Some(rate) ==> rate.spec_is_finite()
            &&& b.periods_per_year matches Some(n) ==> n > 0
            &&& b.session_pnl matches Some(session) ==> !session.loss_limit.spec_is_nan()
            &&& b.funding matches Some(model) ==> match model@ {
                FundingView::Off => true,
                FundingView::Constant { rate, interval_ms } => rate.spec_is_finite() && interval_ms
                    > 0,
                FundingView::Series(points) => {
                    &&& forall|i: int|
                        0 <= i < points.len() ==> (#[trigger] points[i]).rate.spec_is_finite()
                    &&& forall|i: int, j: int|
                        0 <= i < j < points.len() ==> (#[trigger] points[i]).time != (
                        #[trigger] points[j]).time
                },
            }
        },
{
    if let Some(model) = b.funding {
        if let FundingView::Series(points) = model@ {
            times_are_those_of_settlements(points);
        }
    }
}

/// A refusal names the first setting that cannot be used, in the order symbols,
/// balance, contract value, rate, periods, session limit, funding.
pub proof fn refusals_name_the_first_fault(b: BacktestConfigBuilder, fault: ConfigFault)
    requires
        b.first_fault(fault),
    ensures
        ({
            let zero = Binary64::spec_zero();
            let cash_ok = b.initial_cash matches Some(cash) ==> cash.spec_is_finite()
                && zero.spec_lt(cash);
            let value_ok = b.contract_value matches Some(value) ==> value.spec_is_finite()
                && zero.spec_lt(value);
            let rate_ok = b.risk_free_rate matches Some(rate) ==> rate.spec_is_finite();
            let periods_ok = b.periods_per_year != Some(0u32);
            let session_ok = b.session_pnl matches Some(s) ==> !s.loss_limit.spec_is_nan();
            let named = b.symbols@.len() > 0;
            match fault {
                ConfigFault::NoSymbols => !named,
                ConfigFault::InitialCash => named && !cash_ok,
                ConfigFault::ContractValue => named && cash_ok && !value_ok,
                ConfigFault::RiskFreeRate => named && cash_ok && value_ok && !rate_ok,
                ConfigFault::PeriodsPerYear => named && cash_ok && value_ok && rate_ok
                    && !periods_ok,
                ConfigFault::SessionLossLimit => named && cash_ok && value_ok && rate_ok
                    && periods_ok && !session_ok,
                ConfigFault::Funding(_) => named && cash_ok && value_ok && rate_ok && periods_ok
                    && session_ok && b.funding is Some,
            }
        }),
{
}

/// What is set counts, and what is not set is ten thousand of balance, one unit
/// per contract, no risk-free rate, 252 periods and no funding.
pub proof fn settings_count_where_they_are_set(b: BacktestConfigBuilder)
    ensures
        b.initial_cash is Some ==> b.cash() == b.initial_cash->0,
        b.initial_cash is None ==> b.cash().bits == 0x40c3_8800_0000_0000,
        b.contract_value is Some ==> b.value() == b.contract_value->0,
        b.contract_value is None ==> b.value().bits == 0x3ff0_0000_0000_0000,
        b.risk_free_rate is Some ==> b.rate() == b.risk_free_rate->0,
        b.risk_free_rate is None ==> b.rate().bits == 0,
        b.periods_per_year is Some ==> b.periods() == b.periods_per_year->0,
        b.periods_per_year is None ==> b.periods() == 252,
        b.funding is Some ==> b.schedule() == b.funding->0@,
        b.funding is None ==> b.schedule() is Off,
{
}

/// A builder starts with nothing set, so that it is refused for want of a symbol
/// and needs nothing else.
pub proof fn blank_builders_need_a_symbol(b: BacktestConfigBuilder, symbols: Vec<Symbol>)
    requires
        b.is_blank(),
        symbols@.len() > 0,
    ensures
        b.first_fault(ConfigFault::NoSymbols),
        (BacktestConfigBuilder { symbols, ..b }).is_valid(),
        b.initial_cash is None && b.contract_value is None && b.risk_free_rate is None,
        b.periods_per_year is None && b.sizing is None && b.slippage is None && b.fees is None,
        b.fill_model is None && b.funding is None,
        b.session_pnl is None && b.circuit_breaker is None,
{
}

} // verus!
