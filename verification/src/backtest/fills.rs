//! When and at what reference price a replayed order fills.

use vstd::prelude::*;

use crate::backtest::holding::{same_direction, size_of, Holding};
use crate::domain::brain::Decision;
use crate::domain::market::Side;
use crate::domain::signal::SignalType;
use crate::domain::types::{Candle, OrderKind, Price};
use crate::num::Binary64;

verus! {

/// How the replay turns orders into fills.
#[derive(Clone, Copy, Debug, PartialEq, Eq, Structural)]
pub enum FillModel {
    /// Single-candle fills.
    ///
    /// Market, immediate-or-cancel and fill-or-kill entries and closes take at
    /// the decision candle's close. Limit and post-only entries fill only if
    /// the decision candle itself crosses the level and are dropped otherwise.
    /// Brackets need both legs and fill at their level even when a candle gaps
    /// through it.
    TakerAtClose,
    /// Orders reach the book at the decision candle's close.
    ///
    /// What is marketable there takes at the close. Other limit and post-only
    /// entries rest and fill on the first later candle that crosses them, at
    /// the limit or, on a gap, at that candle's open. Stops fill at their
    /// level or worse, take-profits at their level or better, each leg on its
    /// own if it must.
    Resting,
}

impl Default for FillModel {
    fn default() -> (r: Self)
        ensures
            r == FillModel::TakerAtClose,
    {
        FillModel::TakerAtClose
    }
}

/// Protective levels of a position.
#[derive(Clone, Copy, Debug, PartialEq, Eq, Structural)]
pub struct Bracket {
    /// Stop-loss level.
    pub stop: Option<Binary64>,
    /// Take-profit level.
    pub take_profit: Option<Binary64>,
}

impl Bracket {
    /// No protection.
    pub open spec fn spec_none() -> Self {
        Bracket { stop: None, take_profit: None }
    }

    /// Whether there is any level.
    pub open spec fn has_leg(self) -> bool {
        self.stop is Some || self.take_profit is Some
    }

    /// No protection.
    pub fn none() -> (r: Self)
        ensures
            r == Self::spec_none(),
    {
        Bracket { stop: None, take_profit: None }
    }
}

/// A decision resolved into an order of at least one contract.
#[derive(Clone, Copy, Debug, PartialEq, Eq, Structural)]
pub struct ResolvedOrder {
    /// Side of the order.
    pub side: Side,
    /// Contracts to trade.
    pub qty: u128,
    /// Whether the order closes the position.
    pub is_close: bool,
    /// How the order reaches the market.
    pub kind: OrderKind,
    /// Limit price, if one was given.
    pub limit: Option<Binary64>,
    /// Protective levels that go with the order.
    pub legs: Bracket,
}

/// The level as a plain number.
pub open spec fn level(price: Option<Price>) -> Option<Binary64> {
    match price {
        Some(p) => Some(p.0),
        None => None,
    }
}

fn level_of(price: Option<Price>) -> (r: Option<Binary64>)
    ensures
        r == level(price),
{
    match price {
        Some(p) => Some(p.0),
        None => None,
    }
}

/// Side of an entry signal.
pub open spec fn entry_side(signal: SignalType) -> Side {
    if signal == SignalType::Buy {
        Side::Buy
    } else {
        Side::Sell
    }
}

/// The order that a decision asks for: nothing for a hold, for a close while
/// flat and for an entry that was sized to nothing; the whole position at the
/// market for a close; `contracts` on the signalled side for an entry.
pub open spec fn order_for(decision: Decision, holding: Holding, contracts: u32) -> Option<ResolvedOrder> {
    match decision.signal {
        SignalType::Hold => None,
        SignalType::Close => match holding.spec_close_side() {
            Some(side) => Some(
                ResolvedOrder {
                    side,
                    qty: size_of(holding.qty as int) as u128,
                    is_close: true,
                    kind: OrderKind::Market,
                    limit: None,
                    legs: Bracket::spec_none(),
                },
            ),
            None => None,
        },
        SignalType::Buy | SignalType::Sell => if contracts == 0 {
            None
        } else {
            Some(
                ResolvedOrder {
                    side: entry_side(decision.signal),
                    qty: contracts as u128,
                    is_close: false,
                    kind: decision.order_kind,
                    limit: level(decision.limit_price),
                    legs: Bracket {
                        stop: level(decision.stop_price),
                        take_profit: level(decision.take_profit_price),
                    },
                },
            )
        },
    }
}

/// Resolve a decision into an order. `contracts` is the size of an entry.
pub fn resolve_order(decision: &Decision, holding: &Holding, contracts: u32) -> (r: Option<
    ResolvedOrder,
>)
    requires
        holding.qty > i128::MIN,
    ensures
        r == order_for(*decision, *holding, contracts),
        r is Some ==> r->0.qty > 0,
{
    match decision.signal {
        SignalType::Hold => None,
        SignalType::Close => match holding.close_side() {
            Some(side) => Some(
                ResolvedOrder {
                    side,
                    qty: holding.size(),
                    is_close: true,
                    kind: OrderKind::Market,
                    limit: None,
                    legs: Bracket::none(),
                },
            ),
            None => None,
        },
        SignalType::Buy | SignalType::Sell => {
            if contracts == 0 {
                return None;
            }
            let side = match decision.signal {
                SignalType::Buy => Side::Buy,
                _ => Side::Sell,
            };
            Some(
                ResolvedOrder {
                    side,
                    qty: contracts as u128,
                    is_close: false,
                    kind: decision.order_kind,
                    limit: level_of(decision.limit_price),
                    legs: Bracket {
                        stop: level_of(decision.stop_price),
                        take_profit: level_of(decision.take_profit_price),
                    },
                },
            )
        },
    }
}

/// Whether a level on the given side of the book is reached by a price: a
/// buyer's level from above, a seller's from below.
pub open spec fn reaches(side: Side, limit: Binary64, price: Binary64) -> bool {
    match side {
        Side::Buy => price.spec_le(limit),
        Side::Sell => limit.spec_le(price),
    }
}

fn is_reached(side: Side, limit: Binary64, price: Binary64) -> (r: bool)
    ensures
        r == reaches(side, limit, price),
{
    match side {
        Side::Buy => price.le(limit),
        Side::Sell => limit.le(price),
    }
}

/// The price of a candle that comes closest to a level on the given side: the
/// low for a buyer, the high for a seller.
pub open spec fn extreme(side: Side, candle: Candle) -> Binary64 {
    match side {
        Side::Buy => candle.low,
        Side::Sell => candle.high,
    }
}

fn extreme_of(side: Side, candle: &Candle) -> (r: Binary64)
    ensures
        r == extreme(side, *candle),
{
    match side {
        Side::Buy => candle.low,
        Side::Sell => candle.high,
    }
}

/// The better of two prices for the given side.
pub open spec fn better(side: Side, a: Binary64, b: Binary64) -> Binary64 {
    match side {
        Side::Buy => a.spec_min(b),
        Side::Sell => a.spec_max(b),
    }
}

fn better_of(side: Side, a: Binary64, b: Binary64) -> (r: Binary64)
    ensures
        r == better(side, a, b),
{
    match side {
        Side::Buy => a.min(b),
        Side::Sell => a.max(b),
    }
}

/// Whether an order takes at once whatever its limit.
pub open spec fn takes_at_once(order: ResolvedOrder) -> bool {
    order.is_close || order.kind == OrderKind::Market || order.kind == OrderKind::Ioc || order.kind
        == OrderKind::Fok
}

/// The limit that an order works with; the close stands in for a missing one.
pub open spec fn working_limit(order: ResolvedOrder, candle: Candle) -> Binary64 {
    match order.limit {
        Some(l) => l,
        None => candle.close,
    }
}

/// Reference price and taker flag of a single-candle fill.
pub open spec fn fill_on(order: ResolvedOrder, candle: Candle) -> Option<(Binary64, bool)> {
    let limit = working_limit(order, candle);
    let marketable = reaches(order.side, limit, candle.open);
    if takes_at_once(order) {
        Some((candle.close, true))
    } else if !reaches(order.side, limit, extreme(order.side, candle)) {
        None
    } else if order.kind == OrderKind::PostOnly && marketable {
        None
    } else {
        Some((better(order.side, limit, candle.open), marketable))
    }
}

/// Decide whether and at what reference price an order fills on its own
/// decision candle, and whether it takes.
///
/// Market, immediate-or-cancel and fill-or-kill orders and closes take at the
/// close. A limit fills if the candle's range reaches it: at the open as a
/// taker where it was marketable there (a post-only is then rejected), else at
/// the limit as a maker. A missing limit falls back to the close.
pub fn resolve_fill(order: &ResolvedOrder, candle: &Candle) -> (r: Option<(Binary64, bool)>)
    ensures
        r == fill_on(*order, *candle),
{
    let at_once = order.is_close || match order.kind {
        OrderKind::Market | OrderKind::Ioc | OrderKind::Fok => true,
        _ => false,
    };
    if at_once {
        return Some((candle.close, true));
    }
    let limit = match order.limit {
        Some(l) => l,
        None => candle.close,
    };
    let marketable = is_reached(order.side, limit, candle.open);
    if !is_reached(order.side, limit, extreme_of(order.side, candle)) {
        return None;
    }
    let post_only = match order.kind {
        OrderKind::PostOnly => true,
        _ => false,
    };
    if post_only && marketable {
        return None;
    }
    Some((better_of(order.side, limit, candle.open), marketable))
}

/// What becomes of an order.
#[derive(Clone, Copy, Debug, PartialEq, Eq, Structural)]
pub enum Routing {
    /// It fills now.
    Fill {
        /// Price before slippage.
        reference: Binary64,
        /// Whether it takes, and so slips.
        taker: bool,
        /// Price that slippage may not push the fill through.
        cap: Option<Binary64>,
    },
    /// It stays on the book at the given limit.
    Rest {
        /// Limit price.
        limit: Binary64,
    },
    /// It is rejected or cancelled.
    Drop,
}

/// What becomes of an order under [`FillModel::Resting`] at the decision
/// candle's close.
pub open spec fn routed_at_close(order: ResolvedOrder, candle: Candle) -> Routing {
    let limit = working_limit(order, candle);
    let marketable = reaches(order.side, limit, candle.close);
    if order.is_close || order.kind == OrderKind::Market {
        Routing::Fill { reference: candle.close, taker: true, cap: None }
    } else if order.kind == OrderKind::Ioc || order.kind == OrderKind::Fok {
        if marketable {
            Routing::Fill { reference: candle.close, taker: true, cap: order.limit }
        } else {
            Routing::Drop
        }
    } else if !marketable {
        Routing::Rest { limit }
    } else if order.kind == OrderKind::PostOnly {
        Routing::Drop
    } else {
        Routing::Fill { reference: candle.close, taker: true, cap: Some(limit) }
    }
}

/// What becomes of an order on its decision candle.
pub open spec fn routed(model: FillModel, order: ResolvedOrder, candle: Candle) -> Routing {
    match model {
        FillModel::TakerAtClose => match fill_on(order, candle) {
            Some((reference, taker)) => Routing::Fill { reference, taker, cap: None },
            None => Routing::Drop,
        },
        FillModel::Resting => routed_at_close(order, candle),
    }
}

/// Decide what becomes of an order on its decision candle.
pub fn route_order(model: FillModel, order: &ResolvedOrder, candle: &Candle) -> (r: Routing)
    ensures
        r == routed(model, *order, *candle),
{
    match model {
        FillModel::TakerAtClose => match resolve_fill(order, candle) {
            Some((reference, taker)) => Routing::Fill { reference, taker, cap: None },
            None => Routing::Drop,
        },
        FillModel::Resting => {
            let limit = match order.limit {
                Some(l) => l,
                None => candle.close,
            };
            let marketable = is_reached(order.side, limit, candle.close);
            if order.is_close {
                return Routing::Fill { reference: candle.close, taker: true, cap: None };
            }
            match order.kind {
                OrderKind::Market => Routing::Fill {
                    reference: candle.close,
                    taker: true,
                    cap: None,
                },
                OrderKind::Ioc | OrderKind::Fok => if marketable {
                    Routing::Fill { reference: candle.close, taker: true, cap: order.limit }
                } else {
                    Routing::Drop
                },
                OrderKind::PostOnly => if marketable {
                    Routing::Drop
                } else {
                    Routing::Rest { limit }
                },
                OrderKind::Limit => if marketable {
                    Routing::Fill { reference: candle.close, taker: true, cap: Some(limit) }
                } else {
                    Routing::Rest { limit }
                },
            }
        },
    }
}

/// A fill price kept from passing through its cap.
pub open spec fn capped(side: Side, price: Binary64, cap: Option<Binary64>) -> Binary64 {
    match cap {
        Some(limit) => better(side, price, limit),
        None => price,
    }
}

/// Keep a slipped price from passing through the order's own limit.
pub fn cap_price(side: Side, price: Binary64, cap: Option<Binary64>) -> (r: Binary64)
    ensures
        r == capped(side, price, cap),
{
    match cap {
        Some(limit) => better_of(side, price, limit),
        None => price,
    }
}

/// An entry that waits on the book.
#[derive(Clone, Copy, Debug, PartialEq, Eq, Structural)]
pub struct RestingOrder {
    /// Side of the order.
    pub side: Side,
    /// Contracts to trade.
    pub qty: u128,
    /// Limit price.
    pub limit: Binary64,
    /// Protective levels that go with the order.
    pub legs: Bracket,
    /// Index of the candle at whose close the order reached the book.
    pub placed: usize,
}

/// Price at which a resting order fills on a later candle, if it does: its
/// limit, or the open where the candle gapped through it.
pub open spec fn resting_price(order: RestingOrder, candle: Candle) -> Option<Binary64> {
    if reaches(order.side, order.limit, extreme(order.side, candle)) {
        Some(better(order.side, order.limit, candle.open))
    } else {
        None
    }
}

/// Decide whether and at what price a resting order fills on a candle.
pub fn resting_fill(order: &RestingOrder, candle: &Candle) -> (r: Option<Binary64>)
    ensures
        r == resting_price(*order, *candle),
{
    if is_reached(order.side, order.limit, extreme_of(order.side, candle)) {
        Some(better_of(order.side, order.limit, candle.open))
    } else {
        None
    }
}

/// A protective leg that fires.
#[derive(Clone, Copy, Debug, PartialEq, Eq, Structural)]
pub enum Leg {
    /// The stop-loss.
    Stop,
    /// The take-profit.
    TakeProfit,
}

/// Whether a stop that closes with `exit` fires on a candle: the market has
/// traded through it against the position.
pub open spec fn stop_hit(exit: Side, stop: Binary64, candle: Candle) -> bool {
    reaches(exit.spec_opposite(), stop, extreme(exit.spec_opposite(), candle))
}

/// Whether a take-profit that closes with `exit` fires on a candle.
pub open spec fn take_profit_hit(exit: Side, level: Binary64, candle: Candle) -> bool {
    reaches(exit, level, extreme(exit, candle))
}

/// Price at which a stop fills: its level, or worse on a gap.
pub open spec fn stop_price(model: FillModel, exit: Side, stop: Binary64, candle: Candle) -> Binary64 {
    match model {
        FillModel::TakerAtClose => stop,
        FillModel::Resting => better(exit.spec_opposite(), stop, candle.open),
    }
}

/// Price at which a take-profit fills: its level, or better on a gap.
pub open spec fn take_profit_price(
    model: FillModel,
    exit: Side,
    level: Binary64,
    candle: Candle,
) -> Binary64 {
    match model {
        FillModel::TakerAtClose => level,
        FillModel::Resting => better(exit, level, candle.open),
    }
}

/// The leg that fires on a candle, if one does, and its price. Where the range
/// spans both, the stop fires.
pub open spec fn exit_on(
    model: FillModel,
    holding: Holding,
    bracket: Bracket,
    candle: Candle,
) -> Option<(Leg, Binary64)> {
    match holding.spec_close_side() {
        None => None,
        Some(exit) => if bracket.stop is Some && stop_hit(exit, bracket.stop->0, candle) {
            Some((Leg::Stop, stop_price(model, exit, bracket.stop->0, candle)))
        } else if bracket.take_profit is Some && take_profit_hit(
            exit,
            bracket.take_profit->0,
            candle,
        ) {
            Some(
                (
                    Leg::TakeProfit,
                    take_profit_price(model, exit, bracket.take_profit->0, candle),
                ),
            )
        } else {
            None
        },
    }
}

/// Only the stop of a bracket.
pub open spec fn stop_only(bracket: Bracket) -> Bracket {
    Bracket { stop: bracket.stop, take_profit: None }
}

/// Decide which protective leg fires on a candle, and at what price.
pub fn bracket_exit(model: FillModel, holding: &Holding, bracket: &Bracket, candle: &Candle) -> (r:
    Option<(Leg, Binary64)>)
    ensures
        r == exit_on(model, *holding, *bracket, *candle),
{
    let exit = match holding.close_side() {
        Some(side) => side,
        None => {
            return None;
        },
    };
    let entry = exit.opposite();
    if let Some(stop) = bracket.stop {
        if is_reached(entry, stop, extreme_of(entry, candle)) {
            let price = match model {
                FillModel::TakerAtClose => stop,
                FillModel::Resting => better_of(entry, stop, candle.open),
            };
            return Some((Leg::Stop, price));
        }
    }
    if let Some(level) = bracket.take_profit {
        if is_reached(exit, level, extreme_of(exit, candle)) {
            let price = match model {
                FillModel::TakerAtClose => level,
                FillModel::Resting => better_of(exit, level, candle.open),
            };
            return Some((Leg::TakeProfit, price));
        }
    }
    None
}

/// Whether a level lies on the losing side of a fill price, for a position of
/// the given signed quantity (or at the fill price).
pub open spec fn protects(qty: int, fill: Binary64, stop: Binary64) -> bool {
    if qty > 0 {
        stop.spec_le(fill)
    } else {
        fill.spec_le(stop)
    }
}

/// Whether a level lies on the winning side of a fill price (or at it).
pub open spec fn profits(qty: int, fill: Binary64, level: Binary64) -> bool {
    if qty > 0 {
        fill.spec_le(level)
    } else {
        level.spec_le(fill)
    }
}

/// The legs that a fill may put on a position of the given signed quantity.
/// Single-candle fills take both legs or none; resting fills take each leg that
/// lies on its own side of the fill price.
pub open spec fn accepted_legs(model: FillModel, qty: int, fill: Binary64, legs: Bracket) -> Bracket {
    match model {
        FillModel::TakerAtClose => if legs.stop is Some && legs.take_profit is Some {
            legs
        } else {
            Bracket::spec_none()
        },
        FillModel::Resting => Bracket {
            stop: if legs.stop is Some && protects(qty, fill, legs.stop->0) {
                legs.stop
            } else {
                None
            },
            take_profit: if legs.take_profit is Some && profits(qty, fill, legs.take_profit->0) {
                legs.take_profit
            } else {
                None
            },
        },
    }
}

/// The bracket after a fill: none while flat; the accepted new legs if there
/// are any; else the old bracket while the position keeps its direction.
pub open spec fn bracket_after(
    model: FillModel,
    bracket: Bracket,
    old_qty: int,
    new_qty: int,
    fill: Binary64,
    legs: Bracket,
) -> Bracket {
    let accepted = accepted_legs(model, new_qty, fill, legs);
    if new_qty == 0 {
        Bracket::spec_none()
    } else if accepted.has_leg() {
        accepted
    } else if same_direction(old_qty, new_qty) {
        bracket
    } else {
        Bracket::spec_none()
    }
}

fn legs_accepted(model: FillModel, long: bool, fill: Binary64, legs: Bracket) -> (r: Bracket)
    ensures
        forall|qty: int| qty != 0 && (qty > 0) == long ==> r == #[trigger] accepted_legs(model, qty, fill, legs),
{
    match model {
        FillModel::TakerAtClose => if legs.stop.is_some() && legs.take_profit.is_some() {
            legs
        } else {
            Bracket::none()
        },
        FillModel::Resting => {
            let stop = match legs.stop {
                Some(s) => {
                    let keeps = if long {
                        s.le(fill)
                    } else {
                        fill.le(s)
                    };
                    if keeps {
                        legs.stop
                    } else {
                        None
                    }
                },
                None => None,
            };
            let take_profit = match legs.take_profit {
                Some(t) => {
                    let keeps = if long {
                        fill.le(t)
                    } else {
                        t.le(fill)
                    };
                    if keeps {
                        legs.take_profit
                    } else {
                        None
                    }
                },
                None => None,
            };
            Bracket { stop, take_profit }
        },
    }
}

/// Work out the bracket after a fill.
pub fn update_bracket(
    model: FillModel,
    bracket: Bracket,
    old_qty: i128,
    new_qty: i128,
    fill: Binary64,
    legs: Bracket,
) -> (r: Bracket)
    ensures
        r == bracket_after(model, bracket, old_qty as int, new_qty as int, fill, legs),
{
    if new_qty == 0 {
        return Bracket::none();
    }
    let accepted = legs_accepted(model, new_qty > 0, fill, legs);
    assert(accepted == accepted_legs(model, new_qty as int, fill, legs));
    if accepted.stop.is_some() || accepted.take_profit.is_some() {
        accepted
    } else if (old_qty > 0 && new_qty > 0) || (old_qty < 0 && new_qty < 0) {
        bracket
    } else {
        Bracket::none()
    }
}

/// Prices that a replay works with: finite and above zero.
pub open spec fn is_price(p: Binary64) -> bool {
    p.spec_is_finite() && p.spec_is_positive()
}

/// A resting order never does better than the market offered: it fills at its
/// limit or at the open, no worse than its limit, and at the open only where
/// the candle opened beyond the limit.
pub proof fn resting_price_is_fair(order: RestingOrder, candle: Candle)
    requires
        !order.limit.spec_is_nan(),
        is_price(candle.open),
        resting_price(order, candle) is Some,
    ensures
        ({
            let price = resting_price(order, candle)->0;
            &&& price == order.limit || price == candle.open
            &&& reaches(order.side, order.limit, price)
            &&& price != order.limit ==> reaches(order.side, order.limit, candle.open)
        }),
{
}

/// A resting stop fills at its level or worse, and worse only where the candle
/// opened beyond the level.
pub proof fn stop_fills_at_level_or_worse(exit: Side, stop: Binary64, candle: Candle)
    requires
        !stop.spec_is_nan(),
        is_price(candle.open),
    ensures
        ({
            let price = stop_price(FillModel::Resting, exit, stop, candle);
            &&& price == stop || price == candle.open
            &&& reaches(exit.spec_opposite(), stop, price)
            &&& price != stop ==> stop_hit(exit, stop, (Candle { low: candle.open, high: candle.open, ..candle }))
        }),
{
}

/// A resting take-profit fills at its level or better.
pub proof fn take_profit_fills_at_level_or_better(exit: Side, level: Binary64, candle: Candle)
    requires
        !level.spec_is_nan(),
        is_price(candle.open),
    ensures
        ({
            let price = take_profit_price(FillModel::Resting, exit, level, candle);
            &&& price == level || price == candle.open
            &&& reaches(exit, level, price)
        }),
{
}

/// Where one candle spans both legs, the stop is the one that fires.
pub proof fn stop_fires_before_take_profit(
    model: FillModel,
    holding: Holding,
    bracket: Bracket,
    candle: Candle,
)
    requires
        holding.spec_close_side() is Some,
        bracket.stop is Some,
        stop_hit(holding.spec_close_side()->0, bracket.stop->0, candle),
    ensures
        exit_on(model, holding, bracket, candle) is Some,
        (exit_on(model, holding, bracket, candle)->0).0 == Leg::Stop,
{
}

/// A capped fill never passes through its cap, and is the slipped price itself
/// wherever that does not pass through.
pub proof fn cap_holds(side: Side, price: Binary64, limit: Binary64)
    requires
        !price.spec_is_nan(),
        !limit.spec_is_nan(),
    ensures
        reaches(side, limit, capped(side, price, Some(limit))),
        reaches(side, limit, price) ==> capped(side, price, Some(limit)) == price,
        !reaches(side, limit, price) ==> capped(side, price, Some(limit)) == limit,
{
}

/// Single-candle fills leave nothing on the book.
pub proof fn taker_at_close_never_rests(order: ResolvedOrder, candle: Candle)
    ensures
        !(routed(FillModel::TakerAtClose, order, candle) is Rest),
{
}

/// Under the resting model nothing fills at any price of the decision candle
/// but its close: what the candle's range printed before the order existed
/// fills nothing.
pub proof fn decision_candle_fills_only_at_close(order: ResolvedOrder, candle: Candle)
    ensures
        match routed(FillModel::Resting, order, candle) {
            Routing::Fill { reference, taker, .. } => reference == candle.close && taker,
            _ => true,
        },
        forall|open: Binary64, high: Binary64, low: Binary64|
            routed(FillModel::Resting, order, (Candle { open, high, low, ..candle }))
                == #[trigger] routed_at_close(order, (Candle { open, high, low, ..candle }))
            && routed_at_close(order, (Candle { open, high, low, ..candle }))
                == routed_at_close(order, candle),
{
}

/// A post-only order never takes.
pub proof fn post_only_never_takes(model: FillModel, order: ResolvedOrder, candle: Candle)
    requires
        order.kind == OrderKind::PostOnly,
        !order.is_close,
    ensures
        match routed(model, order, candle) {
            Routing::Fill { taker, .. } => !taker,
            _ => true,
        },
{
}

/// Immediate orders never rest.
pub proof fn immediate_orders_never_rest(model: FillModel, order: ResolvedOrder, candle: Candle)
    requires
        takes_at_once(order),
    ensures
        !(routed(model, order, candle) is Rest),
{
}

/// A flat or turned-round position has no leg of the old bracket left on it.
pub proof fn stale_bracket_is_cleared(
    model: FillModel,
    bracket: Bracket,
    old_qty: int,
    new_qty: int,
    fill: Binary64,
)
    requires
        !same_direction(old_qty, new_qty),
    ensures
        bracket_after(model, bracket, old_qty, new_qty, fill, Bracket::spec_none())
            == Bracket::spec_none(),
{
}

/// Adding to a position without new levels keeps the bracket it has.
pub proof fn scale_in_keeps_the_bracket(
    model: FillModel,
    bracket: Bracket,
    old_qty: int,
    new_qty: int,
    fill: Binary64,
)
    requires
        same_direction(old_qty, new_qty),
    ensures
        bracket_after(model, bracket, old_qty, new_qty, fill, Bracket::spec_none()) == bracket,
{
}

/// Under the resting model a fill puts no leg on the wrong side of its price.
pub proof fn new_legs_are_coherent(
    bracket: Bracket,
    old_qty: int,
    new_qty: int,
    fill: Binary64,
    legs: Bracket,
)
    requires
        new_qty != 0,
    ensures
        ({
            let after = bracket_after(FillModel::Resting, bracket, old_qty, new_qty, fill, legs);
            after == bracket || {
                &&& after.stop is Some ==> protects(new_qty, fill, after.stop->0)
                &&& after.take_profit is Some ==> profits(new_qty, fill, after.take_profit->0)
            }
        }),
{
}

/// Single-candle fills ignore a bracket with one leg.
pub proof fn taker_at_close_needs_both_legs(
    bracket: Bracket,
    old_qty: int,
    new_qty: int,
    fill: Binary64,
    legs: Bracket,
)
    requires
        legs.stop is None || legs.take_profit is None,
    ensures
        bracket_after(FillModel::TakerAtClose, bracket, old_qty, new_qty, fill, legs)
            == bracket_after(
            FillModel::TakerAtClose,
            bracket,
            old_qty,
            new_qty,
            fill,
            Bracket::spec_none(),
        ),
{
}

} // verus!
