//! What holds of orders, fills, exits and brackets, in terms of prices and
//! quantities alone.

use vstd::prelude::*;

use crate::backtest::book::{fill_price, FillRequest};
use crate::backtest::fills::{
    bracket_after, capped, exit_on, fill_on, order_for, resting_price, routed, Bracket, FillModel,
    Leg, ResolvedOrder, RestingOrder, Routing,
};
use crate::backtest::holding::Holding;
use crate::domain::brain::Decision;
use crate::domain::market::Side;
use crate::domain::signal::SignalType;
use crate::domain::types::{Candle, OrderKind, Price};
use crate::num::Binary64;

verus! {

/// A hold asks for no order, whatever else the decision says.
pub proof fn holds_ask_for_nothing(decision: Decision, holding: Holding, contracts: u32)
    requires
        decision.signal == SignalType::Hold,
    ensures
        order_for(decision, holding, contracts) is None,
{
}

/// An entry asks for exactly the contracts it was sized to, on the side it
/// signals, by the kind and with the levels it names. It asks for nothing only
/// where it was sized to nothing, and what is held already plays no part.
pub proof fn entries_ask_for_their_size(
    decision: Decision,
    holding: Holding,
    other: Holding,
    contracts: u32,
)
    requires
        decision.signal == SignalType::Buy || decision.signal == SignalType::Sell,
    ensures
        order_for(decision, holding, contracts) == order_for(decision, other, contracts),
        order_for(decision, holding, contracts) is Some <==> contracts > 0,
        order_for(decision, holding, contracts) matches Some(order) ==> {
            &&& order.qty == contracts
            &&& order.side == Side::Buy <==> decision.signal == SignalType::Buy
            &&& order.side == Side::Sell <==> decision.signal == SignalType::Sell
            &&& !order.is_close
            &&& order.kind == decision.order_kind
            &&& order.limit is Some <==> decision.limit_price is Some
            &&& order.limit is Some ==> decision.limit_price == Some(Price(order.limit->0))
            &&& order.legs.stop is Some <==> decision.stop_price is Some
            &&& order.legs.stop is Some ==> decision.stop_price == Some(Price(order.legs.stop->0))
            &&& order.legs.take_profit is Some <==> decision.take_profit_price is Some
            &&& order.legs.take_profit is Some ==> decision.take_profit_price == Some(
                Price(order.legs.take_profit->0),
            )
        },
{
}

/// A close asks for the whole position on the side against it, at the market
/// and without levels. It asks for nothing only while nothing is held, and
/// neither the size of an entry nor the hints of the decision play a part.
pub proof fn closes_ask_for_the_whole_position(
    decision: Decision,
    other: Decision,
    holding: Holding,
    contracts: u32,
    others: u32,
)
    requires
        decision.signal == SignalType::Close,
        other.signal == SignalType::Close,
        holding.qty > i128::MIN,
    ensures
        order_for(decision, holding, contracts) == order_for(other, holding, others),
        order_for(decision, holding, contracts) is None <==> holding.qty == 0,
        order_for(decision, holding, contracts) matches Some(order) ==> {
            &&& order.side == Side::Sell ==> order.qty == holding.qty
            &&& order.side == Side::Buy ==> order.qty == -holding.qty
            &&& order.qty > 0
            &&& order.is_close
            &&& order.kind == OrderKind::Market
            &&& order.limit is None
            &&& order.legs.stop is None
            &&& order.legs.take_profit is None
        },
{
}

/// Closes, and market, immediate-or-cancel and fill-or-kill entries, take at
/// the close of the decision candle, whatever the rest of the candle.
pub proof fn immediate_orders_take_at_the_close(order: ResolvedOrder, candle: Candle)
    requires
        order.is_close || order.kind == OrderKind::Market || order.kind == OrderKind::Ioc
            || order.kind == OrderKind::Fok,
    ensures
        fill_on(order, candle) == Some((candle.close, true)),
        routed(FillModel::TakerAtClose, order, candle) == (Routing::Fill {
            reference: candle.close,
            taker: true,
            cap: None,
        }),
{
}

/// Single-candle fills of a buy limit: the candle must have traded down to the
/// limit. It then fills at the open as a taker where the candle opened at or
/// below the limit, at the limit as a maker where it opened above, and a
/// post-only order is turned away in the first case.
pub proof fn buy_limits_fill_where_the_candle_traded(order: ResolvedOrder, candle: Candle, limit: Binary64)
    requires
        order.side == Side::Buy,
        !order.is_close,
        order.kind == OrderKind::Limit || order.kind == OrderKind::PostOnly,
        order.limit == Some(limit) || (order.limit is None && limit == candle.close),
    ensures
        fill_on(order, candle) is Some ==> candle.low.spec_le(limit),
        candle.low.spec_le(limit) && !candle.open.spec_le(limit) ==> fill_on(order, candle) == Some(
            (limit, false),
        ),
        candle.low.spec_le(limit) && candle.open.spec_le(limit) ==> {
            &&& fill_on(order, candle) is Some <==> order.kind == OrderKind::Limit
            &&& fill_on(order, candle) matches Some((price, taker)) ==> taker && price.spec_eq(
                candle.open,
            )
        },
        fill_on(order, candle) matches Some((price, _)) ==> price.spec_le(limit),
        fill_on(order, candle) is Some && candle.low.spec_le(candle.open) && candle.open.spec_le(
            candle.high,
        ) ==> candle.low.spec_le((fill_on(order, candle)->0).0) && (fill_on(
            order,
            candle,
        )->0).0.spec_le(candle.high),
{
}

/// Single-candle fills of a sell limit: the candle must have traded up to the
/// limit. It then fills at the open as a taker where the candle opened at or
/// above the limit, at the limit as a maker where it opened below, and a
/// post-only order is turned away in the first case.
pub proof fn sell_limits_fill_where_the_candle_traded(order: ResolvedOrder, candle: Candle, limit: Binary64)
    requires
        order.side == Side::Sell,
        !order.is_close,
        order.kind == OrderKind::Limit || order.kind == OrderKind::PostOnly,
        order.limit == Some(limit) || (order.limit is None && limit == candle.close),
    ensures
        fill_on(order, candle) is Some ==> limit.spec_le(candle.high),
        limit.spec_le(candle.high) && !limit.spec_le(candle.open) ==> fill_on(order, candle) == Some(
            (limit, false),
        ),
        limit.spec_le(candle.high) && limit.spec_le(candle.open) ==> {
            &&& fill_on(order, candle) is Some <==> order.kind == OrderKind::Limit
            &&& fill_on(order, candle) matches Some((price, taker)) ==> taker && price.spec_eq(
                candle.open,
            )
        },
        fill_on(order, candle) matches Some((price, _)) ==> limit.spec_le(price),
        fill_on(order, candle) is Some && candle.low.spec_le(candle.open) && candle.open.spec_le(
            candle.high,
        ) ==> candle.low.spec_le((fill_on(order, candle)->0).0) && (fill_on(
            order,
            candle,
        )->0).0.spec_le(candle.high),
{
}

/// The size of an order and the levels that come with it play no part in
/// whether, how and at what price it fills.
pub proof fn fills_ignore_size_and_legs(
    model: FillModel,
    order: ResolvedOrder,
    qty: u128,
    legs: Bracket,
    candle: Candle,
)
    ensures
        routed(model, (ResolvedOrder { qty, legs, ..order }), candle) == routed(model, order, candle),
        fill_on((ResolvedOrder { qty, legs, ..order }), candle) == fill_on(order, candle),
{
}

/// Single-candle routing fills exactly what the decision candle fills, without
/// a cap, and drops the rest.
pub proof fn single_candle_routing_follows_the_candle(order: ResolvedOrder, candle: Candle)
    ensures
        match routed(FillModel::TakerAtClose, order, candle) {
            Routing::Fill { reference, taker, cap } => fill_on(order, candle) == Some(
                (reference, taker),
            ) && cap is None,
            Routing::Rest { .. } => false,
            Routing::Drop => fill_on(order, candle) is None,
        },
{
}

/// Closes and market entries take at the close without a cap under the resting
/// model too.
pub proof fn market_orders_take_at_the_close(order: ResolvedOrder, candle: Candle)
    requires
        order.is_close || order.kind == OrderKind::Market,
    ensures
        routed(FillModel::Resting, order, candle) == (Routing::Fill {
            reference: candle.close,
            taker: true,
            cap: None,
        }),
{
}

/// Buy entries with a limit under the resting model: at a close at or below the
/// limit they take at the close and no higher than the limit, but a post-only
/// order is dropped. At a close above it limit and post-only orders rest at
/// the limit, and immediate ones are dropped.
pub proof fn buy_entries_meet_the_book_at_the_close(order: ResolvedOrder, candle: Candle, limit: Binary64)
    requires
        order.side == Side::Buy,
        !order.is_close,
        order.kind != OrderKind::Market,
        order.limit == Some(limit),
    ensures
        candle.close.spec_le(limit) ==> routed(FillModel::Resting, order, candle) == (if order.kind
            == OrderKind::PostOnly {
            Routing::Drop
        } else {
            Routing::Fill { reference: candle.close, taker: true, cap: Some(limit) }
        }),
        !candle.close.spec_le(limit) ==> routed(FillModel::Resting, order, candle) == (if order.kind
            == OrderKind::Limit || order.kind == OrderKind::PostOnly {
            Routing::Rest { limit }
        } else {
            Routing::Drop
        }),
{
}

/// Sell entries with a limit under the resting model: at a close at or above
/// the limit they take at the close and no lower than the limit, but a
/// post-only order is dropped. At a close below it limit and post-only orders
/// rest at the limit, and immediate ones are dropped.
pub proof fn sell_entries_meet_the_book_at_the_close(order: ResolvedOrder, candle: Candle, limit: Binary64)
    requires
        order.side == Side::Sell,
        !order.is_close,
        order.kind != OrderKind::Market,
        order.limit == Some(limit),
    ensures
        limit.spec_le(candle.close) ==> routed(FillModel::Resting, order, candle) == (if order.kind
            == OrderKind::PostOnly {
            Routing::Drop
        } else {
            Routing::Fill { reference: candle.close, taker: true, cap: Some(limit) }
        }),
        !limit.spec_le(candle.close) ==> routed(FillModel::Resting, order, candle) == (if order.kind
            == OrderKind::Limit || order.kind == OrderKind::PostOnly {
            Routing::Rest { limit }
        } else {
            Routing::Drop
        }),
{
}

/// An entry without a limit works at the close, so that it is marketable there:
/// under the resting model it takes at the close, a limit order no worse than
/// that, immediate orders at whatever slippage brings, and a post-only order is
/// dropped.
pub proof fn entries_without_a_limit_work_at_the_close(order: ResolvedOrder, candle: Candle)
    requires
        !order.is_close,
        order.limit is None,
        !candle.close.spec_is_nan(),
    ensures
        order.kind == OrderKind::PostOnly ==> routed(FillModel::Resting, order, candle)
            == Routing::Drop,
        order.kind == OrderKind::Limit ==> routed(FillModel::Resting, order, candle)
            == (Routing::Fill { reference: candle.close, taker: true, cap: Some(candle.close) }),
        order.kind != OrderKind::PostOnly && order.kind != OrderKind::Limit ==> routed(
            FillModel::Resting,
            order,
            candle,
        ) == (Routing::Fill { reference: candle.close, taker: true, cap: None }),
{
}

/// A capped fill is the slipped price unless that passes through the cap, and
/// the cap itself where it does: a buyer never pays more than it, a seller never
/// gets less. Without a cap the slipped price stands, and a NaN yields to the other
/// of the two.
pub proof fn caps_bound_the_slipped_price(
    side: Side,
    price: Binary64,
    cap: Binary64,
    nan: Binary64,
    request: FillRequest,
)
    requires
        !price.spec_is_nan(),
        !cap.spec_is_nan(),
    ensures
        capped(side, price, None) == price,
        nan.spec_is_nan() ==> capped(side, price, Some(nan)) == price && capped(
            side,
            nan,
            Some(cap),
        ) == cap,
        side == Side::Buy ==> {
            &&& capped(side, price, Some(cap)).spec_le(cap)
            &&& price.spec_le(cap) ==> capped(side, price, Some(cap)) == price
            &&& cap.spec_lt(price) ==> capped(side, price, Some(cap)) == cap
        },
        side == Side::Sell ==> {
            &&& cap.spec_le(capped(side, price, Some(cap)))
            &&& cap.spec_le(price) ==> capped(side, price, Some(cap)) == price
            &&& price.spec_lt(cap) ==> capped(side, price, Some(cap)) == cap
        },
        request.cap is None ==> fill_price(request, price) == price,
        request.cap == Some(cap) && request.side == Side::Buy ==> {
            &&& price.spec_le(cap) ==> fill_price(request, price) == price
            &&& cap.spec_lt(price) ==> fill_price(request, price) == cap
        },
        request.cap == Some(cap) && request.side == Side::Sell ==> {
            &&& cap.spec_le(price) ==> fill_price(request, price) == price
            &&& price.spec_lt(cap) ==> fill_price(request, price) == cap
        },
{
}

/// A resting buy fills exactly on the candles that trade down to its limit: at
/// the open where the candle opened below the limit, else at the limit.
pub proof fn resting_buys_fill_where_the_candle_traded(order: RestingOrder, candle: Candle)
    requires
        order.side == Side::Buy,
    ensures
        resting_price(order, candle) is Some <==> candle.low.spec_le(order.limit),
        resting_price(order, candle) matches Some(price) ==> {
            &&& candle.open.spec_lt(order.limit) ==> price == candle.open
            &&& !candle.open.spec_lt(order.limit) ==> price == order.limit
        },
{
}

/// A resting sell fills exactly on the candles that trade up to its limit: at
/// the open where the candle opened above the limit, else at the limit.
pub proof fn resting_sells_fill_where_the_candle_traded(order: RestingOrder, candle: Candle)
    requires
        order.side == Side::Sell,
    ensures
        resting_price(order, candle) is Some <==> order.limit.spec_le(candle.high),
        resting_price(order, candle) matches Some(price) ==> {
            &&& order.limit.spec_lt(candle.open) ==> price == candle.open
            &&& !order.limit.spec_lt(candle.open) ==> price == order.limit
        },
{
}

/// Nothing that is not held is exited, and no position without a leg is.
pub proof fn exits_need_a_position_and_a_leg(
    model: FillModel,
    holding: Holding,
    bracket: Bracket,
    candle: Candle,
)
    requires
        holding.qty == 0 || (bracket.stop is None && bracket.take_profit is None),
    ensures
        exit_on(model, holding, bracket, candle) is None,
{
}

/// The exits of a long position. The stop fires exactly where the candle traded
/// down to it. The take-profit fires exactly where the candle traded up to it
/// and the stop did not fire. Single-candle fills give the level; resting fills
/// give the open where the candle opened beyond the level.
pub proof fn long_exits_fire_where_the_candle_traded(
    model: FillModel,
    holding: Holding,
    bracket: Bracket,
    candle: Candle,
)
    requires
        holding.qty > 0,
    ensures
        ({
            let exit = exit_on(model, holding, bracket, candle);
            let stopped = bracket.stop is Some && candle.low.spec_le(bracket.stop->0);
            let taken = bracket.take_profit is Some && bracket.take_profit->0.spec_le(candle.high);
            &&& exit is Some <==> stopped || taken
            &&& exit matches Some((leg, price)) ==> {
                &&& leg == Leg::Stop <==> stopped
                &&& leg == Leg::Stop ==> price == (if model == FillModel::Resting
                    && candle.open.spec_lt(bracket.stop->0) {
                    candle.open
                } else {
                    bracket.stop->0
                })
                &&& leg == Leg::TakeProfit ==> price == (if model == FillModel::Resting
                    && bracket.take_profit->0.spec_lt(candle.open) {
                    candle.open
                } else {
                    bracket.take_profit->0
                })
            }
        }),
{
}

/// The exits of a short position. The stop fires exactly where the candle
/// traded up to it. The take-profit fires exactly where the candle traded down
/// to it and the stop did not fire. Single-candle fills give the level; resting
/// fills give the open where the candle opened beyond the level.
pub proof fn short_exits_fire_where_the_candle_traded(
    model: FillModel,
    holding: Holding,
    bracket: Bracket,
    candle: Candle,
)
    requires
        holding.qty < 0,
    ensures
        ({
            let exit = exit_on(model, holding, bracket, candle);
            let stopped = bracket.stop is Some && bracket.stop->0.spec_le(candle.high);
            let taken = bracket.take_profit is Some && candle.low.spec_le(bracket.take_profit->0);
            &&& exit is Some <==> stopped || taken
            &&& exit matches Some((leg, price)) ==> {
                &&& leg == Leg::Stop <==> stopped
                &&& leg == Leg::Stop ==> price == (if model == FillModel::Resting
                    && bracket.stop->0.spec_lt(candle.open) {
                    candle.open
                } else {
                    bracket.stop->0
                })
                &&& leg == Leg::TakeProfit ==> price == (if model == FillModel::Resting
                    && candle.open.spec_lt(bracket.take_profit->0) {
                    candle.open
                } else {
                    bracket.take_profit->0
                })
            }
        }),
{
}

/// How large a position is plays no part in whether and at what price it is
/// exited, nor does its entry price.
pub proof fn exits_ignore_the_size(
    model: FillModel,
    a: Holding,
    b: Holding,
    bracket: Bracket,
    candle: Candle,
)
    requires
        a.qty > 0 <==> b.qty > 0,
        a.qty < 0 <==> b.qty < 0,
    ensures
        exit_on(model, a, bracket, candle) == exit_on(model, b, bracket, candle),
{
}

/// A position that is closed in full is left without protection.
pub proof fn flat_positions_lose_their_bracket(
    model: FillModel,
    bracket: Bracket,
    old_qty: int,
    fill: Binary64,
    legs: Bracket,
)
    ensures
        bracket_after(model, bracket, old_qty, 0, fill, legs).stop is None,
        bracket_after(model, bracket, old_qty, 0, fill, legs).take_profit is None,
{
}

/// Single-candle fills put both legs on the position, replacing what was there.
/// Less than two legs change nothing on a position that keeps its direction,
/// and leave one that was opened or turned round bare.
pub proof fn single_candle_brackets_come_in_pairs(
    bracket: Bracket,
    old_qty: int,
    new_qty: int,
    fill: Binary64,
    legs: Bracket,
)
    requires
        new_qty != 0,
    ensures
        ({
            let after = bracket_after(FillModel::TakerAtClose, bracket, old_qty, new_qty, fill, legs);
            &&& legs.stop is Some && legs.take_profit is Some ==> after == legs
            &&& legs.stop is None || legs.take_profit is None ==> {
                &&& old_qty > 0 && new_qty > 0 || old_qty < 0 && new_qty < 0 ==> after == bracket
                &&& old_qty <= 0 && new_qty > 0 || old_qty >= 0 && new_qty < 0 ==> after.stop
                    is None && after.take_profit is None
            }
        }),
{
}

/// Resting fills put each leg on the position that lies on its own side of the
/// fill price, the stop on the losing side and the take-profit on the winning
/// side, and those replace what was there. Where neither does, a position that
/// keeps its direction keeps its bracket, and one that was opened or turned
/// round is bare.
pub proof fn resting_brackets_take_each_coherent_leg(
    bracket: Bracket,
    old_qty: int,
    new_qty: int,
    fill: Binary64,
    legs: Bracket,
)
    requires
        new_qty != 0,
    ensures
        ({
            let after = bracket_after(FillModel::Resting, bracket, old_qty, new_qty, fill, legs);
            let stops = legs.stop is Some && (new_qty > 0 && legs.stop->0.spec_le(fill) || new_qty
                < 0 && fill.spec_le(legs.stop->0));
            let takes = legs.take_profit is Some && (new_qty > 0 && fill.spec_le(
                legs.take_profit->0,
            ) || new_qty < 0 && legs.take_profit->0.spec_le(fill));
            &&& stops ==> after.stop == legs.stop
            &&& takes ==> after.take_profit == legs.take_profit
            &&& stops && !takes ==> after.take_profit is None
            &&& takes && !stops ==> after.stop is None
            &&& !stops && !takes ==> {
                &&& old_qty > 0 && new_qty > 0 || old_qty < 0 && new_qty < 0 ==> after == bracket
                &&& old_qty <= 0 && new_qty > 0 || old_qty >= 0 && new_qty < 0 ==> after.stop
                    is None && after.take_profit is None
            }
        }),
{
}

} // verus!
