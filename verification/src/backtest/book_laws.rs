//! What holds of positions, and of the risk gates that closed trades feed.

use vstd::prelude::*;

use crate::backtest::book::{BookView, CloseSums, FillRequest};
use crate::backtest::fills::FillModel;
use crate::backtest::holding::{closing_part, Holding};
use crate::domain::market::{Side, Symbol};
use crate::num::Binary64;
use crate::risk::circuit_breaker::{
    drops, eviction_drops_only_stale_losses, in_order, losses_trip_at_the_limit, recent_losses,
    BreakerState, CircuitBreakerConfig,
};

verus! {

/// A fill moves the signed position by its size, up for a buy and down for a
/// sell. A position that starts or turns round is entered at the fill price, one
/// that grows at the average handed in, one that shrinks keeps its entry price,
/// and one that is closed in full has none.
pub proof fn positions_follow_fills(
    h: Holding,
    side: Side,
    qty: int,
    price: Binary64,
    averaged: Binary64,
)
    requires
        h.qty == 0 <==> h.entry is None,
        0 < qty,
        h.qty + qty <= i128::MAX,
        h.qty - qty >= i128::MIN,
    ensures
        ({
            let after = h.after_fill(side, qty, price, averaged);
            &&& side == Side::Buy ==> after.qty == h.qty + qty
            &&& side == Side::Sell ==> after.qty == h.qty - qty
            &&& after.qty == 0 ==> after.entry is None
            &&& h.qty == 0 ==> after.entry == Some(price)
            &&& side == Side::Buy && h.qty > 0 || side == Side::Sell && h.qty < 0 ==> after.entry
                == Some(averaged)
            &&& h.qty > 0 && after.qty < 0 || h.qty < 0 && after.qty > 0 ==> after.entry == Some(
                price,
            )
            &&& side == Side::Sell && 0 < after.qty || side == Side::Buy && after.qty < 0
                ==> after.entry == h.entry
        }),
{
}

/// A fill closes what it trades against the position, up to the whole of it:
/// contracts on the position's own side close nothing.
pub proof fn fills_close_what_they_oppose(h: Holding, side: Side, qty: int)
    requires
        0 < qty,
    ensures
        ({
            let closing = closing_part(h.qty as int, side, qty);
            &&& side == Side::Buy && h.qty >= 0 || side == Side::Sell && h.qty <= 0 ==> closing == 0
            &&& side == Side::Sell && h.qty >= qty || side == Side::Buy && -h.qty >= qty ==> closing
                == qty
            &&& side == Side::Sell && 0 < h.qty < qty ==> closing == h.qty
            &&& side == Side::Buy && 0 < -h.qty < qty ==> closing == -h.qty
        }),
{
}

/// The side that closes a position is the one against it.
pub proof fn closing_sides_oppose(h: Holding)
    ensures
        h.spec_close_side() == Some(Side::Sell) <==> h.qty > 0,
        h.spec_close_side() == Some(Side::Buy) <==> h.qty < 0,
        h.spec_close_side() is None <==> h.qty == 0,
{
}

/// A book starts flat, bare and empty, with the gates that were asked for and
/// nothing recorded in them.
pub proof fn books_start_empty(symbol: Symbol, session: bool, breaker: Option<CircuitBreakerConfig>)
    ensures
        ({
            let book = BookView::fresh(symbol@, session, breaker);
            &&& book.symbol == symbol@
            &&& book.holding.qty == 0 && book.holding.entry is None
            &&& book.bracket.stop is None && book.bracket.take_profit is None
            &&& book.resting is None
            &&& book.last_time is None
            &&& book.last_mark is None
            &&& book.session is Some <==> session
            &&& book.session matches Some(s) ==> {
                &&& !s.halted
                &&& s.trades == 0 && s.wins == 0 && s.losses == 0 && s.breakevens == 0
                &&& s.realised.bits == 0 && s.fees.bits == 0
                &&& s.last_reset_day == 0
            }
            &&& book.breaker is Some <==> breaker is Some
            &&& book.breaker matches Some(b) ==> {
                &&& b.config == breaker->0
                &&& b.losses.len() == 0
                &&& b.tripped_at is None
            }
        }),
{
}

/// A fill touches the gates only where it closes contracts, and it touches
/// neither the waiting entry nor the last candle's mark. Its position is that
/// of the position before, moved by the fill.
pub proof fn fills_feed_the_gates_by_closing(
    book: BookView,
    model: FillModel,
    limit: Binary64,
    now: u64,
    request: FillRequest,
    slipped: Binary64,
    averaged: Binary64,
    sums: CloseSums,
)
    requires
        request.qty > 0,
        book.holding.qty + request.qty <= i128::MAX,
        book.holding.qty - request.qty >= i128::MIN,
    ensures
        ({
            let after = book.after_fill(model, limit, now, request, slipped, averaged, sums);
            let opposes = request.side == Side::Sell && book.holding.qty > 0 || request.side
                == Side::Buy && book.holding.qty < 0;
            &&& !opposes ==> after.session == book.session && after.breaker == book.breaker
            &&& opposes ==> {
                &&& after.session == book.with_trade(limit, now, sums).session
                &&& after.breaker == book.with_trade(limit, now, sums).breaker
            }
            &&& after.symbol == book.symbol
            &&& after.resting == book.resting
            &&& after.last_time == book.last_time
            &&& after.last_mark == book.last_mark
            &&& request.side == Side::Buy ==> after.holding.qty == book.holding.qty + request.qty
            &&& request.side == Side::Sell ==> after.holding.qty == book.holding.qty - request.qty
        }),
{
}

/// A fill is refused only where it closes contracts and the session that would
/// count the trade has counted as many as it can.
pub proof fn only_full_sessions_refuse(book: BookView, request: FillRequest)
    requires
        request.qty > 0,
    ensures
        book.is_full_for(request) <==> (request.side == Side::Sell && book.holding.qty > 0
            || request.side == Side::Buy && book.holding.qty < 0) && book.session is Some
            && book.session->0.trades == u32::MAX,
{
}

/// A closed trade moves nothing but the gates. The breaker goes by the trade's
/// net result: a loss is recorded at the trade's time, a win leaves the breaker
/// tripped or not as it was and forgets no loss that lies in the window, and a
/// trade that is neither changes nothing.
pub proof fn trades_feed_the_gates(book: BookView, limit: Binary64, now: u64, sums: CloseSums)
    ensures
        ({
            let after = book.with_trade(limit, now, sums);
            &&& after.symbol == book.symbol
            &&& after.holding == book.holding
            &&& after.bracket == book.bracket
            &&& after.resting == book.resting
            &&& after.last_time == book.last_time
            &&& after.last_mark == book.last_mark
            &&& after.session is Some <==> book.session is Some
            &&& after.breaker is Some <==> book.breaker is Some
            &&& book.breaker matches Some(b) ==> {
                let then = after.breaker->0;
                &&& then.config == b.config
                &&& Binary64::spec_zero().spec_lt(sums.trade_net) ==> {
                    &&& then.tripped_at == b.tripped_at
                    &&& forall|i: int|
                        0 <= i < b.losses.len() && b.losses[i] + b.config.window_secs >= now
                            ==> then.losses.contains(#[trigger] b.losses[i])
                    &&& then.losses.len() <= b.losses.len()
                }
                &&& sums.trade_net.spec_lt(Binary64::spec_zero()) ==> {
                    &&& then.losses.contains(now)
                    &&& forall|i: int|
                        0 <= i < b.losses.len() && b.losses[i] + b.config.window_secs >= now
                            ==> then.losses.contains(#[trigger] b.losses[i])
                    &&& then.losses.len() >= b.config.loss_limit ==> then.tripped_at == Some(now)
                    &&& then.losses.len() < b.config.loss_limit ==> then.tripped_at == b.tripped_at
                }
                &&& sums.trade_net.spec_is_zero() || sums.trade_net.spec_is_nan() ==> then == b
            }
        }),
{
    if let Some(b) = book.breaker {
        eviction_drops_only_stale_losses(b, now);
        let k = choose|k: int| #[trigger] drops(b, now, k);
        assert forall|i: int|
            0 <= i < b.losses.len() && b.losses[i] + b.config.window_secs >= now implies b.evicted(
            now,
        ).losses.contains(#[trigger] b.losses[i]) by {
            assert(b.losses.skip(k)[i - k] == b.losses[i]);
        }
        let grown = BreakerState { losses: b.losses.push(now), ..b };
        eviction_drops_only_stale_losses(grown, now);
        let n = choose|n: int| #[trigger] drops(grown, now, n);
        assert(grown.losses[b.losses.len() as int] == now);
        assert(n <= b.losses.len());
        assert(grown.losses.skip(n)[b.losses.len() - n] == now);
        assert forall|i: int|
            0 <= i < b.losses.len() && b.losses[i] + b.config.window_secs >= now implies grown.evicted(
            now,
        ).losses.contains(#[trigger] b.losses[i]) by {
            assert(grown.losses[i] == b.losses[i]);
            assert(grown.losses.skip(n)[i - n] == b.losses[i]);
        }
    }
}

/// A session counts a closed trade by the sums handed in, whatever the breaker
/// makes of it.
pub proof fn sessions_count_trades(book: BookView, limit: Binary64, now: u64, sums: CloseSums)
    requires
        book.session is Some,
        book.session->0.trades < u32::MAX,
    ensures
        ({
            let (s, then) = (book.session->0, book.with_trade(limit, now, sums).session->0);
            &&& then.trades == s.trades + 1
            &&& then.realised == sums.session.realised
            &&& then.fees == sums.session.fees
            &&& then.halted <==> s.halted || sums.session.session_net.spec_le(limit)
            &&& then.last_reset_day == s.last_reset_day
        }),
{
}

/// A gate blocks exactly where the session is halted, or the breaker has tripped
/// and less than its cooldown has passed.
pub proof fn gates_block_on_halts_and_trips(book: BookView, now: u64)
    ensures
        book.is_gated(now) <==> {
            ||| book.session is Some && book.session->0.halted
            ||| book.breaker is Some && book.breaker->0.tripped_at is Some
                && book.breaker->0.config.cooldown_secs > 0 && now
                < book.breaker->0.tripped_at->0 + book.breaker->0.config.cooldown_secs
        },
{
}

/// Rolling the gates forward moves nothing else. A session starts afresh once a
/// later UTC day has begun and stays as it is before that; a breaker forgets
/// its trip and its losses once its cooldown is over and keeps its trip before
/// that.
pub proof fn ticks_roll_the_gates(book: BookView, now: u64)
    ensures
        ({
            let after = book.ticked(now);
            &&& after.symbol == book.symbol
            &&& after.holding == book.holding
            &&& after.bracket == book.bracket
            &&& after.resting == book.resting
            &&& after.last_time == book.last_time
            &&& after.last_mark == book.last_mark
            &&& after.session is Some <==> book.session is Some
            &&& book.session matches Some(s) ==> {
                &&& now / 86_400 <= s.last_reset_day ==> after.session == Some(s)
                &&& now / 86_400 > s.last_reset_day ==> {
                    let fresh = after.session->0;
                    &&& fresh.last_reset_day == now / 86_400
                    &&& !fresh.halted
                    &&& fresh.trades == 0 && fresh.wins == 0 && fresh.losses == 0
                    &&& fresh.breakevens == 0
                    &&& fresh.realised.bits == 0 && fresh.fees.bits == 0
                }
            }
            &&& after.breaker is Some <==> book.breaker is Some
            &&& book.breaker matches Some(b) ==> {
                let then = after.breaker->0;
                let over = b.tripped_at is Some && (b.config.cooldown_secs == 0 || now
                    >= b.tripped_at->0 + b.config.cooldown_secs);
                &&& then.config == b.config
                &&& over ==> then.tripped_at is None && then.losses.len() == 0
                &&& !over ==> then.tripped_at == b.tripped_at
            }
        }),
{
    if let Some(b) = book.breaker {
        eviction_drops_only_stale_losses(b, now);
        assert(Seq::<u64>::empty().skip(0) =~= Seq::<u64>::empty());
    }
}

/// The end of a candle leaves its time and its close on the book and moves
/// nothing else.
pub proof fn candles_leave_their_mark(book: BookView, time: i64, close: Binary64)
    ensures
        ({
            let after = book.after_candle(time, close);
            &&& after.last_time == Some(time)
            &&& after.last_mark == Some(close)
            &&& after.symbol == book.symbol
            &&& after.holding == book.holding
            &&& after.bracket == book.bracket
            &&& after.resting == book.resting
            &&& after.session == book.session
            &&& after.breaker == book.breaker
        }),
{
}

impl BookView {
    /// The book after a sequence of closed trades, each with its time.
    pub open spec fn after_trades(self, limit: Binary64, trades: Seq<(u64, CloseSums)>) -> Self
        decreases trades.len(),
    {
        if trades.len() == 0 {
            self
        } else {
            self.after_trades(limit, trades.drop_last()).with_trade(
                limit,
                trades.last().0,
                trades.last().1,
            )
        }
    }
}

/// Times of the trades with a net result below zero.
pub open spec fn losing_times(trades: Seq<(u64, CloseSums)>) -> Seq<u64>
    decreases trades.len(),
{
    if trades.len() == 0 {
        Seq::empty()
    } else if trades.last().1.trade_net.spec_lt(Binary64::spec_zero()) {
        losing_times(trades.drop_last()).push(trades.last().0)
    } else {
        losing_times(trades.drop_last())
    }
}

/// Whether the times of trades never go back.
pub open spec fn trades_in_order(trades: Seq<(u64, CloseSums)>) -> bool {
    forall|i: int, j: int|
        0 <= i <= j < trades.len() ==> (#[trigger] trades[i]).0 <= (#[trigger] trades[j]).0
}

/// Time of the last of a sequence of trades.
spec fn last_time_of(trades: Seq<(u64, CloseSums)>) -> u64 {
    if trades.len() == 0 {
        0
    } else {
        trades.last().0
    }
}

/// Whether the losses on record are all the losing closes but the first `k`,
/// which have left the window by `now`.
spec fn record_is_tail(b: BreakerState, all: Seq<u64>, now: u64, k: int) -> bool {
    &&& 0 <= k <= all.len()
    &&& b.losses == all.skip(k)
    &&& forall|i: int| 0 <= i < k ==> (#[trigger] all[i]) + b.config.window_secs < now
}

proof fn record_follows_losing_closes(book: BookView, limit: Binary64, trades: Seq<(u64, CloseSums)>)
    requires
        book.breaker is Some,
        book.breaker->0.losses.len() == 0,
        trades_in_order(trades),
    ensures
        ({
            let after = book.after_trades(limit, trades).breaker;
            let all = losing_times(trades);
            &&& after is Some
            &&& after->0.config == book.breaker->0.config
            &&& in_order(all)
            &&& all.len() > 0 ==> all.last() <= trades.last().0
            &&& exists|k: int| #[trigger] record_is_tail(after->0, all, last_time_of(trades), k)
        }),
    decreases trades.len(),
{
    let all = losing_times(trades);
    if trades.len() == 0 {
        assert(book.breaker->0.losses =~= all.skip(0));
        assert(record_is_tail(book.breaker->0, all, last_time_of(trades), 0));
    } else {
        let rest = trades.drop_last();
        assert(forall|i: int| 0 <= i < rest.len() ==> rest[i] == trades[i]);
        record_follows_losing_closes(book, limit, rest);
        let before = book.after_trades(limit, rest).breaker->0;
        let earlier = losing_times(rest);
        let then = last_time_of(rest);
        let k = choose|k: int| #[trigger] record_is_tail(before, earlier, then, k);
        let now = last_time_of(trades);
        if rest.len() > 0 {
            assert(rest.last() == trades[rest.len() - 1]);
            assert(trades[rest.len() - 1].0 <= trades[trades.len() - 1].0);
        }
        assert(then <= now);
        assert(earlier.len() > 0 ==> rest.len() > 0);
        assert forall|i: int| 0 <= i < earlier.len() implies earlier[i] <= now by {
            assert(earlier[i] <= earlier[earlier.len() - 1]);
        }
        assert(in_order(all));
        let net = trades.last().1.trade_net;
        let after = book.after_trades(limit, trades).breaker->0;
        if net.spec_lt(Binary64::spec_zero()) {
            let grown = BreakerState { losses: before.losses.push(now), ..before };
            eviction_drops_only_stale_losses(grown, now);
            let n = choose|n: int| #[trigger] drops(grown, now, n);
            assert(grown.losses =~= all.skip(k));
            assert(all.skip(k).skip(n) =~= all.skip(k + n));
            assert forall|i: int| 0 <= i < k + n implies (#[trigger] all[i])
                + before.config.window_secs < now by {
                if i < k {
                    assert(all[i] == earlier[i]);
                } else {
                    assert(grown.losses[i - k] == all[i]);
                }
            }
            assert(record_is_tail(after, all, now, k + n));
        } else if Binary64::spec_zero().spec_lt(net) {
            eviction_drops_only_stale_losses(before, now);
            let n = choose|n: int| #[trigger] drops(before, now, n);
            assert(all.skip(k).skip(n) =~= all.skip(k + n));
            assert forall|i: int| 0 <= i < k + n implies (#[trigger] all[i])
                + before.config.window_secs < now by {
                if i >= k {
                    assert(before.losses[i - k] == all[i]);
                }
            }
            assert(record_is_tail(after, all, now, k + n));
        } else {
            assert(record_is_tail(after, all, now, k));
        }
    }
}

proof fn recent_of_tail(config: CircuitBreakerConfig, all: Seq<u64>, now: u64, k: int)
    requires
        0 <= k <= all.len(),
        forall|i: int| 0 <= i < k ==> (#[trigger] all[i]) + config.window_secs < now,
    ensures
        recent_losses(config, all.skip(k), now) == recent_losses(config, all, now),
    decreases all.len(),
{
    reveal(Seq::filter);
    if k < all.len() {
        recent_of_tail(config, all.drop_last(), now, k);
        assert(all.skip(k).drop_last() =~= all.drop_last().skip(k));
        assert(all.skip(k).last() == all.last());
    } else if k > 0 {
        assert(all.skip(k) =~= Seq::<u64>::empty());
        recent_of_tail(config, all.drop_last(), now, k - 1);
        assert(all.drop_last().skip(k - 1) =~= Seq::<u64>::empty());
        assert(all.last() == all[k - 1]);
    } else {
        assert(all.skip(0) =~= all);
    }
}

/// A losing close trips the breaker exactly where the losing closes that lie in
/// the window, itself included and whatever wins came in between, number at
/// least the limit; else the breaker stays tripped or not as it was. Only a
/// losing close ever trips it, and no close un-trips it.
pub proof fn breaker_counts_losing_closes(book: BookView, limit: Binary64, trades: Seq<(u64, CloseSums)>)
    requires
        book.breaker is Some,
        book.breaker->0.losses.len() == 0,
        trades.len() > 0,
        trades_in_order(trades),
    ensures
        ({
            let before = book.after_trades(limit, trades.drop_last()).breaker->0;
            let after = book.after_trades(limit, trades).breaker->0;
            let config = book.breaker->0.config;
            let now = trades.last().0;
            let losing = trades.last().1.trade_net.spec_lt(Binary64::spec_zero());
            let recent = losing_times(trades).filter(|t: u64| t + config.window_secs >= now).len();
            &&& losing && recent >= config.loss_limit ==> after.tripped_at == Some(now)
            &&& !losing || recent < config.loss_limit ==> after.tripped_at == before.tripped_at
            &&& losing ==> after.losses.len() == recent
        }),
{
    let rest = trades.drop_last();
    assert(forall|i: int| 0 <= i < rest.len() ==> rest[i] == trades[i]);
    record_follows_losing_closes(book, limit, rest);
    record_follows_losing_closes(book, limit, trades);
    let before = book.after_trades(limit, rest).breaker->0;
    let config = book.breaker->0.config;
    let now = trades.last().0;
    let all = losing_times(trades);
    if trades.last().1.trade_net.spec_lt(Binary64::spec_zero()) {
        let earlier = losing_times(rest);
        let then = last_time_of(rest);
        let k = choose|k: int| #[trigger] record_is_tail(before, earlier, then, k);
        if rest.len() > 0 {
            assert(trades[rest.len() - 1].0 <= trades[trades.len() - 1].0);
        }
        assert(before.losses.push(now) =~= all.skip(k));
        assert(in_order(before.losses.push(now))) by {
            assert forall|i: int, j: int| 0 <= i <= j < all.skip(k).len() implies all.skip(k)[i]
                <= all.skip(k)[j] by {
                assert(all[i + k] <= all[j + k]);
            }
        }
        losses_trip_at_the_limit(before, now);
        assert forall|i: int| 0 <= i < k implies (#[trigger] all[i]) + config.window_secs < now by {
            assert(all[i] == earlier[i]);
        }
        recent_of_tail(config, all, now, k);
    }
}

} // verus!
