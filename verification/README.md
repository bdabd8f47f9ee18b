# rustrade

A trading-bot framework whose rules are proved with Verus: position and order
accounting, risk gates, a deterministic replay engine for backtests, and the
restart logic of a service supervisor.

## Layout

- `src/` is the verified library. It does no file, network or console I/O.
  What its functions return and change is stated in contracts; only readings of
  a clock, random draws and the contents of a shared atomic are left open.
  - `num`, `time`, `text`, `keyed`: binary64 numbers as bit patterns with their
    order, time spans and stopwatches, decimal text, keyed lists.
  - `domain`: sides, symbols, orders, positions, decisions, instruments, errors,
    the in-memory store, the metrics interface.
  - `risk`: clocks, the circuit breaker, session profit and loss, account-wide
    gates, position sizing.
  - `backtest`: fills, brackets, funding schedules, candle series,
    configuration, books, and the `Replay` state machine with its laws.
  - `supervisor`: backoff, lifecycles, the `ServiceRunner` state machine, the
    fleet, counters.
- `app/` is ordinary Rust around it: serializable types, async traits, channels,
  CSV files, tasks and signals, exported metrics, and all floating-point
  arithmetic.
- `tests/` runs the library, most of it through whole replays and whole service
  loops.

## Numbers

The library never computes with floats. A `Binary64` is a bit pattern that the
library can compare, order and pass on. Prices after slippage, averages, fees and
sums are worked out by the caller and handed in; the contracts say where each of
them goes.

## State machines

`Replay` decides what happens on each candle, and in which order: funding,
protective legs, resting entries, the strategy's decision, the account's sample.
The caller answers each step (`begin`, `settled`, `filled`, `decided`).
It is a deterministic function of what the caller reports.
`ServiceRunner` does the same for a supervised service (`attempt`, `exited`,
`woke`). It also reads its stopwatches and draws the length of a pause;
`attempt_at`, `exited_at` and `woke_at` take these as arguments and are
deterministic.
