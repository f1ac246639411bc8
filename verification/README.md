# QuantHelm

Deterministic core of a Binance USDⓈ-M research and trading system, written in Verus:
every rule that decides what the system accepts, rejects, stores or reports is proved
against a contract.

## Layout

- `src/decimal.rs`, `src/time.rs`, `src/text.rs` — plain models of decimals, instants,
  spans and text; arithmetic and hashing are delegated to `rust_decimal`, `chrono`,
  `sha2` through small trusted wrappers whose contracts say what they rely on.
- `src/domain.rs` — validated symbols, positive prices and quantities, order intents.
- `src/config.rs` — risk limits, environment names, settings, redacted secrets.
- `src/risk.rs` — the fail-closed risk gate and its laws (blocking states, the halted
  state, stale data, engine failures, reductions, limits, determinism).
- `src/market_data.rs` — intervals, candles, hashed raw events, and the gap detector with
  its continuity laws.
- `src/storage.rs` — JSONL record framing and the replay-order law.
- `src/collector.rs` — what the collector does with each candle and the counters it keeps.
- `src/exchange.rs` — exchange-neutral records and errors.
- `src/json.rs` — JSON documents: text is decoded by `serde_json` behind a trusted
  wrapper whose result is named, and the library reads the decoded tree.
- `src/binance/` — exchange filters and price/quantity flooring, response parsing,
  stream frames and reconnect decisions, WebSocket URLs, REST addressing and queries.
- `app/` — the command-line program: HTTP and WebSocket I/O, files, timers and logging
  around the library.
- `tests/` — behaviour tests of the library.

## Running

```bash
quanthelm status
quanthelm validate-config
quanthelm market-context --symbol BTCUSDT
quanthelm collector --symbol BTCUSDT --interval 15m --output-directory data
```
