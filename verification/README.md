# datanalyzer

Monitoring of Solana DEX liquidity pools, written in Verus.

`src/` is the verified library:

- `dex/` decodes pool accounts (Pump.fun bonding curves, Raydium AMM V4)
  and keeps a registry of decoders with per-pool statistics;
- `config.rs` holds pool configurations and their builder;
- `models.rs` the DEX types and the checks behind pool snapshots;
- `price_fetcher.rs` the request metrics, retry schedule and request URLs
  of price fetching;
- `websocket.rs` the subscription ids and the throttling of account
  notifications;
- `address.rs`, `table.rs`, `text.rs` and `error.rs` the account addresses,
  an address-keyed map, decimal text and the error type.

Each public function states its result in its contract, and the laws that
relate several functions are public proof functions next to them.

`app/` is the ordinary Rust around the library: HTTP and WebSocket I/O,
floating-point liquidity and price arithmetic, CSV records and printing.
`tests/` runs the library on concrete values.

The decoder registry and the subscription state take `&mut self` for every
change: callers that share them across tasks hold them behind a lock of
their own (as `app/websocket.rs` does with a mutex).

`app/websocket.rs` subscribes to accounts through the `solana-client` crate,
which `Cargo.toml` does not list because of the size of its dependency tree;
`app/` builds once `solana-client` is added to `[dependencies]`.
