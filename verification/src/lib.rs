//! Monitoring of Solana DEX liquidity pools: decoding of pool accounts,
//! registries of decoders with statistics, pool configuration, and the
//! bookkeeping behind price fetching and account subscriptions.

pub mod address;
pub mod config;
pub mod dex;
pub mod error;
pub mod models;
pub mod price_fetcher;
pub mod table;
pub mod text;
pub mod websocket;


pub use address::Address;
pub use config::{PoolConfig, PoolConfigBuilder};
pub use dex::{create_decoder, Decoder, DecoderRegistry, DecoderStats, DexDecoder};
pub use error::AppError;
pub use models::DexType;
pub use price_fetcher::PriceFetcherMetrics;
pub use websocket::SubscriptionState;
