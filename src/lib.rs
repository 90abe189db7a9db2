//! Market metrics: fixed-point amounts, order-book liquidity depth, the price-feed cache,
//! per-market metric records and the bookkeeping of the per-symbol tables they are stored in.

pub mod fixed;
pub mod depth;
pub mod types;
pub mod monitor;
pub mod feed;
pub mod client;
pub mod store;
pub mod config;
