//! The records of the exchange.

pub mod liquidity_provider;
pub mod pool;
pub mod trader;
