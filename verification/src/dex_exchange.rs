//! The exchange: a pool of two reserves that trades one asset against the
//! other at the constant-product price, with its registered liquidity
//! providers and traders.

pub mod error;
pub mod instructions;
pub mod state;
