//! Custody and exchange rules for on-chain settlement programs.
//!
//! Five programs share one pattern: a caller moves value into and out of an
//! account that the program controls, and the program authorizes the outbound
//! movement with an address it derived rather than with a key it holds. The
//! shared parts live at the top of the crate; each program has a module of its
//! own that composes them.
//!
//! Nothing here performs a transfer. Every operation validates its inputs,
//! updates the records it was handed, and returns the calls the asset ledger
//! is to execute, in order. A failed operation leaves every record as it was.

pub mod address;
pub mod error;
pub mod scaler;
pub mod authority;
pub mod ledger;
pub mod vault;
pub mod custodial_bridge;
pub mod derivatives_contract;
pub mod dex_exchange;
pub mod stable_coin_issuer;
pub mod synthetic_assets;
