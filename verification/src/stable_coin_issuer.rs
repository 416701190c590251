//! The stable-coin issuer: native value is deposited into a treasury vault
//! and stable coins are minted against it; burning stable coins releases
//! native value. The caller names both amounts, in smallest units.

pub mod error;
pub mod instructions;
