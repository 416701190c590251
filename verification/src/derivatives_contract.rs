//! The derivatives contract: a settlement record for a future, an option or
//! a swap between a buyer and a seller, with the custody vault that holds
//! the buyer's funds.

pub mod error;
pub mod instructions;
pub mod state;
