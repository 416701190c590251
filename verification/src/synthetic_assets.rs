//! The synthetic-asset minter: it asks the compression service to create a
//! tree and to mint a compressed asset into a collection. The service does
//! the work; this module validates the request and says what is asked.

pub mod error;
pub mod instructions;
