//! The custodial bridge: tokens are deposited with a custodian and a wrapped
//! token is minted one for one; burning the wrapped token releases the
//! deposit.

pub mod error;
pub mod instructions;
