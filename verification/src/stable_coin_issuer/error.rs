//! The failures of the issuer.

pub use crate::error::CustomError;
