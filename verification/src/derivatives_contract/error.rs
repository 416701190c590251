//! The failures of the derivatives contract.

pub use crate::error::CustomError;
