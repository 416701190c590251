//! The failures of the bridge.

pub use crate::error::CustomError;
