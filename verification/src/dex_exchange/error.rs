//! The failures of the exchange.

use vstd::prelude::*;
use crate::error::CustomError;

verus! {

/// The exchange reports the failures every program of this crate shares.
pub type DexError = CustomError;

} // verus!
