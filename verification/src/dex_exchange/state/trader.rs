//! The record of a trader.

use vstd::prelude::*;
use crate::address::Address;
use crate::error::CustomError;

verus! {

/// One registered trader. `active` is true once the trader is registered.
/// `amount_out` and `amount_out_2` keep what the trader's last swap paid
/// out, in pool units and in smallest units; nothing depends on them.
#[derive(Clone, Copy, Debug)]
pub struct Trader {
    pub owner: Address,
    pub active: bool,
    pub amount_out: u32,
    pub amount_out_2: u64,
}

impl Trader {
    /// Asked before every operation a trader takes part in:
    /// `InvalidTraderStatus` where the record is not active.
    pub fn require_active(&self) -> (r: Result<(), CustomError>)
        ensures
            r == if self.active {
                Ok::<(), CustomError>(())
            } else {
                Err(CustomError::InvalidTraderStatus)
            },
    {
        if self.active {
            Ok(())
        } else {
            Err(CustomError::InvalidTraderStatus)
        }
    }

    /// The record of a principal that has not registered.
    pub fn empty() -> (r: Trader)
        ensures
            r == (Trader { owner: Address::zero(), active: false, amount_out: 0, amount_out_2: 0 }),
    {
        Trader { owner: Address::zeroed(), active: false, amount_out: 0, amount_out_2: 0 }
    }
}

} // verus!
