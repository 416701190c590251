//! The record of a liquidity provider.

use vstd::prelude::*;
use crate::address::Address;
use crate::error::CustomError;

verus! {

/// One registered liquidity provider. `active` is true once the provider is
/// registered; the two totals count what the provider has added to either
/// side of the pool.
#[derive(Clone, Copy, Debug)]
pub struct LiquidityProvider {
    pub owner: Address,
    pub active: bool,
    pub reserve_a_available_funds: u32,
    pub reserve_b_available_funds: u32,
}

impl LiquidityProvider {
    /// Asked before every operation a provider takes part in:
    /// `InvalidProviderStatus` where the record is not active.
    pub fn require_active(&self) -> (r: Result<(), CustomError>)
        ensures
            r == if self.active {
                Ok::<(), CustomError>(())
            } else {
                Err(CustomError::InvalidProviderStatus)
            },
    {
        if self.active {
            Ok(())
        } else {
            Err(CustomError::InvalidProviderStatus)
        }
    }

    /// The record of a principal that has not registered.
    pub fn empty() -> (r: LiquidityProvider)
        ensures
            r == (LiquidityProvider {
                owner: Address::zero(),
                active: false,
                reserve_a_available_funds: 0,
                reserve_b_available_funds: 0,
            }),
    {
        LiquidityProvider {
            owner: Address::zeroed(),
            active: false,
            reserve_a_available_funds: 0,
            reserve_b_available_funds: 0,
        }
    }
}

} // verus!
