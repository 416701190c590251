//! Writing the terms of a swap into a settlement record.

use vstd::prelude::*;
use crate::address::Address;
use crate::derivatives_contract::error::CustomError;
use crate::derivatives_contract::state::derivative_contract::{ContractType, DerivativeContract};

verus! {

/// What the creation is addressed to: the settlement record and the
/// principal that signs.
#[derive(Clone, Copy, Debug)]
pub struct CreateSwapContract {
    pub derivative_contract: DerivativeContract,
    pub owner: Address,
}

/// The terms of the swap and its two counterparties.
#[derive(Clone, Copy, Debug)]
pub struct CreateSwapContractParams {
    pub notional_amount: u64,
    pub fixed_rate: u64,
    pub floating_rate: u64,
    pub buyer: Address,
    pub seller: Address,
}

/// The record that the creation leaves, or `AccountNotInitialized` where the
/// record is not initialized. The expiry, the underlying asset and the price
/// that the record holds stay as they are.
pub open spec fn swap_contract(record: DerivativeContract, params: CreateSwapContractParams) -> Result<
    DerivativeContract,
    CustomError,
> {
    if !record.is_initialized {
        Err(CustomError::AccountNotInitialized)
    } else {
        Ok(
            DerivativeContract {
                contract_type: ContractType::Swaps,
                notional_amount: Some(params.notional_amount),
                fixed_rate: Some(params.fixed_rate),
                floating_rate: Some(params.floating_rate),
                buyer: Some(params.buyer),
                seller: Some(params.seller),
                ..record
            },
        )
    }
}

/// Makes the settlement record a swap with the given terms. A refused
/// creation changes nothing.
pub fn create_swap_contract(ctx: &mut CreateSwapContract, params: &CreateSwapContractParams) -> (r:
    Result<(), CustomError>)
    ensures
        final(ctx).owner == old(ctx).owner,
        match r {
            Ok(()) => swap_contract(old(ctx).derivative_contract, *params) == Ok::<
                DerivativeContract,
                CustomError,
            >(final(ctx).derivative_contract),
            Err(e) => {
                &&& swap_contract(old(ctx).derivative_contract, *params) == Err::<
                    DerivativeContract,
                    CustomError,
                >(e)
                &&& *final(ctx) == *old(ctx)
            },
        },
{
    if !ctx.derivative_contract.is_initialized {
        return Err(CustomError::AccountNotInitialized);
    }
    ctx.derivative_contract.contract_type = ContractType::Swaps;
    ctx.derivative_contract.notional_amount = Some(params.notional_amount);
    ctx.derivative_contract.fixed_rate = Some(params.fixed_rate);
    ctx.derivative_contract.floating_rate = Some(params.floating_rate);
    ctx.derivative_contract.buyer = Some(params.buyer);
    ctx.derivative_contract.seller = Some(params.seller);
    Ok(())
}

} // verus!
