//! Writing the terms of a future into a settlement record.

use vstd::prelude::*;
use crate::address::Address;
use crate::derivatives_contract::error::CustomError;
use crate::derivatives_contract::state::derivative_contract::{ContractType, DerivativeContract};

verus! {

/// What the creation is addressed to: the settlement record and the
/// principal that signs.
#[derive(Clone, Copy, Debug)]
pub struct CreateFuturesContract {
    pub derivative_contract: DerivativeContract,
    pub owner: Address,
}

/// The terms of the future and its two counterparties.
#[derive(Clone, Copy, Debug)]
pub struct CreateFuturesContractParams {
    pub expiry_date: i64,
    pub underlying_asset: Address,
    pub price: u64,
    pub buyer: Address,
    pub seller: Address,
}

/// The record that the creation leaves, or `AccountNotInitialized` where the
/// record is not initialized. The terms of another kind of contract that the
/// record holds stay as they are.
pub open spec fn futures_contract(record: DerivativeContract, params: CreateFuturesContractParams) -> Result<
    DerivativeContract,
    CustomError,
> {
    if !record.is_initialized {
        Err(CustomError::AccountNotInitialized)
    } else {
        Ok(
            DerivativeContract {
                contract_type: ContractType::Futures,
                expiry_date: params.expiry_date,
                underlying_asset: params.underlying_asset,
                price: params.price,
                buyer: Some(params.buyer),
                seller: Some(params.seller),
                ..record
            },
        )
    }
}

/// Makes the settlement record a future with the given terms. A refused
/// creation changes nothing.
pub fn create_futures_contract(
    ctx: &mut CreateFuturesContract,
    params: &CreateFuturesContractParams,
) -> (r: Result<(), CustomError>)
    ensures
        final(ctx).owner == old(ctx).owner,
        match r {
            Ok(()) => futures_contract(old(ctx).derivative_contract, *params) == Ok::<
                DerivativeContract,
                CustomError,
            >(final(ctx).derivative_contract),
            Err(e) => {
                &&& futures_contract(old(ctx).derivative_contract, *params) == Err::<
                    DerivativeContract,
                    CustomError,
                >(e)
                &&& *final(ctx) == *old(ctx)
            },
        },
{
    if !ctx.derivative_contract.is_initialized {
        return Err(CustomError::AccountNotInitialized);
    }
    ctx.derivative_contract.contract_type = ContractType::Futures;
    ctx.derivative_contract.expiry_date = params.expiry_date;
    ctx.derivative_contract.underlying_asset = params.underlying_asset;
    ctx.derivative_contract.price = params.price;
    ctx.derivative_contract.buyer = Some(params.buyer);
    ctx.derivative_contract.seller = Some(params.seller);
    Ok(())
}

} // verus!
