//! Writing the terms of an option into a settlement record.

use vstd::prelude::*;
use crate::address::Address;
use crate::derivatives_contract::error::CustomError;
use crate::derivatives_contract::state::derivative_contract::{
    ContractType,
    DerivativeContract,
    OptionType,
};

verus! {

/// What the creation is addressed to: the settlement record and the
/// principal that signs.
#[derive(Clone, Copy, Debug)]
pub struct CreateOptionsContract {
    pub derivative_contract: DerivativeContract,
    pub owner: Address,
}

/// The terms of the option and its two counterparties.
#[derive(Clone, Copy, Debug)]
pub struct CreateOptionsContractParams {
    pub expiry_date: i64,
    pub underlying_asset: Address,
    pub strike_price: u64,
    pub option_type: OptionType,
    pub buyer: Address,
    pub seller: Address,
}

/// The record that the creation leaves, or `AccountNotInitialized` where the
/// record is not initialized. The strike price is kept as the record's
/// price; the terms of a swap that the record holds stay as they are.
pub open spec fn options_contract(record: DerivativeContract, params: CreateOptionsContractParams) -> Result<
    DerivativeContract,
    CustomError,
> {
    if !record.is_initialized {
        Err(CustomError::AccountNotInitialized)
    } else {
        Ok(
            DerivativeContract {
                contract_type: ContractType::Options,
                expiry_date: params.expiry_date,
                underlying_asset: params.underlying_asset,
                price: params.strike_price,
                option_type: Some(params.option_type),
                buyer: Some(params.buyer),
                seller: Some(params.seller),
                ..record
            },
        )
    }
}

/// Makes the settlement record an option with the given terms. A refused
/// creation changes nothing.
pub fn create_options_contract(
    ctx: &mut CreateOptionsContract,
    params: &CreateOptionsContractParams,
) -> (r: Result<(), CustomError>)
    ensures
        final(ctx).owner == old(ctx).owner,
        match r {
            Ok(()) => options_contract(old(ctx).derivative_contract, *params) == Ok::<
                DerivativeContract,
                CustomError,
            >(final(ctx).derivative_contract),
            Err(e) => {
                &&& options_contract(old(ctx).derivative_contract, *params) == Err::<
                    DerivativeContract,
                    CustomError,
                >(e)
                &&& *final(ctx) == *old(ctx)
            },
        },
{
    if !ctx.derivative_contract.is_initialized {
        return Err(CustomError::AccountNotInitialized);
    }
    ctx.derivative_contract.contract_type = ContractType::Options;
    ctx.derivative_contract.expiry_date = params.expiry_date;
    ctx.derivative_contract.underlying_asset = params.underlying_asset;
    ctx.derivative_contract.price = params.strike_price;
    ctx.derivative_contract.option_type = Some(params.option_type);
    ctx.derivative_contract.buyer = Some(params.buyer);
    ctx.derivative_contract.seller = Some(params.seller);
    Ok(())
}

} // verus!
