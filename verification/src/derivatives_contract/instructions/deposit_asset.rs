//! Depositing the asset a contract is about.

use vstd::prelude::*;
use crate::address::Address;
use crate::derivatives_contract::error::CustomError;
use crate::derivatives_contract::state::derivative_contract::DerivativeContract;
use crate::ledger::{Authorization, LedgerCall};
use crate::scaler::{scale_amount, scaled};

verus! {

/// What a deposit of the asset is addressed to: the settlement record, whose
/// decimals scale the amount, the token account the asset is paid from, the
/// one it is paid to, the mint, and the principal that signs.
#[derive(Clone, Copy, Debug)]
pub struct DepositAsset {
    pub derivative_contract: DerivativeContract,
    pub sender_tokens: Address,
    pub recipient_tokens: Address,
    pub mint_token: Address,
    pub owner: Address,
}

/// The amount to deposit, in whole units.
#[derive(Clone, Copy, Debug)]
pub struct DepositAssetParams {
    pub amount: u32,
}

/// What a deposit of the asset does.
///
/// It is refused with `InvalidAmount` where the amount is zero, with
/// `AccountNotInitialized` where the settlement record is not initialized,
/// and with `ArithmeticOverflow` where the scaled amount would leave 64
/// bits. Otherwise the scaled amount moves from the sender's account to the
/// recipient's, approved by the signing principal.
pub open spec fn deposit_asset_outcome(ctx: DepositAsset, params: DepositAssetParams) -> Result<
    LedgerCall,
    CustomError,
> {
    let amount = scaled(params.amount as nat, ctx.derivative_contract.decimals as nat);
    if params.amount == 0 {
        Err(CustomError::InvalidAmount)
    } else if !ctx.derivative_contract.is_initialized {
        Err(CustomError::AccountNotInitialized)
    } else if amount > u64::MAX {
        Err(CustomError::ArithmeticOverflow)
    } else {
        Ok(
            LedgerCall::Transfer {
                from: ctx.sender_tokens,
                to: ctx.recipient_tokens,
                authority: Authorization::Principal(ctx.owner),
                amount: amount as u64,
            },
        )
    }
}

/// Returns the call that moves `params.amount` whole units of the asset from
/// the sender's account to the recipient's.
pub fn deposit_asset(ctx: &DepositAsset, params: &DepositAssetParams) -> (r: Result<
    LedgerCall,
    CustomError,
>)
    ensures
        r == deposit_asset_outcome(*ctx, *params),
        params.amount == 0 ==> r == Err::<LedgerCall, CustomError>(CustomError::InvalidAmount),
{
    if params.amount == 0 {
        return Err(CustomError::InvalidAmount);
    }
    if !ctx.derivative_contract.is_initialized {
        return Err(CustomError::AccountNotInitialized);
    }
    match scale_amount(params.amount as u64, ctx.derivative_contract.decimals) {
        None => Err(CustomError::ArithmeticOverflow),
        Some(amount) => Ok(
            LedgerCall::Transfer {
                from: ctx.sender_tokens,
                to: ctx.recipient_tokens,
                authority: Authorization::Principal(ctx.owner),
                amount,
            },
        ),
    }
}

} // verus!
