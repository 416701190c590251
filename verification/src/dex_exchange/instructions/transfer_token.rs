//! Moving tokens between two accounts in the pool's units.

use vstd::prelude::*;
use crate::address::Address;
use crate::dex_exchange::error::DexError;
use crate::dex_exchange::state::pool::Pool;
use crate::error::CustomError;
use crate::ledger::{Authorization, LedgerCall};
use crate::scaler::{scale_amount, scaled};

verus! {

/// What a transfer is addressed to: the pool, whose decimals scale the
/// amount, the two token accounts, the mint, and the principal that signs.
#[derive(Clone, Debug)]
pub struct TransferToken {
    pub liquidity_pool: Pool,
    pub from_account: Address,
    pub to_account: Address,
    pub mint_token: Address,
    pub owner: Address,
}

/// The amount to move, in whole units.
#[derive(Clone, Copy, Debug)]
pub struct TransferTokenParams {
    pub amount: u32,
}

/// What a transfer does.
///
/// It is refused with `InvalidAmount` where the amount is zero, with
/// `AccountNotInitialized` where the pool is not initialized, and with
/// `ArithmeticOverflow` where the scaled amount would leave 64 bits.
/// Otherwise the scaled amount moves from the one account to the other,
/// approved by the signing principal.
pub open spec fn transfer_token_outcome(ctx: TransferToken, params: TransferTokenParams) -> Result<
    LedgerCall,
    DexError,
> {
    let amount = scaled(params.amount as nat, ctx.liquidity_pool.decimals as nat);
    if params.amount == 0 {
        Err(CustomError::InvalidAmount)
    } else if !ctx.liquidity_pool.is_initialized {
        Err(CustomError::AccountNotInitialized)
    } else if amount > u64::MAX {
        Err(CustomError::ArithmeticOverflow)
    } else {
        Ok(
            LedgerCall::Transfer {
                from: ctx.from_account,
                to: ctx.to_account,
                authority: Authorization::Principal(ctx.owner),
                amount: amount as u64,
            },
        )
    }
}

/// Returns the call that moves `params.amount` whole units from the one
/// account to the other.
pub fn transfer_token(ctx: &TransferToken, params: &TransferTokenParams) -> (r: Result<
    LedgerCall,
    DexError,
>)
    ensures
        r == transfer_token_outcome(*ctx, *params),
        params.amount == 0 ==> r == Err::<LedgerCall, CustomError>(CustomError::InvalidAmount),
{
    if params.amount == 0 {
        return Err(CustomError::InvalidAmount);
    }
    if !ctx.liquidity_pool.is_initialized {
        return Err(CustomError::AccountNotInitialized);
    }
    match scale_amount(params.amount as u64, ctx.liquidity_pool.decimals) {
        None => Err(CustomError::ArithmeticOverflow),
        Some(amount) => Ok(
            LedgerCall::Transfer {
                from: ctx.from_account,
                to: ctx.to_account,
                authority: Authorization::Principal(ctx.owner),
                amount,
            },
        ),
    }
}

} // verus!
