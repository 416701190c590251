//! Swapping one asset of a pool for the other.

use vstd::prelude::*;
use crate::address::Address;
use crate::dex_exchange::error::DexError;
use crate::dex_exchange::state::pool::{
    amount_out,
    lemma_product_never_falls,
    lemma_quote_within_reserve,
    quote,
    Pool,
    PoolView,
};
use crate::dex_exchange::state::trader::Trader;
use crate::error::CustomError;
use crate::ledger::{Authorization, LedgerCall};
use crate::scaler::{scale_amount, scaled};

verus! {

/// What a swap is addressed to: the pool, the trader's record, the token
/// account the output is paid from, the one it is paid to, the mint, and the
/// principal that signs.
#[derive(Clone, Debug)]
pub struct Swap {
    pub liquidity_pool: Pool,
    pub trader: Trader,
    pub sender_tokens: Address,
    pub recipient_tokens: Address,
    pub mint_token: Address,
    pub owner: Address,
}

/// The amount that comes in, in pool units, and the asset it is in.
#[derive(Clone, Copy, Debug)]
pub struct SwapParams {
    pub amount_in: u32,
    pub token_in: Address,
}

/// What a swap leaves behind: the pool, the trader's record, and the call
/// that pays the output.
pub struct Swapped {
    pub pool: PoolView,
    pub trader: Trader,
    pub call: LedgerCall,
}

impl Swap {
    /// The call that pays `amount` smallest units to the recipient, approved
    /// by the signing principal.
    pub open spec fn payout(self, amount: u64) -> LedgerCall {
        LedgerCall::Transfer {
            from: self.sender_tokens,
            to: self.recipient_tokens,
            authority: Authorization::Principal(self.owner),
            amount,
        }
    }

    /// Whether `other` names the same accounts and signer.
    pub open spec fn same_accounts(self, other: Swap) -> bool {
        &&& self.sender_tokens == other.sender_tokens
        &&& self.recipient_tokens == other.recipient_tokens
        &&& self.mint_token == other.mint_token
        &&& self.owner == other.owner
    }
}

/// What a swap does.
///
/// It is refused with `InvalidAmount` where nothing comes in, with
/// `AccountNotInitialized` where the pool is not initialized, with
/// `InvalidTraderStatus` where the trader is not active, and with
/// `ArithmeticOverflow` where the reserve that grows would leave 32 bits or
/// the scaled output would leave 64 bits. Otherwise the input is added to its
/// reserve, the constant-product quote is taken from the other, the trader's
/// record keeps the output in both units, and the scaled output is paid.
/// An output of zero is not refused.
pub open spec fn swap_outcome(ctx: Swap, params: SwapParams) -> Result<Swapped, DexError> {
    let pool = ctx.liquidity_pool@;
    let (reserve_in, reserve_out) = pool.reserves_for(params.token_in);
    let out = quote(reserve_in, reserve_out, params.amount_in as int);
    if params.amount_in == 0 {
        Err(CustomError::InvalidAmount)
    } else if !pool.is_initialized {
        Err(CustomError::AccountNotInitialized)
    } else if !ctx.trader.active {
        Err(CustomError::InvalidTraderStatus)
    } else if reserve_in + params.amount_in > u32::MAX {
        Err(CustomError::ArithmeticOverflow)
    } else if scaled(out as nat, pool.decimals) > u64::MAX {
        Err(CustomError::ArithmeticOverflow)
    } else {
        Ok(
            Swapped {
                pool: pool.after_swap(params.amount_in as nat, params.token_in),
                trader: Trader {
                    amount_out: out as u32,
                    amount_out_2: scaled(out as nat, pool.decimals) as u64,
                    ..ctx.trader
                },
                call: ctx.payout(scaled(out as nat, pool.decimals) as u64),
            },
        )
    }
}

/// Swaps `params.amount_in` of `params.token_in` against the pool and returns
/// the call that pays the output. A refused swap changes nothing.
pub fn swap(ctx: &mut Swap, params: &SwapParams) -> (r: Result<LedgerCall, DexError>)
    ensures
        params.amount_in == 0 ==> r == Err::<LedgerCall, DexError>(CustomError::InvalidAmount),
        match r {
            Ok(call) => {
                &&& swap_outcome(*old(ctx), *params) == Ok::<Swapped, DexError>(
                    Swapped { pool: final(ctx).liquidity_pool@, trader: final(ctx).trader, call },
                )
                &&& final(ctx).same_accounts(*old(ctx))
            },
            Err(e) => {
                &&& swap_outcome(*old(ctx), *params) == Err::<Swapped, DexError>(e)
                &&& *final(ctx) == *old(ctx)
            },
        },
{
    if params.amount_in == 0 {
        return Err(CustomError::InvalidAmount);
    }
    if !ctx.liquidity_pool.is_initialized {
        return Err(CustomError::AccountNotInitialized);
    }
    match ctx.trader.require_active() {
        Ok(()) => {},
        Err(e) => {
            return Err(e);
        },
    }
    let amount_in = params.amount_in;
    let is_token_a = params.token_in == ctx.liquidity_pool.token_a;
    let (reserve_in, reserve_out) = if is_token_a {
        (ctx.liquidity_pool.reserve_a, ctx.liquidity_pool.reserve_b)
    } else {
        (ctx.liquidity_pool.reserve_b, ctx.liquidity_pool.reserve_a)
    };
    let out = amount_out(reserve_in, reserve_out, amount_in);
    proof {
        lemma_quote_within_reserve(reserve_in as int, reserve_out as int, amount_in as int);
    }
    let grown = match reserve_in.checked_add(amount_in) {
        Some(grown) => grown,
        None => {
            return Err(CustomError::ArithmeticOverflow);
        },
    };
    let shrunk = match reserve_out.checked_sub(out) {
        Some(shrunk) => shrunk,
        None => {
            return Err(CustomError::ArithmeticOverflow);
        },
    };
    let paid = match scale_amount(out as u64, ctx.liquidity_pool.decimals) {
        Some(paid) => paid,
        None => {
            return Err(CustomError::ArithmeticOverflow);
        },
    };
    if is_token_a {
        ctx.liquidity_pool.reserve_a = grown;
        ctx.liquidity_pool.reserve_b = shrunk;
    } else {
        ctx.liquidity_pool.reserve_b = grown;
        ctx.liquidity_pool.reserve_a = shrunk;
    }
    ctx.trader.amount_out = out;
    ctx.trader.amount_out_2 = paid;
    Ok(
        LedgerCall::Transfer {
            from: ctx.sender_tokens,
            to: ctx.recipient_tokens,
            authority: Authorization::Principal(ctx.owner),
            amount: paid,
        },
    )
}

/// After a swap of asset A, reserve A is strictly larger and reserve B is no
/// larger, and reserve B is unchanged only where the output is zero. A swap
/// of any other asset does the same with the two sides exchanged.
pub proof fn lemma_swap_moves_reserves(ctx: Swap, params: SwapParams)
    requires
        swap_outcome(ctx, params) is Ok,
    ensures
        ({
            let before = ctx.liquidity_pool@;
            let after = swap_outcome(ctx, params)->Ok_0.pool;
            let out = swap_outcome(ctx, params)->Ok_0.trader.amount_out;
            if params.token_in == before.token_a {
                &&& after.reserve_a > before.reserve_a
                &&& after.reserve_b <= before.reserve_b
                &&& after.reserve_b == before.reserve_b <==> out == 0
            } else {
                &&& after.reserve_b > before.reserve_b
                &&& after.reserve_a <= before.reserve_a
                &&& after.reserve_a == before.reserve_a <==> out == 0
            }
        }),
{
    let before = ctx.liquidity_pool@;
    let (reserve_in, reserve_out) = before.reserves_for(params.token_in);
    lemma_quote_within_reserve(reserve_in, reserve_out, params.amount_in as int);
}

/// A swap never lowers the product of the pool's reserves, and both reserves
/// stay within 32 bits.
pub proof fn lemma_swap_keeps_product(ctx: Swap, params: SwapParams)
    requires
        swap_outcome(ctx, params) is Ok,
    ensures
        ({
            let before = ctx.liquidity_pool@;
            let after = swap_outcome(ctx, params)->Ok_0.pool;
            &&& after.reserve_a * after.reserve_b >= before.reserve_a * before.reserve_b
            &&& 0 <= after.reserve_a <= u32::MAX
            &&& 0 <= after.reserve_b <= u32::MAX
        }),
{
    let before = ctx.liquidity_pool@;
    let after = swap_outcome(ctx, params)->Ok_0.pool;
    let (reserve_in, reserve_out) = before.reserves_for(params.token_in);
    lemma_quote_within_reserve(reserve_in, reserve_out, params.amount_in as int);
    lemma_product_never_falls(reserve_in, reserve_out, params.amount_in as int);
    if params.token_in != before.token_a {
        assert(after.reserve_a * after.reserve_b == after.reserve_b * after.reserve_a)
            by (nonlinear_arith);
        assert(before.reserve_a * before.reserve_b == before.reserve_b * before.reserve_a)
            by (nonlinear_arith);
    }
}

} // verus!
