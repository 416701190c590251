//! Adding liquidity to a pool.

use vstd::prelude::*;
use crate::address::Address;
use crate::dex_exchange::error::DexError;
use crate::dex_exchange::state::liquidity_provider::LiquidityProvider;
use crate::dex_exchange::state::pool::{Pool, PoolView, MAX_LIQUIDITY_PROVIDERS};
use crate::error::CustomError;
use crate::ledger::{Authorization, LedgerCall};
use crate::scaler::{scale_amount, scaled};

verus! {

/// What an addition of liquidity is addressed to: the pool, the provider's
/// record, the token account the provider pays from, the pool's custody
/// account, the mint, and the provider, who signs.
#[derive(Clone, Debug)]
pub struct AddLiquidity {
    pub liquidity_pool: Pool,
    pub liquidity_provider: LiquidityProvider,
    pub sender_tokens: Address,
    pub recipient_tokens: Address,
    pub mint_token: Address,
    pub owner: Address,
}

/// The amounts added to either side, in pool units.
#[derive(Clone, Copy, Debug)]
pub struct AddLiquidityParams {
    pub amount_a: u32,
    pub amount_b: u32,
}

/// What an addition of liquidity leaves behind: the pool, the provider's
/// record, and the call that moves the provider's payment.
pub struct LiquidityAdded {
    pub pool: PoolView,
    pub provider: LiquidityProvider,
    pub call: LedgerCall,
}

impl AddLiquidity {
    /// The call that moves `amount` smallest units from the provider to the
    /// pool's custody account, approved by the provider.
    pub open spec fn payment(self, amount: u64) -> LedgerCall {
        LedgerCall::Transfer {
            from: self.sender_tokens,
            to: self.recipient_tokens,
            authority: Authorization::Principal(self.owner),
            amount,
        }
    }

    /// Whether `other` names the same accounts and signer.
    pub open spec fn same_accounts(self, other: AddLiquidity) -> bool {
        &&& self.sender_tokens == other.sender_tokens
        &&& self.recipient_tokens == other.recipient_tokens
        &&& self.mint_token == other.mint_token
        &&& self.owner == other.owner
    }
}

/// Whether one of the four sums, or the scaled amount of side A, leaves its
/// range.
pub open spec fn liquidity_overflows(ctx: AddLiquidity, params: AddLiquidityParams) -> bool {
    let pool = ctx.liquidity_pool@;
    ||| pool.reserve_a + params.amount_a > u32::MAX
    ||| pool.reserve_b + params.amount_b > u32::MAX
    ||| ctx.liquidity_provider.reserve_a_available_funds + params.amount_a > u32::MAX
    ||| ctx.liquidity_provider.reserve_b_available_funds + params.amount_b > u32::MAX
    ||| scaled(params.amount_a as nat, pool.decimals) > u64::MAX
}

/// What an addition of liquidity does.
///
/// It is refused with `InvalidAmount` where either amount is zero, with
/// `AccountNotInitialized` where the pool is not initialized, with
/// `InvalidProviderStatus` where the provider is not active, with
/// `ArithmeticOverflow` where a reserve or a provider total would leave 32
/// bits or the scaled amount of side A would leave 64 bits, and with
/// `ProviderCapacityExceeded` where the provider is not yet listed and the
/// list is full. Otherwise both reserves and both provider totals grow by
/// the amounts, the provider is listed if it was not, and the scaled amount
/// of side A is paid into the pool's custody account. Only side A is moved
/// through the ledger; side B is booked in the reserves alone.
pub open spec fn add_liquidity_outcome(ctx: AddLiquidity, params: AddLiquidityParams) -> Result<
    LiquidityAdded,
    DexError,
> {
    let pool = ctx.liquidity_pool@;
    let provider = ctx.liquidity_provider;
    if params.amount_a == 0 || params.amount_b == 0 {
        Err(CustomError::InvalidAmount)
    } else if !pool.is_initialized {
        Err(CustomError::AccountNotInitialized)
    } else if !provider.active {
        Err(CustomError::InvalidProviderStatus)
    } else if liquidity_overflows(ctx, params) {
        Err(CustomError::ArithmeticOverflow)
    } else if !pool.liquidity_providers.contains(ctx.owner) && pool.liquidity_providers.len()
        >= MAX_LIQUIDITY_PROVIDERS {
        Err(CustomError::ProviderCapacityExceeded)
    } else {
        Ok(
            LiquidityAdded {
                pool: pool.after_liquidity(
                    ctx.owner,
                    params.amount_a as nat,
                    params.amount_b as nat,
                ),
                provider: LiquidityProvider {
                    reserve_a_available_funds: (provider.reserve_a_available_funds
                        + params.amount_a) as u32,
                    reserve_b_available_funds: (provider.reserve_b_available_funds
                        + params.amount_b) as u32,
                    ..provider
                },
                call: ctx.payment(scaled(params.amount_a as nat, pool.decimals) as u64),
            },
        )
    }
}

/// Adds `params.amount_a` and `params.amount_b` to the pool on behalf of the
/// signing provider and returns the call that moves the provider's payment.
/// A refused addition changes nothing.
pub fn add_liquidity(ctx: &mut AddLiquidity, params: &AddLiquidityParams) -> (r: Result<
    LedgerCall,
    DexError,
>)
    ensures
        params.amount_a == 0 || params.amount_b == 0 ==> r == Err::<LedgerCall, DexError>(
            CustomError::InvalidAmount,
        ),
        match r {
            Ok(call) => {
                &&& add_liquidity_outcome(*old(ctx), *params) == Ok::<LiquidityAdded, DexError>(
                    LiquidityAdded {
                        pool: final(ctx).liquidity_pool@,
                        provider: final(ctx).liquidity_provider,
                        call,
                    },
                )
                &&& final(ctx).same_accounts(*old(ctx))
            },
            Err(e) => {
                &&& add_liquidity_outcome(*old(ctx), *params) == Err::<LiquidityAdded, DexError>(e)
                &&& *final(ctx) == *old(ctx)
            },
        },
{
    if params.amount_a == 0 {
        return Err(CustomError::InvalidAmount);
    }
    if params.amount_b == 0 {
        return Err(CustomError::InvalidAmount);
    }
    if !ctx.liquidity_pool.is_initialized {
        return Err(CustomError::AccountNotInitialized);
    }
    match ctx.liquidity_provider.require_active() {
        Ok(()) => {},
        Err(e) => {
            return Err(e);
        },
    }
    let reserve_a = match ctx.liquidity_pool.reserve_a.checked_add(params.amount_a) {
        Some(sum) => sum,
        None => {
            return Err(CustomError::ArithmeticOverflow);
        },
    };
    let reserve_b = match ctx.liquidity_pool.reserve_b.checked_add(params.amount_b) {
        Some(sum) => sum,
        None => {
            return Err(CustomError::ArithmeticOverflow);
        },
    };
    let funds_a = match ctx.liquidity_provider.reserve_a_available_funds.checked_add(
        params.amount_a,
    ) {
        Some(sum) => sum,
        None => {
            return Err(CustomError::ArithmeticOverflow);
        },
    };
    let funds_b = match ctx.liquidity_provider.reserve_b_available_funds.checked_add(
        params.amount_b,
    ) {
        Some(sum) => sum,
        None => {
            return Err(CustomError::ArithmeticOverflow);
        },
    };
    let paid = match scale_amount(params.amount_a as u64, ctx.liquidity_pool.decimals) {
        Some(paid) => paid,
        None => {
            return Err(CustomError::ArithmeticOverflow);
        },
    };
    let listed = ctx.liquidity_pool.lists(&ctx.owner);
    if !listed && ctx.liquidity_pool.liquidity_providers.len() >= MAX_LIQUIDITY_PROVIDERS {
        return Err(CustomError::ProviderCapacityExceeded);
    }
    ctx.liquidity_pool.reserve_a = reserve_a;
    ctx.liquidity_pool.reserve_b = reserve_b;
    ctx.liquidity_provider.reserve_a_available_funds = funds_a;
    ctx.liquidity_provider.reserve_b_available_funds = funds_b;
    if !listed {
        ctx.liquidity_pool.liquidity_providers.push(ctx.owner);
    }
    Ok(
        LedgerCall::Transfer {
            from: ctx.sender_tokens,
            to: ctx.recipient_tokens,
            authority: Authorization::Principal(ctx.owner),
            amount: paid,
        },
    )
}

/// An addition of liquidity keeps the list of providers a set within the
/// pool's capacity, and lists the provider.
pub proof fn lemma_liquidity_keeps_list(ctx: AddLiquidity, params: AddLiquidityParams)
    requires
        ctx.liquidity_pool@.wf(),
        add_liquidity_outcome(ctx, params) is Ok,
    ensures
        add_liquidity_outcome(ctx, params)->Ok_0.pool.wf(),
        add_liquidity_outcome(ctx, params)->Ok_0.pool.liquidity_providers.contains(ctx.owner),
{
    let before = ctx.liquidity_pool@.liquidity_providers;
    let after = add_liquidity_outcome(ctx, params)->Ok_0.pool.liquidity_providers;
    if !before.contains(ctx.owner) {
        assert(after == before.push(ctx.owner));
        assert(after[before.len() as int] == ctx.owner);
        assert forall|i: int, j: int| 0 <= i < after.len() && 0 <= j < after.len() && i != j implies after[i]
            != after[j] by {
            if i < before.len() && j < before.len() {
                assert(before[i] != before[j]);
            } else if i < before.len() {
                assert(before.contains(before[i]));
            } else {
                assert(before.contains(before[j]));
            }
        }
    }
}

/// Where an amount is so large that a reserve would leave 32 bits, an
/// addition by an active provider to an initialized pool, with neither amount
/// zero, is refused with `ArithmeticOverflow`. A refused addition leaves the
/// reserves as they were.
pub proof fn lemma_liquidity_overflow_is_refused(ctx: AddLiquidity, params: AddLiquidityParams)
    requires
        params.amount_a != 0,
        params.amount_b != 0,
        ctx.liquidity_pool.is_initialized,
        ctx.liquidity_provider.active,
        ctx.liquidity_pool.reserve_a + params.amount_a > u32::MAX || ctx.liquidity_pool.reserve_b
            + params.amount_b > u32::MAX,
    ensures
        add_liquidity_outcome(ctx, params) == Err::<LiquidityAdded, DexError>(
            CustomError::ArithmeticOverflow,
        ),
{
}

/// An addition that is let through leaves both reserves within 32 bits, each
/// larger than before by the amount added.
pub proof fn lemma_liquidity_grows_reserves(ctx: AddLiquidity, params: AddLiquidityParams)
    requires
        add_liquidity_outcome(ctx, params) is Ok,
    ensures
        ({
            let before = ctx.liquidity_pool@;
            let after = add_liquidity_outcome(ctx, params)->Ok_0.pool;
            &&& after.reserve_a == before.reserve_a + params.amount_a
            &&& after.reserve_b == before.reserve_b + params.amount_b
            &&& before.reserve_a < after.reserve_a <= u32::MAX
            &&& before.reserve_b < after.reserve_b <= u32::MAX
        }),
{
}

} // verus!
