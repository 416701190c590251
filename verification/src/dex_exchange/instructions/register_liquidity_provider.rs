//! Registering a liquidity provider.

use vstd::prelude::*;
use crate::address::Address;
use crate::dex_exchange::error::DexError;
use crate::dex_exchange::state::liquidity_provider::LiquidityProvider;
use crate::error::CustomError;

verus! {

/// What a registration is addressed to: the provider's record and the
/// principal that registers.
#[derive(Clone, Copy, Debug)]
pub struct RegisterLiquidityProvider {
    pub liquidity_provider: LiquidityProvider,
    pub owner: Address,
}

/// The record that a registration leaves, or `AccountAlreadyInitialized`
/// where the record is active already.
pub open spec fn registered_provider(record: LiquidityProvider, owner: Address) -> Result<
    LiquidityProvider,
    DexError,
> {
    if record.active {
        Err(CustomError::AccountAlreadyInitialized)
    } else {
        Ok(
            LiquidityProvider {
                owner,
                active: true,
                reserve_a_available_funds: 0,
                reserve_b_available_funds: 0,
            },
        )
    }
}

/// Registers the principal as a liquidity provider: the record becomes
/// active, with the principal as its owner and both totals at zero. A refused
/// registration changes nothing.
pub fn register_liquidity_provider(ctx: &mut RegisterLiquidityProvider) -> (r: Result<(), DexError>)
    ensures
        final(ctx).owner == old(ctx).owner,
        match r {
            Ok(()) => registered_provider(old(ctx).liquidity_provider, old(ctx).owner) == Ok::<
                LiquidityProvider,
                DexError,
            >(final(ctx).liquidity_provider),
            Err(e) => {
                &&& registered_provider(old(ctx).liquidity_provider, old(ctx).owner) == Err::<
                    LiquidityProvider,
                    DexError,
                >(e)
                &&& *final(ctx) == *old(ctx)
            },
        },
{
    if ctx.liquidity_provider.active {
        return Err(CustomError::AccountAlreadyInitialized);
    }
    ctx.liquidity_provider.owner = ctx.owner;
    ctx.liquidity_provider.active = true;
    ctx.liquidity_provider.reserve_a_available_funds = 0;
    ctx.liquidity_provider.reserve_b_available_funds = 0;
    Ok(())
}

/// Registering twice fails the second time with `AccountAlreadyInitialized`,
/// whoever asks, and the record of the first registration stays as it is.
pub proof fn lemma_provider_registers_once(
    record: LiquidityProvider,
    owner: Address,
    again: Address,
)
    requires
        registered_provider(record, owner) is Ok,
    ensures
        registered_provider(registered_provider(record, owner)->Ok_0, again) == Err::<
            LiquidityProvider,
            DexError,
        >(CustomError::AccountAlreadyInitialized),
        registered_provider(record, owner)->Ok_0.active,
        registered_provider(record, owner)->Ok_0.owner == owner,
{
}

} // verus!
