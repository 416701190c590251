//! Registering a trader.

use vstd::prelude::*;
use crate::address::Address;
use crate::dex_exchange::error::DexError;
use crate::dex_exchange::state::trader::Trader;
use crate::error::CustomError;

verus! {

/// What a registration is addressed to: the trader's record and the
/// principal that registers.
#[derive(Clone, Copy, Debug)]
pub struct RegisterTrader {
    pub trader: Trader,
    pub owner: Address,
}

/// The record that a registration leaves, or `AccountAlreadyInitialized`
/// where the record is active already.
pub open spec fn registered_trader(record: Trader, owner: Address) -> Result<Trader, DexError> {
    if record.active {
        Err(CustomError::AccountAlreadyInitialized)
    } else {
        Ok(Trader { owner, active: true, amount_out: 0, amount_out_2: 0 })
    }
}

/// Registers the principal as a trader: the record becomes active, with the
/// principal as its owner and nothing paid out yet. A refused registration
/// changes nothing.
pub fn register_trader(ctx: &mut RegisterTrader) -> (r: Result<(), DexError>)
    ensures
        final(ctx).owner == old(ctx).owner,
        match r {
            Ok(()) => registered_trader(old(ctx).trader, old(ctx).owner) == Ok::<Trader, DexError>(
                final(ctx).trader,
            ),
            Err(e) => {
                &&& registered_trader(old(ctx).trader, old(ctx).owner) == Err::<Trader, DexError>(e)
                &&& *final(ctx) == *old(ctx)
            },
        },
{
    if ctx.trader.active {
        return Err(CustomError::AccountAlreadyInitialized);
    }
    ctx.trader.owner = ctx.owner;
    ctx.trader.active = true;
    ctx.trader.amount_out = 0;
    ctx.trader.amount_out_2 = 0;
    Ok(())
}

/// Registering twice fails the second time with `AccountAlreadyInitialized`,
/// whoever asks, and the record of the first registration stays as it is.
pub proof fn lemma_trader_registers_once(record: Trader, owner: Address, again: Address)
    requires
        registered_trader(record, owner) is Ok,
    ensures
        registered_trader(registered_trader(record, owner)->Ok_0, again) == Err::<Trader, DexError>(
            CustomError::AccountAlreadyInitialized,
        ),
        registered_trader(record, owner)->Ok_0.active,
        registered_trader(record, owner)->Ok_0.owner == owner,
{
}

} // verus!
