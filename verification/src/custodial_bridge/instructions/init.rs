//! Initializing the bridge's custody record.

use vstd::prelude::*;
use crate::address::Address;
use crate::authority::{VaultAuthority, VaultKind};
use crate::custodial_bridge::error::CustomError;
use crate::vault::DepositBase;

verus! {

/// What an initialization is addressed to: the custody record with its
/// address, the principal that will own it, and the program under which the
/// mint authority is derived.
#[derive(Clone, Copy, Debug)]
pub struct Init {
    pub deposit_account: DepositBase,
    pub deposit_account_key: Address,
    pub owner: Address,
    pub program_id: Address,
}

impl Init {
    /// The record that the initialization leaves, or the reason it is
    /// refused, given the authority resolved for the record.
    pub open spec fn outcome(self, chain: Option<VaultAuthority>) -> Result<DepositBase, CustomError> {
        self.deposit_account.initialized_by(
            self.owner,
            self.deposit_account_key,
            VaultKind::MintAuthority,
            self.program_id,
            chain,
        )
    }

    /// Whether `other` names the same record address, owner and program.
    pub open spec fn same_accounts(self, other: Init) -> bool {
        &&& self.deposit_account_key == other.deposit_account_key
        &&& self.owner == other.owner
        &&& self.program_id == other.program_id
    }
}

/// Initializes the custody record from an authority that was resolved for
/// it. It is refused with `AccountAlreadyInitialized` where the record is
/// initialized already and with `AuthorityMismatch` where the authority is
/// not the record's; a refused initialization changes nothing.
pub fn init_with(ctx: &mut Init, chain: Option<VaultAuthority>) -> (r: Result<(), CustomError>)
    ensures
        final(ctx).same_accounts(*old(ctx)),
        match r {
            Ok(()) => old(ctx).outcome(chain) == Ok::<DepositBase, CustomError>(
                final(ctx).deposit_account,
            ),
            Err(e) => {
                &&& old(ctx).outcome(chain) == Err::<DepositBase, CustomError>(e)
                &&& *final(ctx) == *old(ctx)
            },
        },
{
    let key = ctx.deposit_account_key;
    let program = ctx.program_id;
    ctx.deposit_account.initialize_with(ctx.owner, &key, VaultKind::MintAuthority, &program, chain)
}

/// Initializes the custody record: derives the record's authority and its
/// mint authority and stores their bumps.
pub fn init(ctx: &mut Init) -> (r: Result<(), CustomError>)
    ensures
        final(ctx).same_accounts(*old(ctx)),
        match r {
            Ok(()) => old(ctx).outcome(
                VaultAuthority::chain(
                    old(ctx).deposit_account_key,
                    VaultKind::MintAuthority,
                    old(ctx).program_id,
                ),
            ) == Ok::<DepositBase, CustomError>(final(ctx).deposit_account),
            Err(e) => {
                &&& old(ctx).outcome(
                    VaultAuthority::chain(
                        old(ctx).deposit_account_key,
                        VaultKind::MintAuthority,
                        old(ctx).program_id,
                    ),
                ) == Err::<DepositBase, CustomError>(e)
                &&& *final(ctx) == *old(ctx)
            },
        },
{
    let chain = VaultAuthority::resolve(
        &ctx.deposit_account_key,
        VaultKind::MintAuthority,
        &ctx.program_id,
    );
    init_with(ctx, chain)
}

} // verus!
