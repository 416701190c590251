//! Initializing a settlement record and the custody record that belongs to
//! it.

use vstd::prelude::*;
use crate::address::Address;
use crate::authority::{VaultAuthority, VaultKind};
use crate::derivatives_contract::error::CustomError;
use crate::derivatives_contract::state::derivative_contract::DerivativeContract;
use crate::vault::DepositBase;

verus! {

/// What an initialization is addressed to: the settlement record, the
/// custody record with its address, the principal that will own both, and
/// the program under which the treasury vault is derived.
#[derive(Clone, Copy, Debug)]
pub struct Init {
    pub derivative_contract: DerivativeContract,
    pub deposit_account: DepositBase,
    pub deposit_account_key: Address,
    pub owner: Address,
    pub program_id: Address,
}

/// The decimals of the asset the contract is about.
#[derive(Clone, Copy, Debug)]
pub struct InitParams {
    pub decimals: u8,
}

impl Init {
    /// Whether `other` names the same record address, owner and program.
    pub open spec fn same_accounts(self, other: Init) -> bool {
        &&& self.deposit_account_key == other.deposit_account_key
        &&& self.owner == other.owner
        &&& self.program_id == other.program_id
    }
}

/// What an initialization does, given the authority resolved for the custody
/// record.
///
/// It is refused with `AccountAlreadyInitialized` where the settlement
/// record or the custody record is initialized already, and with
/// `AuthorityMismatch` where no authority was resolved for the custody
/// record. Otherwise the settlement record takes its owner and decimals and
/// becomes initialized, its terms staying as they were, and the custody
/// record stores its owner and both bumps.
pub open spec fn init_outcome(ctx: Init, params: InitParams, chain: Option<VaultAuthority>) -> Result<
    (DerivativeContract, DepositBase),
    CustomError,
> {
    if ctx.derivative_contract.is_initialized {
        Err(CustomError::AccountAlreadyInitialized)
    } else {
        match ctx.deposit_account.initialized_by(
            ctx.owner,
            ctx.deposit_account_key,
            VaultKind::TreasuryVault,
            ctx.program_id,
            chain,
        ) {
            Err(e) => Err(e),
            Ok(record) => Ok(
                (
                    DerivativeContract {
                        owner: ctx.owner,
                        decimals: params.decimals,
                        is_initialized: true,
                        ..ctx.derivative_contract
                    },
                    record,
                ),
            ),
        }
    }
}

/// Initializes the settlement record and the custody record from an
/// authority that was resolved for the custody record. A refused
/// initialization changes nothing.
pub fn init_with(ctx: &mut Init, params: &InitParams, chain: Option<VaultAuthority>) -> (r: Result<
    (),
    CustomError,
>)
    ensures
        match r {
            Ok(()) => {
                &&& init_outcome(*old(ctx), *params, chain) == Ok::<
                    (DerivativeContract, DepositBase),
                    CustomError,
                >((final(ctx).derivative_contract, final(ctx).deposit_account))
                &&& final(ctx).same_accounts(*old(ctx))
            },
            Err(e) => {
                &&& init_outcome(*old(ctx), *params, chain) == Err::<
                    (DerivativeContract, DepositBase),
                    CustomError,
                >(e)
                &&& *final(ctx) == *old(ctx)
            },
        },
{
    if ctx.derivative_contract.is_initialized {
        return Err(CustomError::AccountAlreadyInitialized);
    }
    let key = ctx.deposit_account_key;
    let program = ctx.program_id;
    match ctx.deposit_account.initialize_with(
        ctx.owner,
        &key,
        VaultKind::TreasuryVault,
        &program,
        chain,
    ) {
        Ok(()) => {},
        Err(e) => {
            return Err(e);
        },
    }
    ctx.derivative_contract.owner = ctx.owner;
    ctx.derivative_contract.decimals = params.decimals;
    ctx.derivative_contract.is_initialized = true;
    Ok(())
}

/// Initializes the settlement record and the custody record: derives the
/// custody record's authority and does what [`init_with`] does with it.
pub fn init(ctx: &mut Init, params: &InitParams) -> (r: Result<(), CustomError>)
    ensures
        match r {
            Ok(()) => {
                &&& init_outcome(
                    *old(ctx),
                    *params,
                    VaultAuthority::chain(
                        old(ctx).deposit_account_key,
                        VaultKind::TreasuryVault,
                        old(ctx).program_id,
                    ),
                ) == Ok::<(DerivativeContract, DepositBase), CustomError>(
                    (final(ctx).derivative_contract, final(ctx).deposit_account),
                )
                &&& final(ctx).same_accounts(*old(ctx))
            },
            Err(e) => {
                &&& init_outcome(
                    *old(ctx),
                    *params,
                    VaultAuthority::chain(
                        old(ctx).deposit_account_key,
                        VaultKind::TreasuryVault,
                        old(ctx).program_id,
                    ),
                ) == Err::<(DerivativeContract, DepositBase), CustomError>(e)
                &&& *final(ctx) == *old(ctx)
            },
        },
{
    let chain = VaultAuthority::resolve(
        &ctx.deposit_account_key,
        VaultKind::TreasuryVault,
        &ctx.program_id,
    );
    init_with(ctx, params, chain)
}

} // verus!
