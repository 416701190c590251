//! Initializing a pool and the custody record that belongs to it.

use vstd::prelude::*;
use crate::address::Address;
use crate::authority::{VaultAuthority, VaultKind};
use crate::dex_exchange::error::DexError;
use crate::dex_exchange::state::pool::{Pool, PoolView};
use crate::error::CustomError;
use crate::vault::DepositBase;

verus! {

/// What an initialization is addressed to: the pool, the custody record with
/// its address, the principal that will own both, and the program under
/// which the custody authority is derived.
#[derive(Clone, Debug)]
pub struct Init {
    pub liquidity_pool: Pool,
    pub deposit_account: DepositBase,
    pub deposit_account_key: Address,
    pub owner: Address,
    pub program_id: Address,
}

/// The pool's two assets and the decimals of its amounts.
#[derive(Clone, Copy, Debug)]
pub struct InitParams {
    pub token_a: Address,
    pub token_b: Address,
    pub decimals: u8,
}

/// What an initialization does, given the authority resolved for the custody
/// record.
///
/// It is refused with `AccountAlreadyInitialized` where the pool or the
/// custody record is initialized already, and with `AuthorityMismatch` where
/// no authority was resolved for the record. Otherwise the pool starts with
/// its owner, its assets and decimals, empty reserves and an empty list of
/// providers, and the custody record stores its owner and both bumps.
pub open spec fn init_outcome(ctx: Init, params: InitParams, chain: Option<VaultAuthority>) -> Result<
    (PoolView, DepositBase),
    DexError,
> {
    if ctx.liquidity_pool.is_initialized {
        Err(CustomError::AccountAlreadyInitialized)
    } else {
        match ctx.deposit_account.initialized_by(
            ctx.owner,
            ctx.deposit_account_key,
            VaultKind::TreasuryVault,
            ctx.program_id,
            chain,
        ) {
            Err(e) => Err(e),
            Ok(record) => Ok(
                (
                    PoolView {
                        owner: ctx.owner,
                        token_a: params.token_a,
                        token_b: params.token_b,
                        reserve_a: 0,
                        reserve_b: 0,
                        is_initialized: true,
                        liquidity_providers: Seq::empty(),
                        decimals: params.decimals as nat,
                    },
                    record,
                ),
            ),
        }
    }
}

impl Init {
    /// Whether `other` names the same record address, owner and program.
    pub open spec fn same_accounts(self, other: Init) -> bool {
        &&& self.deposit_account_key == other.deposit_account_key
        &&& self.owner == other.owner
        &&& self.program_id == other.program_id
    }
}

/// Initializes the pool and the custody record from an authority that was
/// resolved for the record. A refused initialization changes nothing.
pub fn init_with(ctx: &mut Init, params: &InitParams, chain: Option<VaultAuthority>) -> (r: Result<
    (),
    DexError,
>)
    ensures
        match r {
            Ok(()) => {
                &&& init_outcome(*old(ctx), *params, chain) == Ok::<(PoolView, DepositBase), DexError>(
                    (final(ctx).liquidity_pool@, final(ctx).deposit_account),
                )
                &&& final(ctx).same_accounts(*old(ctx))
            },
            Err(e) => {
                &&& init_outcome(*old(ctx), *params, chain) == Err::<(PoolView, DepositBase), DexError>(
                    e,
                )
                &&& *final(ctx) == *old(ctx)
            },
        },
{
    if ctx.liquidity_pool.is_initialized {
        return Err(CustomError::AccountAlreadyInitialized);
    }
    let key = ctx.deposit_account_key;
    let program = ctx.program_id;
    match ctx.deposit_account.initialize_with(
        ctx.owner,
        &key,
        VaultKind::TreasuryVault,
        &program,
        chain,
    ) {
        Ok(()) => {},
        Err(e) => {
            return Err(e);
        },
    }
    ctx.liquidity_pool.owner = ctx.owner;
    ctx.liquidity_pool.token_a = params.token_a;
    ctx.liquidity_pool.token_b = params.token_b;
    ctx.liquidity_pool.reserve_a = 0;
    ctx.liquidity_pool.reserve_b = 0;
    ctx.liquidity_pool.decimals = params.decimals;
    ctx.liquidity_pool.liquidity_providers = Vec::new();
    ctx.liquidity_pool.is_initialized = true;
    Ok(())
}

/// Initializes the pool and the custody record: derives the record's
/// authority and does what [`init_with`] does with it.
pub fn init(ctx: &mut Init, params: &InitParams) -> (r: Result<(), DexError>)
    ensures
        match r {
            Ok(()) => {
                &&& init_outcome(
                    *old(ctx),
                    *params,
                    VaultAuthority::chain(
                        old(ctx).deposit_account_key,
                        VaultKind::TreasuryVault,
                        old(ctx).program_id,
                    ),
                ) == Ok::<(PoolView, DepositBase), DexError>(
                    (final(ctx).liquidity_pool@, final(ctx).deposit_account),
                )
                &&& final(ctx).same_accounts(*old(ctx))
            },
            Err(e) => {
                &&& init_outcome(
                    *old(ctx),
                    *params,
                    VaultAuthority::chain(
                        old(ctx).deposit_account_key,
                        VaultKind::TreasuryVault,
                        old(ctx).program_id,
                    ),
                ) == Err::<(PoolView, DepositBase), DexError>(e)
                &&& *final(ctx) == *old(ctx)
            },
        },
{
    let chain = VaultAuthority::resolve(
        &ctx.deposit_account_key,
        VaultKind::TreasuryVault,
        &ctx.program_id,
    );
    init_with(ctx, params, chain)
}

/// An initialized pool is well formed and cannot be initialized again.
pub proof fn lemma_init_is_final(
    ctx: Init,
    params: InitParams,
    chain: Option<VaultAuthority>,
    again: Init,
    next_params: InitParams,
    next_chain: Option<VaultAuthority>,
)
    requires
        init_outcome(ctx, params, chain) is Ok,
        again.liquidity_pool@ == init_outcome(ctx, params, chain)->Ok_0.0,
    ensures
        again.liquidity_pool@.wf(),
        init_outcome(again, next_params, next_chain) == Err::<(PoolView, DepositBase), DexError>(
            CustomError::AccountAlreadyInitialized,
        ),
{
}

} // verus!
