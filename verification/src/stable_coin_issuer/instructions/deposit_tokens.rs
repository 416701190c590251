//! Depositing native value into the treasury vault against stable coins.

use vstd::prelude::*;
use crate::address::Address;
use crate::authority::{VaultAuthority, VaultKind};
use crate::ledger::{Authorization, LedgerCall};
use crate::stable_coin_issuer::error::CustomError;
use crate::vault::DepositBase;

verus! {

/// What a deposit is addressed to: the depositor, the stable-coin mint and
/// the depositor's account for it, the custody record with its address, and
/// the program under which the treasury vault is derived.
#[derive(Clone, Copy, Debug)]
pub struct DepositTokens {
    pub user: Address,
    pub wrapped_mint: Address,
    pub user_wrapped_token_account: Address,
    pub deposit_account: DepositBase,
    pub deposit_account_key: Address,
    pub program_id: Address,
}

/// The native value to deposit and the stable coins to mint, both in
/// smallest units. The issuer does not scale either.
#[derive(Clone, Copy, Debug)]
pub struct DepositTokensParams {
    pub deposit_amount: u64,
    pub stable_coin_amount: u64,
}

impl DepositTokens {
    /// The call that moves the deposit into the treasury vault, approved by
    /// the depositor.
    pub open spec fn transfer_call(self, amount: u64, authority: VaultAuthority) -> LedgerCall {
        LedgerCall::SystemTransfer {
            from: self.user,
            to: authority.vault_key(),
            authority: Authorization::Principal(self.user),
            amount,
        }
    }

    /// The call that mints the stable coins to the depositor, approved by the
    /// derived treasury vault.
    pub open spec fn mint_to_call(self, amount: u64, authority: VaultAuthority) -> LedgerCall {
        LedgerCall::MintTo {
            mint: self.wrapped_mint,
            to: self.user_wrapped_token_account,
            authority: Authorization::Derived(authority),
            amount,
        }
    }

    /// Builds the call that moves the deposit into the treasury vault.
    pub fn into_transfer_context(&self, amount: u64, authority: VaultAuthority) -> (call: LedgerCall)
        ensures
            call == self.transfer_call(amount, authority),
    {
        LedgerCall::SystemTransfer {
            from: self.user,
            to: authority.vault(),
            authority: Authorization::Principal(self.user),
            amount,
        }
    }

    /// Builds the call that mints the stable coins to the depositor.
    pub fn into_mint_to_context(&self, amount: u64, authority: VaultAuthority) -> (call: LedgerCall)
        ensures
            call == self.mint_to_call(amount, authority),
    {
        LedgerCall::MintTo {
            mint: self.wrapped_mint,
            to: self.user_wrapped_token_account,
            authority: Authorization::Derived(authority),
            amount,
        }
    }
}

/// What a deposit does, given the authority resolved for the custody record.
///
/// It is refused with `InvalidAmount` where either amount is zero, with
/// `AccountNotInitialized` where the custody record is not initialized, and
/// with `AuthorityMismatch` where a stored bump does not match the
/// authority. Otherwise the deposit moves from the depositor into the
/// treasury vault, and then the stable coins are minted to the depositor
/// under the derived treasury vault.
pub open spec fn deposit_tokens_outcome(
    ctx: DepositTokens,
    params: DepositTokensParams,
    chain: Option<VaultAuthority>,
) -> Result<Seq<LedgerCall>, CustomError> {
    if params.deposit_amount == 0 || params.stable_coin_amount == 0 {
        Err(CustomError::InvalidAmount)
    } else {
        match ctx.deposit_account.authorized_by(
            ctx.deposit_account_key,
            VaultKind::TreasuryVault,
            ctx.program_id,
            chain,
        ) {
            Err(e) => Err(e),
            Ok(authority) => Ok(
                seq![
                    ctx.transfer_call(params.deposit_amount, authority),
                    ctx.mint_to_call(params.stable_coin_amount, authority),
                ],
            ),
        }
    }
}

/// Validates a deposit against an authority that was resolved for the
/// custody record and returns the calls to execute, in order.
pub fn deposit_tokens_with(
    ctx: &DepositTokens,
    params: &DepositTokensParams,
    chain: Option<VaultAuthority>,
) -> (r: Result<Vec<LedgerCall>, CustomError>)
    ensures
        params.deposit_amount == 0 || params.stable_coin_amount == 0 ==> r == Err::<Vec<LedgerCall>, CustomError>(CustomError::InvalidAmount),
        match r {
            Ok(calls) => deposit_tokens_outcome(*ctx, *params, chain) == Ok::<
                Seq<LedgerCall>,
                CustomError,
            >(calls@),
            Err(e) => deposit_tokens_outcome(*ctx, *params, chain) == Err::<
                Seq<LedgerCall>,
                CustomError,
            >(e),
        },
{
    let deposit_amount = params.deposit_amount;
    let stable_coin_amount = params.stable_coin_amount;
    if deposit_amount == 0 {
        return Err(CustomError::InvalidAmount);
    }
    if stable_coin_amount == 0 {
        return Err(CustomError::InvalidAmount);
    }
    let authority = match ctx.deposit_account.authorize_with(
        &ctx.deposit_account_key,
        VaultKind::TreasuryVault,
        &ctx.program_id,
        chain,
    ) {
        Ok(authority) => authority,
        Err(e) => {
            return Err(e);
        },
    };
    let mut calls: Vec<LedgerCall> = Vec::new();
    calls.push(ctx.into_transfer_context(deposit_amount, authority));
    calls.push(ctx.into_mint_to_context(stable_coin_amount, authority));
    assert(calls@ =~= seq![
        ctx.transfer_call(deposit_amount, authority),
        ctx.mint_to_call(stable_coin_amount, authority),
    ]);
    Ok(calls)
}

/// Deposits `params.deposit_amount` against `params.stable_coin_amount`:
/// derives the custody record's authority, validates the stored bumps
/// against it and returns the calls to execute.
pub fn deposit_tokens(ctx: &DepositTokens, params: &DepositTokensParams) -> (r: Result<
    Vec<LedgerCall>,
    CustomError,
>)
    ensures
        params.deposit_amount == 0 || params.stable_coin_amount == 0 ==> r == Err::<Vec<LedgerCall>, CustomError>(CustomError::InvalidAmount),
        match r {
            Ok(calls) => deposit_tokens_outcome(
                *ctx,
                *params,
                VaultAuthority::chain(
                    ctx.deposit_account_key,
                    VaultKind::TreasuryVault,
                    ctx.program_id,
                ),
            ) == Ok::<Seq<LedgerCall>, CustomError>(calls@),
            Err(e) => deposit_tokens_outcome(
                *ctx,
                *params,
                VaultAuthority::chain(
                    ctx.deposit_account_key,
                    VaultKind::TreasuryVault,
                    ctx.program_id,
                ),
            ) == Err::<Seq<LedgerCall>, CustomError>(e),
        },
{
    let chain = VaultAuthority::resolve(
        &ctx.deposit_account_key,
        VaultKind::TreasuryVault,
        &ctx.program_id,
    );
    deposit_tokens_with(ctx, params, chain)
}

} // verus!
