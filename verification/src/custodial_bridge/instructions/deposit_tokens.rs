//! Depositing tokens with the custodian against wrapped tokens.

use vstd::prelude::*;
use crate::address::Address;
use crate::authority::{VaultAuthority, VaultKind};
use crate::custodial_bridge::error::CustomError;
use crate::ledger::{Authorization, LedgerCall};
use crate::vault::DepositBase;

verus! {

/// What a deposit is addressed to: the depositor and the depositor's token
/// account, the custodian's token account, the wrapped mint and the
/// depositor's account for it, the custody record with its address, and the
/// program under which the mint authority is derived.
#[derive(Clone, Copy, Debug)]
pub struct DepositTokens {
    pub user: Address,
    pub user_token_account: Address,
    pub custodian_token_account: Address,
    pub wrapped_mint: Address,
    pub user_wrapped_token_account: Address,
    pub deposit_account: DepositBase,
    pub deposit_account_key: Address,
    pub program_id: Address,
}

/// The amount to deposit, in smallest units. The bridge does not scale.
#[derive(Clone, Copy, Debug)]
pub struct DepositTokensParams {
    pub amount: u64,
}

impl DepositTokens {
    /// The call that moves the deposit to the custodian, approved by the
    /// depositor.
    pub open spec fn transfer_call(self, amount: u64) -> LedgerCall {
        LedgerCall::Transfer {
            from: self.user_token_account,
            to: self.custodian_token_account,
            authority: Authorization::Principal(self.user),
            amount,
        }
    }

    /// The call that mints the wrapped tokens to the depositor, approved by
    /// the derived mint authority.
    pub open spec fn mint_to_call(self, amount: u64, authority: VaultAuthority) -> LedgerCall {
        LedgerCall::MintTo {
            mint: self.wrapped_mint,
            to: self.user_wrapped_token_account,
            authority: Authorization::Derived(authority),
            amount,
        }
    }

    /// Builds the call that moves the deposit to the custodian.
    pub fn into_transfer_context(&self, amount: u64) -> (call: LedgerCall)
        ensures
            call == self.transfer_call(amount),
    {
        LedgerCall::Transfer {
            from: self.user_token_account,
            to: self.custodian_token_account,
            authority: Authorization::Principal(self.user),
            amount,
        }
    }

    /// Builds the call that mints the wrapped tokens to the depositor.
    pub fn into_mint_to_context(&self, amount: u64, authority: VaultAuthority) -> (call: LedgerCall)
        ensures
            call == self.mint_to_call(amount, authority),
    {
        LedgerCall::MintTo {
            mint: self.wrapped_mint,
            to: self.user_wrapped_token_account,
            authority: Authorization::Derived(authority),
            amount,
        }
    }
}

/// What a deposit does, given the authority resolved for the custody record.
///
/// It is refused with `InvalidAmount` where the amount is zero, with
/// `AccountNotInitialized` where the custody record is not initialized, and
/// with `AuthorityMismatch` where a stored bump does not match the
/// authority. Otherwise the amount moves from the depositor to the
/// custodian, and then the same amount of wrapped tokens is minted to the
/// depositor under the derived mint authority.
pub open spec fn deposit_tokens_outcome(
    ctx: DepositTokens,
    params: DepositTokensParams,
    chain: Option<VaultAuthority>,
) -> Result<Seq<LedgerCall>, CustomError> {
    if params.amount == 0 {
        Err(CustomError::InvalidAmount)
    } else {
        match ctx.deposit_account.authorized_by(
            ctx.deposit_account_key,
            VaultKind::MintAuthority,
            ctx.program_id,
            chain,
        ) {
            Err(e) => Err(e),
            Ok(authority) => Ok(
                seq![ctx.transfer_call(params.amount), ctx.mint_to_call(params.amount, authority)],
            ),
        }
    }
}

/// Validates a deposit against an authority that was resolved for the
/// custody record and returns the calls to execute, in order.
pub fn deposit_tokens_with(
    ctx: &DepositTokens,
    params: &DepositTokensParams,
    chain: Option<VaultAuthority>,
) -> (r: Result<Vec<LedgerCall>, CustomError>)
    ensures
        params.amount == 0 ==> r == Err::<Vec<LedgerCall>, CustomError>(CustomError::InvalidAmount),
        match r {
            Ok(calls) => deposit_tokens_outcome(*ctx, *params, chain) == Ok::<
                Seq<LedgerCall>,
                CustomError,
            >(calls@),
            Err(e) => deposit_tokens_outcome(*ctx, *params, chain) == Err::<
                Seq<LedgerCall>,
                CustomError,
            >(e),
        },
{
    let amount = params.amount;
    if amount == 0 {
        return Err(CustomError::InvalidAmount);
    }
    let authority = match ctx.deposit_account.authorize_with(
        &ctx.deposit_account_key,
        VaultKind::MintAuthority,
        &ctx.program_id,
        chain,
    ) {
        Ok(authority) => authority,
        Err(e) => {
            return Err(e);
        },
    };
    let mut calls: Vec<LedgerCall> = Vec::new();
    calls.push(ctx.into_transfer_context(amount));
    calls.push(ctx.into_mint_to_context(amount, authority));
    assert(calls@ =~= seq![ctx.transfer_call(amount), ctx.mint_to_call(amount, authority)]);
    Ok(calls)
}

/// Deposits `params.amount`: derives the custody record's authority,
/// validates the stored bumps against it and returns the calls to execute.
pub fn deposit_tokens(ctx: &DepositTokens, params: &DepositTokensParams) -> (r: Result<
    Vec<LedgerCall>,
    CustomError,
>)
    ensures
        params.amount == 0 ==> r == Err::<Vec<LedgerCall>, CustomError>(CustomError::InvalidAmount),
        match r {
            Ok(calls) => deposit_tokens_outcome(
                *ctx,
                *params,
                VaultAuthority::chain(
                    ctx.deposit_account_key,
                    VaultKind::MintAuthority,
                    ctx.program_id,
                ),
            ) == Ok::<Seq<LedgerCall>, CustomError>(calls@),
            Err(e) => deposit_tokens_outcome(
                *ctx,
                *params,
                VaultAuthority::chain(
                    ctx.deposit_account_key,
                    VaultKind::MintAuthority,
                    ctx.program_id,
                ),
            ) == Err::<Seq<LedgerCall>, CustomError>(e),
        },
{
    let chain = VaultAuthority::resolve(
        &ctx.deposit_account_key,
        VaultKind::MintAuthority,
        &ctx.program_id,
    );
    deposit_tokens_with(ctx, params, chain)
}

} // verus!
