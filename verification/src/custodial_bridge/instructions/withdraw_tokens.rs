//! Burning wrapped tokens and releasing the deposit.

use vstd::prelude::*;
use crate::address::Address;
use crate::authority::{VaultAuthority, VaultKind};
use crate::custodial_bridge::error::CustomError;
use crate::custodial_bridge::instructions::deposit_tokens::{
    deposit_tokens_outcome,
    DepositTokens,
    DepositTokensParams,
};
use crate::ledger::{apply_all, balance, Authorization, Balances, LedgerCall};
use crate::vault::DepositBase;

verus! {

/// What a withdrawal is addressed to: the withdrawer, the custodian's token
/// account, the wrapped mint and the withdrawer's account for it, the
/// withdrawer's token account, the custody record with its address, and the
/// program under which the custodian's authority is derived.
#[derive(Clone, Copy, Debug)]
pub struct WithdrawTokens {
    pub user: Address,
    pub custodian_token_account: Address,
    pub wrapped_mint: Address,
    pub user_wrapped_token_account: Address,
    pub user_token_account: Address,
    pub deposit_account: DepositBase,
    pub deposit_account_key: Address,
    pub program_id: Address,
}

/// The amount to withdraw, in smallest units. The bridge does not scale.
#[derive(Clone, Copy, Debug)]
pub struct WithdrawTokensParams {
    pub amount: u64,
}

impl WithdrawTokens {
    /// The call that burns the wrapped tokens, approved by the withdrawer.
    pub open spec fn burn_call(self, amount: u64) -> LedgerCall {
        LedgerCall::Burn {
            mint: self.wrapped_mint,
            from: self.user_wrapped_token_account,
            authority: Authorization::Principal(self.user),
            amount,
        }
    }

    /// The call that releases the deposit from the custodian to the
    /// withdrawer, approved by the derived authority.
    pub open spec fn transfer_back_call(self, amount: u64, authority: VaultAuthority) -> LedgerCall {
        LedgerCall::Transfer {
            from: self.custodian_token_account,
            to: self.user_token_account,
            authority: Authorization::Derived(authority),
            amount,
        }
    }

    /// Builds the call that burns the wrapped tokens.
    pub fn into_burn_context(&self, amount: u64) -> (call: LedgerCall)
        ensures
            call == self.burn_call(amount),
    {
        LedgerCall::Burn {
            mint: self.wrapped_mint,
            from: self.user_wrapped_token_account,
            authority: Authorization::Principal(self.user),
            amount,
        }
    }

    /// Builds the call that releases the deposit to the withdrawer.
    pub fn into_transfer_back_context(&self, amount: u64, authority: VaultAuthority) -> (call:
        LedgerCall)
        ensures
            call == self.transfer_back_call(amount, authority),
    {
        LedgerCall::Transfer {
            from: self.custodian_token_account,
            to: self.user_token_account,
            authority: Authorization::Derived(authority),
            amount,
        }
    }

    /// Whether the withdrawal moves value between the accounts that the
    /// deposit `deposit` moved it between, in the other direction.
    pub open spec fn mirrors(self, deposit: DepositTokens) -> bool {
        &&& self.user_token_account == deposit.user_token_account
        &&& self.custodian_token_account == deposit.custodian_token_account
        &&& self.user_wrapped_token_account == deposit.user_wrapped_token_account
    }
}

/// What a withdrawal does, given the authority resolved for the custody
/// record.
///
/// It is refused with `InvalidAmount` where the amount is zero, with
/// `AccountNotInitialized` where the custody record is not initialized, and
/// with `AuthorityMismatch` where a stored bump does not match the
/// authority. Otherwise the wrapped tokens are burned, approved by the
/// withdrawer, and then the same amount moves from the custodian back to the
/// withdrawer under the derived authority.
pub open spec fn withdraw_tokens_outcome(
    ctx: WithdrawTokens,
    params: WithdrawTokensParams,
    chain: Option<VaultAuthority>,
) -> Result<Seq<LedgerCall>, CustomError> {
    if params.amount == 0 {
        Err(CustomError::InvalidAmount)
    } else {
        match ctx.deposit_account.authorized_by(
            ctx.deposit_account_key,
            VaultKind::MintAuthority,
            ctx.program_id,
            chain,
        ) {
            Err(e) => Err(e),
            Ok(authority) => Ok(
                seq![
                    ctx.burn_call(params.amount),
                    ctx.transfer_back_call(params.amount, authority),
                ],
            ),
        }
    }
}

/// Validates a withdrawal against an authority that was resolved for the
/// custody record and returns the calls to execute, in order.
pub fn withdraw_tokens_with(
    ctx: &WithdrawTokens,
    params: &WithdrawTokensParams,
    chain: Option<VaultAuthority>,
) -> (r: Result<Vec<LedgerCall>, CustomError>)
    ensures
        params.amount == 0 ==> r == Err::<Vec<LedgerCall>, CustomError>(CustomError::InvalidAmount),
        match r {
            Ok(calls) => withdraw_tokens_outcome(*ctx, *params, chain) == Ok::<
                Seq<LedgerCall>,
                CustomError,
            >(calls@),
            Err(e) => withdraw_tokens_outcome(*ctx, *params, chain) == Err::<
                Seq<LedgerCall>,
                CustomError,
            >(e),
        },
{
    let amount = params.amount;
    if amount == 0 {
        return Err(CustomError::InvalidAmount);
    }
    let authority = match ctx.deposit_account.authorize_with(
        &ctx.deposit_account_key,
        VaultKind::MintAuthority,
        &ctx.program_id,
        chain,
    ) {
        Ok(authority) => authority,
        Err(e) => {
            return Err(e);
        },
    };
    let mut calls: Vec<LedgerCall> = Vec::new();
    calls.push(ctx.into_burn_context(amount));
    calls.push(ctx.into_transfer_back_context(amount, authority));
    assert(calls@ =~= seq![ctx.burn_call(amount), ctx.transfer_back_call(amount, authority)]);
    Ok(calls)
}

/// Withdraws `params.amount`: derives the custody record's authority,
/// validates the stored bumps against it and returns the calls to execute.
pub fn withdraw_tokens(ctx: &WithdrawTokens, params: &WithdrawTokensParams) -> (r: Result<
    Vec<LedgerCall>,
    CustomError,
>)
    ensures
        params.amount == 0 ==> r == Err::<Vec<LedgerCall>, CustomError>(CustomError::InvalidAmount),
        match r {
            Ok(calls) => withdraw_tokens_outcome(
                *ctx,
                *params,
                VaultAuthority::chain(
                    ctx.deposit_account_key,
                    VaultKind::MintAuthority,
                    ctx.program_id,
                ),
            ) == Ok::<Seq<LedgerCall>, CustomError>(calls@),
            Err(e) => withdraw_tokens_outcome(
                *ctx,
                *params,
                VaultAuthority::chain(
                    ctx.deposit_account_key,
                    VaultKind::MintAuthority,
                    ctx.program_id,
                ),
            ) == Err::<Seq<LedgerCall>, CustomError>(e),
        },
{
    let chain = VaultAuthority::resolve(
        &ctx.deposit_account_key,
        VaultKind::MintAuthority,
        &ctx.program_id,
    );
    withdraw_tokens_with(ctx, params, chain)
}

/// A deposit followed by a withdrawal of the same amount between the same
/// accounts leaves the ledger as it found it: both are executed, and the
/// custodian's balance, the depositor's balance and the depositor's wrapped
/// balance are what they were before the deposit. Where the depositor held
/// no wrapped tokens before, none are held after.
pub proof fn lemma_deposit_then_withdraw_restores(
    deposit: DepositTokens,
    withdrawal: WithdrawTokens,
    amount: u64,
    chain: Option<VaultAuthority>,
    balances: Balances,
)
    requires
        withdrawal.mirrors(deposit),
        deposit_tokens_outcome(deposit, DepositTokensParams { amount }, chain) is Ok,
        withdraw_tokens_outcome(withdrawal, WithdrawTokensParams { amount }, chain) is Ok,
        balance(balances, deposit.user_token_account) >= amount,
    ensures
        ({
            let calls = deposit_tokens_outcome(deposit, DepositTokensParams { amount }, chain)->Ok_0
                + withdraw_tokens_outcome(withdrawal, WithdrawTokensParams { amount }, chain)->Ok_0;
            let after = apply_all(balances, calls);
            &&& after is Some
            &&& balance(after->0, deposit.custodian_token_account) == balance(
                balances,
                deposit.custodian_token_account,
            )
            &&& balance(after->0, deposit.user_token_account) == balance(
                balances,
                deposit.user_token_account,
            )
            &&& balance(after->0, deposit.user_wrapped_token_account) == balance(
                balances,
                deposit.user_wrapped_token_account,
            )
        }),
{
    let first = deposit_tokens_outcome(deposit, DepositTokensParams { amount }, chain)->Ok_0;
    let second = withdraw_tokens_outcome(withdrawal, WithdrawTokensParams { amount }, chain)->Ok_0;
    let calls = first + second;
    assert(calls.len() == 4);
    assert(calls[0] == first[0] && calls[1] == first[1] && calls[2] == second[0] && calls[3]
        == second[1]);
    let rest1 = calls.drop_first();
    let rest2 = rest1.drop_first();
    let rest3 = rest2.drop_first();
    let rest4 = rest3.drop_first();
    assert(rest1[0] == calls[1] && rest2[0] == calls[2] && rest3[0] == calls[3]);
    assert(rest4.len() == 0);
    reveal_with_fuel(apply_all, 5);
}

/// Once the custody record validates, a deposit or a withdrawal of any
/// amount but zero that is addressed to the record with either stored bump
/// changed, by one unit or by any other amount, fails with
/// `AuthorityMismatch`.
pub proof fn lemma_corrupted_bump_fails(
    deposit: DepositTokens,
    withdrawal: WithdrawTokens,
    sound: DepositBase,
    amount: u64,
    chain: Option<VaultAuthority>,
)
    requires
        amount != 0,
        sound.authorized_by(
            deposit.deposit_account_key,
            VaultKind::MintAuthority,
            deposit.program_id,
            chain,
        ) is Ok,
        deposit.deposit_account.is_initialized,
        deposit.deposit_account.admin_auth_bump != sound.admin_auth_bump
            || deposit.deposit_account.admin_treasury_vault_bump
            != sound.admin_treasury_vault_bump,
        withdrawal.deposit_account == deposit.deposit_account,
        withdrawal.deposit_account_key == deposit.deposit_account_key,
        withdrawal.program_id == deposit.program_id,
    ensures
        deposit_tokens_outcome(deposit, DepositTokensParams { amount }, chain) == Err::<
            Seq<LedgerCall>,
            CustomError,
        >(CustomError::AuthorityMismatch),
        withdraw_tokens_outcome(withdrawal, WithdrawTokensParams { amount }, chain) == Err::<
            Seq<LedgerCall>,
            CustomError,
        >(CustomError::AuthorityMismatch),
{
    sound.lemma_corrupted_bump_is_rejected(
        deposit.deposit_account,
        deposit.deposit_account_key,
        VaultKind::MintAuthority,
        deposit.program_id,
        chain,
    );
}

} // verus!
