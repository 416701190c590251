//! Settling a future: the asset leaves custody for the buyer.

use vstd::prelude::*;
use crate::address::Address;
use crate::authority::{VaultAuthority, VaultKind};
use crate::derivatives_contract::error::CustomError;
use crate::derivatives_contract::state::derivative_contract::DerivativeContract;
use crate::ledger::{Authorization, LedgerCall};
use crate::scaler::{scale_amount, scaled};
use crate::vault::DepositBase;

verus! {

/// What a settlement is addressed to: the settlement record, the token
/// account the asset is paid from, the one it is paid to, the mint, the
/// custody record with its address, the principal that signs, and the
/// program under which the treasury vault is derived.
#[derive(Clone, Copy, Debug)]
pub struct SettleFuturesContract {
    pub derivative_contract: DerivativeContract,
    pub sender_tokens: Address,
    pub recipient_tokens: Address,
    pub mint_token: Address,
    pub deposit_account: DepositBase,
    pub deposit_account_key: Address,
    pub owner: Address,
    pub program_id: Address,
}

/// The amount to settle, in whole units, and the buyer it is settled with.
#[derive(Clone, Copy, Debug)]
pub struct SettleFuturesContractParams {
    pub amount: u32,
    pub buyer: Address,
}

/// What a settlement does, given the authority resolved for the custody
/// record.
///
/// It is refused with `InvalidAmount` where the amount is zero, with
/// `AccountNotInitialized` where the settlement record or the custody record
/// is not initialized, with `AuthorityMismatch` where a stored bump does not
/// match the authority, with `CounterpartyNotFound` where the settlement
/// record names no buyer, with `InvalidCounterparty` where it names another
/// buyer than the one given, and with `ArithmeticOverflow` where the scaled
/// amount would leave 64 bits. Otherwise the scaled amount moves from the
/// sender's account to the recipient's under the derived treasury vault, and
/// the ledger checks the mint and the decimals.
pub open spec fn settle_futures_contract_outcome(
    ctx: SettleFuturesContract,
    params: SettleFuturesContractParams,
    chain: Option<VaultAuthority>,
) -> Result<LedgerCall, CustomError> {
    let amount = scaled(params.amount as nat, ctx.derivative_contract.decimals as nat);
    if params.amount == 0 {
        Err(CustomError::InvalidAmount)
    } else if !ctx.derivative_contract.is_initialized {
        Err(CustomError::AccountNotInitialized)
    } else {
        match ctx.deposit_account.authorized_by(
            ctx.deposit_account_key,
            VaultKind::TreasuryVault,
            ctx.program_id,
            chain,
        ) {
            Err(e) => Err(e),
            Ok(authority) => match ctx.derivative_contract.buyer_checked(params.buyer) {
                Err(e) => Err(e),
                Ok(buyer) => if amount > u64::MAX {
                    Err(CustomError::ArithmeticOverflow)
                } else {
                    Ok(
                        LedgerCall::TransferChecked {
                            from: ctx.sender_tokens,
                            mint: ctx.mint_token,
                            to: ctx.recipient_tokens,
                            authority: Authorization::Derived(authority),
                            amount: amount as u64,
                            decimals: ctx.derivative_contract.decimals,
                        },
                    )
                },
            },
        }
    }
}

/// Validates a settlement against an authority that was resolved for the
/// custody record and returns the call to execute.
pub fn settle_futures_contract_with(
    ctx: &SettleFuturesContract,
    params: &SettleFuturesContractParams,
    chain: Option<VaultAuthority>,
) -> (r: Result<LedgerCall, CustomError>)
    ensures
        r == settle_futures_contract_outcome(*ctx, *params, chain),
        params.amount == 0 ==> r == Err::<LedgerCall, CustomError>(CustomError::InvalidAmount),
{
    if params.amount == 0 {
        return Err(CustomError::InvalidAmount);
    }
    if !ctx.derivative_contract.is_initialized {
        return Err(CustomError::AccountNotInitialized);
    }
    let authority = match ctx.deposit_account.authorize_with(
        &ctx.deposit_account_key,
        VaultKind::TreasuryVault,
        &ctx.program_id,
        chain,
    ) {
        Ok(authority) => authority,
        Err(e) => {
            return Err(e);
        },
    };
    match ctx.derivative_contract.check_buyer(&params.buyer) {
        Ok(_) => {},
        Err(e) => {
            return Err(e);
        },
    }
    let decimals = ctx.derivative_contract.decimals;
    match scale_amount(params.amount as u64, decimals) {
        None => Err(CustomError::ArithmeticOverflow),
        Some(amount) => Ok(
            LedgerCall::TransferChecked {
                from: ctx.sender_tokens,
                mint: ctx.mint_token,
                to: ctx.recipient_tokens,
                authority: Authorization::Derived(authority),
                amount,
                decimals,
            },
        ),
    }
}

/// Settles `params.amount` whole units with `params.buyer`: derives the
/// custody record's authority, validates the stored bumps against it and
/// returns the call to execute.
pub fn settle_futures_contract(
    ctx: &SettleFuturesContract,
    params: &SettleFuturesContractParams,
) -> (r: Result<LedgerCall, CustomError>)
    ensures
        r == settle_futures_contract_outcome(
            *ctx,
            *params,
            VaultAuthority::chain(
                ctx.deposit_account_key,
                VaultKind::TreasuryVault,
                ctx.program_id,
            ),
        ),
        params.amount == 0 ==> r == Err::<LedgerCall, CustomError>(CustomError::InvalidAmount),
{
    let chain = VaultAuthority::resolve(
        &ctx.deposit_account_key,
        VaultKind::TreasuryVault,
        &ctx.program_id,
    );
    settle_futures_contract_with(ctx, params, chain)
}

/// Once the custody record validates, a settlement of any amount but zero
/// that is addressed to the record with either stored bump changed, by
/// one unit or by any other amount, fails with `AuthorityMismatch`.
pub proof fn lemma_corrupted_bump_fails(
    ctx: SettleFuturesContract,
    sound: DepositBase,
    params: SettleFuturesContractParams,
    chain: Option<VaultAuthority>,
)
    requires
        params.amount != 0,
        ctx.derivative_contract.is_initialized,
        sound.authorized_by(
            ctx.deposit_account_key,
            VaultKind::TreasuryVault,
            ctx.program_id,
            chain,
        ) is Ok,
        ctx.deposit_account.is_initialized,
        ctx.deposit_account.admin_auth_bump != sound.admin_auth_bump
            || ctx.deposit_account.admin_treasury_vault_bump != sound.admin_treasury_vault_bump,
    ensures
        settle_futures_contract_outcome(ctx, params, chain) == Err::<LedgerCall, CustomError>(
            CustomError::AuthorityMismatch,
        ),
{
    sound.lemma_corrupted_bump_is_rejected(
        ctx.deposit_account,
        ctx.deposit_account_key,
        VaultKind::TreasuryVault,
        ctx.program_id,
        chain,
    );
}

} // verus!
