//! Depositing the buyer's funds into the treasury vault.

use vstd::prelude::*;
use crate::address::Address;
use crate::authority::{VaultAuthority, VaultKind};
use crate::derivatives_contract::error::CustomError;
use crate::derivatives_contract::state::derivative_contract::DerivativeContract;
use crate::ledger::{Authorization, LedgerCall};
use crate::vault::DepositBase;

verus! {

/// What a deposit of funds is addressed to: the settlement record, the
/// custody record with its address, the principal that signs and pays, and
/// the program under which the treasury vault is derived.
#[derive(Clone, Copy, Debug)]
pub struct DepositFunds {
    pub derivative_contract: DerivativeContract,
    pub deposit_account: DepositBase,
    pub deposit_account_key: Address,
    pub owner: Address,
    pub program_id: Address,
}

/// The native value to deposit, in smallest units.
#[derive(Clone, Copy, Debug)]
pub struct DepositFundsParams {
    pub amount: u64,
}

/// What a deposit of funds does, given the authority resolved for the
/// custody record.
///
/// It is refused with `InvalidAmount` where the amount is zero, with
/// `AccountNotInitialized` where the settlement record or the custody record
/// is not initialized, with `AuthorityMismatch` where a stored bump does not
/// match the authority, with `CounterpartyNotFound` where the settlement
/// record names no buyer, and with `InvalidCounterparty` where the signing
/// principal is not that buyer. Otherwise the amount moves from the buyer
/// into the treasury vault, approved by the buyer.
pub open spec fn deposit_funds_outcome(
    ctx: DepositFunds,
    params: DepositFundsParams,
    chain: Option<VaultAuthority>,
) -> Result<LedgerCall, CustomError> {
    if params.amount == 0 {
        Err(CustomError::InvalidAmount)
    } else if !ctx.derivative_contract.is_initialized {
        Err(CustomError::AccountNotInitialized)
    } else {
        match ctx.deposit_account.authorized_by(
            ctx.deposit_account_key,
            VaultKind::TreasuryVault,
            ctx.program_id,
            chain,
        ) {
            Err(e) => Err(e),
            Ok(authority) => match ctx.derivative_contract.buyer_checked(ctx.owner) {
                Err(e) => Err(e),
                Ok(buyer) => Ok(
                    LedgerCall::SystemTransfer {
                        from: ctx.owner,
                        to: authority.vault_key(),
                        authority: Authorization::Principal(ctx.owner),
                        amount: params.amount,
                    },
                ),
            },
        }
    }
}

/// Validates a deposit of funds against an authority that was resolved for
/// the custody record and returns the call to execute.
pub fn deposit_funds_with(
    ctx: &DepositFunds,
    params: &DepositFundsParams,
    chain: Option<VaultAuthority>,
) -> (r: Result<LedgerCall, CustomError>)
    ensures
        r == deposit_funds_outcome(*ctx, *params, chain),
        params.amount == 0 ==> r == Err::<LedgerCall, CustomError>(CustomError::InvalidAmount),
{
    if params.amount == 0 {
        return Err(CustomError::InvalidAmount);
    }
    if !ctx.derivative_contract.is_initialized {
        return Err(CustomError::AccountNotInitialized);
    }
    let authority = match ctx.deposit_account.authorize_with(
        &ctx.deposit_account_key,
        VaultKind::TreasuryVault,
        &ctx.program_id,
        chain,
    ) {
        Ok(authority) => authority,
        Err(e) => {
            return Err(e);
        },
    };
    match ctx.derivative_contract.check_buyer(&ctx.owner) {
        Ok(_) => {},
        Err(e) => {
            return Err(e);
        },
    }
    Ok(
        LedgerCall::SystemTransfer {
            from: ctx.owner,
            to: authority.vault(),
            authority: Authorization::Principal(ctx.owner),
            amount: params.amount,
        },
    )
}

/// Deposits `params.amount` of the buyer's funds: derives the custody
/// record's authority, validates the stored bumps against it and returns the
/// call to execute.
pub fn deposit_funds(ctx: &DepositFunds, params: &DepositFundsParams) -> (r: Result<
    LedgerCall,
    CustomError,
>)
    ensures
        r == deposit_funds_outcome(
            *ctx,
            *params,
            VaultAuthority::chain(
                ctx.deposit_account_key,
                VaultKind::TreasuryVault,
                ctx.program_id,
            ),
        ),
        params.amount == 0 ==> r == Err::<LedgerCall, CustomError>(CustomError::InvalidAmount),
{
    let chain = VaultAuthority::resolve(
        &ctx.deposit_account_key,
        VaultKind::TreasuryVault,
        &ctx.program_id,
    );
    deposit_funds_with(ctx, params, chain)
}

/// Once the custody record validates, a deposit of funds of any amount but
/// zero that is addressed to the record with either stored bump changed, by
/// one unit or by any other amount, fails with `AuthorityMismatch`.
pub proof fn lemma_corrupted_bump_fails(
    ctx: DepositFunds,
    sound: DepositBase,
    params: DepositFundsParams,
    chain: Option<VaultAuthority>,
)
    requires
        params.amount != 0,
        ctx.derivative_contract.is_initialized,
        sound.authorized_by(
            ctx.deposit_account_key,
            VaultKind::TreasuryVault,
            ctx.program_id,
            chain,
        ) is Ok,
        ctx.deposit_account.is_initialized,
        ctx.deposit_account.admin_auth_bump != sound.admin_auth_bump
            || ctx.deposit_account.admin_treasury_vault_bump != sound.admin_treasury_vault_bump,
    ensures
        deposit_funds_outcome(ctx, params, chain) == Err::<LedgerCall, CustomError>(
            CustomError::AuthorityMismatch,
        ),
{
    sound.lemma_corrupted_bump_is_rejected(
        ctx.deposit_account,
        ctx.deposit_account_key,
        VaultKind::TreasuryVault,
        ctx.program_id,
        chain,
    );
}

} // verus!
