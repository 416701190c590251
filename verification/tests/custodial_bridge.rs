use std::collections::HashMap;

use settlement::address::Address;
use settlement::authority::{VaultAuthority, VaultKind};
use settlement::custodial_bridge::error::CustomError;
use settlement::custodial_bridge::instructions::{
    deposit_tokens, deposit_tokens_with, init, init_with, withdraw_tokens, withdraw_tokens_with,
    DepositTokens, DepositTokensParams, Init, WithdrawTokens, WithdrawTokensParams,
};
use settlement::ledger::{Authorization, LedgerCall};
use settlement::vault::DepositBase;

fn address(fill: u8) -> Address {
    Address { bytes: [fill; 32] }
}

const USER: u8 = 1;
const USER_TOKENS: u8 = 2;
const CUSTODIAN_TOKENS: u8 = 3;
const WRAPPED_MINT: u8 = 4;
const USER_WRAPPED: u8 = 5;
const RECORD: u8 = 6;
const PROGRAM: u8 = 7;

fn bridge_record() -> DepositBase {
    let mut ctx = Init {
        deposit_account: DepositBase::empty(),
        deposit_account_key: address(RECORD),
        owner: address(USER),
        program_id: address(PROGRAM),
    };
    assert_eq!(init(&mut ctx), Ok(()));
    ctx.deposit_account
}

fn deposit_on(record: DepositBase) -> DepositTokens {
    DepositTokens {
        user: address(USER),
        user_token_account: address(USER_TOKENS),
        custodian_token_account: address(CUSTODIAN_TOKENS),
        wrapped_mint: address(WRAPPED_MINT),
        user_wrapped_token_account: address(USER_WRAPPED),
        deposit_account: record,
        deposit_account_key: address(RECORD),
        program_id: address(PROGRAM),
    }
}

fn withdrawal_on(record: DepositBase) -> WithdrawTokens {
    WithdrawTokens {
        user: address(USER),
        custodian_token_account: address(CUSTODIAN_TOKENS),
        wrapped_mint: address(WRAPPED_MINT),
        user_wrapped_token_account: address(USER_WRAPPED),
        user_token_account: address(USER_TOKENS),
        deposit_account: record,
        deposit_account_key: address(RECORD),
        program_id: address(PROGRAM),
    }
}

fn chain() -> VaultAuthority {
    VaultAuthority::resolve(&address(RECORD), VaultKind::MintAuthority, &address(PROGRAM)).unwrap()
}

fn run(balances: &mut HashMap<[u8; 32], u64>, calls: &[LedgerCall]) -> bool {
    for call in calls {
        let (from, to, amount) = match call {
            LedgerCall::SystemTransfer { from, to, amount, .. }
            | LedgerCall::Transfer { from, to, amount, .. }
            | LedgerCall::TransferChecked { from, to, amount, .. } => (Some(*from), Some(*to), *amount),
            LedgerCall::MintTo { to, amount, .. } => (None, Some(*to), *amount),
            LedgerCall::Burn { from, amount, .. } => (Some(*from), None, *amount),
        };
        if let Some(from) = from {
            let held = balances.entry(from.bytes).or_insert(0);
            if *held < amount {
                return false;
            }
            *held -= amount;
        }
        if let Some(to) = to {
            *balances.entry(to.bytes).or_insert(0) += amount;
        }
    }
    true
}

#[test]
fn bridge_init_stores_the_bumps_of_the_mint_authority() {
    let record = bridge_record();
    assert!(record.is_initialized);
    assert_eq!(record.owner, address(USER));
    assert_eq!(record.admin_auth_bump, chain().authority_bump());
    assert_eq!(record.admin_treasury_vault_bump, Some(chain().vault_bump()));
}

#[test]
fn bridge_init_twice_is_refused() {
    let mut ctx = Init {
        deposit_account: bridge_record(),
        deposit_account_key: address(RECORD),
        owner: address(9),
        program_id: address(PROGRAM),
    };
    assert_eq!(init(&mut ctx), Err(CustomError::AccountAlreadyInitialized));
    assert_eq!(ctx.deposit_account.owner, address(USER));
    let mut blank = Init {
        deposit_account: DepositBase::empty(),
        deposit_account_key: address(RECORD),
        owner: address(9),
        program_id: address(PROGRAM),
    };
    assert_eq!(init_with(&mut blank, None), Err(CustomError::AuthorityMismatch));
    assert!(!blank.deposit_account.is_initialized);
}

#[test]
fn bridge_deposit_moves_the_tokens_and_mints_the_same_amount() {
    let ctx = deposit_on(bridge_record());
    let calls = deposit_tokens(&ctx, &DepositTokensParams { amount: 250 }).unwrap();
    assert_eq!(calls.len(), 2);
    match calls[0] {
        LedgerCall::Transfer { from, to, authority: Authorization::Principal(signer), amount } => {
            assert_eq!(from, address(USER_TOKENS));
            assert_eq!(to, address(CUSTODIAN_TOKENS));
            assert_eq!(signer, address(USER));
            assert_eq!(amount, 250);
        }
        _ => panic!("the first call moves the deposit"),
    }
    match calls[1] {
        LedgerCall::MintTo { mint, to, authority: Authorization::Derived(signer), amount } => {
            assert_eq!(mint, address(WRAPPED_MINT));
            assert_eq!(to, address(USER_WRAPPED));
            assert_eq!(signer.vault(), chain().vault());
            assert_eq!(signer.vault_bump(), chain().vault_bump());
            assert_eq!(signer.authority(), chain().authority());
            assert_eq!(signer.kind(), VaultKind::MintAuthority);
            assert_eq!(amount, 250);
        }
        _ => panic!("the second call mints the wrapped tokens"),
    }
}

#[test]
fn bridge_withdrawal_burns_and_releases_the_same_amount() {
    let ctx = withdrawal_on(bridge_record());
    let calls = withdraw_tokens(&ctx, &WithdrawTokensParams { amount: 250 }).unwrap();
    assert_eq!(calls.len(), 2);
    match calls[0] {
        LedgerCall::Burn { mint, from, authority: Authorization::Principal(signer), amount } => {
            assert_eq!(mint, address(WRAPPED_MINT));
            assert_eq!(from, address(USER_WRAPPED));
            assert_eq!(signer, address(USER));
            assert_eq!(amount, 250);
        }
        _ => panic!("the first call burns the wrapped tokens"),
    }
    match calls[1] {
        LedgerCall::Transfer { from, to, authority: Authorization::Derived(signer), amount } => {
            assert_eq!(from, address(CUSTODIAN_TOKENS));
            assert_eq!(to, address(USER_TOKENS));
            assert_eq!(signer.vault(), chain().vault());
            assert_eq!(amount, 250);
        }
        _ => panic!("the second call releases the deposit"),
    }
}

#[test]
fn bridge_refuses_an_amount_of_zero_first() {
    let blank = DepositBase::empty();
    let r = deposit_tokens(&deposit_on(blank), &DepositTokensParams { amount: 0 });
    assert!(matches!(r, Err(CustomError::InvalidAmount)));
    let r = withdraw_tokens(&withdrawal_on(blank), &WithdrawTokensParams { amount: 0 });
    assert!(matches!(r, Err(CustomError::InvalidAmount)));
    let r = deposit_tokens(&deposit_on(bridge_record()), &DepositTokensParams { amount: 0 });
    assert!(matches!(r, Err(CustomError::InvalidAmount)));
}

#[test]
fn bridge_needs_an_initialized_record() {
    let blank = DepositBase::empty();
    let r = deposit_tokens(&deposit_on(blank), &DepositTokensParams { amount: 1 });
    assert!(matches!(r, Err(CustomError::AccountNotInitialized)));
    let r = withdraw_tokens(&withdrawal_on(blank), &WithdrawTokensParams { amount: 1 });
    assert!(matches!(r, Err(CustomError::AccountNotInitialized)));
}

#[test]
fn bridge_rejects_a_corrupted_bump() {
    let sound = bridge_record();
    let mut up = sound;
    up.admin_auth_bump = sound.admin_auth_bump.wrapping_add(1);
    let mut down = sound;
    down.admin_treasury_vault_bump = sound.admin_treasury_vault_bump.map(|b| b.wrapping_sub(1));
    for corrupted in [up, down] {
        let r = deposit_tokens(&deposit_on(corrupted), &DepositTokensParams { amount: 1 });
        assert!(matches!(r, Err(CustomError::AuthorityMismatch)));
        let r = withdraw_tokens(&withdrawal_on(corrupted), &WithdrawTokensParams { amount: 1 });
        assert!(matches!(r, Err(CustomError::AuthorityMismatch)));
        let r = deposit_tokens(&deposit_on(corrupted), &DepositTokensParams { amount: 2 });
        assert!(matches!(r, Err(CustomError::AuthorityMismatch)));
    }
    assert!(deposit_tokens(&deposit_on(sound), &DepositTokensParams { amount: 1 }).is_ok());
}

#[test]
fn bridge_rejects_the_authority_of_another_record() {
    let record = bridge_record();
    let other = VaultAuthority::resolve(&address(0x66), VaultKind::MintAuthority, &address(PROGRAM));
    let r = deposit_tokens_with(&deposit_on(record), &DepositTokensParams { amount: 1 }, other);
    assert!(matches!(r, Err(CustomError::AuthorityMismatch)));
    let r = withdraw_tokens_with(&withdrawal_on(record), &WithdrawTokensParams { amount: 1 }, None);
    assert!(matches!(r, Err(CustomError::AuthorityMismatch)));
    let r = withdraw_tokens_with(
        &withdrawal_on(record),
        &WithdrawTokensParams { amount: 1 },
        Some(chain()),
    );
    assert!(r.is_ok());
}

#[test]
fn bridge_deposit_then_withdrawal_restores_the_ledger() {
    let record = bridge_record();
    let mut balances: HashMap<[u8; 32], u64> = HashMap::new();
    balances.insert(address(USER_TOKENS).bytes, 1000);
    balances.insert(address(CUSTODIAN_TOKENS).bytes, 40);

    let deposit = deposit_tokens(&deposit_on(record), &DepositTokensParams { amount: 300 }).unwrap();
    assert!(run(&mut balances, &deposit));
    assert_eq!(balances[&address(USER_TOKENS).bytes], 700);
    assert_eq!(balances[&address(CUSTODIAN_TOKENS).bytes], 340);
    assert_eq!(balances[&address(USER_WRAPPED).bytes], 300);

    let withdrawal =
        withdraw_tokens(&withdrawal_on(record), &WithdrawTokensParams { amount: 300 }).unwrap();
    assert!(run(&mut balances, &withdrawal));
    assert_eq!(balances[&address(USER_TOKENS).bytes], 1000);
    assert_eq!(balances[&address(CUSTODIAN_TOKENS).bytes], 40);
    assert_eq!(balances[&address(USER_WRAPPED).bytes], 0);
}
