use settlement::address::Address;
use settlement::authority::{VaultAuthority, VaultKind};
use settlement::error::CustomError;
use settlement::vault::DepositBase;

fn address(fill: u8) -> Address {
    Address { bytes: [fill; 32] }
}

fn initialized(key: &Address, kind: VaultKind, program: &Address) -> DepositBase {
    let mut record = DepositBase::empty();
    assert_eq!(record.initialize(address(1), key, kind, program), Ok(()));
    record
}

#[test]
fn an_empty_record_is_not_initialized() {
    let record = DepositBase::empty();
    assert!(!record.is_initialized);
    assert_eq!(record.owner, address(0));
    assert_eq!(record.admin_auth_bump, 0);
    assert_eq!(record.admin_treasury_vault_bump, None);
}

#[test]
fn initialize_stores_owner_and_both_bumps() {
    let key = address(50);
    let program = address(51);
    let record = initialized(&key, VaultKind::TreasuryVault, &program);
    let chain = VaultAuthority::resolve(&key, VaultKind::TreasuryVault, &program).unwrap();
    assert!(record.is_initialized);
    assert_eq!(record.owner, address(1));
    assert_eq!(record.admin_auth_bump, chain.authority_bump());
    assert_eq!(record.admin_treasury_vault_bump, Some(chain.vault_bump()));
}

#[test]
fn initialize_twice_is_refused_and_changes_nothing() {
    let key = address(50);
    let program = address(51);
    let mut record = initialized(&key, VaultKind::TreasuryVault, &program);
    let before = record;
    let second = record.initialize(address(2), &key, VaultKind::TreasuryVault, &program);
    assert_eq!(second, Err(CustomError::AccountAlreadyInitialized));
    assert_eq!(record.owner, before.owner);
    assert_eq!(record.admin_auth_bump, before.admin_auth_bump);
    assert_eq!(record.admin_treasury_vault_bump, before.admin_treasury_vault_bump);
    assert!(record.is_initialized);
}

#[test]
fn initialize_without_an_authority_is_refused() {
    let mut record = DepositBase::empty();
    let r = record.initialize_with(address(1), &address(50), VaultKind::TreasuryVault, &address(51), None);
    assert_eq!(r, Err(CustomError::AuthorityMismatch));
    assert!(!record.is_initialized);
    assert_eq!(record.admin_treasury_vault_bump, None);
}

#[test]
fn initialize_with_the_authority_of_another_record_is_refused() {
    let program = address(51);
    let other = VaultAuthority::resolve(&address(60), VaultKind::TreasuryVault, &program);
    let mut record = DepositBase::empty();
    let r = record.initialize_with(address(1), &address(50), VaultKind::TreasuryVault, &program, other);
    assert_eq!(r, Err(CustomError::AuthorityMismatch));
    assert!(!record.is_initialized);
}

#[test]
fn an_initialized_record_authorizes() {
    let key = address(50);
    let program = address(51);
    let record = initialized(&key, VaultKind::MintAuthority, &program);
    let authority = record.authorize(&key, VaultKind::MintAuthority, &program).unwrap();
    let chain = VaultAuthority::resolve(&key, VaultKind::MintAuthority, &program).unwrap();
    assert_eq!(authority.vault(), chain.vault());
    assert_eq!(authority.vault_bump(), chain.vault_bump());
    assert_eq!(authority.authority(), chain.authority());
}

#[test]
fn an_uninitialized_record_does_not_authorize() {
    let record = DepositBase::empty();
    let r = record.authorize(&address(50), VaultKind::TreasuryVault, &address(51));
    assert!(matches!(r, Err(CustomError::AccountNotInitialized)));
}

#[test]
fn a_bump_corrupted_by_one_unit_is_rejected() {
    let key = address(50);
    let program = address(51);
    let sound = initialized(&key, VaultKind::TreasuryVault, &program);

    let mut first = sound;
    first.admin_auth_bump = sound.admin_auth_bump.wrapping_add(1);
    let r = first.authorize(&key, VaultKind::TreasuryVault, &program);
    assert!(matches!(r, Err(CustomError::AuthorityMismatch)));

    let mut first_down = sound;
    first_down.admin_auth_bump = sound.admin_auth_bump.wrapping_sub(1);
    let r = first_down.authorize(&key, VaultKind::TreasuryVault, &program);
    assert!(matches!(r, Err(CustomError::AuthorityMismatch)));

    let mut second = sound;
    second.admin_treasury_vault_bump = sound.admin_treasury_vault_bump.map(|b| b.wrapping_sub(1));
    let r = second.authorize(&key, VaultKind::TreasuryVault, &program);
    assert!(matches!(r, Err(CustomError::AuthorityMismatch)));

    let mut missing = sound;
    missing.admin_treasury_vault_bump = None;
    let r = missing.authorize(&key, VaultKind::TreasuryVault, &program);
    assert!(matches!(r, Err(CustomError::AuthorityMismatch)));
}

#[test]
fn a_record_does_not_authorize_at_another_address_or_kind() {
    let key = address(50);
    let program = address(51);
    let record = initialized(&key, VaultKind::TreasuryVault, &program);
    let chain = VaultAuthority::resolve(&key, VaultKind::TreasuryVault, &program);
    let r = record.authorize_with(&address(52), VaultKind::TreasuryVault, &program, chain);
    assert!(matches!(r, Err(CustomError::AuthorityMismatch)));
    let r = record.authorize_with(&key, VaultKind::MintAuthority, &program, chain);
    assert!(matches!(r, Err(CustomError::AuthorityMismatch)));
    let r = record.authorize_with(&key, VaultKind::TreasuryVault, &program, None);
    assert!(matches!(r, Err(CustomError::AuthorityMismatch)));
    let r = record.authorize_with(&key, VaultKind::TreasuryVault, &program, chain);
    assert!(r.is_ok());
}

#[test]
fn every_failure_has_its_text() {
    assert_eq!(CustomError::InvalidAmount.message(), "Invalid amount.");
    assert_eq!(CustomError::ArithmeticOverflow.message(), "Arithmetic operation failed.");
    assert_eq!(CustomError::AccountNotInitialized.message(), "Account is not initialized.");
    assert_eq!(
        CustomError::AccountAlreadyInitialized.message(),
        "Account is already initialized."
    );
    assert_eq!(CustomError::AuthorityMismatch.message(), "Derived authority does not match.");
    assert_eq!(
        CustomError::InvalidProviderStatus.message(),
        "Liquidity provider has no active status."
    );
    assert_eq!(CustomError::InvalidTraderStatus.message(), "Trader has no active status.");
    assert_eq!(CustomError::CounterpartyNotFound.message(), "Buyer not found");
    assert_eq!(CustomError::InvalidCounterparty.message(), "Invalid buyer");
    assert_eq!(
        CustomError::ProviderCapacityExceeded.message(),
        "Liquidity provider list is full."
    );
}
