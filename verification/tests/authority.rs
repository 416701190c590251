use anchor_lang::prelude::Pubkey;
use settlement::address::Address;
use settlement::authority;
use settlement::authority::{auth_tag_bytes, validate, VaultAuthority, VaultKind};
use settlement::error::CustomError;

fn address(fill: u8) -> Address {
    Address { bytes: [fill; 32] }
}

fn expected(seeds: &[&[u8]], program: &Address) -> (Address, u8) {
    let (key, bump) = Pubkey::find_program_address(seeds, &Pubkey::new_from_array(program.bytes));
    (Address { bytes: key.to_bytes() }, bump)
}

#[test]
fn seed_tags_are_the_bytes_of_their_names() {
    assert_eq!(auth_tag_bytes(), b"auth".to_vec());
    assert_eq!(VaultKind::TreasuryVault.tag_bytes(), b"treasury-vault".to_vec());
    assert_eq!(VaultKind::MintAuthority.tag_bytes(), b"mint-authority".to_vec());
}

#[test]
fn derive_finds_the_program_address() {
    let record = address(7);
    let program = address(9);
    let found = authority::derive(b"auth", &record, &program);
    assert_eq!(found, Some(expected(&[b"auth", &record.bytes], &program)));
}

#[test]
fn derive_does_not_hand_its_seed_back() {
    let record = address(7);
    let program = address(9);
    let (id, _) = authority::derive(b"auth", &record, &program).unwrap();
    assert_ne!(id, record);
    assert_ne!(id, program);
}

#[test]
fn derive_depends_on_tag_seed_and_program() {
    let record = address(1);
    let program = address(2);
    let base = authority::derive(b"auth", &record, &program).unwrap();
    assert_ne!(authority::derive(b"treasury-vault", &record, &program).unwrap().0, base.0);
    assert_ne!(authority::derive(b"auth", &address(3), &program).unwrap().0, base.0);
    assert_ne!(authority::derive(b"auth", &record, &address(4)).unwrap().0, base.0);
}

#[test]
fn derive_twice_yields_the_same_identifier() {
    let record = address(11);
    let program = address(12);
    assert_eq!(
        authority::derive(b"auth", &record, &program),
        authority::derive(b"auth", &record, &program));
}

#[test]
fn derive_refuses_a_tag_longer_than_a_seed_may_be() {
    let tag = [0u8; 33];
    assert_eq!(authority::derive(&tag, &address(1), &address(2)), None);
}

#[test]
fn resolve_derives_both_levels() {
    let record = address(21);
    let program = address(22);
    let chain = VaultAuthority::resolve(&record, VaultKind::TreasuryVault, &program).unwrap();
    let (authority, authority_bump) = expected(&[b"auth", &record.bytes], &program);
    let (vault, vault_bump) = expected(&[b"treasury-vault", &authority.bytes], &program);
    assert_eq!(chain.record(), record);
    assert_eq!(chain.program(), program);
    assert_eq!(chain.kind(), VaultKind::TreasuryVault);
    assert_eq!(chain.authority(), authority);
    assert_eq!(chain.authority_bump(), authority_bump);
    assert_eq!(chain.vault(), vault);
    assert_eq!(chain.vault_bump(), vault_bump);
}

#[test]
fn resolve_uses_the_tag_of_the_kind() {
    let record = address(21);
    let program = address(22);
    let chain = VaultAuthority::resolve(&record, VaultKind::MintAuthority, &program).unwrap();
    let (authority, _) = expected(&[b"auth", &record.bytes], &program);
    let (vault, vault_bump) = expected(&[b"mint-authority", &authority.bytes], &program);
    assert_eq!(chain.authority(), authority);
    assert_eq!(chain.vault(), vault);
    assert_eq!(chain.vault_bump(), vault_bump);
    let other = VaultAuthority::resolve(&record, VaultKind::TreasuryVault, &program).unwrap();
    assert_eq!(other.authority(), chain.authority());
    assert_ne!(other.vault(), chain.vault());
}

#[test]
fn resolve_twice_yields_the_same_identifiers() {
    let record = address(31);
    let program = address(32);
    let first = VaultAuthority::resolve(&record, VaultKind::TreasuryVault, &program).unwrap();
    let second = VaultAuthority::resolve(&record, VaultKind::TreasuryVault, &program).unwrap();
    assert_eq!(first.authority(), second.authority());
    assert_eq!(first.authority_bump(), second.authority_bump());
    assert_eq!(first.vault(), second.vault());
    assert_eq!(first.vault_bump(), second.vault_bump());
}

#[test]
fn check_is_for_compares_record_kind_and_program() {
    let record = address(41);
    let program = address(42);
    let chain = VaultAuthority::resolve(&record, VaultKind::TreasuryVault, &program).unwrap();
    assert!(chain.check_is_for(&record, VaultKind::TreasuryVault, &program));
    assert!(!chain.check_is_for(&address(43), VaultKind::TreasuryVault, &program));
    assert!(!chain.check_is_for(&record, VaultKind::MintAuthority, &program));
    assert!(!chain.check_is_for(&record, VaultKind::TreasuryVault, &address(44)));
}

#[test]
fn validate_accepts_equal_bumps_only() {
    assert_eq!(validate(254, 254), Ok(()));
    assert_eq!(validate(254, 255), Err(CustomError::AuthorityMismatch));
    assert_eq!(validate(255, 254), Err(CustomError::AuthorityMismatch));
    assert_eq!(validate(0, 255), Err(CustomError::AuthorityMismatch));
}

#[test]
fn addresses_compare_by_their_bytes() {
    let mut bytes = [5u8; 32];
    assert_eq!(Address { bytes }, address(5));
    bytes[31] = 6;
    assert_ne!(Address { bytes }, address(5));
    bytes[31] = 5;
    bytes[0] = 6;
    assert_ne!(Address { bytes }, address(5));
    assert_eq!(address(5).to_vec(), vec![5u8; 32]);
    assert_eq!(Address::zeroed(), address(0));
}
