//! The custody vault record, its initialization and the validation of its
//! stored bumps.

use vstd::prelude::*;
use crate::address::Address;
use crate::authority::{validate, VaultAuthority, VaultKind};
use crate::error::CustomError;

verus! {

/// The custody record of one owning principal.
///
/// `owner` is set once, at initialization. The two bumps make the derived
/// authority and the derived vault reconstructible; they are stored at
/// initialization and validated on every later use. `is_initialized` is
/// false until initialization completes and true ever after.
#[derive(Clone, Copy, Debug)]
pub struct DepositBase {
    pub owner: Address,
    pub admin_auth_bump: u8,
    pub admin_treasury_vault_bump: Option<u8>,
    pub is_initialized: bool,
}

impl DepositBase {
    /// The record that initialization leaves, or the reason it is refused:
    /// the record is already initialized, or the authority handed in is not
    /// the one derived for this record.
    pub open spec fn initialized_by(
        self,
        owner: Address,
        key: Address,
        kind: VaultKind,
        program: Address,
        chain: Option<VaultAuthority>,
    ) -> Result<DepositBase, CustomError> {
        if self.is_initialized {
            Err(CustomError::AccountAlreadyInitialized)
        } else {
            match chain {
                None => Err(CustomError::AuthorityMismatch),
                Some(authority) => if authority.is_for(key, kind, program) {
                    Ok(
                        DepositBase {
                            owner,
                            admin_auth_bump: authority.first_bump(),
                            admin_treasury_vault_bump: Some(authority.second_bump()),
                            is_initialized: true,
                        },
                    )
                } else {
                    Err(CustomError::AuthorityMismatch)
                },
            }
        }
    }

    /// The authority under which the vault may be moved, or the reason it is
    /// refused: the record is not initialized, or a stored bump differs from
    /// the one the derivation yields.
    pub open spec fn authorized_by(
        self,
        key: Address,
        kind: VaultKind,
        program: Address,
        chain: Option<VaultAuthority>,
    ) -> Result<VaultAuthority, CustomError> {
        if !self.is_initialized {
            Err(CustomError::AccountNotInitialized)
        } else {
            match chain {
                None => Err(CustomError::AuthorityMismatch),
                Some(authority) => if authority.is_for(key, kind, program)
                    && self.admin_auth_bump == authority.first_bump()
                    && self.admin_treasury_vault_bump == Some(authority.second_bump()) {
                    Ok(authority)
                } else {
                    Err(CustomError::AuthorityMismatch)
                },
            }
        }
    }

    /// A record that no initialization has touched.
    pub fn empty() -> (r: DepositBase)
        ensures
            r == (DepositBase {
                owner: Address::zero(),
                admin_auth_bump: 0,
                admin_treasury_vault_bump: None,
                is_initialized: false,
            }),
    {
        DepositBase {
            owner: Address::zeroed(),
            admin_auth_bump: 0,
            admin_treasury_vault_bump: None,
            is_initialized: false,
        }
    }

    /// Initializes the record from an authority that was resolved for it:
    /// stores both bumps, sets the owner and marks the record initialized.
    /// A refused initialization leaves the record as it was.
    pub fn initialize_with(
        &mut self,
        owner: Address,
        key: &Address,
        kind: VaultKind,
        program: &Address,
        chain: Option<VaultAuthority>,
    ) -> (r: Result<(), CustomError>)
        ensures
            match r {
                Ok(()) => old(self).initialized_by(owner, *key, kind, *program, chain) == Ok::<
                    DepositBase,
                    CustomError,
                >(*final(self)),
                Err(e) => old(self).initialized_by(owner, *key, kind, *program, chain) == Err::<
                    DepositBase,
                    CustomError,
                >(e) && *final(self) == *old(self),
            },
    {
        if self.is_initialized {
            return Err(CustomError::AccountAlreadyInitialized);
        }
        let authority = match chain {
            Some(authority) => authority,
            None => {
                return Err(CustomError::AuthorityMismatch);
            },
        };
        if !authority.check_is_for(key, kind, program) {
            return Err(CustomError::AuthorityMismatch);
        }
        self.owner = owner;
        self.admin_auth_bump = authority.authority_bump();
        self.admin_treasury_vault_bump = Some(authority.vault_bump());
        self.is_initialized = true;
        Ok(())
    }

    /// Initializes the record at `key`: derives both levels of its authority
    /// and stores what [`DepositBase::initialize_with`] stores.
    pub fn initialize(
        &mut self,
        owner: Address,
        key: &Address,
        kind: VaultKind,
        program: &Address,
    ) -> (r: Result<(), CustomError>)
        ensures
            match r {
                Ok(()) => old(self).initialized_by(
                    owner,
                    *key,
                    kind,
                    *program,
                    VaultAuthority::chain(*key, kind, *program),
                ) == Ok::<DepositBase, CustomError>(*final(self)),
                Err(e) => old(self).initialized_by(
                    owner,
                    *key,
                    kind,
                    *program,
                    VaultAuthority::chain(*key, kind, *program),
                ) == Err::<DepositBase, CustomError>(e) && *final(self) == *old(self),
            },
    {
        let chain = VaultAuthority::resolve(key, kind, program);
        self.initialize_with(owner, key, kind, program, chain)
    }

    /// Validates the record against an authority that was resolved for it and
    /// hands the authority back where both stored bumps match.
    pub fn authorize_with(
        &self,
        key: &Address,
        kind: VaultKind,
        program: &Address,
        chain: Option<VaultAuthority>,
    ) -> (r: Result<VaultAuthority, CustomError>)
        ensures
            r == self.authorized_by(*key, kind, *program, chain),
            r matches Ok(authority) ==> VaultAuthority::chain(*key, kind, *program) == Some(
                authority,
            ),
    {
        if !self.is_initialized {
            return Err(CustomError::AccountNotInitialized);
        }
        let authority = match chain {
            Some(authority) => authority,
            None => {
                return Err(CustomError::AuthorityMismatch);
            },
        };
        if !authority.check_is_for(key, kind, program) {
            return Err(CustomError::AuthorityMismatch);
        }
        match validate(self.admin_auth_bump, authority.authority_bump()) {
            Ok(()) => {},
            Err(e) => {
                return Err(e);
            },
        }
        match self.admin_treasury_vault_bump {
            None => Err(CustomError::AuthorityMismatch),
            Some(stored) => match validate(stored, authority.vault_bump()) {
                Ok(()) => Ok(authority),
                Err(e) => Err(e),
            },
        }
    }

    /// Derives both levels of the authority of the record at `key` and
    /// validates the stored bumps against them.
    pub fn authorize(&self, key: &Address, kind: VaultKind, program: &Address) -> (r: Result<
        VaultAuthority,
        CustomError,
    >)
        ensures
            r == self.authorized_by(
                *key,
                kind,
                *program,
                VaultAuthority::chain(*key, kind, *program),
            ),
    {
        let chain = VaultAuthority::resolve(key, kind, program);
        self.authorize_with(key, kind, program, chain)
    }

    /// A record that was initialized cannot be initialized again, whoever
    /// asks and whatever authority is handed in.
    pub proof fn lemma_initialization_is_final(
        self,
        owner: Address,
        key: Address,
        kind: VaultKind,
        program: Address,
        chain: Option<VaultAuthority>,
        next_owner: Address,
        next_chain: Option<VaultAuthority>,
    )
        ensures
            self.initialized_by(owner, key, kind, program, chain) matches Ok(record)
                ==> record.initialized_by(next_owner, key, kind, program, next_chain) == Err::<
                DepositBase,
                CustomError,
            >(CustomError::AccountAlreadyInitialized),
    {
    }

    /// A record validates against the authority it was initialized from.
    pub proof fn lemma_initialized_record_validates(
        self,
        owner: Address,
        key: Address,
        kind: VaultKind,
        program: Address,
        chain: Option<VaultAuthority>,
    )
        ensures
            self.initialized_by(owner, key, kind, program, chain) matches Ok(record)
                ==> record.authorized_by(key, kind, program, chain) == Ok::<
                VaultAuthority,
                CustomError,
            >(chain->0),
    {
    }

    /// Validation depends on nothing but the record's address, its two stored
    /// bumps and whether it is initialized: deriving the authority twice from
    /// the same address and the same stored bumps yields the same
    /// identifiers, whoever owns the record.
    pub proof fn lemma_authorization_is_stable(
        self,
        other: DepositBase,
        key: Address,
        other_key: Address,
        kind: VaultKind,
        program: Address,
    )
        requires
            self.admin_auth_bump == other.admin_auth_bump,
            self.admin_treasury_vault_bump == other.admin_treasury_vault_bump,
            self.is_initialized == other.is_initialized,
            key@ == other_key@,
        ensures
            self.authorized_by(key, kind, program, VaultAuthority::chain(key, kind, program))
                == other.authorized_by(
                other_key,
                kind,
                program,
                VaultAuthority::chain(other_key, kind, program),
            ),
    {
        Address::lemma_view_injective(key, other_key);
    }

    /// Once a record validates, changing either stored bump, by one unit or
    /// by any other amount, makes validation fail with `AuthorityMismatch`.
    pub proof fn lemma_corrupted_bump_is_rejected(
        self,
        corrupted: DepositBase,
        key: Address,
        kind: VaultKind,
        program: Address,
        chain: Option<VaultAuthority>,
    )
        requires
            self.authorized_by(key, kind, program, chain) is Ok,
            corrupted.is_initialized,
            corrupted.admin_auth_bump != self.admin_auth_bump
                || corrupted.admin_treasury_vault_bump != self.admin_treasury_vault_bump,
        ensures
            corrupted.authorized_by(key, kind, program, chain) == Err::<
                VaultAuthority,
                CustomError,
            >(CustomError::AuthorityMismatch),
    {
    }
}

} // verus!
