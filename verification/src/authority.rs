//! Derived custody authorities.
//!
//! A program moves funds out of a vault by presenting an address that was
//! derived from fixed seeds, never a private key. The derivation has two
//! levels: an authority derived from the owning record's address, and a vault
//! derived from that authority. Each derivation also yields a bump, a small
//! integer that makes it reproducible; the owning record stores both bumps
//! and every later operation validates them again.

use vstd::prelude::*;
use vstd::slice::slice_to_vec;
use anchor_lang::prelude::Pubkey;
use crate::address::Address;
use crate::error::CustomError;

verus! {

/// The address and bump that the program `program` derives from `seeds`, or
/// `None` where the seeds derive no address.
pub uninterp spec fn program_address(seeds: Seq<Seq<u8>>, program: Seq<u8>) -> Option<(Seq<u8>, u8)>;

/// Calls `Pubkey::try_find_program_address` with the seeds in order and the
/// program's address. Nothing is proved of it. The contract only names what
/// it returns, which depends on the seeds and the program's address alone:
/// the search hashes them with each candidate bump in turn and keeps the
/// first hash that is no point of the curve.
#[verifier::external_body]
fn find_program_address(seeds: &Vec<Vec<u8>>, program: &Address) -> (r: Option<(Address, u8)>)
    ensures
        r matches Some((address, bump)) ==> program_address(
            seeds@.map_values(|s: Vec<u8>| s@),
            program@,
        ) == Some((address@, bump)),
        r is None ==> program_address(seeds@.map_values(|s: Vec<u8>| s@), program@) is None,
{
    let parts: Vec<&[u8]> = seeds.iter().map(|s| s.as_slice()).collect();
    let found = Pubkey::try_find_program_address(&parts, &Pubkey::new_from_array(program.bytes));
    found.map(|(key, bump)| (Address { bytes: key.to_bytes() }, bump))
}

/// The seed tag of a first-level authority: the bytes of `auth`.
pub open spec fn auth_tag() -> Seq<u8> {
    seq![0x61u8, 0x75, 0x74, 0x68]
}

/// The seed tag of a first-level authority, as bytes.
pub fn auth_tag_bytes() -> (r: Vec<u8>)
    ensures
        r@ == auth_tag(),
{
    let r = vec![0x61u8, 0x75, 0x74, 0x68];
    assert(r@ =~= auth_tag());
    r
}

/// What a second-level derivation yields: the vault that holds deposits, or
/// the authority that mints the wrapped asset.
#[derive(Clone, Copy, Debug, PartialEq, Eq, Structural)]
pub enum VaultKind {
    TreasuryVault,
    MintAuthority,
}

impl VaultKind {
    /// The seed tag of the second-level derivation: the bytes of
    /// `treasury-vault` or of `mint-authority`.
    pub open spec fn tag(self) -> Seq<u8> {
        match self {
            VaultKind::TreasuryVault => seq![
                0x74u8, 0x72, 0x65, 0x61, 0x73, 0x75, 0x72, 0x79, 0x2d, 0x76, 0x61, 0x75, 0x6c, 0x74,
            ],
            VaultKind::MintAuthority => seq![
                0x6du8, 0x69, 0x6e, 0x74, 0x2d, 0x61, 0x75, 0x74, 0x68, 0x6f, 0x72, 0x69, 0x74, 0x79,
            ],
        }
    }

    /// The seed tag as bytes.
    pub fn tag_bytes(&self) -> (r: Vec<u8>)
        ensures
            r@ == self.tag(),
    {
        let r = match self {
            VaultKind::TreasuryVault => vec![
                0x74u8, 0x72, 0x65, 0x61, 0x73, 0x75, 0x72, 0x79, 0x2d, 0x76, 0x61, 0x75, 0x6c, 0x74,
            ],
            VaultKind::MintAuthority => vec![
                0x6du8, 0x69, 0x6e, 0x74, 0x2d, 0x61, 0x75, 0x74, 0x68, 0x6f, 0x72, 0x69, 0x74, 0x79,
            ],
        };
        assert(r@ =~= self.tag());
        r
    }
}

/// The identifier and bump derived from the tag `tag` and the address `seed`
/// under `program`.
pub open spec fn derived(tag: Seq<u8>, seed: Address, program: Address) -> Option<(Address, u8)> {
    match program_address(seq![tag, seed@], program@) {
        Some((bytes, bump)) => Some((Address::from_view(bytes), bump)),
        None => None,
    }
}

/// Derives an identifier and its bump from a seed tag and an address. The
/// result depends on the three arguments alone.
pub fn derive(tag: &[u8], seed: &Address, program: &Address) -> (r: Option<(Address, u8)>)
    ensures
        r == derived(tag@, *seed, *program),
{
    let mut seeds: Vec<Vec<u8>> = Vec::new();
    seeds.push(slice_to_vec(tag));
    seeds.push(seed.to_vec());
    assert(seeds@.map_values(|s: Vec<u8>| s@) =~= seq![tag@, seed@]);
    let r = find_program_address(&seeds, program);
    proof {
        if let Some((address, bump)) = r {
            Address::lemma_from_view(address);
        }
    }
    r
}

/// A custody authority resolved from an owning record's address: the
/// first-level authority, the vault derived from it, and both bumps.
///
/// A value of this type is only ever made by [`VaultAuthority::resolve`], so
/// holding one shows that its identifiers are the ones the derivation yields
/// for the record, kind and program it names. It is what authorizes a
/// transfer out of the vault.
#[derive(Clone, Copy, Debug)]
pub struct VaultAuthority {
    record: Address,
    program: Address,
    kind: VaultKind,
    authority: Address,
    authority_bump: u8,
    vault: Address,
    vault_bump: u8,
}

impl VaultAuthority {
    #[verifier::type_invariant]
    closed spec fn well_derived(self) -> bool {
        VaultAuthority::chain(self.record, self.kind, self.program) == Some(self)
    }

    /// The authority that the two-level derivation yields for the record at
    /// `record`, or `None` where either level derives no address.
    pub closed spec fn chain(record: Address, kind: VaultKind, program: Address) -> Option<
        VaultAuthority,
    > {
        match derived(auth_tag(), record, program) {
            None => None,
            Some((authority, authority_bump)) => match derived(kind.tag(), authority, program) {
                None => None,
                Some((vault, vault_bump)) => Some(
                    VaultAuthority {
                        record,
                        program,
                        kind,
                        authority,
                        authority_bump,
                        vault,
                        vault_bump,
                    },
                ),
            },
        }
    }

    /// The address of the owning record.
    pub closed spec fn record_key(self) -> Address {
        self.record
    }

    /// The program under which the identifiers were derived.
    pub closed spec fn program_key(self) -> Address {
        self.program
    }

    /// What the second level stands for.
    pub closed spec fn vault_kind(self) -> VaultKind {
        self.kind
    }

    /// The first-level authority.
    pub closed spec fn authority_key(self) -> Address {
        self.authority
    }

    /// The bump of the first-level authority.
    pub closed spec fn first_bump(self) -> u8 {
        self.authority_bump
    }

    /// The second-level vault.
    pub closed spec fn vault_key(self) -> Address {
        self.vault
    }

    /// The bump of the second-level vault.
    pub closed spec fn second_bump(self) -> u8 {
        self.vault_bump
    }

    /// Whether this authority was resolved for the record at `record`, with
    /// the second level `kind`, under `program`.
    pub open spec fn is_for(self, record: Address, kind: VaultKind, program: Address) -> bool {
        &&& self.record_key() == record
        &&& self.vault_kind() == kind
        &&& self.program_key() == program
    }

    /// Derives both levels for the record at `record`: first the authority,
    /// from the tag `auth` and the record's address, then the vault, from the
    /// kind's tag and the authority.
    pub fn resolve(record: &Address, kind: VaultKind, program: &Address) -> (r: Option<
        VaultAuthority,
    >)
        ensures
            r == VaultAuthority::chain(*record, kind, *program),
            r matches Some(a) ==> a.is_for(*record, kind, *program),
    {
        let tag = auth_tag_bytes();
        let (authority, authority_bump) = match derive(tag.as_slice(), record, program) {
            Some(found) => found,
            None => {
                return None;
            },
        };
        let vault_tag = kind.tag_bytes();
        let (vault, vault_bump) = match derive(vault_tag.as_slice(), &authority, program) {
            Some(found) => found,
            None => {
                return None;
            },
        };
        Some(
            VaultAuthority {
                record: *record,
                program: *program,
                kind,
                authority,
                authority_bump,
                vault,
                vault_bump,
            },
        )
    }

    /// An authority that passes `is_for` is the one the derivation yields for
    /// those three values.
    pub fn check_is_for(&self, record: &Address, kind: VaultKind, program: &Address) -> (r: bool)
        ensures
            r == self.is_for(*record, kind, *program),
            r ==> VaultAuthority::chain(*record, kind, *program) == Some(*self),
    {
        proof {
            use_type_invariant(self);
        }
        self.record == *record && self.kind == kind && self.program == *program
    }

    /// The address of the owning record.
    pub fn record(&self) -> (r: Address)
        ensures
            r == self.record_key(),
    {
        self.record
    }

    /// The program under which the identifiers were derived.
    pub fn program(&self) -> (r: Address)
        ensures
            r == self.program_key(),
    {
        self.program
    }

    /// What the second level stands for.
    pub fn kind(&self) -> (r: VaultKind)
        ensures
            r == self.vault_kind(),
    {
        self.kind
    }

    /// The first-level authority.
    pub fn authority(&self) -> (r: Address)
        ensures
            r == self.authority_key(),
    {
        self.authority
    }

    /// The bump of the first-level authority.
    pub fn authority_bump(&self) -> (r: u8)
        ensures
            r == self.first_bump(),
    {
        self.authority_bump
    }

    /// The second-level vault.
    pub fn vault(&self) -> (r: Address)
        ensures
            r == self.vault_key(),
    {
        self.vault
    }

    /// The bump of the second-level vault.
    pub fn vault_bump(&self) -> (r: u8)
        ensures
            r == self.second_bump(),
    {
        self.vault_bump
    }

    /// Resolving twice for the same record address, kind and program yields
    /// the same identifiers and bumps.
    pub proof fn lemma_resolution_is_stable(
        first: Address,
        second: Address,
        kind: VaultKind,
        program: Address,
    )
        requires
            first@ == second@,
        ensures
            VaultAuthority::chain(first, kind, program) == VaultAuthority::chain(
                second,
                kind,
                program,
            ),
    {
        Address::lemma_view_injective(first, second);
    }
}

/// Compares a stored bump with the one a fresh derivation yields.
pub fn validate(stored: u8, recomputed: u8) -> (r: Result<(), CustomError>)
    ensures
        r == if stored == recomputed {
            Ok::<(), CustomError>(())
        } else {
            Err(CustomError::AuthorityMismatch)
        },
{
    if stored == recomputed {
        Ok(())
    } else {
        Err(CustomError::AuthorityMismatch)
    }
}

} // verus!
