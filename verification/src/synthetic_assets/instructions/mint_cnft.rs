//! Asking the compression service to mint a compressed asset into a
//! collection.

use vstd::prelude::*;
use vstd::utf8::encode_utf8;
use crate::address::Address;
use crate::synthetic_assets::error::CustomError;

verus! {

/// The longest name, in bytes.
pub const NAME_LENGTH: usize = 20;

/// The longest symbol, in bytes.
pub const SYMBOL_LENGTH: usize = 10;

/// The longest address of a description, in bytes.
pub const URI_LENGTH: usize = 200;

/// What the request is addressed to: the payer, who will own the asset, the
/// minter's derived signer with its bump, the tree with its configuration
/// account, the collection's accounts, and the programs the service works
/// with.
#[derive(Clone, Copy, Debug)]
pub struct MintCNft {
    pub payer: Address,
    pub pda: Address,
    pub pda_bump: u8,
    pub tree_authority: Address,
    pub merkle_tree: Address,
    pub bubblegum_signer: Address,
    pub collection_mint: Address,
    pub collection_metadata: Address,
    pub edition_account: Address,
    pub log_wrapper: Address,
    pub compression_program: Address,
    pub bubblegum_program: Address,
    pub token_metadata_program: Address,
    pub system_program: Address,
}

/// The name, the symbol and the address of the description of the asset.
#[derive(Clone, Debug)]
pub struct MintCNftParams {
    pub name: String,
    pub symbol: String,
    pub uri: String,
}

/// The kind of token an asset is.
#[derive(Clone, Copy, Debug, PartialEq, Eq, Structural)]
pub enum TokenStandard {
    NonFungible,
    FungibleAsset,
    Fungible,
    NonFungibleEdition,
}

/// The token program an asset is kept by.
#[derive(Clone, Copy, Debug, PartialEq, Eq, Structural)]
pub enum TokenProgramVersion {
    Original,
    Token2022,
}

/// The collection an asset belongs to, and whether that is verified.
#[derive(Clone, Copy, Debug)]
pub struct Collection {
    pub verified: bool,
    pub key: Address,
}

/// A creator of an asset, whether that is verified, and the creator's share
/// in percent.
#[derive(Clone, Copy, Debug)]
pub struct Creator {
    pub address: Address,
    pub verified: bool,
    pub share: u8,
}

/// The description of an asset as the compression service takes it.
#[derive(Clone, Debug)]
pub struct MetadataArgs {
    pub name: String,
    pub symbol: String,
    pub uri: String,
    pub seller_fee_basis_points: u16,
    pub primary_sale_happened: bool,
    pub is_mutable: bool,
    pub edition_nonce: Option<u8>,
    pub token_standard: Option<TokenStandard>,
    pub collection: Option<Collection>,
    pub token_program_version: TokenProgramVersion,
    pub creators: Vec<Creator>,
}

/// A description as a mathematical value.
pub struct MetadataView {
    pub name: Seq<char>,
    pub symbol: Seq<char>,
    pub uri: Seq<char>,
    pub seller_fee_basis_points: u16,
    pub primary_sale_happened: bool,
    pub is_mutable: bool,
    pub edition_nonce: Option<u8>,
    pub token_standard: Option<TokenStandard>,
    pub collection: Option<Collection>,
    pub token_program_version: TokenProgramVersion,
    pub creators: Seq<Creator>,
}

impl View for MetadataArgs {
    type V = MetadataView;

    open spec fn view(&self) -> MetadataView {
        MetadataView {
            name: self.name@,
            symbol: self.symbol@,
            uri: self.uri@,
            seller_fee_basis_points: self.seller_fee_basis_points,
            primary_sale_happened: self.primary_sale_happened,
            is_mutable: self.is_mutable,
            edition_nonce: self.edition_nonce,
            token_standard: self.token_standard,
            collection: self.collection,
            token_program_version: self.token_program_version,
            creators: self.creators@,
        }
    }
}

/// The accounts of a request to mint into a collection.
#[derive(Clone, Copy, Debug)]
pub struct MintToCollectionV1Accounts {
    pub program: Address,
    pub tree_config: Address,
    pub leaf_owner: Address,
    pub leaf_delegate: Address,
    pub merkle_tree: Address,
    pub payer: Address,
    pub tree_creator_or_delegate: Address,
    pub collection_authority: Address,
    pub collection_authority_record_pda: Option<Address>,
    pub collection_mint: Address,
    pub collection_metadata: Address,
    pub collection_edition: Address,
    pub bubblegum_signer: Address,
    pub log_wrapper: Address,
    pub compression_program: Address,
    pub token_metadata_program: Address,
    pub system_program: Address,
}

/// The request handed to the compression service: the accounts, the
/// description of the asset, and the bump with which the minter's derived
/// signer signs as the tree's delegate and the collection's authority.
#[derive(Clone, Debug)]
pub struct MintToCollectionV1 {
    pub accounts: MintToCollectionV1Accounts,
    pub metadata: MetadataArgs,
    pub signer_bump: u8,
}

/// How many bytes a text takes.
pub open spec fn byte_length(text: Seq<char>) -> nat {
    encode_utf8(text).len()
}

/// Whether a text is not empty and takes at most `limit` bytes.
pub open spec fn fits(text: Seq<char>, limit: usize) -> bool {
    0 < byte_length(text) <= limit
}

impl MintCNft {
    /// The accounts of the request: the payer owns the asset and is its
    /// delegate, the minter's derived signer acts for the tree and for the
    /// collection, and the service's own address stands where the collection
    /// has no authority record.
    pub open spec fn accounts(self) -> MintToCollectionV1Accounts {
        MintToCollectionV1Accounts {
            program: self.bubblegum_program,
            tree_config: self.tree_authority,
            leaf_owner: self.payer,
            leaf_delegate: self.payer,
            merkle_tree: self.merkle_tree,
            payer: self.payer,
            tree_creator_or_delegate: self.pda,
            collection_authority: self.pda,
            collection_authority_record_pda: Some(self.bubblegum_program),
            collection_mint: self.collection_mint,
            collection_metadata: self.collection_metadata,
            collection_edition: self.edition_account,
            bubblegum_signer: self.bubblegum_signer,
            log_wrapper: self.log_wrapper,
            compression_program: self.compression_program,
            token_metadata_program: self.token_metadata_program,
            system_program: self.system_program,
        }
    }

    /// The description of the asset: a non-fungible token of the first
    /// token program, mutable, already sold once, without royalties, in the
    /// collection though not verified there, with the minter's derived
    /// signer as its only creator, verified, with the whole share.
    pub open spec fn metadata(self, params: MintCNftParams) -> MetadataView {
        MetadataView {
            name: params.name@,
            symbol: params.symbol@,
            uri: params.uri@,
            seller_fee_basis_points: 0,
            primary_sale_happened: true,
            is_mutable: true,
            edition_nonce: None,
            token_standard: Some(TokenStandard::NonFungible),
            collection: Some(Collection { verified: false, key: self.collection_mint }),
            token_program_version: TokenProgramVersion::Original,
            creators: seq![Creator { address: self.pda, verified: true, share: 100 }],
        }
    }
}

/// Why a request to mint is refused, if it is: `InvalidNameLength`,
/// `InvalidSymbolLength` or `InvalidUriLength` where the name, the symbol or
/// the address of the description is empty or too long, in that order.
pub open spec fn mint_refusal(params: MintCNftParams) -> Option<CustomError> {
    if !fits(params.name@, NAME_LENGTH) {
        Some(CustomError::InvalidNameLength)
    } else if !fits(params.symbol@, SYMBOL_LENGTH) {
        Some(CustomError::InvalidSymbolLength)
    } else if !fits(params.uri@, URI_LENGTH) {
        Some(CustomError::InvalidUriLength)
    } else {
        None
    }
}

/// Validates the three texts and returns the request to hand to the
/// compression service.
pub fn mint_cnft(ctx: &MintCNft, params: &MintCNftParams) -> (r: Result<
    MintToCollectionV1,
    CustomError,
>)
    ensures
        match r {
            Err(e) => mint_refusal(*params) == Some(e),
            Ok(request) => {
                &&& mint_refusal(*params) is None
                &&& request.accounts == ctx.accounts()
                &&& request.metadata@ == ctx.metadata(*params)
                &&& request.signer_bump == ctx.pda_bump
            },
        },
{
    let name_length = params.name.as_str().as_bytes().len();
    if !(name_length > 0 && name_length <= NAME_LENGTH) {
        return Err(CustomError::InvalidNameLength);
    }
    let symbol_length = params.symbol.as_str().as_bytes().len();
    if !(symbol_length > 0 && symbol_length <= SYMBOL_LENGTH) {
        return Err(CustomError::InvalidSymbolLength);
    }
    let uri_length = params.uri.as_str().as_bytes().len();
    if !(uri_length > 0 && uri_length <= URI_LENGTH) {
        return Err(CustomError::InvalidUriLength);
    }
    let mut creators: Vec<Creator> = Vec::new();
    creators.push(Creator { address: ctx.pda, verified: true, share: 100 });
    let metadata = MetadataArgs {
        name: params.name.clone(),
        symbol: params.symbol.clone(),
        uri: params.uri.clone(),
        seller_fee_basis_points: 0,
        primary_sale_happened: true,
        is_mutable: true,
        edition_nonce: None,
        token_standard: Some(TokenStandard::NonFungible),
        collection: Some(Collection { verified: false, key: ctx.collection_mint }),
        token_program_version: TokenProgramVersion::Original,
        creators,
    };
    assert(metadata@.creators =~= ctx.metadata(*params).creators);
    let accounts = MintToCollectionV1Accounts {
        program: ctx.bubblegum_program,
        tree_config: ctx.tree_authority,
        leaf_owner: ctx.payer,
        leaf_delegate: ctx.payer,
        merkle_tree: ctx.merkle_tree,
        payer: ctx.payer,
        tree_creator_or_delegate: ctx.pda,
        collection_authority: ctx.pda,
        collection_authority_record_pda: Some(ctx.bubblegum_program),
        collection_mint: ctx.collection_mint,
        collection_metadata: ctx.collection_metadata,
        collection_edition: ctx.edition_account,
        bubblegum_signer: ctx.bubblegum_signer,
        log_wrapper: ctx.log_wrapper,
        compression_program: ctx.compression_program,
        token_metadata_program: ctx.token_metadata_program,
        system_program: ctx.system_program,
    };
    Ok(MintToCollectionV1 { accounts, metadata, signer_bump: ctx.pda_bump })
}

} // verus!
