//! The operations of the minter.

pub mod create_tree;
pub mod mint_cnft;

pub use create_tree::{create_tree, CreateTree, CreateTreeConfig, CreateTreeParams};
pub use mint_cnft::{
    mint_cnft,
    Collection,
    Creator,
    MetadataArgs,
    MetadataView,
    MintCNft,
    MintCNftParams,
    MintToCollectionV1,
    MintToCollectionV1Accounts,
    TokenProgramVersion,
    TokenStandard,
};
