//! Asking the compression service for a new tree.

use vstd::prelude::*;
use crate::address::Address;
use crate::synthetic_assets::error::CustomError;

verus! {

/// What the request is addressed to: the payer, the minter's derived signer
/// with its bump, the tree's configuration account and the tree itself, and
/// the programs the service works with.
#[derive(Clone, Copy, Debug)]
pub struct CreateTree {
    pub payer: Address,
    pub pda: Address,
    pub pda_bump: u8,
    pub tree_authority: Address,
    pub merkle_tree: Address,
    pub log_wrapper: Address,
    pub compression_program: Address,
    pub bubblegum_program: Address,
    pub system_program: Address,
}

/// The size of the tree. `max_depth` bounds how many assets the tree can
/// hold; `max_buffer_size` bounds how many changes it takes at once.
#[derive(Clone, Copy, Debug)]
pub struct CreateTreeParams {
    pub max_depth: u32,
    pub max_buffer_size: u32,
    pub public: bool,
}

/// The request handed to the compression service: the accounts, the
/// arguments, and the bump with which the minter's derived signer signs as
/// the tree's creator.
#[derive(Clone, Copy, Debug)]
pub struct CreateTreeConfig {
    pub program: Address,
    pub tree_config: Address,
    pub merkle_tree: Address,
    pub payer: Address,
    pub tree_creator: Address,
    pub log_wrapper: Address,
    pub compression_program: Address,
    pub system_program: Address,
    pub max_depth: u32,
    pub max_buffer_size: u32,
    pub public: Option<bool>,
    pub signer_bump: u8,
}

/// What a request for a tree does.
///
/// It is refused with `InvalidMaxDepth` where the depth is zero and with
/// `InvalidMaxBufferSize` where the buffer size is zero. Otherwise the
/// service is asked for a tree of that size, created by the minter's derived
/// signer and paid for by the payer.
pub open spec fn create_tree_outcome(ctx: CreateTree, params: CreateTreeParams) -> Result<
    CreateTreeConfig,
    CustomError,
> {
    if params.max_depth == 0 {
        Err(CustomError::InvalidMaxDepth)
    } else if params.max_buffer_size == 0 {
        Err(CustomError::InvalidMaxBufferSize)
    } else {
        Ok(
            CreateTreeConfig {
                program: ctx.bubblegum_program,
                tree_config: ctx.tree_authority,
                merkle_tree: ctx.merkle_tree,
                payer: ctx.payer,
                tree_creator: ctx.pda,
                log_wrapper: ctx.log_wrapper,
                compression_program: ctx.compression_program,
                system_program: ctx.system_program,
                max_depth: params.max_depth,
                max_buffer_size: params.max_buffer_size,
                public: Some(params.public),
                signer_bump: ctx.pda_bump,
            },
        )
    }
}

/// Validates the size of the tree and returns the request to hand to the
/// compression service.
pub fn create_tree(ctx: &CreateTree, params: &CreateTreeParams) -> (r: Result<
    CreateTreeConfig,
    CustomError,
>)
    ensures
        r == create_tree_outcome(*ctx, *params),
{
    if params.max_depth == 0 {
        return Err(CustomError::InvalidMaxDepth);
    }
    if params.max_buffer_size == 0 {
        return Err(CustomError::InvalidMaxBufferSize);
    }
    Ok(
        CreateTreeConfig {
            program: ctx.bubblegum_program,
            tree_config: ctx.tree_authority,
            merkle_tree: ctx.merkle_tree,
            payer: ctx.payer,
            tree_creator: ctx.pda,
            log_wrapper: ctx.log_wrapper,
            compression_program: ctx.compression_program,
            system_program: ctx.system_program,
            max_depth: params.max_depth,
            max_buffer_size: params.max_buffer_size,
            public: Some(params.public),
            signer_bump: ctx.pda_bump,
        },
    )
}

} // verus!
