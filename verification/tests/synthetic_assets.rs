use settlement::address::Address;
use settlement::synthetic_assets::error::CustomError;
use settlement::synthetic_assets::instructions::{
    create_tree, mint_cnft, CreateTree, CreateTreeParams, MintCNft, MintCNftParams,
    TokenProgramVersion, TokenStandard,
};

fn account(fill: u8) -> Address {
    Address { bytes: [fill; 32] }
}

fn tree_request() -> CreateTree {
    CreateTree {
        payer: account(1),
        pda: account(2),
        pda_bump: 254,
        tree_authority: account(3),
        merkle_tree: account(4),
        log_wrapper: account(5),
        compression_program: account(6),
        bubblegum_program: account(7),
        system_program: account(8),
    }
}

fn mint_request() -> MintCNft {
    MintCNft {
        payer: account(1),
        pda: account(2),
        pda_bump: 253,
        tree_authority: account(3),
        merkle_tree: account(4),
        bubblegum_signer: account(9),
        collection_mint: account(10),
        collection_metadata: account(11),
        edition_account: account(12),
        log_wrapper: account(5),
        compression_program: account(6),
        bubblegum_program: account(7),
        token_metadata_program: account(13),
        system_program: account(8),
    }
}

fn texts(name: &str, symbol: &str, uri: &str) -> MintCNftParams {
    MintCNftParams { name: name.to_string(), symbol: symbol.to_string(), uri: uri.to_string() }
}

#[test]
fn a_tree_is_requested_with_the_minter_as_creator() {
    let params = CreateTreeParams { max_depth: 14, max_buffer_size: 64, public: false };
    let request = create_tree(&tree_request(), &params).unwrap();
    assert_eq!(request.program, account(7));
    assert_eq!(request.tree_config, account(3));
    assert_eq!(request.merkle_tree, account(4));
    assert_eq!(request.payer, account(1));
    assert_eq!(request.tree_creator, account(2));
    assert_eq!(request.log_wrapper, account(5));
    assert_eq!(request.compression_program, account(6));
    assert_eq!(request.system_program, account(8));
    assert_eq!(request.max_depth, 14);
    assert_eq!(request.max_buffer_size, 64);
    assert_eq!(request.public, Some(false));
    assert_eq!(request.signer_bump, 254);

    let open = CreateTreeParams { max_depth: 1, max_buffer_size: 1, public: true };
    assert_eq!(create_tree(&tree_request(), &open).unwrap().public, Some(true));
}

#[test]
fn a_tree_without_depth_or_buffer_is_refused() {
    let no_depth = CreateTreeParams { max_depth: 0, max_buffer_size: 64, public: true };
    assert!(matches!(create_tree(&tree_request(), &no_depth), Err(CustomError::InvalidMaxDepth)));
    let no_buffer = CreateTreeParams { max_depth: 14, max_buffer_size: 0, public: true };
    assert!(matches!(
        create_tree(&tree_request(), &no_buffer),
        Err(CustomError::InvalidMaxBufferSize)
    ));
    let neither = CreateTreeParams { max_depth: 0, max_buffer_size: 0, public: true };
    assert!(matches!(create_tree(&tree_request(), &neither), Err(CustomError::InvalidMaxDepth)));
}

#[test]
fn an_asset_is_minted_into_the_collection() {
    let request = mint_cnft(&mint_request(), &texts("Gold", "GLD", "https://example.org/g.json"))
        .unwrap();
    let accounts = request.accounts;
    assert_eq!(accounts.program, account(7));
    assert_eq!(accounts.tree_config, account(3));
    assert_eq!(accounts.leaf_owner, account(1));
    assert_eq!(accounts.leaf_delegate, account(1));
    assert_eq!(accounts.merkle_tree, account(4));
    assert_eq!(accounts.payer, account(1));
    assert_eq!(accounts.tree_creator_or_delegate, account(2));
    assert_eq!(accounts.collection_authority, account(2));
    assert_eq!(accounts.collection_authority_record_pda, Some(account(7)));
    assert_eq!(accounts.collection_mint, account(10));
    assert_eq!(accounts.collection_metadata, account(11));
    assert_eq!(accounts.collection_edition, account(12));
    assert_eq!(accounts.bubblegum_signer, account(9));
    assert_eq!(accounts.log_wrapper, account(5));
    assert_eq!(accounts.compression_program, account(6));
    assert_eq!(accounts.token_metadata_program, account(13));
    assert_eq!(accounts.system_program, account(8));
    assert_eq!(request.signer_bump, 253);

    let metadata = request.metadata;
    assert_eq!(metadata.name, "Gold");
    assert_eq!(metadata.symbol, "GLD");
    assert_eq!(metadata.uri, "https://example.org/g.json");
    assert_eq!(metadata.seller_fee_basis_points, 0);
    assert!(metadata.primary_sale_happened);
    assert!(metadata.is_mutable);
    assert_eq!(metadata.edition_nonce, None);
    assert_eq!(metadata.token_standard, Some(TokenStandard::NonFungible));
    assert_eq!(metadata.token_program_version, TokenProgramVersion::Original);
    let collection = metadata.collection.unwrap();
    assert_eq!(collection.key, account(10));
    assert!(!collection.verified);
    assert_eq!(metadata.creators.len(), 1);
    assert_eq!(metadata.creators[0].address, account(2));
    assert!(metadata.creators[0].verified);
    assert_eq!(metadata.creators[0].share, 100);
}

#[test]
fn texts_are_measured_in_bytes() {
    let uri = "u";
    let twenty = "a".repeat(20);
    let twenty_one = "a".repeat(21);
    assert!(mint_cnft(&mint_request(), &texts(&twenty, "S", uri)).is_ok());
    assert!(matches!(
        mint_cnft(&mint_request(), &texts(&twenty_one, "S", uri)),
        Err(CustomError::InvalidNameLength)
    ));
    let ten_umlauts = "\u{e4}".repeat(10);
    let eleven_umlauts = "\u{e4}".repeat(11);
    assert!(mint_cnft(&mint_request(), &texts(&ten_umlauts, "S", uri)).is_ok());
    assert!(matches!(
        mint_cnft(&mint_request(), &texts(&eleven_umlauts, "S", uri)),
        Err(CustomError::InvalidNameLength)
    ));
    assert!(matches!(
        mint_cnft(&mint_request(), &texts("N", &"\u{e4}".repeat(6), uri)),
        Err(CustomError::InvalidSymbolLength)
    ));
    assert!(mint_cnft(&mint_request(), &texts("N", &"\u{e4}".repeat(5), uri)).is_ok());
}

#[test]
fn texts_are_refused_in_the_order_name_symbol_uri() {
    let long_uri = "x".repeat(201);
    assert!(matches!(
        mint_cnft(&mint_request(), &texts("", "", "")),
        Err(CustomError::InvalidNameLength)
    ));
    assert!(matches!(
        mint_cnft(&mint_request(), &texts("N", "", "")),
        Err(CustomError::InvalidSymbolLength)
    ));
    assert!(matches!(
        mint_cnft(&mint_request(), &texts("N", "S", "")),
        Err(CustomError::InvalidUriLength)
    ));
    assert!(matches!(
        mint_cnft(&mint_request(), &texts("N", "01234567890", &long_uri)),
        Err(CustomError::InvalidSymbolLength)
    ));
    assert!(matches!(
        mint_cnft(&mint_request(), &texts("N", "0123456789", &long_uri)),
        Err(CustomError::InvalidUriLength)
    ));
    assert!(mint_cnft(&mint_request(), &texts("N", "0123456789", &"x".repeat(200))).is_ok());
}

#[test]
fn every_refusal_of_the_minter_has_its_text() {
    assert_eq!(CustomError::InvalidNameLength.message(), "Invalid name length");
    assert_eq!(CustomError::InvalidSymbolLength.message(), "Invalid symbol length");
    assert_eq!(CustomError::InvalidUriLength.message(), "Invalid uri length");
    assert_eq!(CustomError::InvalidMaxDepth.message(), "Max depth has invalid value.");
    assert_eq!(CustomError::InvalidMaxBufferSize.message(), "Max buffer size has invalid value.");
}
