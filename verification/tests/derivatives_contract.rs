use settlement::address::Address;
use settlement::authority::{VaultAuthority, VaultKind};
use settlement::derivatives_contract::error::CustomError;
use settlement::derivatives_contract::instructions::{
    create_futures_contract, create_options_contract, create_swap_contract, deposit_asset,
    deposit_funds, deposit_funds_with, init, init_with, settle_futures_contract,
    settle_futures_contract_with, transfer_token, CreateFuturesContract,
    CreateFuturesContractParams, CreateOptionsContract, CreateOptionsContractParams,
    CreateSwapContract, CreateSwapContractParams, DepositAsset, DepositAssetParams, DepositFunds,
    DepositFundsParams, Init, InitParams, SettleFuturesContract, SettleFuturesContractParams,
    TransferToken, TransferTokenParams,
};
use settlement::derivatives_contract::state::derivative_contract::{
    ContractType, DerivativeContract, OptionType,
};
use settlement::ledger::{Authorization, LedgerCall};
use settlement::vault::DepositBase;

fn party(fill: u8) -> Address {
    Address { bytes: [fill; 32] }
}

const ADMIN: u8 = 0x21;
const BUYER: u8 = 0x22;
const SELLER: u8 = 0x23;
const ASSET: u8 = 0x24;
const CONTRACT_RECORD: u8 = 0x25;
const CONTRACT_PROGRAM: u8 = 0x26;

fn started(decimals: u8) -> (DerivativeContract, DepositBase) {
    let mut ctx = Init {
        derivative_contract: DerivativeContract::empty(),
        deposit_account: DepositBase::empty(),
        deposit_account_key: party(CONTRACT_RECORD),
        owner: party(ADMIN),
        program_id: party(CONTRACT_PROGRAM),
    };
    assert_eq!(init(&mut ctx, &InitParams { decimals }), Ok(()));
    (ctx.derivative_contract, ctx.deposit_account)
}

fn future(decimals: u8) -> (DerivativeContract, DepositBase) {
    let (contract, record) = started(decimals);
    let mut ctx = CreateFuturesContract { derivative_contract: contract, owner: party(ADMIN) };
    let params = CreateFuturesContractParams {
        expiry_date: 1_900_000_000,
        underlying_asset: party(ASSET),
        price: 1234,
        buyer: party(BUYER),
        seller: party(SELLER),
    };
    assert_eq!(create_futures_contract(&mut ctx, &params), Ok(()));
    (ctx.derivative_contract, record)
}

fn vault() -> VaultAuthority {
    VaultAuthority::resolve(
        &party(CONTRACT_RECORD),
        VaultKind::TreasuryVault,
        &party(CONTRACT_PROGRAM),
    )
    .unwrap()
}

fn funds_from(signer: u8, contract: DerivativeContract, record: DepositBase) -> DepositFunds {
    DepositFunds {
        derivative_contract: contract,
        deposit_account: record,
        deposit_account_key: party(CONTRACT_RECORD),
        owner: party(signer),
        program_id: party(CONTRACT_PROGRAM),
    }
}

fn settlement_of(contract: DerivativeContract, record: DepositBase) -> SettleFuturesContract {
    SettleFuturesContract {
        derivative_contract: contract,
        sender_tokens: party(0x31),
        recipient_tokens: party(0x32),
        mint_token: party(0x33),
        deposit_account: record,
        deposit_account_key: party(CONTRACT_RECORD),
        owner: party(ADMIN),
        program_id: party(CONTRACT_PROGRAM),
    }
}

#[test]
fn contract_init_sets_owner_decimals_and_custody() {
    let (contract, record) = started(6);
    assert!(contract.is_initialized);
    assert_eq!(contract.owner, party(ADMIN));
    assert_eq!(contract.decimals, 6);
    assert_eq!(contract.buyer, None);
    assert_eq!(contract.seller, None);
    assert!(record.is_initialized);
    assert_eq!(record.owner, party(ADMIN));
    assert_eq!(record.admin_auth_bump, vault().authority_bump());
    assert_eq!(record.admin_treasury_vault_bump, Some(vault().vault_bump()));
}

#[test]
fn contract_init_twice_is_refused() {
    let (contract, record) = started(6);
    let mut both = Init {
        derivative_contract: contract,
        deposit_account: record,
        deposit_account_key: party(CONTRACT_RECORD),
        owner: party(0x99),
        program_id: party(CONTRACT_PROGRAM),
    };
    assert_eq!(init(&mut both, &InitParams { decimals: 2 }), Err(CustomError::AccountAlreadyInitialized));
    assert_eq!(both.derivative_contract.decimals, 6);
    assert_eq!(both.derivative_contract.owner, party(ADMIN));

    let mut custody_taken = Init {
        derivative_contract: DerivativeContract::empty(),
        deposit_account: record,
        deposit_account_key: party(CONTRACT_RECORD),
        owner: party(0x99),
        program_id: party(CONTRACT_PROGRAM),
    };
    assert_eq!(
        init(&mut custody_taken, &InitParams { decimals: 2 }),
        Err(CustomError::AccountAlreadyInitialized)
    );
    assert!(!custody_taken.derivative_contract.is_initialized);

    let mut unresolved = Init {
        derivative_contract: DerivativeContract::empty(),
        deposit_account: DepositBase::empty(),
        deposit_account_key: party(CONTRACT_RECORD),
        owner: party(0x99),
        program_id: party(CONTRACT_PROGRAM),
    };
    assert_eq!(
        init_with(&mut unresolved, &InitParams { decimals: 2 }, None),
        Err(CustomError::AuthorityMismatch)
    );
    assert!(!unresolved.derivative_contract.is_initialized);
    assert!(!unresolved.deposit_account.is_initialized);
}

#[test]
fn a_future_keeps_its_terms_and_counterparties() {
    let (contract, _) = future(6);
    assert_eq!(contract.contract_type, ContractType::Futures);
    assert_eq!(contract.expiry_date, 1_900_000_000);
    assert_eq!(contract.underlying_asset, party(ASSET));
    assert_eq!(contract.price, 1234);
    assert_eq!(contract.buyer, Some(party(BUYER)));
    assert_eq!(contract.seller, Some(party(SELLER)));
    assert_eq!(contract.option_type, None);
    assert_eq!(contract.notional_amount, None);
    assert_eq!(contract.decimals, 6);
    assert_eq!(contract.owner, party(ADMIN));
}

#[test]
fn an_option_keeps_its_strike_as_the_price() {
    let (contract, _) = started(6);
    let mut ctx = CreateOptionsContract { derivative_contract: contract, owner: party(ADMIN) };
    let params = CreateOptionsContractParams {
        expiry_date: -5,
        underlying_asset: party(ASSET),
        strike_price: 777,
        option_type: OptionType::Put,
        buyer: party(BUYER),
        seller: party(SELLER),
    };
    assert_eq!(create_options_contract(&mut ctx, &params), Ok(()));
    let contract = ctx.derivative_contract;
    assert_eq!(contract.contract_type, ContractType::Options);
    assert_eq!(contract.expiry_date, -5);
    assert_eq!(contract.price, 777);
    assert_eq!(contract.option_type, Some(OptionType::Put));
    assert_eq!(contract.buyer, Some(party(BUYER)));
    assert_eq!(contract.seller, Some(party(SELLER)));
}

#[test]
fn a_swap_keeps_its_notional_and_rates() {
    let (contract, _) = future(6);
    let mut ctx = CreateSwapContract { derivative_contract: contract, owner: party(ADMIN) };
    let params = CreateSwapContractParams {
        notional_amount: 1_000_000,
        fixed_rate: 300,
        floating_rate: 450,
        buyer: party(SELLER),
        seller: party(BUYER),
    };
    assert_eq!(create_swap_contract(&mut ctx, &params), Ok(()));
    let contract = ctx.derivative_contract;
    assert_eq!(contract.contract_type, ContractType::Swaps);
    assert_eq!(contract.notional_amount, Some(1_000_000));
    assert_eq!(contract.fixed_rate, Some(300));
    assert_eq!(contract.floating_rate, Some(450));
    assert_eq!(contract.buyer, Some(party(SELLER)));
    assert_eq!(contract.seller, Some(party(BUYER)));
    assert_eq!(contract.price, 1234);
    assert_eq!(contract.expiry_date, 1_900_000_000);
}

#[test]
fn contracts_are_not_created_on_a_blank_record() {
    let blank = DerivativeContract::empty();
    let mut futures = CreateFuturesContract { derivative_contract: blank, owner: party(ADMIN) };
    let r = create_futures_contract(
        &mut futures,
        &CreateFuturesContractParams {
            expiry_date: 1,
            underlying_asset: party(ASSET),
            price: 1,
            buyer: party(BUYER),
            seller: party(SELLER),
        },
    );
    assert_eq!(r, Err(CustomError::AccountNotInitialized));
    assert_eq!(futures.derivative_contract.buyer, None);
    assert_eq!(futures.derivative_contract.price, 0);

    let mut options = CreateOptionsContract { derivative_contract: blank, owner: party(ADMIN) };
    let r = create_options_contract(
        &mut options,
        &CreateOptionsContractParams {
            expiry_date: 1,
            underlying_asset: party(ASSET),
            strike_price: 1,
            option_type: OptionType::Call,
            buyer: party(BUYER),
            seller: party(SELLER),
        },
    );
    assert_eq!(r, Err(CustomError::AccountNotInitialized));
    assert_eq!(options.derivative_contract.option_type, None);

    let mut swaps = CreateSwapContract { derivative_contract: blank, owner: party(ADMIN) };
    let r = create_swap_contract(
        &mut swaps,
        &CreateSwapContractParams {
            notional_amount: 1,
            fixed_rate: 1,
            floating_rate: 1,
            buyer: party(BUYER),
            seller: party(SELLER),
        },
    );
    assert_eq!(r, Err(CustomError::AccountNotInitialized));
    assert_eq!(swaps.derivative_contract.notional_amount, None);
}

#[test]
fn deposit_asset_scales_by_the_decimals_of_the_contract() {
    let (contract, _) = started(9);
    let ctx = DepositAsset {
        derivative_contract: contract,
        sender_tokens: party(0x41),
        recipient_tokens: party(0x42),
        mint_token: party(0x43),
        owner: party(SELLER),
    };
    match deposit_asset(&ctx, &DepositAssetParams { amount: 3 }).unwrap() {
        LedgerCall::Transfer { from, to, authority: Authorization::Principal(signer), amount } => {
            assert_eq!(from, party(0x41));
            assert_eq!(to, party(0x42));
            assert_eq!(signer, party(SELLER));
            assert_eq!(amount, 3_000_000_000);
        }
        _ => panic!("a deposit of the asset is a transfer"),
    }
    let r = deposit_asset(&ctx, &DepositAssetParams { amount: 0 });
    assert!(matches!(r, Err(CustomError::InvalidAmount)));

    let mut blank = ctx;
    blank.derivative_contract = DerivativeContract::empty();
    let r = deposit_asset(&blank, &DepositAssetParams { amount: 3 });
    assert!(matches!(r, Err(CustomError::AccountNotInitialized)));
    let r = deposit_asset(&blank, &DepositAssetParams { amount: 0 });
    assert!(matches!(r, Err(CustomError::InvalidAmount)));

    let mut wide = ctx;
    wide.derivative_contract.decimals = 12;
    let r = deposit_asset(&wide, &DepositAssetParams { amount: u32::MAX });
    assert!(matches!(r, Err(CustomError::ArithmeticOverflow)));
}

#[test]
fn contract_transfer_token_scales_by_the_decimals_of_the_contract() {
    let (contract, _) = started(2);
    let ctx = TransferToken {
        derivative_contract: contract,
        from_account: party(0x51),
        to_account: party(0x52),
        mint_token: party(0x53),
        owner: party(ADMIN),
    };
    match transfer_token(&ctx, &TransferTokenParams { amount: 15 }).unwrap() {
        LedgerCall::Transfer { from, to, authority: Authorization::Principal(signer), amount } => {
            assert_eq!(from, party(0x51));
            assert_eq!(to, party(0x52));
            assert_eq!(signer, party(ADMIN));
            assert_eq!(amount, 1500);
        }
        _ => panic!("a transfer is a transfer"),
    }
    let r = transfer_token(&ctx, &TransferTokenParams { amount: 0 });
    assert!(matches!(r, Err(CustomError::InvalidAmount)));
    let mut blank = ctx;
    blank.derivative_contract.is_initialized = false;
    let r = transfer_token(&blank, &TransferTokenParams { amount: 15 });
    assert!(matches!(r, Err(CustomError::AccountNotInitialized)));
    let mut wide = ctx;
    wide.derivative_contract.decimals = 20;
    let r = transfer_token(&wide, &TransferTokenParams { amount: 1 });
    assert!(matches!(r, Err(CustomError::ArithmeticOverflow)));
}

#[test]
fn the_buyer_deposits_funds_into_the_vault() {
    let (contract, record) = future(6);
    let ctx = funds_from(BUYER, contract, record);
    match deposit_funds(&ctx, &DepositFundsParams { amount: 2_000_000 }).unwrap() {
        LedgerCall::SystemTransfer { from, to, authority: Authorization::Principal(signer), amount } => {
            assert_eq!(from, party(BUYER));
            assert_eq!(to, vault().vault());
            assert_eq!(signer, party(BUYER));
            assert_eq!(amount, 2_000_000);
        }
        _ => panic!("a deposit of funds moves native value"),
    }
}

#[test]
fn funds_are_refused_in_the_order_of_the_checks() {
    let (contract, record) = future(6);
    let (unset, _) = started(6);
    let blank_contract = DerivativeContract::empty();
    let blank_record = DepositBase::empty();
    let one = DepositFundsParams { amount: 1 };
    let zero = DepositFundsParams { amount: 0 };

    let r = deposit_funds(&funds_from(SELLER, blank_contract, blank_record), &zero);
    assert!(matches!(r, Err(CustomError::InvalidAmount)));
    let r = deposit_funds(&funds_from(SELLER, blank_contract, record), &one);
    assert!(matches!(r, Err(CustomError::AccountNotInitialized)));
    let r = deposit_funds(&funds_from(SELLER, unset, blank_record), &one);
    assert!(matches!(r, Err(CustomError::AccountNotInitialized)));

    let mut corrupted = record;
    corrupted.admin_auth_bump = record.admin_auth_bump.wrapping_sub(1);
    let r = deposit_funds(&funds_from(SELLER, unset, corrupted), &one);
    assert!(matches!(r, Err(CustomError::AuthorityMismatch)));
    let r = deposit_funds_with(&funds_from(BUYER, contract, record), &one, None);
    assert!(matches!(r, Err(CustomError::AuthorityMismatch)));

    let r = deposit_funds(&funds_from(SELLER, unset, record), &one);
    assert!(matches!(r, Err(CustomError::CounterpartyNotFound)));
    let r = deposit_funds(&funds_from(SELLER, contract, record), &one);
    assert!(matches!(r, Err(CustomError::InvalidCounterparty)));
    let r = deposit_funds(&funds_from(BUYER, contract, record), &one);
    assert!(r.is_ok());
}

#[test]
fn a_future_settles_under_the_treasury_vault() {
    let (contract, record) = future(6);
    let ctx = settlement_of(contract, record);
    let params = SettleFuturesContractParams { amount: 12, buyer: party(BUYER) };
    match settle_futures_contract(&ctx, &params).unwrap() {
        LedgerCall::TransferChecked {
            from,
            mint,
            to,
            authority: Authorization::Derived(signer),
            amount,
            decimals,
        } => {
            assert_eq!(from, party(0x31));
            assert_eq!(mint, party(0x33));
            assert_eq!(to, party(0x32));
            assert_eq!(signer.vault(), vault().vault());
            assert_eq!(signer.vault_bump(), vault().vault_bump());
            assert_eq!(signer.authority(), vault().authority());
            assert_eq!(amount, 12_000_000);
            assert_eq!(decimals, 6);
        }
        _ => panic!("a settlement is a checked transfer"),
    }
}

#[test]
fn settlement_is_refused_in_the_order_of_the_checks() {
    let (contract, record) = future(19);
    let (unset, _) = started(19);
    let with_buyer = |amount: u32, buyer: u8| SettleFuturesContractParams { amount, buyer: party(buyer) };

    let r = settle_futures_contract(
        &settlement_of(DerivativeContract::empty(), DepositBase::empty()),
        &with_buyer(0, SELLER),
    );
    assert!(matches!(r, Err(CustomError::InvalidAmount)));
    let r = settle_futures_contract(
        &settlement_of(DerivativeContract::empty(), record),
        &with_buyer(1, BUYER),
    );
    assert!(matches!(r, Err(CustomError::AccountNotInitialized)));
    let r = settle_futures_contract(&settlement_of(contract, DepositBase::empty()), &with_buyer(1, BUYER));
    assert!(matches!(r, Err(CustomError::AccountNotInitialized)));

    let mut corrupted = record;
    corrupted.admin_treasury_vault_bump = record.admin_treasury_vault_bump.map(|b| b.wrapping_add(1));
    let r = settle_futures_contract(&settlement_of(unset, corrupted), &with_buyer(2, SELLER));
    assert!(matches!(r, Err(CustomError::AuthorityMismatch)));
    let r = settle_futures_contract_with(&settlement_of(contract, record), &with_buyer(1, BUYER), None);
    assert!(matches!(r, Err(CustomError::AuthorityMismatch)));

    let r = settle_futures_contract(&settlement_of(unset, record), &with_buyer(2, SELLER));
    assert!(matches!(r, Err(CustomError::CounterpartyNotFound)));
    let r = settle_futures_contract(&settlement_of(contract, record), &with_buyer(2, SELLER));
    assert!(matches!(r, Err(CustomError::InvalidCounterparty)));
    let r = settle_futures_contract(&settlement_of(contract, record), &with_buyer(2, BUYER));
    assert!(matches!(r, Err(CustomError::ArithmeticOverflow)));
    let r = settle_futures_contract(&settlement_of(contract, record), &with_buyer(1, BUYER));
    assert!(matches!(r, Ok(LedgerCall::TransferChecked { amount: 10_000_000_000_000_000_000, .. })));
}

#[test]
fn check_buyer_tells_absent_from_wrong() {
    let (contract, _) = future(0);
    assert_eq!(contract.check_buyer(&party(BUYER)), Ok(party(BUYER)));
    assert_eq!(contract.check_buyer(&party(SELLER)), Err(CustomError::InvalidCounterparty));
    assert_eq!(
        DerivativeContract::empty().check_buyer(&party(BUYER)),
        Err(CustomError::CounterpartyNotFound)
    );
}
