//! The operations of the derivatives contract.

pub mod create_futures_contract;
pub mod create_options_contract;
pub mod create_swap_contract;
pub mod deposit_asset;
pub mod deposit_funds;
pub mod init;
pub mod settle_futures_contract;
pub mod transfer_token;

pub use create_futures_contract::{
    create_futures_contract,
    CreateFuturesContract,
    CreateFuturesContractParams,
};
pub use create_options_contract::{
    create_options_contract,
    CreateOptionsContract,
    CreateOptionsContractParams,
};
pub use create_swap_contract::{create_swap_contract, CreateSwapContract, CreateSwapContractParams};
pub use deposit_asset::{deposit_asset, DepositAsset, DepositAssetParams};
pub use deposit_funds::{deposit_funds, deposit_funds_with, DepositFunds, DepositFundsParams};
pub use init::{init, init_with, Init, InitParams};
pub use settle_futures_contract::{
    settle_futures_contract,
    settle_futures_contract_with,
    SettleFuturesContract,
    SettleFuturesContractParams,
};
pub use transfer_token::{transfer_token, TransferToken, TransferTokenParams};
