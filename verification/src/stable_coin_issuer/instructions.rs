//! The operations of the issuer.

pub mod deposit_tokens;
pub mod init;
pub mod withdraw_tokens;

pub use deposit_tokens::{deposit_tokens, deposit_tokens_with, DepositTokens, DepositTokensParams};
pub use init::{init, init_with, Init};
pub use withdraw_tokens::{
    withdraw_tokens,
    withdraw_tokens_with,
    WithdrawTokens,
    WithdrawTokensParams,
};
