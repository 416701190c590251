//! The operations of the exchange.

pub mod add_liquidity;
pub mod init;
pub mod register_liquidity_provider;
pub mod register_trader;
pub mod swap;
pub mod transfer_token;

pub use add_liquidity::{add_liquidity, AddLiquidity, AddLiquidityParams, LiquidityAdded};
pub use init::{init, init_with, Init, InitParams};
pub use register_liquidity_provider::{register_liquidity_provider, RegisterLiquidityProvider};
pub use register_trader::{register_trader, RegisterTrader};
pub use swap::{swap, Swap, SwapParams, Swapped};
pub use transfer_token::{transfer_token, TransferToken, TransferTokenParams};
