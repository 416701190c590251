//! The settlement record.

use vstd::prelude::*;
use crate::address::Address;
use crate::error::CustomError;

verus! {

/// Which kind of contract a settlement record describes.
#[derive(Clone, Copy, Debug, PartialEq, Eq, Structural)]
pub enum ContractType {
    Futures,
    Options,
    Swaps,
}

/// Whether an option is a right to buy or a right to sell.
#[derive(Clone, Copy, Debug, PartialEq, Eq, Structural)]
pub enum OptionType {
    Call,
    Put,
}

/// One settlement record. The owner and the decimals are set at
/// initialization; the terms and the two counterparties are set when a
/// contract is created, and are absent until then.
#[derive(Clone, Copy, Debug)]
pub struct DerivativeContract {
    pub owner: Address,
    pub contract_type: ContractType,
    pub expiry_date: i64,
    pub underlying_asset: Address,
    pub price: u64,
    pub buyer: Option<Address>,
    pub seller: Option<Address>,
    pub custodian: Option<Address>,
    pub option_type: Option<OptionType>,
    pub notional_amount: Option<u64>,
    pub fixed_rate: Option<u64>,
    pub floating_rate: Option<u64>,
    pub is_initialized: bool,
    pub decimals: u8,
}

impl DerivativeContract {
    /// A record that no initialization has touched.
    pub fn empty() -> (r: DerivativeContract)
        ensures
            r == (DerivativeContract {
                owner: Address::zero(),
                contract_type: ContractType::Futures,
                expiry_date: 0,
                underlying_asset: Address::zero(),
                price: 0,
                buyer: None,
                seller: None,
                custodian: None,
                option_type: None,
                notional_amount: None,
                fixed_rate: None,
                floating_rate: None,
                is_initialized: false,
                decimals: 0,
            }),
    {
        DerivativeContract {
            owner: Address::zeroed(),
            contract_type: ContractType::Futures,
            expiry_date: 0,
            underlying_asset: Address::zeroed(),
            price: 0,
            buyer: None,
            seller: None,
            custodian: None,
            option_type: None,
            notional_amount: None,
            fixed_rate: None,
            floating_rate: None,
            is_initialized: false,
            decimals: 0,
        }
    }

    /// The buyer that the record names, where `caller` is that buyer:
    /// `CounterpartyNotFound` where the record names none,
    /// `InvalidCounterparty` where it names another.
    pub open spec fn buyer_checked(self, caller: Address) -> Result<Address, CustomError> {
        match self.buyer {
            None => Err(CustomError::CounterpartyNotFound),
            Some(buyer) => if caller == buyer {
                Ok(buyer)
            } else {
                Err(CustomError::InvalidCounterparty)
            },
        }
    }

    /// Checks that `caller` is the buyer the record names.
    pub fn check_buyer(&self, caller: &Address) -> (r: Result<Address, CustomError>)
        ensures
            r == self.buyer_checked(*caller),
    {
        match self.buyer {
            None => Err(CustomError::CounterpartyNotFound),
            Some(buyer) => if *caller == buyer {
                Ok(buyer)
            } else {
                Err(CustomError::InvalidCounterparty)
            },
        }
    }
}

} // verus!
