//! The failures an operation can report.

use vstd::prelude::*;

verus! {

/// Why an operation was refused. Every failure is terminal for the operation
/// and leaves the records it addressed unchanged.
#[derive(Clone, Copy, Debug, PartialEq, Eq, Structural)]
pub enum CustomError {
    /// An amount was zero.
    InvalidAmount,
    /// A checked addition, subtraction or multiplication left its range.
    ArithmeticOverflow,
    /// The record has not been initialized.
    AccountNotInitialized,
    /// The record has already been initialized, or the participant is
    /// already registered.
    AccountAlreadyInitialized,
    /// A stored bump does not match the one the derivation yields.
    AuthorityMismatch,
    /// The liquidity provider is not active.
    InvalidProviderStatus,
    /// The trader is not active.
    InvalidTraderStatus,
    /// The settlement record names no counterparty.
    CounterpartyNotFound,
    /// The caller is not the counterparty the settlement record names.
    InvalidCounterparty,
    /// The pool's list of liquidity providers is full.
    ProviderCapacityExceeded,
}

impl CustomError {
    /// The text shown for this failure.
    pub open spec fn text(self) -> Seq<char> {
        match self {
            CustomError::InvalidAmount => "Invalid amount."@,
            CustomError::ArithmeticOverflow => "Arithmetic operation failed."@,
            CustomError::AccountNotInitialized => "Account is not initialized."@,
            CustomError::AccountAlreadyInitialized => "Account is already initialized."@,
            CustomError::AuthorityMismatch => "Derived authority does not match."@,
            CustomError::InvalidProviderStatus => "Liquidity provider has no active status."@,
            CustomError::InvalidTraderStatus => "Trader has no active status."@,
            CustomError::CounterpartyNotFound => "Buyer not found"@,
            CustomError::InvalidCounterparty => "Invalid buyer"@,
            CustomError::ProviderCapacityExceeded => "Liquidity provider list is full."@,
        }
    }

    /// Renders the failure as text.
    pub fn message(&self) -> (r: &'static str)
        ensures
            r@ == self.text(),
    {
        match self {
            CustomError::InvalidAmount => "Invalid amount.",
            CustomError::ArithmeticOverflow => "Arithmetic operation failed.",
            CustomError::AccountNotInitialized => "Account is not initialized.",
            CustomError::AccountAlreadyInitialized => "Account is already initialized.",
            CustomError::AuthorityMismatch => "Derived authority does not match.",
            CustomError::InvalidProviderStatus => "Liquidity provider has no active status.",
            CustomError::InvalidTraderStatus => "Trader has no active status.",
            CustomError::CounterpartyNotFound => "Buyer not found",
            CustomError::InvalidCounterparty => "Invalid buyer",
            CustomError::ProviderCapacityExceeded => "Liquidity provider list is full.",
        }
    }
}

} // verus!
