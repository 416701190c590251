//! The failures of the minter.

use vstd::prelude::*;

verus! {

/// Why a request to the compression service was refused before it was made.
#[derive(Clone, Copy, Debug, PartialEq, Eq, Structural)]
pub enum CustomError {
    /// The name is empty or longer than twenty bytes.
    InvalidNameLength,
    /// The symbol is empty or longer than ten bytes.
    InvalidSymbolLength,
    /// The address of the description is empty or longer than two hundred
    /// bytes.
    InvalidUriLength,
    /// The depth of the tree is zero.
    InvalidMaxDepth,
    /// The size of the tree's buffer is zero.
    InvalidMaxBufferSize,
}

impl CustomError {
    /// The text shown for this failure.
    pub open spec fn text(self) -> Seq<char> {
        match self {
            CustomError::InvalidNameLength => "Invalid name length"@,
            CustomError::InvalidSymbolLength => "Invalid symbol length"@,
            CustomError::InvalidUriLength => "Invalid uri length"@,
            CustomError::InvalidMaxDepth => "Max depth has invalid value."@,
            CustomError::InvalidMaxBufferSize => "Max buffer size has invalid value."@,
        }
    }

    /// Renders the failure as text.
    pub fn message(&self) -> (r: &'static str)
        ensures
            r@ == self.text(),
    {
        match self {
            CustomError::InvalidNameLength => "Invalid name length",
            CustomError::InvalidSymbolLength => "Invalid symbol length",
            CustomError::InvalidUriLength => "Invalid uri length",
            CustomError::InvalidMaxDepth => "Max depth has invalid value.",
            CustomError::InvalidMaxBufferSize => "Max buffer size has invalid value.",
        }
    }
}

} // verus!
