//! The records of the derivatives contract.

pub mod derivative_contract;
