//! The calls an operation hands to the asset ledger, and a model of what the
//! ledger does with them.
//!
//! The ledger itself is not part of this crate. An operation returns the calls
//! it wants executed; whoever drives the operation executes them in order and
//! aborts the whole operation if one of them fails.

use vstd::prelude::*;
use crate::address::Address;
use crate::authority::VaultAuthority;

verus! {

/// Who approves a call.
#[derive(Clone, Copy, Debug)]
pub enum Authorization {
    /// The principal's own approval.
    Principal(Address),
    /// A derived authority: the vault signs with its seeds.
    Derived(VaultAuthority),
}

/// One call to the asset ledger. Amounts are in the asset's smallest unit.
#[derive(Clone, Copy, Debug)]
pub enum LedgerCall {
    /// Moves native value from one account to another.
    SystemTransfer { from: Address, to: Address, authority: Authorization, amount: u64 },
    /// Moves tokens from one token account to another.
    Transfer { from: Address, to: Address, authority: Authorization, amount: u64 },
    /// Moves tokens and has the ledger check the mint and its decimals.
    TransferChecked {
        from: Address,
        mint: Address,
        to: Address,
        authority: Authorization,
        amount: u64,
        decimals: u8,
    },
    /// Creates tokens of `mint` in the token account `to`.
    MintTo { mint: Address, to: Address, authority: Authorization, amount: u64 },
    /// Destroys tokens of `mint` held in the token account `from`.
    Burn { mint: Address, from: Address, authority: Authorization, amount: u64 },
}

/// The balance of every account the ledger keeps. An account the map does not
/// hold has a balance of zero.
pub type Balances = Map<Address, nat>;

/// The balance of `account`.
pub open spec fn balance(balances: Balances, account: Address) -> nat {
    if balances.dom().contains(account) {
        balances[account]
    } else {
        0
    }
}

/// Takes `amount` out of `from`, or fails where `from` holds less.
pub open spec fn debit(balances: Balances, from: Address, amount: nat) -> Option<Balances> {
    if balance(balances, from) < amount {
        None
    } else {
        Some(balances.insert(from, (balance(balances, from) - amount) as nat))
    }
}

/// Puts `amount` into `to`.
pub open spec fn credit(balances: Balances, to: Address, amount: nat) -> Balances {
    balances.insert(to, balance(balances, to) + amount)
}

/// The balances after the ledger has executed `call`, or `None` where the
/// source holds less than the amount. This models balances only: every
/// authorization is taken to be valid.
pub open spec fn apply(balances: Balances, call: LedgerCall) -> Option<Balances> {
    match call {
        LedgerCall::SystemTransfer { from, to, amount, .. }
        | LedgerCall::Transfer { from, to, amount, .. }
        | LedgerCall::TransferChecked { from, to, amount, .. } => match debit(
            balances,
            from,
            amount as nat,
        ) {
            None => None,
            Some(taken) => Some(credit(taken, to, amount as nat)),
        },
        LedgerCall::MintTo { to, amount, .. } => Some(credit(balances, to, amount as nat)),
        LedgerCall::Burn { from, amount, .. } => debit(balances, from, amount as nat),
    }
}

/// The balances after the ledger has executed `calls` in order, or `None`
/// where one of them fails.
pub open spec fn apply_all(balances: Balances, calls: Seq<LedgerCall>) -> Option<Balances>
    decreases calls.len(),
{
    if calls.len() == 0 {
        Some(balances)
    } else {
        match apply(balances, calls[0]) {
            None => None,
            Some(next) => apply_all(next, calls.drop_first()),
        }
    }
}

} // verus!
