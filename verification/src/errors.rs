//! The error taxonomy.
//!
//! [`LedgerError`] is reported by the token ledger itself; the escrow state
//! machine never lets one escape raw: a ledger failure inside a transition
//! surfaces as [`EscrowError::CustodyTransferFailed`], and the transition
//! leaves no partial state behind.

use vstd::prelude::*;

verus! {

/// A failure reported by the token ledger.
#[derive(Clone, Copy, Debug, PartialEq, Eq, Structural)]
pub enum LedgerError {
    /// The named account does not exist on the ledger.
    UnknownAccount,
    /// An account already exists under the address being opened.
    AccountExists,
    /// The source account holds less than the requested amount.
    InsufficientBalance,
    /// The destination balance would exceed the ledger's 64-bit range.
    BalanceOverflow,
}

/// A failure of an escrow operation. Every entry point returns a typed
/// result; the first failing precondition aborts the whole operation with
/// no side effects.
#[derive(Clone, Copy, Debug, PartialEq, Eq, Structural)]
pub enum EscrowError {
    /// A zero amount, or a depositor balance below the amount demanded.
    InsufficientFunds,
    /// The storage slot for the new escrow record is already occupied.
    RecordAlreadyExists,
    /// No escrow record exists under the given identifier.
    RecordNotFound,
    /// The record is not in the `Open` state.
    InvalidState,
    /// The caller is not the party the operation is reserved to.
    Unauthorized,
    /// The ledger could not carry out the custody movement; no sub-step
    /// of the transition was applied.
    CustodyTransferFailed,
}

} // verus!
