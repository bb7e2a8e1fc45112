//! The persisted escrow record.
//!
//! One record exists per open escrow. Its references and amounts are fixed
//! at creation; only the lifecycle tag moves, and only the state machine
//! moves it, always in the same atomic unit as the matching persistence or
//! deletion.

use crate::addr::{clone_address, Address};
use vstd::prelude::*;

verus! {

/// The lifecycle state of an escrow. `Cancelled` and `Settled` are
/// terminal; no transition re-enters `Open`.
#[derive(Clone, Copy, Debug, PartialEq, Eq, Structural)]
pub enum EscrowState {
    /// Funds are in the vault, awaiting settlement or cancellation.
    Open,
    /// The depositor reclaimed the funds.
    Cancelled,
    /// The two-sided exchange went through.
    Settled,
}

/// One escrow's persisted record.
#[derive(Debug)]
pub struct EscrowRecord {
    /// The party who opened the escrow.
    pub initializer_key: Address,
    /// The initializer's source-of-funds account.
    pub initializer_deposit_account: Address,
    /// Where the initializer expects the counterparty's funds on settlement.
    pub initializer_receive_account: Address,
    /// The quantity deposited into the vault; positive.
    pub initializer_amount: u64,
    /// The quantity the counterparty must supply to settle; positive.
    pub taker_amount: u64,
    /// The lifecycle tag.
    pub state: EscrowState,
}

/// Whether `rec` is the `Open` record that an `initialize` call with these
/// arguments persists.
pub open spec fn fresh_record(
    rec: EscrowRecord,
    initializer: Seq<u8>,
    deposit: Seq<u8>,
    receive: Seq<u8>,
    initializer_amount: u64,
    taker_amount: u64,
) -> bool {
    &&& rec.initializer_key@ == initializer
    &&& rec.initializer_deposit_account@ == deposit
    &&& rec.initializer_receive_account@ == receive
    &&& rec.initializer_amount == initializer_amount
    &&& rec.taker_amount == taker_amount
    &&& rec.state == EscrowState::Open
}

impl EscrowRecord {
    /// A copy of the record, field for field.
    pub fn duplicate(&self) -> (r: EscrowRecord)
        ensures
            r.initializer_key@ == self.initializer_key@,
            r.initializer_deposit_account@ == self.initializer_deposit_account@,
            r.initializer_receive_account@ == self.initializer_receive_account@,
            r.initializer_amount == self.initializer_amount,
            r.taker_amount == self.taker_amount,
            r.state == self.state,
    {
        EscrowRecord {
            initializer_key: clone_address(&self.initializer_key),
            initializer_deposit_account: clone_address(&self.initializer_deposit_account),
            initializer_receive_account: clone_address(&self.initializer_receive_account),
            initializer_amount: self.initializer_amount,
            taker_amount: self.taker_amount,
            state: self.state,
        }
    }
}

} // verus!
