//! The vault custody manager.
//!
//! Every movement of funds into or out of a vault goes through these two
//! operations, and the state machine drives both: custody is taken exactly
//! once, at `initialize`, and released exactly once, at the terminal
//! transition of `cancel` or `exchange`.

use crate::addr::Address;
use crate::errors::LedgerError;
use crate::ledger::{transfer_effect, transfer_error, Ledger};
use vstd::prelude::*;

verus! {

/// Takes custody for an opening escrow: hands the fresh vault to the
/// derived vault authority, then moves `amount` into it from `from`.
/// Atomic: the funding is validated before the first ledger mutation, so
/// on failure nothing has changed.
pub fn take_custody(
    ledger: &mut Ledger,
    vault: &Address,
    from: &Address,
    amount: u64,
    vault_authority: Address,
) -> (r: Result<(), LedgerError>)
    requires
        old(ledger).inv(),
        old(ledger)@.dom().contains(vault@),
        old(ledger)@[vault@].balance == 0,
        vault@ != from@,
    ensures
        final(ledger).inv(),
        match r {
            Ok(()) => {
                &&& transfer_error(old(ledger)@, from@, vault@, amount) is None
                &&& final(ledger)@.dom() == old(ledger)@.dom()
                &&& final(ledger)@[vault@].balance == amount
                &&& final(ledger)@[vault@].authority@ == vault_authority@
                &&& final(ledger)@[from@].balance == old(ledger)@[from@].balance - amount
                &&& final(ledger)@[from@].authority@ == old(ledger)@[from@].authority@
                &&& forall|k: Seq<u8>|
                    old(ledger)@.dom().contains(k) && k != vault@ && k != from@
                        ==> final(ledger)@[k] == old(ledger)@[k]
            },
            Err(e) => transfer_error(old(ledger)@, from@, vault@, amount) == Some(e)
                && final(ledger)@ == old(ledger)@,
        },
{
    let ghost l0 = ledger@;
    match ledger.balance_of(from) {
        Some(b) => {
            if b < amount {
                return Err(LedgerError::InsufficientBalance);
            }
        },
        None => {
            return Err(LedgerError::UnknownAccount);
        },
    }
    let sa = ledger.set_authority(vault, vault_authority);
    match sa {
        Ok(()) => {},
        Err(_) => {
            proof {
                assert(false);
            }
            return Err(LedgerError::UnknownAccount);
        },
    }
    let ghost l1 = ledger@;
    let tr = ledger.transfer(from, vault, amount);
    match tr {
        Ok(()) => {},
        Err(_) => {
            proof {
                assert(l1[from@] == l0[from@]);
                assert(transfer_error(l1, from@, vault@, amount) is None);
                assert(false);
            }
            return Err(LedgerError::UnknownAccount);
        },
    }
    proof {
        assert(l1[from@] == l0[from@]);
        assert forall|k: Seq<u8>|
            l0.dom().contains(k) && k != vault@ && k != from@ implies ledger@[k] == l0[k] by {
            assert(l1[k] == l0[k]);
        }
    }
    Ok(())
}

/// Releases custody at a terminal transition: moves `amount` out of the
/// vault to `to`. Atomic: on failure the ledger is unchanged.
pub fn release_custody(ledger: &mut Ledger, vault: &Address, to: &Address, amount: u64) -> (r:
    Result<(), LedgerError>)
    requires
        old(ledger).inv(),
    ensures
        final(ledger).inv(),
        match r {
            Ok(()) => transfer_error(old(ledger)@, vault@, to@, amount) is None && transfer_effect(
                old(ledger)@,
                final(ledger)@,
                vault@,
                to@,
                amount,
            ),
            Err(e) => transfer_error(old(ledger)@, vault@, to@, amount) == Some(e)
                && final(ledger)@ == old(ledger)@,
        },
{
    ledger.transfer(vault, to, amount)
}

} // verus!
