//! Laws of the escrow state machine.
//!
//! Each proof function states a property that holds across calls of the
//! machine, over the same spec functions its contracts use. The per-call
//! properties — the exact balance movements of a successful transition and
//! the absence of any change on a failed one — are the `ensures` of
//! `initialize`, `cancel` and `exchange` themselves.

use crate::authority::{derived_authority, escrow_seed};
use crate::errors::EscrowError;
use crate::ledger::{transfer_effect, Account};
use crate::machine::{
    cancel_error, exchange_error, exchange_ledger_effect, initialize_error,
    initialize_ledger_effect,
};
use crate::record::{fresh_record, EscrowRecord, EscrowState};
use vstd::prelude::*;

verus! {

/// Custody integrity: every stored record is `Open`, and its vault — the
/// ledger account under the record's identifier — holds exactly the
/// record's deposited amount, under the authority derived for the program.
pub open spec fn custody_ok(
    l: Map<Seq<u8>, Account>,
    s: Map<Seq<u8>, EscrowRecord>,
    pid: Seq<u8>,
) -> bool {
    forall|id: Seq<u8>| #[trigger] s.dom().contains(id) ==> {
        &&& s[id].state == EscrowState::Open
        &&& l.dom().contains(id)
        &&& l[id].balance == s[id].initializer_amount
        &&& Some(l[id].authority@) == derived_authority(escrow_seed(), pid)
    }
}

/// A zero deposit amount, a zero taker amount, or a depositor balance
/// below the deposit always makes `initialize` fail: its error spec is
/// never `None`, so by `initialize`'s contract the call returns an error
/// and leaves the ledger and the store exactly as they were.
pub proof fn lemma_initialize_rejects_unfunded(
    l: Map<Seq<u8>, Account>,
    s: Map<Seq<u8>, EscrowRecord>,
    vault: Seq<u8>,
    initializer: Seq<u8>,
    deposit: Seq<u8>,
    initializer_amount: u64,
    taker_amount: u64,
    pid: Seq<u8>,
)
    requires
        initializer_amount == 0 || taker_amount == 0 || (l.dom().contains(deposit)
            && l[deposit].balance < initializer_amount),
    ensures
        initialize_error(
            l,
            s,
            vault,
            initializer,
            deposit,
            initializer_amount,
            taker_amount,
            pid,
        ) is Some,
{
}

/// Cancelling by anyone but the initializer fails with `Unauthorized`, so
/// by `cancel`'s contract the ledger and the store are left unchanged.
pub proof fn lemma_cancel_unauthorized(
    l: Map<Seq<u8>, Account>,
    s: Map<Seq<u8>, EscrowRecord>,
    id: Seq<u8>,
    caller: Seq<u8>,
)
    requires
        s.dom().contains(id),
        s[id].state == EscrowState::Open,
        caller != s[id].initializer_key@,
    ensures
        cancel_error(l, s, id, caller) == Some(EscrowError::Unauthorized),
{
}

/// A successful `initialize` followed by a successful `cancel` of the same
/// escrow restores the depositor's balance to its pre-escrow value, leaves
/// the vault empty, removes the record, and touches no other account and
/// no other record.
pub proof fn lemma_cancel_restores_deposit(
    l0: Map<Seq<u8>, Account>,
    l1: Map<Seq<u8>, Account>,
    l2: Map<Seq<u8>, Account>,
    s0: Map<Seq<u8>, EscrowRecord>,
    s1: Map<Seq<u8>, EscrowRecord>,
    s2: Map<Seq<u8>, EscrowRecord>,
    vault: Seq<u8>,
    initializer: Seq<u8>,
    deposit: Seq<u8>,
    receive: Seq<u8>,
    initializer_amount: u64,
    taker_amount: u64,
    pid: Seq<u8>,
    caller: Seq<u8>,
)
    requires
        initialize_error(
            l0,
            s0,
            vault,
            initializer,
            deposit,
            initializer_amount,
            taker_amount,
            pid,
        ) is None,
        initialize_ledger_effect(l0, l1, vault, deposit, initializer_amount, pid),
        s1.dom() == s0.dom().insert(vault),
        fresh_record(s1[vault], initializer, deposit, receive, initializer_amount, taker_amount),
        forall|k: Seq<u8>| s0.dom().contains(k) ==> s1[k] == s0[k],
        cancel_error(l1, s1, vault, caller) is None,
        transfer_effect(
            l1,
            l2,
            vault,
            s1[vault].initializer_deposit_account@,
            s1[vault].initializer_amount,
        ),
        s2 == s1.remove(vault),
    ensures
        l2[deposit].balance == l0[deposit].balance,
        l2[vault].balance == 0,
        !s2.dom().contains(vault),
        s2.dom() == s0.dom(),
        forall|k: Seq<u8>| l0.dom().contains(k) && k != vault && k != deposit ==> l2[k] == l0[k],
{
    assert(vault != deposit);
    assert(l2[deposit].balance == l0[deposit].balance) by {
        assert(l1[deposit].balance == l0[deposit].balance - initializer_amount);
        assert(l2[deposit].balance == l1[deposit].balance + initializer_amount);
    }
    assert(l2[vault].balance == 0) by {
        assert(l1[vault].balance == initializer_amount);
        assert(l2[vault].balance == l1[vault].balance - initializer_amount);
    }
    assert(s2.dom() =~= s0.dom()) by {
        assert(!s0.dom().contains(vault));
    }
    assert forall|k: Seq<u8>|
        l0.dom().contains(k) && k != vault && k != deposit implies l2[k] == l0[k] by {
        assert(l1[k] == l0[k]);
        assert(l1.dom().contains(k));
        assert(l2[k] == l1[k]);
    }
}

/// A successful `initialize` establishes custody integrity and preserves
/// it for every other escrow, provided the deposit account is not itself
/// some escrow's vault (vaults are program-controlled custody accounts,
/// never a party's token account).
pub proof fn lemma_initialize_keeps_custody(
    l0: Map<Seq<u8>, Account>,
    l1: Map<Seq<u8>, Account>,
    s0: Map<Seq<u8>, EscrowRecord>,
    s1: Map<Seq<u8>, EscrowRecord>,
    vault: Seq<u8>,
    initializer: Seq<u8>,
    deposit: Seq<u8>,
    receive: Seq<u8>,
    initializer_amount: u64,
    taker_amount: u64,
    pid: Seq<u8>,
)
    requires
        custody_ok(l0, s0, pid),
        !s0.dom().contains(deposit),
        initialize_error(
            l0,
            s0,
            vault,
            initializer,
            deposit,
            initializer_amount,
            taker_amount,
            pid,
        ) is None,
        initialize_ledger_effect(l0, l1, vault, deposit, initializer_amount, pid),
        s1.dom() == s0.dom().insert(vault),
        fresh_record(s1[vault], initializer, deposit, receive, initializer_amount, taker_amount),
        forall|k: Seq<u8>| s0.dom().contains(k) ==> s1[k] == s0[k],
    ensures
        custody_ok(l1, s1, pid),
{
    assert forall|id: Seq<u8>| #[trigger] s1.dom().contains(id) implies {
        &&& s1[id].state == EscrowState::Open
        &&& l1.dom().contains(id)
        &&& l1[id].balance == s1[id].initializer_amount
        &&& Some(l1[id].authority@) == derived_authority(escrow_seed(), pid)
    } by {
        if id == vault {
        } else {
            assert(s0.dom().contains(id));
            assert(id != deposit);
            assert(l1[id] == l0[id]);
        }
    }
}

/// A successful `cancel` preserves custody integrity for every remaining
/// escrow, provided the refunded deposit account is not itself some
/// escrow's vault.
pub proof fn lemma_cancel_keeps_custody(
    l1: Map<Seq<u8>, Account>,
    l2: Map<Seq<u8>, Account>,
    s1: Map<Seq<u8>, EscrowRecord>,
    s2: Map<Seq<u8>, EscrowRecord>,
    id: Seq<u8>,
    caller: Seq<u8>,
    pid: Seq<u8>,
)
    requires
        custody_ok(l1, s1, pid),
        !s1.dom().contains(s1[id].initializer_deposit_account@),
        cancel_error(l1, s1, id, caller) is None,
        transfer_effect(
            l1,
            l2,
            id,
            s1[id].initializer_deposit_account@,
            s1[id].initializer_amount,
        ),
        s2 == s1.remove(id),
    ensures
        custody_ok(l2, s2, pid),
{
    let dep = s1[id].initializer_deposit_account@;
    assert forall|k: Seq<u8>| #[trigger] s2.dom().contains(k) implies {
        &&& s2[k].state == EscrowState::Open
        &&& l2.dom().contains(k)
        &&& l2[k].balance == s2[k].initializer_amount
        &&& Some(l2[k].authority@) == derived_authority(escrow_seed(), pid)
    } by {
        assert(s1.dom().contains(k));
        assert(k != id);
        assert(k != dep);
        assert(l2[k] == l1[k]);
    }
}

/// A successful `exchange` preserves custody integrity for every remaining
/// escrow, provided none of the three accounts paid or credited is itself
/// some escrow's vault.
pub proof fn lemma_exchange_keeps_custody(
    l1: Map<Seq<u8>, Account>,
    l2: Map<Seq<u8>, Account>,
    s1: Map<Seq<u8>, EscrowRecord>,
    s2: Map<Seq<u8>, EscrowRecord>,
    id: Seq<u8>,
    taker_deposit: Seq<u8>,
    taker_receive: Seq<u8>,
    pid: Seq<u8>,
)
    requires
        custody_ok(l1, s1, pid),
        !s1.dom().contains(taker_deposit),
        !s1.dom().contains(taker_receive),
        !s1.dom().contains(s1[id].initializer_receive_account@),
        exchange_error(l1, s1, id, taker_deposit, taker_receive) is None,
        exchange_ledger_effect(l1, l2, id, s1[id], taker_deposit, taker_receive),
        s2 == s1.remove(id),
    ensures
        custody_ok(l2, s2, pid),
{
    let ir = s1[id].initializer_receive_account@;
    assert forall|k: Seq<u8>| #[trigger] s2.dom().contains(k) implies {
        &&& s2[k].state == EscrowState::Open
        &&& l2.dom().contains(k)
        &&& l2[k].balance == s2[k].initializer_amount
        &&& Some(l2[k].authority@) == derived_authority(escrow_seed(), pid)
    } by {
        assert(s1.dom().contains(k));
        assert(k != id);
        assert(k != taker_deposit && k != taker_receive && k != ir);
        assert(l2[k] == l1[k]);
    }
}

/// Terminal transitions are final: once a `cancel` or an `exchange` has
/// removed a record, a second `cancel` or `exchange` under the same
/// identifier reports `RecordNotFound`, so by the two contracts it never
/// moves funds again.
pub proof fn lemma_terminal_is_final(
    l: Map<Seq<u8>, Account>,
    s1: Map<Seq<u8>, EscrowRecord>,
    s2: Map<Seq<u8>, EscrowRecord>,
    id: Seq<u8>,
    caller: Seq<u8>,
    taker_deposit: Seq<u8>,
    taker_receive: Seq<u8>,
)
    requires
        s2 == s1.remove(id),
    ensures
        cancel_error(l, s2, id, caller) == Some(EscrowError::RecordNotFound),
        exchange_error(l, s2, id, taker_deposit, taker_receive) == Some(
            EscrowError::RecordNotFound,
        ),
{
}

} // verus!
