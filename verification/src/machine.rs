//! The escrow state machine.
//!
//! The machine validates every precondition of a transition before its
//! first mutation, then drives the ledger and the record store in an order
//! whose steps can no longer fail, so each of `initialize`, `cancel` and
//! `exchange` either applies in full or reports an error with the ledger
//! and the store exactly as they were.
//!
//! A record's escrow identifier is its vault's address: the two are bound
//! one-to-one and live exactly as long as the escrow is open.

use crate::addr::{addr_eq, clone_address, Address};
use crate::authority::{derive_authority, derived_authority, escrow_seed, escrow_seed_bytes};
use crate::errors::EscrowError;
use crate::ledger::{transfer_effect, transfer_error, Account, Ledger};
use crate::record::{fresh_record, EscrowRecord, EscrowState};
use crate::store::RecordStore;
use crate::vault::{release_custody, take_custody};
use vstd::prelude::*;

verus! {

/// Whether the ledger lets `initialize` take custody: the vault exists,
/// is fresh (zero balance) and controlled by the initializer, is distinct
/// from the deposit account, and a vault authority can be derived for the
/// program.
pub open spec fn init_ledger_ok(
    l: Map<Seq<u8>, Account>,
    vault: Seq<u8>,
    initializer: Seq<u8>,
    deposit: Seq<u8>,
    pid: Seq<u8>,
) -> bool {
    &&& l.dom().contains(vault)
    &&& l[vault].balance == 0
    &&& l[vault].authority@ == initializer
    &&& vault != deposit
    &&& derived_authority(escrow_seed(), pid) is Some
}

/// The error `initialize` reports, if any: the first failing precondition,
/// in checking order.
pub open spec fn initialize_error(
    l: Map<Seq<u8>, Account>,
    s: Map<Seq<u8>, EscrowRecord>,
    vault: Seq<u8>,
    initializer: Seq<u8>,
    deposit: Seq<u8>,
    initializer_amount: u64,
    taker_amount: u64,
    pid: Seq<u8>,
) -> Option<EscrowError> {
    if initializer_amount == 0 || taker_amount == 0 {
        Some(EscrowError::InsufficientFunds)
    } else if !l.dom().contains(deposit) {
        Some(EscrowError::CustodyTransferFailed)
    } else if l[deposit].balance < initializer_amount {
        Some(EscrowError::InsufficientFunds)
    } else if s.dom().contains(vault) {
        Some(EscrowError::RecordAlreadyExists)
    } else if !init_ledger_ok(l, vault, initializer, deposit, pid) {
        Some(EscrowError::CustodyTransferFailed)
    } else {
        None
    }
}

/// How a successful `initialize` changes the ledger: the vault holds the
/// deposited amount under the derived authority, the deposit account paid
/// it, and every other account is untouched.
pub open spec fn initialize_ledger_effect(
    l0: Map<Seq<u8>, Account>,
    l1: Map<Seq<u8>, Account>,
    vault: Seq<u8>,
    deposit: Seq<u8>,
    initializer_amount: u64,
    pid: Seq<u8>,
) -> bool {
    &&& l1.dom() == l0.dom()
    &&& l1[vault].balance == initializer_amount
    &&& Some(l1[vault].authority@) == derived_authority(escrow_seed(), pid)
    &&& l1[deposit].balance == l0[deposit].balance - initializer_amount
    &&& l1[deposit].authority@ == l0[deposit].authority@
    &&& forall|k: Seq<u8>| l0.dom().contains(k) && k != vault && k != deposit ==> l1[k] == l0[k]
}

/// Whether the ledger lets `cancel` refund the deposit: the vault covers
/// the deposited amount, the refund does not overflow the deposit account,
/// and the two accounts are distinct.
pub open spec fn cancel_ledger_ok(l: Map<Seq<u8>, Account>, id: Seq<u8>, rec: EscrowRecord) -> bool {
    &&& transfer_error(l, id, rec.initializer_deposit_account@, rec.initializer_amount) is None
    &&& id != rec.initializer_deposit_account@
}

/// The error `cancel` reports, if any: the first failing precondition, in
/// checking order.
pub open spec fn cancel_error(
    l: Map<Seq<u8>, Account>,
    s: Map<Seq<u8>, EscrowRecord>,
    id: Seq<u8>,
    caller: Seq<u8>,
) -> Option<EscrowError> {
    if !s.dom().contains(id) {
        Some(EscrowError::RecordNotFound)
    } else if s[id].state != EscrowState::Open {
        Some(EscrowError::InvalidState)
    } else if caller != s[id].initializer_key@ {
        Some(EscrowError::Unauthorized)
    } else if !cancel_ledger_ok(l, id, s[id]) {
        Some(EscrowError::CustodyTransferFailed)
    } else {
        None
    }
}

/// Whether the ledger lets `exchange` settle: the four accounts involved
/// exist and are pairwise distinct, the vault holds exactly the deposited
/// amount, and neither credit overflows.
pub open spec fn exchange_ledger_ok(
    l: Map<Seq<u8>, Account>,
    id: Seq<u8>,
    rec: EscrowRecord,
    taker_deposit: Seq<u8>,
    taker_receive: Seq<u8>,
) -> bool {
    let ir = rec.initializer_receive_account@;
    &&& l.dom().contains(ir)
    &&& l.dom().contains(taker_receive)
    &&& l.dom().contains(id)
    &&& taker_deposit != ir
    &&& taker_deposit != taker_receive
    &&& taker_deposit != id
    &&& ir != taker_receive
    &&& ir != id
    &&& taker_receive != id
    &&& l[id].balance == rec.initializer_amount
    &&& l[ir].balance + rec.taker_amount <= u64::MAX
    &&& l[taker_receive].balance + rec.initializer_amount <= u64::MAX
}

/// The error `exchange` reports, if any: the first failing precondition,
/// in checking order.
pub open spec fn exchange_error(
    l: Map<Seq<u8>, Account>,
    s: Map<Seq<u8>, EscrowRecord>,
    id: Seq<u8>,
    taker_deposit: Seq<u8>,
    taker_receive: Seq<u8>,
) -> Option<EscrowError> {
    if !s.dom().contains(id) {
        Some(EscrowError::RecordNotFound)
    } else if s[id].state != EscrowState::Open {
        Some(EscrowError::InvalidState)
    } else if !l.dom().contains(taker_deposit) {
        Some(EscrowError::CustodyTransferFailed)
    } else if l[taker_deposit].balance < s[id].taker_amount {
        Some(EscrowError::InsufficientFunds)
    } else if !exchange_ledger_ok(l, id, s[id], taker_deposit, taker_receive) {
        Some(EscrowError::CustodyTransferFailed)
    } else {
        None
    }
}

/// How a successful `exchange` changes the ledger: the taker's deposit
/// paid the taker amount to the initializer's receive account, the vault
/// emptied into the taker's receive account, every authority held, and
/// every other account is untouched.
pub open spec fn exchange_ledger_effect(
    l0: Map<Seq<u8>, Account>,
    l1: Map<Seq<u8>, Account>,
    id: Seq<u8>,
    rec: EscrowRecord,
    taker_deposit: Seq<u8>,
    taker_receive: Seq<u8>,
) -> bool {
    let ir = rec.initializer_receive_account@;
    &&& l1.dom() == l0.dom()
    &&& l1[taker_deposit].balance == l0[taker_deposit].balance - rec.taker_amount
    &&& l1[ir].balance == l0[ir].balance + rec.taker_amount
    &&& l1[id].balance == 0
    &&& l1[taker_receive].balance == l0[taker_receive].balance + rec.initializer_amount
    &&& l1[taker_deposit].authority@ == l0[taker_deposit].authority@
    &&& l1[ir].authority@ == l0[ir].authority@
    &&& l1[id].authority@ == l0[id].authority@
    &&& l1[taker_receive].authority@ == l0[taker_receive].authority@
    &&& forall|k: Seq<u8>|
        l0.dom().contains(k) && k != taker_deposit && k != ir && k != id && k != taker_receive
            ==> l1[k] == l0[k]
}

/// The escrow state machine: the record store it owns, and the program
/// identity under which vault authorities are derived. The ledger is the
/// external substrate and is handed to each transition.
pub struct EscrowMachine {
    store: RecordStore,
    program_id: Address,
}

impl EscrowMachine {
    /// The store is well formed and the program identity is a 32-byte key.
    pub closed spec fn inv(self) -> bool {
        &&& self.store.inv()
        &&& self.program_id@.len() == 32
    }

    /// The program identity.
    pub closed spec fn pid(self) -> Seq<u8> {
        self.program_id@
    }

    /// A machine for the program identified by the 32-byte `program_id`,
    /// with an empty record store.
    pub fn new(program_id: Address) -> (r: Self)
        requires
            program_id@.len() == 32,
        ensures
            r.inv(),
            r.pid() == program_id@,
            r@ == Map::<Seq<u8>, EscrowRecord>::empty(),
    {
        EscrowMachine { store: RecordStore::new(), program_id }
    }

    /// Whether a record is stored under the escrow identifier `id`.
    pub fn has_record(&self, id: &Address) -> (r: bool)
        ensures
            r == self@.dom().contains(id@),
    {
        self.store.contains(id)
    }

    /// The record stored under the escrow identifier `id`, if any.
    pub fn get_record(&self, id: &Address) -> (r: Option<&EscrowRecord>)
        requires
            self.inv(),
        ensures
            match r {
                Some(rec) => self@.dom().contains(id@) && *rec == self@[id@],
                None => !self@.dom().contains(id@),
            },
    {
        self.store.get(id)
    }

    /// Opens an escrow: derives the vault authority, hands the vault to
    /// it, moves `initializer_amount` from the deposit account into the
    /// vault, and persists the `Open` record under the vault's address.
    /// Atomic: on any error the ledger and the store are unchanged.
    pub fn initialize(
        &mut self,
        ledger: &mut Ledger,
        vault: &Address,
        initializer: &Address,
        deposit_account: &Address,
        receive_account: &Address,
        initializer_amount: u64,
        taker_amount: u64,
    ) -> (r: Result<EscrowRecord, EscrowError>)
        requires
            old(self).inv(),
            old(ledger).inv(),
        ensures
            final(self).inv(),
            final(ledger).inv(),
            final(self).pid() == old(self).pid(),
            match r {
                Ok(rec) => {
                    &&& initialize_error(
                        old(ledger)@,
                        old(self)@,
                        vault@,
                        initializer@,
                        deposit_account@,
                        initializer_amount,
                        taker_amount,
                        old(self).pid(),
                    ) is None
                    &&& fresh_record(
                        rec,
                        initializer@,
                        deposit_account@,
                        receive_account@,
                        initializer_amount,
                        taker_amount,
                    )
                    &&& initialize_ledger_effect(
                        old(ledger)@,
                        final(ledger)@,
                        vault@,
                        deposit_account@,
                        initializer_amount,
                        old(self).pid(),
                    )
                    &&& final(self)@.dom() == old(self)@.dom().insert(vault@)
                    &&& fresh_record(
                        final(self)@[vault@],
                        initializer@,
                        deposit_account@,
                        receive_account@,
                        initializer_amount,
                        taker_amount,
                    )
                    &&& forall|k: Seq<u8>|
                        old(self)@.dom().contains(k) ==> final(self)@[k] == old(self)@[k]
                },
                Err(e) => {
                    &&& initialize_error(
                        old(ledger)@,
                        old(self)@,
                        vault@,
                        initializer@,
                        deposit_account@,
                        initializer_amount,
                        taker_amount,
                        old(self).pid(),
                    ) == Some(e)
                    &&& final(ledger)@ == old(ledger)@
                    &&& final(self)@ == old(self)@
                },
            },
    {
        let ghost l0 = ledger@;
        let ghost s0 = self.store@;
        if initializer_amount == 0 || taker_amount == 0 {
            return Err(EscrowError::InsufficientFunds);
        }
        let dep_bal = match ledger.balance_of(deposit_account) {
            Some(b) => b,
            None => {
                return Err(EscrowError::CustodyTransferFailed);
            },
        };
        if dep_bal < initializer_amount {
            return Err(EscrowError::InsufficientFunds);
        }
        if self.store.contains(vault) {
            return Err(EscrowError::RecordAlreadyExists);
        }
        let vault_fresh = match ledger.balance_of(vault) {
            Some(b) => b == 0,
            None => false,
        };
        if !vault_fresh {
            return Err(EscrowError::CustodyTransferFailed);
        }
        let vault_owned = match ledger.authority_of(vault) {
            Some(a) => addr_eq(a, initializer),
            None => false,
        };
        if !vault_owned {
            return Err(EscrowError::CustodyTransferFailed);
        }
        if addr_eq(vault, deposit_account) {
            return Err(EscrowError::CustodyTransferFailed);
        }
        let seed = escrow_seed_bytes();
        let vault_authority = match derive_authority(&seed, &self.program_id) {
            Some(a) => a,
            None => {
                return Err(EscrowError::CustodyTransferFailed);
            },
        };
        let ghost va = vault_authority@;
        let tc = take_custody(ledger, vault, deposit_account, initializer_amount, vault_authority);
        match tc {
            Ok(()) => {},
            Err(_) => {
                proof {
                    assert(transfer_error(l0, deposit_account@, vault@, initializer_amount)
                        is None);
                    assert(false);
                }
                return Err(EscrowError::CustodyTransferFailed);
            },
        }
        let rec = EscrowRecord {
            initializer_key: clone_address(initializer),
            initializer_deposit_account: clone_address(deposit_account),
            initializer_receive_account: clone_address(receive_account),
            initializer_amount,
            taker_amount,
            state: EscrowState::Open,
        };
        let pr = self.store.put(clone_address(vault), rec.duplicate());
        match pr {
            Ok(()) => {},
            Err(_) => {
                proof {
                    assert(false);
                }
                return Err(EscrowError::RecordAlreadyExists);
            },
        }
        proof {
            assert(initialize_ledger_effect(
                l0,
                ledger@,
                vault@,
                deposit_account@,
                initializer_amount,
                self.pid(),
            ));
            assert(self.store@.dom() == s0.insert(vault@, self.store@[vault@]).dom());
        }
        Ok(rec)
    }

    /// Cancels an open escrow: the initializer reclaims the deposited
    /// amount from the vault and the record is removed. Atomic: on any
    /// error the ledger and the store are unchanged.
    pub fn cancel(&mut self, ledger: &mut Ledger, id: &Address, caller: &Address) -> (r: Result<
        (),
        EscrowError,
    >)
        requires
            old(self).inv(),
            old(ledger).inv(),
        ensures
            final(self).inv(),
            final(ledger).inv(),
            final(self).pid() == old(self).pid(),
            match r {
                Ok(()) => {
                    &&& cancel_error(old(ledger)@, old(self)@, id@, caller@) is None
                    &&& transfer_effect(
                        old(ledger)@,
                        final(ledger)@,
                        id@,
                        old(self)@[id@].initializer_deposit_account@,
                        old(self)@[id@].initializer_amount,
                    )
                    &&& final(self)@ == old(self)@.remove(id@)
                },
                Err(e) => {
                    &&& cancel_error(old(ledger)@, old(self)@, id@, caller@) == Some(e)
                    &&& final(ledger)@ == old(ledger)@
                    &&& final(self)@ == old(self)@
                },
            },
    {
        let ghost l0 = ledger@;
        let ghost s0 = self.store@;
        let (dep, amount) = match self.store.get(id) {
            Some(rec) => {
                match rec.state {
                    EscrowState::Open => {},
                    _ => {
                        return Err(EscrowError::InvalidState);
                    },
                }
                if !addr_eq(caller, &rec.initializer_key) {
                    return Err(EscrowError::Unauthorized);
                }
                (clone_address(&rec.initializer_deposit_account), rec.initializer_amount)
            },
            None => {
                return Err(EscrowError::RecordNotFound);
            },
        };
        if addr_eq(id, &dep) {
            return Err(EscrowError::CustodyTransferFailed);
        }
        let vault_bal = match ledger.balance_of(id) {
            Some(b) => b,
            None => {
                return Err(EscrowError::CustodyTransferFailed);
            },
        };
        if vault_bal < amount {
            return Err(EscrowError::CustodyTransferFailed);
        }
        let dep_bal = match ledger.balance_of(&dep) {
            Some(b) => b,
            None => {
                return Err(EscrowError::CustodyTransferFailed);
            },
        };
        if amount > u64::MAX - dep_bal {
            return Err(EscrowError::CustodyTransferFailed);
        }
        let rc = release_custody(ledger, id, &dep, amount);
        match rc {
            Ok(()) => {},
            Err(_) => {
                proof {
                    assert(transfer_error(l0, id@, dep@, amount) is None);
                    assert(false);
                }
                return Err(EscrowError::CustodyTransferFailed);
            },
        }
        let dr = self.store.delete(id);
        match dr {
            Ok(_) => {},
            Err(_) => {
                proof {
                    assert(false);
                }
                return Err(EscrowError::RecordNotFound);
            },
        }
        Ok(())
    }

    /// Settles an open escrow: the taker pays the taker amount to the
    /// initializer's receive account, the vault empties into the taker's
    /// receive account, and the record is removed. Atomic: both legs are
    /// validated before the first moves, so either both apply or, on any
    /// error, the ledger and the store are unchanged.
    pub fn exchange(
        &mut self,
        ledger: &mut Ledger,
        id: &Address,
        taker_deposit: &Address,
        taker_receive: &Address,
    ) -> (r: Result<(), EscrowError>)
        requires
            old(self).inv(),
            old(ledger).inv(),
        ensures
            final(self).inv(),
            final(ledger).inv(),
            final(self).pid() == old(self).pid(),
            match r {
                Ok(()) => {
                    &&& exchange_error(old(ledger)@, old(self)@, id@, taker_deposit@, taker_receive@)
                        is None
                    &&& exchange_ledger_effect(
                        old(ledger)@,
                        final(ledger)@,
                        id@,
                        old(self)@[id@],
                        taker_deposit@,
                        taker_receive@,
                    )
                    &&& final(self)@ == old(self)@.remove(id@)
                },
                Err(e) => {
                    &&& exchange_error(old(ledger)@, old(self)@, id@, taker_deposit@, taker_receive@)
                        == Some(e)
                    &&& final(ledger)@ == old(ledger)@
                    &&& final(self)@ == old(self)@
                },
            },
    {
        let ghost l0 = ledger@;
        let ghost s0 = self.store@;
        let (ir, initializer_amount, taker_amount) = match self.store.get(id) {
            Some(rec) => {
                match rec.state {
                    EscrowState::Open => {},
                    _ => {
                        return Err(EscrowError::InvalidState);
                    },
                }
                (
                    clone_address(&rec.initializer_receive_account),
                    rec.initializer_amount,
                    rec.taker_amount,
                )
            },
            None => {
                return Err(EscrowError::RecordNotFound);
            },
        };
        let td_bal = match ledger.balance_of(taker_deposit) {
            Some(b) => b,
            None => {
                return Err(EscrowError::CustodyTransferFailed);
            },
        };
        if td_bal < taker_amount {
            return Err(EscrowError::InsufficientFunds);
        }
        let ir_bal = match ledger.balance_of(&ir) {
            Some(b) => b,
            None => {
                return Err(EscrowError::CustodyTransferFailed);
            },
        };
        let tr_bal = match ledger.balance_of(taker_receive) {
            Some(b) => b,
            None => {
                return Err(EscrowError::CustodyTransferFailed);
            },
        };
        let vault_bal = match ledger.balance_of(id) {
            Some(b) => b,
            None => {
                return Err(EscrowError::CustodyTransferFailed);
            },
        };
        if addr_eq(taker_deposit, &ir) || addr_eq(taker_deposit, taker_receive) || addr_eq(
            taker_deposit,
            id,
        ) || addr_eq(&ir, taker_receive) || addr_eq(&ir, id) || addr_eq(taker_receive, id) {
            return Err(EscrowError::CustodyTransferFailed);
        }
        if vault_bal != initializer_amount {
            return Err(EscrowError::CustodyTransferFailed);
        }
        if taker_amount > u64::MAX - ir_bal {
            return Err(EscrowError::CustodyTransferFailed);
        }
        if initializer_amount > u64::MAX - tr_bal {
            return Err(EscrowError::CustodyTransferFailed);
        }
        let leg1 = ledger.transfer(taker_deposit, &ir, taker_amount);
        match leg1 {
            Ok(()) => {},
            Err(_) => {
                proof {
                    assert(transfer_error(l0, taker_deposit@, ir@, taker_amount) is None);
                    assert(false);
                }
                return Err(EscrowError::CustodyTransferFailed);
            },
        }
        let ghost l1 = ledger@;
        let leg2 = release_custody(ledger, id, taker_receive, initializer_amount);
        match leg2 {
            Ok(()) => {},
            Err(_) => {
                proof {
                    assert(l1[id@] == l0[id@]);
                    assert(l1[taker_receive@] == l0[taker_receive@]);
                    assert(transfer_error(l1, id@, taker_receive@, initializer_amount) is None);
                    assert(false);
                }
                return Err(EscrowError::CustodyTransferFailed);
            },
        }
        let dr = self.store.delete(id);
        match dr {
            Ok(_) => {},
            Err(_) => {
                proof {
                    assert(false);
                }
                return Err(EscrowError::RecordNotFound);
            },
        }
        proof {
            let rec = s0[id@];
            assert(l1[id@] == l0[id@]);
            assert(l1[taker_receive@] == l0[taker_receive@]);
            assert forall|k: Seq<u8>|
                l0.dom().contains(k) && k != taker_deposit@ && k != ir@ && k != id@ && k
                    != taker_receive@ implies ledger@[k] == l0[k] by {
                assert(l1[k] == l0[k]);
            }
            assert(ledger@[taker_deposit@] == l1[taker_deposit@]);
            assert(ledger@[ir@] == l1[ir@]);
            assert(exchange_ledger_effect(l0, ledger@, id@, rec, taker_deposit@, taker_receive@));
        }
        Ok(())
    }
}

impl View for EscrowMachine {
    type V = Map<Seq<u8>, EscrowRecord>;

    closed spec fn view(&self) -> Map<Seq<u8>, EscrowRecord> {
        self.store@
    }
}

} // verus!
