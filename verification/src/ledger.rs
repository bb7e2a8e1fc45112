//! The token ledger.
//!
//! The escrow treats the ledger as an atomic-per-call substrate: every
//! account holds an unsigned 64-bit balance and names the authority that
//! controls its funds. A call either applies in full or reports a
//! [`LedgerError`] and changes nothing.

use crate::addr::{addr_eq, clone_address, Address};
use crate::errors::LedgerError;
use crate::table::Table;
use vstd::prelude::*;

verus! {

/// One token account: a balance and the authority controlling it.
pub struct Account {
    /// The token quantity the account holds.
    pub balance: u64,
    /// The identity authorised to move the account's funds.
    pub authority: Address,
}

/// A token ledger, viewed as the map from account address to [`Account`].
pub struct Ledger {
    accounts: Table<Account>,
}

/// The error a transfer of `amount` from `from` to `to` would report on
/// ledger `l`: the first failing check, or `None` when the transfer goes
/// through.
pub open spec fn transfer_error(
    l: Map<Seq<u8>, Account>,
    from: Seq<u8>,
    to: Seq<u8>,
    amount: u64,
) -> Option<LedgerError> {
    if !l.dom().contains(from) || !l.dom().contains(to) {
        Some(LedgerError::UnknownAccount)
    } else if l[from].balance < amount {
        Some(LedgerError::InsufficientBalance)
    } else if from != to && l[to].balance + amount > u64::MAX {
        Some(LedgerError::BalanceOverflow)
    } else {
        None
    }
}

/// How a successful transfer changes the ledger view: the source loses
/// `amount`, the destination gains it, authorities and every other account
/// stay as they were. A transfer of an account to itself changes nothing.
pub open spec fn transfer_effect(
    l0: Map<Seq<u8>, Account>,
    l1: Map<Seq<u8>, Account>,
    from: Seq<u8>,
    to: Seq<u8>,
    amount: u64,
) -> bool {
    &&& l1.dom() == l0.dom()
    &&& if from == to {
        l1 == l0
    } else {
        &&& l1[from].balance == l0[from].balance - amount
        &&& l1[from].authority@ == l0[from].authority@
        &&& l1[to].balance == l0[to].balance + amount
        &&& l1[to].authority@ == l0[to].authority@
        &&& forall|k: Seq<u8>| l0.dom().contains(k) && k != from && k != to ==> l1[k] == l0[k]
    }
}

impl Ledger {
    /// The structural invariant behind the map view.
    pub closed spec fn inv(self) -> bool {
        self.accounts.inv()
    }

    /// An empty ledger.
    pub fn new() -> (r: Self)
        ensures
            r.inv(),
            r@ == Map::<Seq<u8>, Account>::empty(),
    {
        Ledger { accounts: Table::new() }
    }

    /// Whether an account exists under `addr`.
    pub fn has_account(&self, addr: &Address) -> (r: bool)
        ensures
            r == self@.dom().contains(addr@),
    {
        self.accounts.contains(addr)
    }

    /// The balance held by the account under `addr`.
    pub fn balance_of(&self, addr: &Address) -> (r: Option<u64>)
        requires
            self.inv(),
        ensures
            match r {
                Some(b) => self@.dom().contains(addr@) && b == self@[addr@].balance,
                None => !self@.dom().contains(addr@),
            },
    {
        match self.accounts.get(addr) {
            Some(a) => Some(a.balance),
            None => None,
        }
    }

    /// The authority controlling the account under `addr`.
    pub fn authority_of(&self, addr: &Address) -> (r: Option<&Address>)
        requires
            self.inv(),
        ensures
            match r {
                Some(a) => self@.dom().contains(addr@) && a@ == self@[addr@].authority@,
                None => !self@.dom().contains(addr@),
            },
    {
        match self.accounts.get(addr) {
            Some(a) => Some(&a.authority),
            None => None,
        }
    }

    /// Opens a fresh account with the given balance and authority.
    pub fn open_account(&mut self, addr: Address, balance: u64, authority: Address) -> (r: Result<
        (),
        LedgerError,
    >)
        requires
            old(self).inv(),
        ensures
            final(self).inv(),
            match r {
                Ok(()) => !old(self)@.dom().contains(addr@) && final(self)@ == old(self)@.insert(
                    addr@,
                    (Account { balance, authority }),
                ),
                Err(e) => {
                    &&& old(self)@.dom().contains(addr@)
                    &&& e == LedgerError::AccountExists
                    &&& final(self)@ == old(self)@
                },
            },
    {
        if self.accounts.contains(&addr) {
            return Err(LedgerError::AccountExists);
        }
        self.accounts.insert(addr, Account { balance, authority });
        Ok(())
    }

    /// Moves `amount` from `from` to `to`. Atomic: on failure the ledger is
    /// unchanged and the reported error is the first failing check.
    pub fn transfer(&mut self, from: &Address, to: &Address, amount: u64) -> (r: Result<
        (),
        LedgerError,
    >)
        requires
            old(self).inv(),
        ensures
            final(self).inv(),
            match r {
                Ok(()) => transfer_error(old(self)@, from@, to@, amount) is None
                    && transfer_effect(old(self)@, final(self)@, from@, to@, amount),
                Err(e) => transfer_error(old(self)@, from@, to@, amount) == Some(e) && final(self)@
                    == old(self)@,
            },
    {
        let ghost l0 = self.accounts@;
        let (fb, fauth) = match self.accounts.get(from) {
            Some(a) => (a.balance, clone_address(&a.authority)),
            None => {
                return Err(LedgerError::UnknownAccount);
            },
        };
        let (tb, tauth) = match self.accounts.get(to) {
            Some(a) => (a.balance, clone_address(&a.authority)),
            None => {
                return Err(LedgerError::UnknownAccount);
            },
        };
        if fb < amount {
            return Err(LedgerError::InsufficientBalance);
        }
        if addr_eq(from, to) {
            return Ok(());
        }
        if amount > u64::MAX - tb {
            return Err(LedgerError::BalanceOverflow);
        }
        self.accounts.update(from, Account { balance: fb - amount, authority: fauth });
        self.accounts.update(to, Account { balance: tb + amount, authority: tauth });
        proof {
            let l1 = self.accounts@;
            assert(l1.dom() =~= l0.dom());
            assert(transfer_effect(l0, l1, from@, to@, amount));
        }
        Ok(())
    }

    /// Hands control of the account under `account` to `new_authority`.
    /// Atomic: on failure the ledger is unchanged.
    pub fn set_authority(&mut self, account: &Address, new_authority: Address) -> (r: Result<
        (),
        LedgerError,
    >)
        requires
            old(self).inv(),
        ensures
            final(self).inv(),
            match r {
                Ok(()) => {
                    &&& old(self)@.dom().contains(account@)
                    &&& final(self)@.dom() == old(self)@.dom()
                    &&& final(self)@[account@].balance == old(self)@[account@].balance
                    &&& final(self)@[account@].authority@ == new_authority@
                    &&& forall|k: Seq<u8>|
                        old(self)@.dom().contains(k) && k != account@ ==> final(self)@[k] == old(
                            self,
                        )@[k]
                },
                Err(e) => {
                    &&& !old(self)@.dom().contains(account@)
                    &&& e == LedgerError::UnknownAccount
                    &&& final(self)@ == old(self)@
                },
            },
    {
        let ghost l0 = self.accounts@;
        let bal = match self.accounts.get(account) {
            Some(a) => a.balance,
            None => {
                return Err(LedgerError::UnknownAccount);
            },
        };
        self.accounts.update(account, Account { balance: bal, authority: new_authority });
        proof {
            assert(self.accounts@.dom() =~= l0.dom());
        }
        Ok(())
    }
}

impl View for Ledger {
    type V = Map<Seq<u8>, Account>;

    closed spec fn view(&self) -> Map<Seq<u8>, Account> {
        self.accounts@
    }
}

} // verus!
