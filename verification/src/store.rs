//! The escrow record store.
//!
//! Keyed persistence for [`EscrowRecord`]s. A key is the escrow identifier,
//! bound one-to-one to the escrow's vault address. No update operation is
//! exposed: a record enters the store once, at `initialize`, and leaves it
//! once, at the terminal transition.

use crate::addr::Address;
use crate::errors::EscrowError;
use crate::record::EscrowRecord;
use crate::table::Table;
use vstd::prelude::*;

verus! {

/// The record store, viewed as the map from escrow identifier to record.
pub struct RecordStore {
    records: Table<EscrowRecord>,
}

impl RecordStore {
    /// The structural invariant behind the map view.
    pub closed spec fn inv(self) -> bool {
        self.records.inv()
    }

    /// An empty store.
    pub fn new() -> (r: Self)
        ensures
            r.inv(),
            r@ == Map::<Seq<u8>, EscrowRecord>::empty(),
    {
        RecordStore { records: Table::new() }
    }

    /// Whether a record is stored under `id`.
    pub fn contains(&self, id: &Address) -> (r: bool)
        ensures
            r == self@.dom().contains(id@),
    {
        self.records.contains(id)
    }

    /// The record stored under `id`, if any.
    pub fn get(&self, id: &Address) -> (r: Option<&EscrowRecord>)
        requires
            self.inv(),
        ensures
            match r {
                Some(rec) => self@.dom().contains(id@) && *rec == self@[id@],
                None => !self@.dom().contains(id@),
            },
    {
        self.records.get(id)
    }

    /// Persists `rec` under the unoccupied key `id`.
    pub fn put(&mut self, id: Address, rec: EscrowRecord) -> (r: Result<(), EscrowError>)
        requires
            old(self).inv(),
        ensures
            final(self).inv(),
            match r {
                Ok(()) => !old(self)@.dom().contains(id@) && final(self)@ == old(self)@.insert(
                    id@,
                    rec,
                ),
                Err(e) => {
                    &&& old(self)@.dom().contains(id@)
                    &&& e == EscrowError::RecordAlreadyExists
                    &&& final(self)@ == old(self)@
                },
            },
    {
        if self.records.contains(&id) {
            return Err(EscrowError::RecordAlreadyExists);
        }
        self.records.insert(id, rec);
        Ok(())
    }

    /// Removes and returns the record stored under `id`.
    pub fn delete(&mut self, id: &Address) -> (r: Result<EscrowRecord, EscrowError>)
        requires
            old(self).inv(),
        ensures
            final(self).inv(),
            match r {
                Ok(rec) => {
                    &&& old(self)@.dom().contains(id@)
                    &&& rec == old(self)@[id@]
                    &&& final(self)@ == old(self)@.remove(id@)
                },
                Err(e) => {
                    &&& !old(self)@.dom().contains(id@)
                    &&& e == EscrowError::RecordNotFound
                    &&& final(self)@ == old(self)@
                },
            },
    {
        if !self.records.contains(id) {
            return Err(EscrowError::RecordNotFound);
        }
        Ok(self.records.remove(id))
    }
}

impl View for RecordStore {
    type V = Map<Seq<u8>, EscrowRecord>;

    closed spec fn view(&self) -> Map<Seq<u8>, EscrowRecord> {
        self.records@
    }
}

} // verus!
