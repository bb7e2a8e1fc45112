//! A keyed association table.
//!
//! Both persistent stores of the escrow — the token ledger's accounts and
//! the record store — are key/value tables keyed by an [`Address`]. This
//! module gives them one verified primitive: a table whose view is the
//! finite map from key bytes to stored values, with the keys pairwise
//! distinct.

use crate::addr::{addr_eq, Address};
use vstd::map::*;
use vstd::prelude::*;

verus! {

/// One key/value pair of a [`Table`].
pub struct Entry<V> {
    /// The key the value is filed under.
    pub key: Address,
    /// The stored value.
    pub val: V,
}

/// An association table with byte-string keys. Its view is the finite map
/// from key bytes to stored values; [`Table::inv`] makes that view well
/// defined.
pub struct Table<V> {
    entries: Vec<Entry<V>>,
}

impl<V> Table<V> {
    /// Keys are pairwise distinct.
    pub closed spec fn inv(self) -> bool {
        forall|i: int, j: int|
            0 <= i < j < self.entries@.len() ==> self.entries@[i].key@ != self.entries@[j].key@
    }

    spec fn has_key(self, k: Seq<u8>) -> bool {
        exists|i: int| 0 <= i < self.entries@.len() && self.entries@[i].key@ == k
    }

    spec fn key_index(self, k: Seq<u8>) -> int {
        choose|i: int| 0 <= i < self.entries@.len() && self.entries@[i].key@ == k
    }

    proof fn lemma_dom(self, k: Seq<u8>)
        ensures
            self@.dom().contains(k) <==> self.has_key(k),
    {
    }

    proof fn lemma_at(self, i: int)
        requires
            self.inv(),
            0 <= i < self.entries@.len(),
        ensures
            self@.dom().contains(self.entries@[i].key@),
            self@[self.entries@[i].key@] == self.entries@[i].val,
    {
        let k = self.entries@[i].key@;
        assert(self.has_key(k));
        self.lemma_dom(k);
        let j = self.key_index(k);
        assert(0 <= j < self.entries@.len() && self.entries@[j].key@ == k);
        if i < j {
            assert(self.entries@[i].key@ != self.entries@[j].key@);
        } else if j < i {
            assert(self.entries@[j].key@ != self.entries@[i].key@);
        }
    }

    /// An empty table.
    pub fn new() -> (r: Self)
        ensures
            r.inv(),
            r@ == Map::<Seq<u8>, V>::empty(),
    {
        let r = Table { entries: Vec::new() };
        proof {
            assert forall|k: Seq<u8>| !r@.dom().contains(k) by {
                r.lemma_dom(k);
            }
            assert(r@ =~= Map::<Seq<u8>, V>::empty());
        }
        r
    }

    fn find(&self, key: &Address) -> (r: Option<usize>)
        ensures
            match r {
                Some(i) => i < self.entries@.len() && self.entries@[i as int].key@ == key@,
                None => !self.has_key(key@),
            },
    {
        let mut i: usize = 0;
        while i < self.entries.len()
            invariant
                i <= self.entries@.len(),
                forall|j: int| 0 <= j < i ==> self.entries@[j].key@ != key@,
            decreases self.entries@.len() - i,
        {
            if addr_eq(&self.entries[i].key, key) {
                return Some(i);
            }
            i += 1;
        }
        None
    }

    /// Whether a value is filed under `key`.
    pub fn contains(&self, key: &Address) -> (r: bool)
        ensures
            r == self@.dom().contains(key@),
    {
        let fr = self.find(key);
        proof {
            self.lemma_dom(key@);
        }
        match fr {
            Some(i) => {
                proof {
                    assert(self.has_key(key@));
                }
                true
            },
            None => false,
        }
    }

    /// The value filed under `key`, if any.
    pub fn get(&self, key: &Address) -> (r: Option<&V>)
        requires
            self.inv(),
        ensures
            match r {
                Some(v) => self@.dom().contains(key@) && *v == self@[key@],
                None => !self@.dom().contains(key@),
            },
    {
        let fr = self.find(key);
        proof {
            self.lemma_dom(key@);
        }
        match fr {
            Some(i) => {
                proof {
                    self.lemma_at(i as int);
                }
                Some(&self.entries[i].val)
            },
            None => None,
        }
    }

    /// Files `val` under a key not yet present.
    pub fn insert(&mut self, key: Address, val: V)
        requires
            old(self).inv(),
            !old(self)@.dom().contains(key@),
        ensures
            final(self).inv(),
            final(self)@ == old(self)@.insert(key@, val),
    {
        let ghost prev = *self;
        let ghost kview = key@;
        proof {
            prev.lemma_dom(kview);
        }
        self.entries.push(Entry { key, val });
        proof {
            let olen = prev.entries@.len() as int;
            assert(forall|i: int| 0 <= i < olen ==> self.entries@[i] == prev.entries@[i]);
            assert(self.entries@[olen].key@ == kview);
            assert forall|i: int, j: int|
                0 <= i < j < self.entries@.len() implies self.entries@[i].key@
                != self.entries@[j].key@ by {
                if j < olen {
                    assert(prev.entries@[i].key@ != prev.entries@[j].key@);
                } else {
                    if self.entries@[i].key@ == kview {
                        assert(prev.entries@[i].key@ == kview);
                        assert(prev.has_key(kview));
                        assert(false);
                    }
                }
            }
            assert_maps_equal!(self@, prev@.insert(kview, val), k => {
                self.lemma_dom(k);
                prev.lemma_dom(k);
                if k == kview {
                    self.lemma_at(olen);
                } else {
                    if prev.has_key(k) {
                        let i = prev.key_index(k);
                        assert(0 <= i < olen && prev.entries@[i].key@ == k);
                        prev.lemma_at(i);
                        self.lemma_at(i);
                    } else {
                        if self.has_key(k) {
                            let i = self.key_index(k);
                            assert(0 <= i <= olen && self.entries@[i].key@ == k);
                            if i < olen {
                                assert(prev.has_key(k));
                            }
                            assert(false);
                        }
                    }
                }
            });
        }
    }

    /// Replaces the value filed under a present key.
    pub fn update(&mut self, key: &Address, val: V)
        requires
            old(self).inv(),
            old(self)@.dom().contains(key@),
        ensures
            final(self).inv(),
            final(self)@ == old(self)@.insert(key@, val),
    {
        let ghost prev = *self;
        let fr = self.find(key);
        proof {
            prev.lemma_dom(key@);
        }
        let i = fr.unwrap();
        let e = self.entries.remove(i);
        self.entries.insert(i, Entry { key: e.key, val });
        proof {
            let ii = i as int;
            let olen = prev.entries@.len() as int;
            prev.entries@.remove_ensures(ii);
            prev.entries@.remove(ii).insert_ensures(ii, self.entries@[ii]);
            assert forall|j: int| 0 <= j < olen implies self.entries@[j].key@
                == prev.entries@[j].key@ by {
                if j < ii {
                    assert(self.entries@[j] == prev.entries@.remove(ii)[j]);
                } else if j > ii {
                    assert(self.entries@[j] == prev.entries@.remove(ii)[j - 1]);
                }
            }
            assert(self.entries@.len() == olen);
            assert(forall|j: int| 0 <= j < olen && j != ii ==> self.entries@[j] == prev.entries@[j]);
            assert(self.entries@[ii].key@ == key@);
            assert forall|a: int, b: int|
                0 <= a < b < olen implies self.entries@[a].key@ != self.entries@[b].key@ by {
                assert(prev.entries@[a].key@ != prev.entries@[b].key@);
            }
            assert_maps_equal!(self@, prev@.insert(key@, val), k => {
                self.lemma_dom(k);
                prev.lemma_dom(k);
                if k == key@ {
                    self.lemma_at(ii);
                } else {
                    if prev.has_key(k) {
                        let a = prev.key_index(k);
                        assert(0 <= a < olen && prev.entries@[a].key@ == k);
                        if a == ii {
                            assert(false);
                        }
                        prev.lemma_at(a);
                        self.lemma_at(a);
                    } else {
                        if self.has_key(k) {
                            let a = self.key_index(k);
                            assert(0 <= a < olen && self.entries@[a].key@ == k);
                            if a == ii {
                                assert(false);
                            }
                            assert(prev.has_key(k));
                            assert(false);
                        }
                    }
                }
            });
        }
    }

    /// Removes and returns the value filed under a present key.
    pub fn remove(&mut self, key: &Address) -> (r: V)
        requires
            old(self).inv(),
            old(self)@.dom().contains(key@),
        ensures
            final(self).inv(),
            final(self)@ == old(self)@.remove(key@),
            r == old(self)@[key@],
    {
        let ghost prev = *self;
        let fr = self.find(key);
        proof {
            prev.lemma_dom(key@);
        }
        let i = fr.unwrap();
        proof {
            prev.lemma_at(i as int);
        }
        let e = self.entries.remove(i);
        proof {
            let ii = i as int;
            let olen = prev.entries@.len() as int;
            prev.entries@.remove_ensures(ii);
            assert(self.entries@.len() == olen - 1);
            assert forall|a: int, b: int|
                0 <= a < b < olen - 1 implies self.entries@[a].key@ != self.entries@[b].key@ by {
                let pa: int = if a < ii { a } else { a + 1 };
                let pb: int = if b < ii { b } else { b + 1 };
                assert(self.entries@[a] == prev.entries@[pa]);
                assert(self.entries@[b] == prev.entries@[pb]);
                assert(prev.entries@[pa].key@ != prev.entries@[pb].key@);
            }
            assert_maps_equal!(self@, prev@.remove(key@), k => {
                self.lemma_dom(k);
                prev.lemma_dom(k);
                if self.has_key(k) {
                    let a = self.key_index(k);
                    assert(0 <= a < olen - 1 && self.entries@[a].key@ == k);
                    let pa: int = if a < ii { a } else { a + 1 };
                    assert(self.entries@[a] == prev.entries@[pa]);
                    assert(prev.has_key(k));
                    if k == key@ {
                        if pa < ii {
                            assert(prev.entries@[pa].key@ != prev.entries@[ii].key@);
                        } else {
                            assert(prev.entries@[ii].key@ != prev.entries@[pa].key@);
                        }
                        assert(false);
                    }
                    prev.lemma_at(pa);
                    self.lemma_at(a);
                } else {
                    if k != key@ && prev.has_key(k) {
                        let pa = prev.key_index(k);
                        assert(0 <= pa < olen && prev.entries@[pa].key@ == k);
                        if pa < ii {
                            assert(self.entries@[pa] == prev.entries@[pa]);
                            assert(self.has_key(k));
                        } else if pa > ii {
                            assert(self.entries@[pa - 1] == prev.entries@[pa]);
                            assert(self.has_key(k));
                        }
                        assert(false);
                    }
                }
            });
        }
        e.val
    }
}

impl<V> View for Table<V> {
    type V = Map<Seq<u8>, V>;

    closed spec fn view(&self) -> Map<Seq<u8>, V> {
        Map::new(|k: Seq<u8>| self.has_key(k), |k: Seq<u8>| self.entries@[self.key_index(k)].val)
    }
}

} // verus!
