//! Account identities.
//!
//! Every party, token account, vault and authority on the ledger is named by
//! an opaque byte string. Real ledger keys are 32 bytes wide; nothing in the
//! escrow logic depends on the width, so the model carries plain byte
//! vectors and states contracts over their views.

use vstd::prelude::*;

verus! {

/// An account or authority identity: an opaque byte string.
pub type Address = Vec<u8>;

/// Byte-for-byte equality of two addresses.
pub fn addr_eq(a: &Address, b: &Address) -> (r: bool)
    ensures
        r == (a@ == b@),
{
    if a.len() != b.len() {
        return false;
    }
    let mut i: usize = 0;
    while i < a.len()
        invariant
            a@.len() == b@.len(),
            i <= a@.len(),
            forall|j: int| 0 <= j < i ==> a@[j] == b@[j],
        decreases a@.len() - i,
    {
        if a[i] != b[i] {
            return false;
        }
        i += 1;
    }
    proof {
        assert(a@ =~= b@);
    }
    true
}

/// A copy of an address with the same bytes.
pub fn clone_address(a: &Address) -> (r: Address)
    ensures
        r@ == a@,
{
    let mut r: Address = Vec::new();
    let mut i: usize = 0;
    while i < a.len()
        invariant
            i <= a@.len(),
            r@ == a@.subrange(0, i as int),
        decreases a@.len() - i,
    {
        r.push(a[i]);
        proof {
            assert(r@ =~= a@.subrange(0, i + 1));
        }
        i += 1;
    }
    proof {
        assert(a@.subrange(0, a@.len() as int) =~= a@);
    }
    r
}

} // verus!
