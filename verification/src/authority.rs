//! The vault-authority derivation.
//!
//! While an escrow is open its vault is controlled by a program-derived
//! authority: a deterministic, non-secret address computed from a fixed
//! domain-separation seed and the program identity. The derivation is the
//! ledger substrate's bump search over SHA-256 digests; the library calls
//! it through a trusted wrapper and names its result.

use crate::addr::Address;
use vstd::prelude::*;

verus! {

/// The domain-separation seed under which vault authorities are derived:
/// the bytes of `"escrow"`.
pub open spec fn escrow_seed() -> Seq<u8> {
    seq![101u8, 115u8, 99u8, 114u8, 111u8, 119u8]
}

/// The seed as a byte vector.
pub fn escrow_seed_bytes() -> (r: Vec<u8>)
    ensures
        r@ == escrow_seed(),
{
    let mut r: Vec<u8> = Vec::new();
    r.push(101);
    r.push(115);
    r.push(99);
    r.push(114);
    r.push(111);
    r.push(119);
    proof {
        assert(r@ =~= escrow_seed());
    }
    r
}

/// What the substrate's program-address derivation returns for a seed and a
/// 32-byte program identity: the derived authority address, or `None` in
/// the statistically improbable event that no bump seed yields a valid
/// address. A function of the two arguments alone.
pub uninterp spec fn derived_authority(seed: Seq<u8>, program_id: Seq<u8>) -> Option<Seq<u8>>;

/// Relies on `anchor_lang::prelude::Pubkey::try_find_program_address`: a
/// pure bump search over the seed and the program id, deterministic in its
/// arguments, never panicking, returning a 32-byte address or `None`.
#[verifier::external_body]
pub(crate) fn derive_authority(seed: &Vec<u8>, program_id: &Address) -> (r: Option<Address>)
    requires
        program_id@.len() == 32,
    ensures
        match r {
            Some(a) => derived_authority(seed@, program_id@) == Some(a@) && a@.len() == 32,
            None => derived_authority(seed@, program_id@) is None,
        },
{
    let mut pid = [0u8; 32];
    pid.copy_from_slice(program_id.as_slice());
    let pk = anchor_lang::prelude::Pubkey::new_from_array(pid);
    anchor_lang::prelude::Pubkey::try_find_program_address(&[seed.as_slice()], &pk)
        .map(|(addr, _bump)| addr.to_bytes().to_vec())
}

} // verus!
