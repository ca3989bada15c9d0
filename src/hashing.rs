//! The content hash used for tree nodes and payload ids.

use digest::{Digest, FixedOutput};
use tari_crypto::hash::blake2::Blake256;
use vstd::prelude::*;

verus! {

/// The 32-byte Blake2b digest of `data`.
pub uninterp spec fn blake256_of(data: Seq<u8>) -> Seq<u8>;

/// Relies on tari_crypto's `Blake256` (Blake2b with a 32-byte output) through
/// digest's `Digest::chain` and `FixedOutput::finalize_fixed`: the digest of
/// `data`, a function of `data` alone.
#[verifier::external_body]
pub(crate) fn blake256(data: &Vec<u8>) -> (r: [u8; 32])
    ensures
        r@ == blake256_of(data@),
{
    let digest = Blake256::new().chain(data.as_slice()).finalize_fixed();
    let mut out = [0u8; 32];
    out.copy_from_slice(digest.as_slice());
    out
}

/// Appends `b` to `v`.
pub fn extend_bytes(v: &mut Vec<u8>, b: &Vec<u8>)
    ensures
        final(v)@ == old(v)@ + b@,
{
    let ghost start = v@;
    let mut i: usize = 0;
    while i < b.len()
        invariant
            i <= b@.len(),
            v@ == start + b@.subrange(0, i as int),
        decreases b.len() - i,
    {
        v.push(b[i]);
        i = i + 1;
        assert(v@ =~= start + b@.subrange(0, i as int));
    }
    assert(b@.subrange(0, b@.len() as int) =~= b@);
}

} // verus!
