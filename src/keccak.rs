use vstd::prelude::*;

verus! {

/// The 256-bit Keccak digest of a byte sequence.
pub uninterp spec fn keccak256_of(data: Seq<u8>) -> Seq<u8>;

/// Relies on tiny_keccak's `Keccak::v256` hasher: absorbing `data` once and
/// finalising yields the 32-byte Keccak-256 digest, which depends on the bytes alone.
#[verifier::external_body]
pub(crate) fn keccak256(data: &[u8]) -> (r: [u8; 32])
    ensures
        r@ == keccak256_of(data@),
{
    let mut out = [0u8; 32];
    let mut hasher = tiny_keccak::Keccak::v256();
    tiny_keccak::Hasher::update(&mut hasher, data);
    tiny_keccak::Hasher::finalize(hasher, &mut out);
    out
}

} // verus!
