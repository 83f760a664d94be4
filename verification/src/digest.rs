use vstd::prelude::*;

verus! {

/// The 32-byte BLAKE3 digest of a byte sequence, as the hash function
/// defines it: a function of the input bytes alone.
pub uninterp spec fn blake3_of(data: Seq<u8>) -> Seq<u8>;

/// Relies on blake3::hash: a 32-byte digest determined by the input bytes
/// alone, the same in every call.
#[verifier::external_body]
fn blake3_digest(data: &[u8]) -> (r: Vec<u8>)
    ensures
        r@ == blake3_of(data@),
        r@.len() == 32,
{
    blake3::hash(data).as_bytes().to_vec()
}

/// The BLAKE3 digest of an arbitrary-length byte payload, the empty one
/// included: deterministic, always exactly 32 bytes, with no error path.
pub fn blake3_hash(data: &[u8]) -> (r: Vec<u8>)
    ensures
        r@ == blake3_of(data@),
        r@.len() == 32,
{
    blake3_digest(data)
}

/// Digest determinism: the digest is a function of the input bytes alone,
/// so repeated hashing of equal inputs always yields identical output.
pub proof fn lemma_digest_deterministic(d1: Seq<u8>, d2: Seq<u8>)
    requires
        d1 == d2,
    ensures
        blake3_of(d1) == blake3_of(d2),
{
}

} // verus!
