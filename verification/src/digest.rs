//! Batch fingerprinting.
//!
//! A batch is identified by the first 32 bytes of the SHA-512 hash of the
//! exact bytes received. The digest is a pure function of those bytes: it is
//! the sole storage key and the sole payload announced to the primary.

use ed25519_dalek::Digest as _;
use vstd::prelude::*;

verus! {

/// Number of bytes in a batch digest.
pub const DIGEST_LEN: usize = 32;

/// The SHA-512 hash of a byte sequence, as the 64 bytes it produces.
///
/// The hash itself is outside this library; the name records that its result
/// depends on the input bytes alone.
pub uninterp spec fn sha512_of(bytes: Seq<u8>) -> Seq<u8>;

/// The digest of a batch: the first 32 bytes of its SHA-512 hash.
pub open spec fn batch_digest_spec(bytes: Seq<u8>) -> Seq<u8> {
    sha512_of(bytes).take(32)
}

/// Relies on `ed25519_dalek::Sha512` (sha2's SHA-512): a 64-byte hash that is
/// a function of the input bytes alone.
#[verifier::external_body]
fn sha512(bytes: &Vec<u8>) -> (r: Vec<u8>)
    ensures
        r@ == sha512_of(bytes@),
        r@.len() == 64,
{
    ed25519_dalek::Sha512::digest(bytes.as_slice()).to_vec()
}

/// Compute the digest that identifies a batch.
pub fn batch_digest(bytes: &Vec<u8>) -> (d: Vec<u8>)
    ensures
        d@ == batch_digest_spec(bytes@),
        d@.len() == 32,
{
    let mut h = sha512(bytes);
    h.truncate(32);
    proof {
        assert(h@ =~= sha512_of(bytes@).take(32));
    }
    h
}

/// The digest is deterministic: any two digests computed over the same batch
/// bytes are the same 32-byte value.
pub proof fn lemma_digest_deterministic(bytes: Seq<u8>, d1: Seq<u8>, d2: Seq<u8>)
    requires
        d1 == batch_digest_spec(bytes),
        d2 == batch_digest_spec(bytes),
    ensures
        d1 == d2,
{
}

} // verus!
