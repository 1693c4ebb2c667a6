//! The synthetic signature-verification corpus.
//!
//! A corpus is an immutable, aligned triple of sequences: 8-byte little-endian
//! counter messages, one Ed25519 signature over each message, and the public
//! key that produced it. It is built once per processor instance and stands in
//! for per-transaction signatures: verifying a prefix of it simulates the CPU
//! cost of verifying one signature per transaction.

use crate::bytes::{le_bytes_8, u64_le_bytes};
use crate::shards::{shard_ranges, MAX_VERIFY_COUNT};
use ed25519_dalek::Signer as _;
use rand::rngs::OsRng;
use rayon::prelude::IndexedParallelIterator;
use rayon::prelude::IntoParallelIterator;
use rayon::prelude::IntoParallelRefIterator;
use rayon::prelude::ParallelIterator;
use vstd::prelude::*;

verus! {

/// Number of corpus entries a processor builds when verification is enabled.
pub const CORPUS_SIZE: usize = 100000;

#[verifier::external_type_specification]
#[verifier::external_body]
pub struct ExKeypair(ed25519_dalek::Keypair);

#[verifier::external_type_specification]
#[verifier::external_body]
pub struct ExSignature(ed25519_dalek::Signature);

#[verifier::external_type_specification]
#[verifier::external_body]
pub struct ExPublicKey(ed25519_dalek::PublicKey);

/// Relies on `ed25519_dalek::Keypair::generate` (one fresh keypair per index)
/// and on rayon's parallel map collecting one element per index, in order.
#[verifier::external_body]
fn generate_keypairs(n: usize) -> (r: Vec<ed25519_dalek::Keypair>)
    ensures
        r@.len() == n,
{
    (0..n).into_par_iter().map(|_| ed25519_dalek::Keypair::generate(&mut OsRng)).collect()
}

/// Relies on `Signer::sign` for `ed25519_dalek::Keypair` (one signature per
/// message, by the keypair at the same index) and on rayon's parallel map
/// collecting one element per pair, in order.
#[verifier::external_body]
fn sign_messages(keypairs: &Vec<ed25519_dalek::Keypair>, messages: &Vec<Vec<u8>>) -> (r: Vec<
    ed25519_dalek::Signature,
>)
    requires
        keypairs@.len() == messages@.len(),
    ensures
        r@.len() == messages@.len(),
{
    keypairs.par_iter().zip(messages.par_iter()).map(|(k, m)| k.sign(m)).collect()
}

/// Picks the public half out of each opaque keypair, in order.
#[verifier::external_body]
fn public_keys_of(keypairs: &Vec<ed25519_dalek::Keypair>) -> (r: Vec<ed25519_dalek::PublicKey>)
    ensures
        r@.len() == keypairs@.len(),
{
    keypairs.iter().map(|k| k.public).collect()
}

/// Relies on `ed25519_dalek::verify_batch` (one batched signature check per
/// range, `true` exactly when it returns `Ok`) and on rayon's parallel map
/// collecting one flag per range, in order. A non-empty range's outcome
/// depends on the signatures and keys, which are opaque here, so nothing is
/// stated of it; an empty range's check is deterministically `Ok` (the empty
/// sums make the multiscalar product the identity point).
#[verifier::external_body]
fn verify_ranges(
    messages: &Vec<Vec<u8>>,
    signatures: &Vec<ed25519_dalek::Signature>,
    publics: &Vec<ed25519_dalek::PublicKey>,
    ranges: &Vec<(usize, usize)>,
) -> (r: Vec<bool>)
    requires
        messages@.len() == signatures@.len(),
        messages@.len() == publics@.len(),
        forall|i: int|
            0 <= i < ranges@.len() ==> (#[trigger] ranges@[i]).0 <= ranges@[i].1
                && ranges@[i].1 <= messages@.len(),
    ensures
        r@.len() == ranges@.len(),
        forall|i: int|
            0 <= i < ranges@.len() ==> (#[trigger] ranges@[i]).0 == ranges@[i].1 ==> r@[i],
{
    ranges.par_iter().map(|&(start, end)| {
        let refs: Vec<&[u8]> = messages[start..end].iter().map(|m| m.as_slice()).collect();
        ed25519_dalek::verify_batch(&refs, &signatures[start..end], &publics[start..end]).is_ok()
    }).collect()
}

/// A verification pass succeeds only if every shard's check succeeded: one
/// failed shard fails the whole pass, there is no partial acceptance.
pub fn all_shards_ok(flags: &Vec<bool>) -> (ok: bool)
    ensures
        ok <==> forall|i: int| 0 <= i < flags@.len() ==> flags@[i],
{
    let mut i: usize = 0;
    while i < flags.len()
        invariant
            i <= flags@.len(),
            forall|j: int| 0 <= j < i ==> flags@[j],
        decreases flags@.len() - i,
    {
        if !flags[i] {
            return false;
        }
        i = i + 1;
    }
    true
}

/// How many corpus entries a batch's verification covers: one per
/// transaction, capped at the corpus size. A batch with more transactions
/// than the corpus holds is covered only partially, never rejected for size.
pub fn verification_count(tx_count: usize, corpus_len: usize) -> (count: usize)
    ensures
        count == if tx_count < corpus_len {
            tx_count as int
        } else {
            corpus_len as int
        },
{
    if tx_count < corpus_len {
        tx_count
    } else {
        corpus_len
    }
}

/// The fixed set of signed counter messages a processor verifies against.
pub struct VerificationCorpus {
    messages: Vec<Vec<u8>>,
    signatures: Vec<ed25519_dalek::Signature>,
    publics: Vec<ed25519_dalek::PublicKey>,
}

impl VerificationCorpus {
    /// Number of (message, signature, public key) entries.
    pub closed spec fn size(&self) -> nat {
        self.messages@.len()
    }

    /// The message stored at index `i`.
    pub closed spec fn message_at(&self, i: int) -> Seq<u8> {
        self.messages@[i]@
    }

    /// The three sequences are aligned and the corpus fits one verification pass.
    pub closed spec fn wf(&self) -> bool {
        self.messages@.len() == self.signatures@.len()
            && self.messages@.len() == self.publics@.len()
            && self.messages@.len() <= MAX_VERIFY_COUNT
    }

    pub fn len(&self) -> (n: usize)
        ensures
            n == self.size(),
    {
        self.messages.len()
    }

    /// Build a corpus of `n` entries: the counters `0..n`, each encoded as its
    /// eight little-endian bytes, each signed by its own fresh keypair.
    pub fn build(n: usize) -> (c: Self)
        requires
            n <= MAX_VERIFY_COUNT,
        ensures
            c.wf(),
            c.size() == n,
            forall|i: int| 0 <= i < n ==> c.message_at(i) == le_bytes_8(i as nat),
    {
        let mut messages: Vec<Vec<u8>> = Vec::new();
        let mut i: usize = 0;
        while i < n
            invariant
                i <= n,
                n <= MAX_VERIFY_COUNT,
                messages@.len() == i,
                forall|j: int| 0 <= j < i ==> (#[trigger] messages@[j])@ == le_bytes_8(j as nat),
            decreases n - i,
        {
            messages.push(u64_le_bytes(i as u64));
            i = i + 1;
        }
        let keypairs = generate_keypairs(n);
        let signatures = sign_messages(&keypairs, &messages);
        let publics = public_keys_of(&keypairs);
        VerificationCorpus { messages, signatures, publics }
    }

    /// Assemble a corpus from aligned parts.
    pub fn from_parts(
        messages: Vec<Vec<u8>>,
        signatures: Vec<ed25519_dalek::Signature>,
        publics: Vec<ed25519_dalek::PublicKey>,
    ) -> (c: Self)
        requires
            messages@.len() == signatures@.len(),
            messages@.len() == publics@.len(),
            messages@.len() <= MAX_VERIFY_COUNT,
        ensures
            c.wf(),
            c.size() == messages@.len(),
            forall|i: int| 0 <= i < messages@.len() ==> c.message_at(i) == (#[trigger] messages@[i])@,
    {
        VerificationCorpus { messages, signatures, publics }
    }

    /// Verify the first `count` corpus entries, split over 64 shards, each
    /// shard as one batched signature check. Returns `true` only if every
    /// shard succeeded. Verifying nothing trivially succeeds; a non-empty
    /// shard's outcome is cryptographic, so no more is stated of the result.
    pub fn verify_prefix(&self, count: usize) -> (ok: bool)
        requires
            self.wf(),
            count <= self.size(),
        ensures
            count == 0 ==> ok,
    {
        let ranges = shard_ranges(count);
        let flags = verify_ranges(&self.messages, &self.signatures, &self.publics, &ranges);
        proof {
            if count == 0 {
                assert forall|i: int| 0 <= i < flags@.len() implies flags@[i] by {
                    assert(ranges@[i].0 <= ranges@[i].1 <= count);
                    assert(ranges@[i].0 == ranges@[i].1);
                }
            }
        }
        all_shards_ok(&flags)
    }
}

} // verus!
