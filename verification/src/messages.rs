//! The wire formats this stage reads and writes.
//!
//! Inbound: a batch envelope, a tagged union whose batch variant wraps an
//! ordered sequence of raw transaction byte strings. Its layout is a 4-byte
//! little-endian variant tag, an 8-byte little-endian transaction count, and
//! for each transaction an 8-byte little-endian length followed by its bytes;
//! trailing bytes after the last transaction are ignored.
//!
//! Outbound: a digest notification, a tagged union of two variants — "our
//! batch" and "other's batch" — each carrying the 32-byte digest and the
//! worker's identity. Its layout is a 4-byte little-endian variant tag, the
//! digest bytes, and the 4-byte little-endian worker id.

use crate::bytes::{copy_bytes, le_bytes_4, le_val_4, le_val_8, read_u32_le, read_u64_le,
    u32_le_bytes};
use vstd::prelude::*;

verus! {

/// Variant tag of the batch envelope's batch variant.
pub const BATCH_TAG: u32 = 0;

/// Variant tag of an "our batch" notification.
pub const OUR_BATCH_TAG: u32 = 0;

/// Variant tag of an "other's batch" notification.
pub const OTHERS_BATCH_TAG: u32 = 1;

/// Parse `count` length-prefixed transactions from the front of `bytes`.
/// Each transaction is an 8-byte little-endian length followed by that many
/// bytes; whatever follows the last one is left unread.
pub open spec fn decode_txs(bytes: Seq<u8>, count: nat) -> Option<Seq<Seq<u8>>>
    decreases count,
{
    if count == 0 {
        Some(Seq::empty())
    } else if bytes.len() < 8 {
        None
    } else {
        let len = le_val_8(bytes.take(8));
        if bytes.len() - 8 < len {
            None
        } else {
            let tx = bytes.subrange(8, 8 + len as int);
            match decode_txs(bytes.skip(8 + len as int), (count - 1) as nat) {
                Some(rest) => Some(seq![tx] + rest),
                None => None,
            }
        }
    }
}

/// Parse a batch envelope: the batch variant's tag, the transaction count,
/// then the transactions. Any other variant, or an envelope the transactions
/// cannot be read from, is malformed.
pub open spec fn decode_batch_spec(bytes: Seq<u8>) -> Option<Seq<Seq<u8>>> {
    if bytes.len() < 12 {
        None
    } else if le_val_4(bytes.take(4)) != BATCH_TAG as nat {
        None
    } else {
        decode_txs(bytes.skip(12), le_val_8(bytes.subrange(4, 12)))
    }
}

/// Decode a batch envelope into its transactions.
pub fn decode_batch(bytes: &Vec<u8>) -> (r: Option<Vec<Vec<u8>>>)
    ensures
        match r {
            Some(txs) => decode_batch_spec(bytes@) == Some(txs.deep_view()),
            None => decode_batch_spec(bytes@) is None,
        },
{
    let total = bytes.len();
    if total < 12 {
        return None;
    }
    let tag = read_u32_le(bytes, 0);
    proof {
        assert(bytes@.subrange(0, 4) =~= bytes@.take(4));
    }
    if tag != BATCH_TAG {
        return None;
    }
    let count = read_u64_le(bytes, 4);
    let mut txs: Vec<Vec<u8>> = Vec::new();
    let mut pos: usize = 12;
    let mut i: u64 = 0;
    proof {
        assert(txs.deep_view() =~= Seq::<Seq<u8>>::empty());
        let d0 = decode_txs(bytes@.skip(12), count as nat);
        if d0 is Some {
            assert(txs.deep_view() + d0.unwrap() =~= d0.unwrap());
        }
    }
    while i < count
        invariant
            i <= count,
            12 <= pos <= bytes@.len(),
            bytes@.len() == total,
            txs@.len() == i,
            decode_batch_spec(bytes@) == match decode_txs(
                bytes@.skip(pos as int),
                (count - i) as nat,
            ) {
                Some(rest) => Some(txs.deep_view() + rest),
                None => None::<Seq<Seq<u8>>>,
            },
        decreases count - i,
    {
        let ghost tail = bytes@.skip(pos as int);
        if total - pos < 8 {
            return None;
        }
        let len64 = read_u64_le(bytes, pos);
        proof {
            assert(bytes@.subrange(pos as int, pos as int + 8) =~= tail.take(8));
        }
        if ((total - pos - 8) as u64) < len64 {
            proof {
                assert(tail.len() - 8 < le_val_8(tail.take(8)));
            }
            return None;
        }
        let len = len64 as usize;
        let mut tx: Vec<u8> = Vec::new();
        let start = pos + 8;
        let mut j: usize = 0;
        while j < len
            invariant
                j <= len,
                start + len <= total,
                bytes@.len() == total,
                tx@ == bytes@.subrange(start as int, start as int + j as int),
            decreases len - j,
        {
            tx.push(bytes[start + j]);
            proof {
                assert(tx@ =~= bytes@.subrange(start as int, start as int + j as int + 1));
            }
            j = j + 1;
        }
        let ghost tx_view = tx@;
        let ghost old_dv = txs.deep_view();
        let ghost rest_tail = bytes@.skip(start as int + len as int);
        proof {
            assert(tx_view =~= tail.subrange(8, 8 + len64 as int));
            assert(tail.skip(8 + len64 as int) =~= rest_tail);
            assert(decode_txs(tail, (count - i) as nat) == match decode_txs(
                rest_tail,
                (count - i - 1) as nat,
            ) {
                Some(rest) => Some(seq![tx_view] + rest),
                None => None::<Seq<Seq<u8>>>,
            });
            let dtr = decode_txs(rest_tail, (count - i - 1) as nat);
            if dtr is Some {
                assert(old_dv + (seq![tx_view] + dtr.unwrap()) =~= old_dv.push(tx_view)
                    + dtr.unwrap());
            }
        }
        txs.push(tx);
        proof {
            assert(txs.deep_view() =~~= old_dv.push(tx_view));
        }
        pos = start + len;
        i = i + 1;
    }
    proof {
        assert(decode_txs(bytes@.skip(pos as int), 0) == Some(Seq::<Seq<u8>>::empty()));
        assert(txs.deep_view() + Seq::<Seq<u8>>::empty() =~= txs.deep_view());
    }
    Some(txs)
}

/// An outbound digest notification: the 32-byte digest of a processed batch
/// and the identity of the worker announcing it, tagged with whether the
/// batch was this worker's own or another node's.
pub enum Notification {
    OurBatch { digest: Vec<u8>, worker_id: u32 },
    OthersBatch { digest: Vec<u8>, worker_id: u32 },
}

impl Notification {
    /// The digest the notification carries.
    pub open spec fn digest_spec(&self) -> Seq<u8> {
        match self {
            Notification::OurBatch { digest, .. } => digest@,
            Notification::OthersBatch { digest, .. } => digest@,
        }
    }

    /// The worker identity the notification carries.
    pub open spec fn worker_id_spec(&self) -> u32 {
        match self {
            Notification::OurBatch { worker_id, .. } => *worker_id,
            Notification::OthersBatch { worker_id, .. } => *worker_id,
        }
    }

    /// Whether the notification is tagged "our batch".
    pub open spec fn is_own_spec(&self) -> bool {
        self is OurBatch
    }
}

/// The serialized form of a notification: variant tag, digest bytes, worker id.
pub open spec fn notification_bytes(own: bool, digest: Seq<u8>, worker_id: u32) -> Seq<u8> {
    let tag = if own {
        OUR_BATCH_TAG
    } else {
        OTHERS_BATCH_TAG
    };
    le_bytes_4(tag as nat) + digest + le_bytes_4(worker_id as nat)
}

/// Build the notification for a processed batch: tagged "our batch" exactly
/// when this worker originates its own batches, and always carrying the
/// digest and the worker identity given.
pub fn make_notification(own: bool, digest: Vec<u8>, worker_id: u32) -> (m: Notification)
    ensures
        m.is_own_spec() == own,
        m.digest_spec() == digest@,
        m.worker_id_spec() == worker_id,
{
    if own {
        Notification::OurBatch { digest, worker_id }
    } else {
        Notification::OthersBatch { digest, worker_id }
    }
}

/// Serialize a notification.
pub fn encode_notification(m: &Notification) -> (r: Vec<u8>)
    ensures
        r@ == notification_bytes(m.is_own_spec(), m.digest_spec(), m.worker_id_spec()),
{
    let (digest, worker_id, tag) = match m {
        Notification::OurBatch { digest, worker_id } => (digest, *worker_id, OUR_BATCH_TAG),
        Notification::OthersBatch { digest, worker_id } => (digest, *worker_id, OTHERS_BATCH_TAG),
    };
    let mut r = u32_le_bytes(tag);
    let mut body = copy_bytes(digest);
    r.append(&mut body);
    let mut id_bytes = u32_le_bytes(worker_id);
    r.append(&mut id_bytes);
    proof {
        assert(r@ =~= notification_bytes(m.is_own_spec(), m.digest_spec(), m.worker_id_spec()));
    }
    r
}

} // verus!
