//! The per-batch processing pipeline.
//!
//! For each batch the processor hashes the raw bytes, optionally verifies a
//! sharded signature workload sized by the batch's transaction count, and then
//! hands back a task that first writes `(digest, bytes)` to the durable store
//! and only afterwards releases the digest notification for the primary: a
//! digest is never announced before the bytes it names are retrievable.

use crate::corpus::{verification_count, VerificationCorpus, CORPUS_SIZE};
use crate::digest::{batch_digest, batch_digest_spec};
use crate::messages::{decode_batch, decode_batch_spec, encode_notification, make_notification,
    notification_bytes};
use crate::bytes::{copy_bytes, le_bytes_8};
use vstd::prelude::*;

verus! {

/// Why a batch was rejected. Both conditions are fatal for the processor:
/// they signal a protocol violation or a corrupt or malicious peer.
#[derive(Debug, PartialEq, Eq, Structural)]
pub enum ProcessError {
    /// Verification was enabled and the envelope did not decode to the batch
    /// variant's transaction sequence.
    MalformedBatch,
    /// At least one verification shard's batched signature check failed, for
    /// a batch of `tx_count` transactions. `oversized` records whether the
    /// warning about truncated coverage was owed before the abort.
    VerificationFailed { tx_count: usize, oversized: bool },
}

/// Where a batch task stands: its store write is still owed, or the write is
/// acknowledged and the notification may go out, or both are done.
#[derive(Clone, Copy, Debug, PartialEq, Eq, Structural)]
pub enum Phase {
    AwaitWrite,
    AwaitSend,
    Done,
}

/// The successor of each phase: acknowledging the pending step moves the task
/// one phase forward, and a finished task stays finished.
pub open spec fn phase_step(p: Phase) -> Phase {
    match p {
        Phase::AwaitWrite => Phase::AwaitSend,
        Phase::AwaitSend => Phase::Done,
        Phase::Done => Phase::Done,
    }
}

/// The one outside step a batch task asks for next.
pub enum Action<'a> {
    /// Write the value under the key into the durable store.
    Write(&'a Vec<u8>, &'a Vec<u8>),
    /// Send the serialized notification to the primary.
    Send(&'a Vec<u8>),
    /// Nothing is left to do for this batch.
    Finished,
}

/// An accepted batch's remaining work: the store write and, strictly after
/// it, the notification send.
pub struct BatchTask {
    /// Which step is owed next.
    pub phase: Phase,
    /// The storage key: the batch's 32-byte digest.
    pub key: Vec<u8>,
    /// The value to store: the raw batch bytes, untouched.
    pub value: Vec<u8>,
    /// The serialized notification announcing the digest.
    pub notification: Vec<u8>,
    /// Whether the batch had more transactions than the corpus could cover,
    /// so that verification was truncated to the corpus size. To be surfaced
    /// as a warning; it never fails the batch.
    pub oversized: bool,
    /// The batch's decoded transaction count; `None` when verification is
    /// disabled and nothing was decoded. Carried so that the caller can name
    /// the count when it warns about truncated coverage.
    pub tx_count: Option<usize>,
}

impl BatchTask {
    /// The next outside step: the write while it is owed, the send only once
    /// the write is acknowledged, nothing afterwards.
    pub fn next_action<'a>(&'a self) -> (a: Action<'a>)
        ensures
            match a {
                Action::Write(k, v) => self.phase is AwaitWrite && k@ == self.key@ && v@
                    == self.value@,
                Action::Send(n) => self.phase is AwaitSend && n@ == self.notification@,
                Action::Finished => self.phase is Done,
            },
    {
        match self.phase {
            Phase::AwaitWrite => Action::Write(&self.key, &self.value),
            Phase::AwaitSend => Action::Send(&self.notification),
            Phase::Done => Action::Finished,
        }
    }

    /// Record that the pending step completed: the task moves to its next
    /// phase and carries the same key, value and notification.
    pub fn acknowledge(&mut self)
        ensures
            final (self).phase == phase_step(old(self).phase),
            final (self).key == old(self).key,
            final (self).value == old(self).value,
            final (self).notification == old(self).notification,
            final (self).oversized == old(self).oversized,
            final (self).tx_count == old(self).tx_count,
    {
        self.phase = match self.phase {
            Phase::AwaitWrite => Phase::AwaitSend,
            Phase::AwaitSend => Phase::Done,
            Phase::Done => Phase::Done,
        };
    }
}

/// The store write strictly precedes the notification send: along any run of
/// a batch task — a sequence of phases that starts at the write phase and
/// follows `phase_step` — the send phase is only ever entered from the write
/// phase, so the write's acknowledgement comes before the notification is
/// obtainable.
pub proof fn lemma_write_precedes_send(trace: Seq<Phase>, j: int)
    requires
        trace.len() > 0,
        trace[0] == Phase::AwaitWrite,
        forall|t: int| 0 < t < trace.len() ==> trace[t] == phase_step(#[trigger] trace[t - 1]),
        0 <= j < trace.len(),
        trace[j] == Phase::AwaitSend,
    ensures
        0 < j,
        trace[j - 1] == Phase::AwaitWrite,
{
    assert(trace[j] == phase_step(trace[j - 1]));
}

/// One worker's batch-processing stage: its identity, whether it announces
/// batches as its own, and — when verification is enabled — the corpus the
/// signature workload is drawn from.
pub struct Processor {
    /// This worker's identity, carried in every notification.
    pub worker_id: u32,
    /// Whether this instance processes its own batches (`true`) or batches
    /// relayed from other nodes (`false`).
    pub own_digest: bool,
    /// The verification corpus; `None` when verification is disabled.
    pub corpus: Option<VerificationCorpus>,
}

impl Processor {
    /// The corpus, when present, is well formed.
    pub open spec fn wf(&self) -> bool {
        match self.corpus {
            Some(c) => c.wf(),
            None => true,
        }
    }

    /// Whether signature verification is enabled.
    pub open spec fn verification_enabled(&self) -> bool {
        self.corpus is Some
    }

    /// Assemble a processor from parts.
    pub fn from_parts(worker_id: u32, own_digest: bool, corpus: Option<VerificationCorpus>) -> (p:
        Self)
        requires
            match corpus {
                Some(c) => c.wf(),
                None => true,
            },
        ensures
            p.wf(),
            p.worker_id == worker_id,
            p.own_digest == own_digest,
            p.corpus == corpus,
    {
        Processor { worker_id, own_digest, corpus }
    }

    /// Set up a processor; when verification is enabled this builds the full
    /// corpus of 100000 signed counters, a one-time startup cost.
    pub fn new(worker_id: u32, own_digest: bool, enable_verification: bool) -> (p: Self)
        ensures
            p.wf(),
            p.worker_id == worker_id,
            p.own_digest == own_digest,
            p.verification_enabled() == enable_verification,
            enable_verification ==> p.corpus.unwrap().size() == CORPUS_SIZE,
            enable_verification ==> forall|i: int|
                0 <= i < CORPUS_SIZE ==> p.corpus.unwrap().message_at(i) == le_bytes_8(i as nat),
    {
        let corpus = if enable_verification {
            Some(VerificationCorpus::build(CORPUS_SIZE))
        } else {
            None
        };
        Processor { worker_id, own_digest, corpus }
    }

    /// Process one received batch: hash the raw bytes, verify when enabled,
    /// and return the task owing the store write and then the notification.
    ///
    /// When verification is disabled every batch is accepted. When it is
    /// enabled, an envelope that does not decode is rejected as malformed,
    /// and a decoded batch is rejected exactly when its sharded signature
    /// check fails. A batch with more transactions than the corpus holds is
    /// not rejected for that: its first `corpus size` transactions are
    /// covered and the task is marked oversized.
    pub fn process_batch(&self, batch: Vec<u8>) -> (r: Result<BatchTask, ProcessError>)
        requires
            self.wf(),
        ensures
            match r {
                Ok(task) => {
                    &&& task.phase is AwaitWrite
                    &&& task.key@ == batch_digest_spec(batch@)
                    &&& task.value@ == batch@
                    &&& task.notification@ == notification_bytes(
                        self.own_digest,
                        batch_digest_spec(batch@),
                        self.worker_id,
                    )
                    &&& self.verification_enabled() ==> {
                        &&& decode_batch_spec(batch@) is Some
                        &&& task.oversized == (decode_batch_spec(batch@).unwrap().len()
                            > self.corpus.unwrap().size())
                    }
                    &&& !self.verification_enabled() ==> !task.oversized
                    &&& match task.tx_count {
                        Some(n) => self.verification_enabled() && decode_batch_spec(batch@)
                            is Some && n == decode_batch_spec(batch@).unwrap().len(),
                        None => !self.verification_enabled(),
                    }
                },
                Err(e) => {
                    &&& self.verification_enabled()
                    &&& match e {
                        ProcessError::MalformedBatch => decode_batch_spec(batch@) is None,
                        ProcessError::VerificationFailed { tx_count, oversized } => {
                            &&& decode_batch_spec(batch@) is Some
                            &&& tx_count == decode_batch_spec(batch@).unwrap().len()
                            &&& oversized == (decode_batch_spec(batch@).unwrap().len()
                                > self.corpus.unwrap().size())
                        },
                    }
                },
            },
            !self.verification_enabled() ==> r is Ok,
            self.verification_enabled() && decode_batch_spec(batch@) is Some
                && decode_batch_spec(batch@).unwrap().len() == 0 ==> r is Ok,
    {
        let mut oversized = false;
        let mut tx_count: Option<usize> = None;
        match &self.corpus {
            None => {},
            Some(corpus) => {
                match decode_batch(&batch) {
                    None => {
                        return Err(ProcessError::MalformedBatch);
                    },
                    Some(txs) => {
                        let len = txs.len();
                        let corpus_len = corpus.len();
                        let count = verification_count(len, corpus_len);
                        oversized = len > corpus_len;
                        tx_count = Some(len);
                        proof {
                            assert(decode_batch_spec(batch@).unwrap().len() == txs@.len());
                        }
                        if !corpus.verify_prefix(count) {
                            return Err(ProcessError::VerificationFailed { tx_count: len, oversized });
                        }
                    },
                }
            },
        }
        let key = batch_digest(&batch);
        let note_digest = copy_bytes(&key);
        let note = make_notification(self.own_digest, note_digest, self.worker_id);
        let notification = encode_notification(&note);
        Ok(
            BatchTask {
                phase: Phase::AwaitWrite,
                key,
                value: batch,
                notification,
                oversized,
                tx_count,
            },
        )
    }
}

} // verus!


