use batch_processor::corpus::{all_shards_ok, verification_count, VerificationCorpus};
use batch_processor::pipeline::{Action, Processor, ProcessError};
use ed25519_dalek::Digest as _;
use ed25519_dalek::Signer as _;

fn envelope(txs: &[Vec<u8>]) -> Vec<u8> {
    bincode::serialize(&(0u32, txs.to_vec())).unwrap()
}

fn expected_digest(batch: &[u8]) -> Vec<u8> {
    ed25519_dalek::Sha512::digest(batch)[..32].to_vec()
}

fn expected_notification(own: bool, digest: &[u8], worker_id: u32) -> Vec<u8> {
    let mut arr = [0u8; 32];
    arr.copy_from_slice(digest);
    let tag: u32 = if own { 0 } else { 1 };
    bincode::serialize(&(tag, arr, worker_id)).unwrap()
}

/// Drive a task to completion, recording the store write and the sent
/// notification in order.
fn run_task(
    task: &mut batch_processor::pipeline::BatchTask,
) -> Vec<(&'static str, Vec<u8>, Vec<u8>)> {
    let mut events = Vec::new();
    loop {
        let step = match task.next_action() {
            Action::Write(key, value) => Some(("write", key.clone(), value.clone())),
            Action::Send(note) => Some(("send", note.clone(), Vec::new())),
            Action::Finished => None,
        };
        match step {
            Some(event) => {
                events.push(event);
                task.acknowledge();
            }
            None => break,
        }
    }
    events
}

#[test]
fn disabled_verification_stores_then_announces_own_batch() {
    // worker 3, own batches, verification disabled, two transactions.
    let processor = Processor::from_parts(3, true, None);
    let batch = envelope(&[b"tx_a".to_vec(), b"tx_b".to_vec()]);
    let digest = expected_digest(&batch);

    let mut task = match processor.process_batch(batch.clone()) {
        Ok(task) => task,
        Err(_) => panic!("batch must be accepted when verification is disabled"),
    };
    assert!(!task.oversized);
    assert_eq!(task.tx_count, None);

    let events = run_task(&mut task);
    assert_eq!(events.len(), 2);
    assert_eq!(events[0].0, "write");
    assert_eq!(events[0].1, digest);
    assert_eq!(events[0].2, batch);
    assert_eq!(events[1].0, "send");
    assert_eq!(events[1].1, expected_notification(true, &digest, 3));
}

#[test]
fn relayed_batches_are_tagged_as_others() {
    let processor = Processor::from_parts(9, false, None);
    let batch = envelope(&[b"tx".to_vec()]);
    let digest = expected_digest(&batch);
    let mut task = processor.process_batch(batch).unwrap();
    let events = run_task(&mut task);
    assert_eq!(events[1].1, expected_notification(false, &digest, 9));
}

#[test]
fn undecodable_bytes_pass_through_when_verification_is_disabled() {
    let processor = Processor::from_parts(0, true, None);
    let batch = vec![0xFFu8; 7];
    let digest = expected_digest(&batch);
    let mut task = processor.process_batch(batch.clone()).unwrap();
    let events = run_task(&mut task);
    assert_eq!(events[0].1, digest);
    assert_eq!(events[0].2, batch);
}

#[test]
fn enabled_verification_accepts_a_batch_and_proceeds() {
    // A batch of five transactions against a small corpus: verification
    // covers indices [0, 5) split over 64 shards and succeeds, and the
    // pipeline stores then announces exactly as in the disabled case.
    let corpus = VerificationCorpus::build(32);
    let processor = Processor::from_parts(3, true, Some(corpus));
    let txs: Vec<Vec<u8>> = (0u8..5).map(|i| vec![i]).collect();
    let batch = envelope(&txs);
    let digest = expected_digest(&batch);

    let mut task = processor.process_batch(batch.clone()).unwrap();
    assert!(!task.oversized);
    let events = run_task(&mut task);
    assert_eq!(events.len(), 2);
    assert_eq!(events[0].0, "write");
    assert_eq!(events[0].1, digest);
    assert_eq!(events[0].2, batch);
    assert_eq!(events[1].0, "send");
    assert_eq!(events[1].1, expected_notification(true, &digest, 3));
}

#[test]
fn oversized_batch_is_truncated_not_rejected() {
    // More transactions than corpus entries: coverage is capped at the
    // corpus size, the task is flagged for a warning, and the batch goes on.
    let corpus = VerificationCorpus::build(4);
    let processor = Processor::from_parts(5, false, Some(corpus));
    let txs: Vec<Vec<u8>> = (0u8..6).map(|i| vec![i]).collect();
    let batch = envelope(&txs);
    let mut task = processor.process_batch(batch).unwrap();
    assert!(task.oversized);
    assert_eq!(task.tx_count, Some(6));
    let events = run_task(&mut task);
    assert_eq!(events.len(), 2);
}

#[test]
fn verification_count_caps_at_corpus_size() {
    assert_eq!(verification_count(5, 100000), 5);
    assert_eq!(verification_count(100000, 100000), 100000);
    assert_eq!(verification_count(100001, 100000), 100000);
    assert_eq!(verification_count(0, 100000), 0);
}

#[test]
fn malformed_envelope_is_fatal_when_verification_is_enabled() {
    let corpus = VerificationCorpus::build(2);
    let processor = Processor::from_parts(1, true, Some(corpus));
    let result = processor.process_batch(vec![0xFFu8; 7]);
    assert!(matches!(result, Err(ProcessError::MalformedBatch)));
}

#[test]
fn one_bad_corpus_entry_fails_the_whole_batch() {
    // A corpus whose first signature does not match its message: the shard
    // covering index 0 fails its batched check, so the whole verification
    // fails and the batch is neither stored nor announced.
    let mut rng = rand::rngs::OsRng;
    let mut messages = Vec::new();
    let mut signatures = Vec::new();
    let mut publics = Vec::new();
    for i in 0u64..8 {
        let keypair = ed25519_dalek::Keypair::generate(&mut rng);
        let message = i.to_le_bytes().to_vec();
        let signed = if i == 0 { b"not the message".to_vec() } else { message.clone() };
        signatures.push(keypair.sign(&signed));
        publics.push(keypair.public);
        messages.push(message);
    }
    let corpus = VerificationCorpus::from_parts(messages, signatures, publics);
    let processor = Processor::from_parts(1, true, Some(corpus));
    let txs: Vec<Vec<u8>> = (0u8..8).map(|i| vec![i]).collect();
    let result = processor.process_batch(envelope(&txs));
    assert!(matches!(
        result,
        Err(ProcessError::VerificationFailed { tx_count: 8, oversized: false })
    ));
}

#[test]
fn empty_batch_verifies_trivially() {
    // Zero transactions mean zero verification work: 64 empty shards, and
    // the pipeline proceeds to store and emit.
    let corpus = VerificationCorpus::build(8);
    let processor = Processor::from_parts(2, true, Some(corpus));
    let batch = envelope(&[]);
    let mut task = processor.process_batch(batch).unwrap();
    assert!(!task.oversized);
    assert_eq!(task.tx_count, Some(0));
    assert_eq!(run_task(&mut task).len(), 2);
}

#[test]
fn empty_corpus_gives_trivially_successful_verification() {
    // With nothing to verify against, the covered prefix is empty and every
    // batch that decodes is accepted (and flagged oversized when non-empty).
    let corpus = VerificationCorpus::build(0);
    let processor = Processor::from_parts(2, true, Some(corpus));
    let task = processor.process_batch(envelope(&[vec![1u8], vec![2u8]])).unwrap();
    assert!(task.oversized);
    assert_eq!(task.tx_count, Some(2));
}

#[test]
fn all_shards_must_succeed() {
    assert!(all_shards_ok(&vec![true; 64]));
    assert!(all_shards_ok(&Vec::new()));
    let mut flags = vec![true; 64];
    flags[63] = false;
    assert!(!all_shards_ok(&flags));
    let mut flags = vec![true; 64];
    flags[0] = false;
    assert!(!all_shards_ok(&flags));
}
