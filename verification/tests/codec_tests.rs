use batch_processor::messages::{decode_batch, encode_notification, make_notification};

fn envelope(tag: u32, txs: &[Vec<u8>]) -> Vec<u8> {
    bincode::serialize(&(tag, txs.to_vec())).unwrap()
}

#[test]
fn decodes_a_bincode_batch_envelope() {
    let txs = vec![vec![1u8, 2, 3], Vec::new(), vec![9u8; 10]];
    let bytes = envelope(0, &txs);
    assert_eq!(decode_batch(&bytes), Some(txs));
}

#[test]
fn decodes_an_empty_batch() {
    let bytes = envelope(0, &[]);
    assert_eq!(decode_batch(&bytes), Some(Vec::new()));
}

#[test]
fn rejects_other_variants() {
    let bytes = envelope(1, &[vec![1u8, 2, 3]]);
    assert_eq!(decode_batch(&bytes), None);
}

#[test]
fn rejects_truncated_envelopes() {
    let mut bytes = envelope(0, &[vec![1u8, 2, 3], vec![4u8]]);
    bytes.pop();
    assert_eq!(decode_batch(&bytes), None);
    assert_eq!(decode_batch(&Vec::new()), None);
    assert_eq!(decode_batch(&vec![0u8; 11]), None);
}

#[test]
fn ignores_trailing_bytes_as_bincode_does() {
    let txs = vec![vec![7u8, 8]];
    let mut bytes = envelope(0, &txs);
    bytes.push(0xAB);
    assert_eq!(decode_batch(&bytes), Some(txs));
}

#[test]
fn our_batch_notification_matches_bincode() {
    let digest: Vec<u8> = (0u8..32).collect();
    let mut arr = [0u8; 32];
    arr.copy_from_slice(&digest);
    let note = make_notification(true, digest, 3);
    let expected = bincode::serialize(&(0u32, arr, 3u32)).unwrap();
    assert_eq!(encode_notification(&note), expected);
}

#[test]
fn others_batch_notification_matches_bincode() {
    let digest: Vec<u8> = (100u8..132).collect();
    let mut arr = [0u8; 32];
    arr.copy_from_slice(&digest);
    let note = make_notification(false, digest, 11);
    let expected = bincode::serialize(&(1u32, arr, 11u32)).unwrap();
    assert_eq!(encode_notification(&note), expected);
}
