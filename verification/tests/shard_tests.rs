use batch_processor::shards::shard_range;

#[test]
fn partition_covers_every_index_exactly_once() {
    for &count in &[0usize, 1, 2, 5, 63, 64, 65, 100, 127, 1000, 4096, 99999, 100000] {
        let mut covered = vec![0u32; count];
        for i in 0..64 {
            let (start, end) = shard_range(count, i);
            assert!(start <= end);
            assert!(end <= count);
            for item in covered.iter_mut().take(end).skip(start) {
                *item += 1;
            }
        }
        assert!(covered.iter().all(|&c| c == 1));
    }
}

#[test]
fn shards_are_contiguous_from_zero_to_count() {
    for &count in &[0usize, 5, 64, 99, 100000] {
        assert_eq!(shard_range(count, 0).0, 0);
        for i in 0..63 {
            assert_eq!(shard_range(count, i).1, shard_range(count, i + 1).0);
        }
        assert_eq!(shard_range(count, 63).1, count);
    }
}

#[test]
fn small_count_leaves_most_shards_empty() {
    // Five entries over 64 shards: five singleton ranges, 59 empty ones.
    let mut nonempty = 0;
    let mut total = 0;
    for i in 0..64 {
        let (start, end) = shard_range(5, i);
        assert!(end - start <= 1);
        if end > start {
            nonempty += 1;
        }
        total += end - start;
    }
    assert_eq!(nonempty, 5);
    assert_eq!(total, 5);
}

#[test]
fn uneven_counts_match_the_partition_rule() {
    // Shard i covers [count*i/64, min(count, count*(i+1)/64)).
    for &count in &[7usize, 65, 12345] {
        for i in 0..64 {
            let (start, end) = shard_range(count, i);
            assert_eq!(start, count * i / 64);
            assert_eq!(end, std::cmp::min(count, count * (i + 1) / 64));
        }
    }
}
