//! Shard partitioning for bulk signature verification.
//!
//! A prefix `[0, count)` of the verification corpus is split into a fixed
//! number of contiguous ranges, one per shard: shard `i` covers
//! `[count*i / 64, min(count, count*(i+1) / 64))`. The ranges are pairwise
//! disjoint and together cover exactly `[0, count)`.

use vstd::arithmetic::div_mod::{lemma_div_is_ordered, lemma_div_multiples_vanish, lemma_div_of0};
use vstd::arithmetic::mul::{lemma_mul_inequality, lemma_mul_is_commutative};
use vstd::prelude::*;

verus! {

/// Number of shards a verification pass is split into.
pub const SHARD_COUNT: usize = 64;

/// Largest prefix length a verification pass may cover.
pub const MAX_VERIFY_COUNT: usize = 100000;

/// First corpus index of shard `i` when `count` entries are verified.
pub open spec fn shard_lo(count: int, i: int) -> int {
    (count * i) / 64
}

/// One past the last corpus index of shard `i` when `count` entries are verified.
pub open spec fn shard_hi(count: int, i: int) -> int {
    let raw = (count * (i + 1)) / 64;
    if raw < count {
        raw
    } else {
        count
    }
}

/// The lower shard boundaries do not decrease with the shard index.
pub proof fn lemma_shard_lo_monotonic(count: int, i: int, j: int)
    requires
        0 <= count,
        0 <= i <= j,
    ensures
        shard_lo(count, i) <= shard_lo(count, j),
{
    lemma_mul_inequality(i, j, count);
    lemma_mul_is_commutative(i, count);
    lemma_mul_is_commutative(j, count);
    lemma_div_is_ordered(count * i, count * j, 64);
}

/// Each shard ends exactly where the next one starts.
pub proof fn lemma_shard_hi_is_next_lo(count: int, i: int)
    requires
        0 <= count,
        0 <= i < 64,
    ensures
        shard_hi(count, i) == shard_lo(count, i + 1),
{
    lemma_mul_inequality(i + 1, 64, count);
    lemma_mul_is_commutative(i + 1, count);
    lemma_mul_is_commutative(64, count);
    lemma_div_is_ordered(count * (i + 1), count * 64, 64);
    lemma_div_multiples_vanish(count, 64);
}

/// A shard's range sits inside `[0, count)` and is well formed.
pub proof fn lemma_shard_bounds(count: int, i: int)
    requires
        0 <= count,
        0 <= i < 64,
    ensures
        0 <= shard_lo(count, i),
        shard_lo(count, i) <= shard_hi(count, i),
        shard_hi(count, i) <= count,
{
    lemma_div_of0(64);
    lemma_mul_inequality(0, i, count);
    lemma_mul_is_commutative(0, count);
    lemma_mul_is_commutative(i, count);
    lemma_div_is_ordered(0, count * i, 64);
    lemma_mul_inequality(i, i + 1, count);
    lemma_mul_is_commutative(i + 1, count);
    lemma_div_is_ordered(count * i, count * (i + 1), 64);
    lemma_mul_inequality(i, 64, count);
    lemma_mul_is_commutative(64, count);
    lemma_div_is_ordered(count * i, count * 64, 64);
    lemma_div_multiples_vanish(count, 64);
}

proof fn find_covering_shard(count: int, k: int, i: int) -> (res: int)
    requires
        0 <= k < count,
        0 <= i < 64,
        shard_lo(count, i) <= k,
    ensures
        0 <= res < 64,
        shard_lo(count, res) <= k < shard_hi(count, res),
    decreases 64 - i,
{
    if k < shard_hi(count, i) {
        i
    } else {
        lemma_shard_hi_is_next_lo(count, i);
        lemma_div_multiples_vanish(count, 64);
        assert(shard_lo(count, 64) == count);
        assert(i < 63);
        find_covering_shard(count, k, i + 1)
    }
}

/// Every index below `count` is covered by some shard: no index is omitted.
pub proof fn lemma_shards_cover(count: int, k: int) -> (i: int)
    requires
        0 <= k < count,
    ensures
        0 <= i < 64,
        shard_lo(count, i) <= k < shard_hi(count, i),
{
    assert(count * 0 == 0);
    lemma_div_of0(64);
    find_covering_shard(count, k, 0)
}

/// No index is covered by two different shards.
pub proof fn lemma_shards_disjoint(count: int, i: int, j: int, k: int)
    requires
        0 <= count,
        0 <= i < j < 64,
        shard_lo(count, i) <= k < shard_hi(count, i),
    ensures
        !(shard_lo(count, j) <= k < shard_hi(count, j)),
{
    lemma_shard_hi_is_next_lo(count, i);
    lemma_shard_lo_monotonic(count, i + 1, j);
}

/// Compute the range of corpus indices that shard `i` verifies.
pub fn shard_range(count: usize, i: usize) -> (r: (usize, usize))
    requires
        count <= MAX_VERIFY_COUNT,
        i < SHARD_COUNT,
    ensures
        r.0 as int == shard_lo(count as int, i as int),
        r.1 as int == shard_hi(count as int, i as int),
        r.0 <= r.1 <= count,
{
    proof {
        lemma_mul_inequality(i as int, 64, count as int);
        lemma_mul_is_commutative(i as int, count as int);
        lemma_mul_is_commutative(64, count as int);
        lemma_mul_inequality(i as int + 1, 64, count as int);
        lemma_mul_is_commutative(i as int + 1, count as int);
        lemma_shard_bounds(count as int, i as int);
    }
    let start = (count * i) / 64;
    let raw = (count * (i + 1)) / 64;
    let end = if raw < count {
        raw
    } else {
        count
    };
    (start, end)
}

/// Compute the 64 shard ranges for a verification pass over `[0, count)`.
pub fn shard_ranges(count: usize) -> (r: Vec<(usize, usize)>)
    requires
        count <= MAX_VERIFY_COUNT,
    ensures
        r@.len() == SHARD_COUNT,
        forall|i: int|
            0 <= i < 64 ==> (#[trigger] r@[i]).0 as int == shard_lo(count as int, i)
                && r@[i].1 as int == shard_hi(count as int, i),
        forall|i: int| 0 <= i < 64 ==> (#[trigger] r@[i]).0 <= r@[i].1 <= count,
{
    let mut r: Vec<(usize, usize)> = Vec::new();
    let mut i: usize = 0;
    while i < SHARD_COUNT
        invariant
            i <= 64,
            count <= MAX_VERIFY_COUNT,
            r@.len() == i,
            forall|j: int|
                0 <= j < i ==> (#[trigger] r@[j]).0 as int == shard_lo(count as int, j)
                    && r@[j].1 as int == shard_hi(count as int, j),
            forall|j: int| 0 <= j < i ==> (#[trigger] r@[j]).0 <= r@[j].1 <= count,
        decreases 64 - i,
    {
        let range = shard_range(count, i);
        r.push(range);
        i = i + 1;
    }
    r
}

} // verus!
