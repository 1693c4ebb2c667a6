//! Batch-processing stage of a mempool worker node.
//!
//! The library receives raw batch bytes, fingerprints them with a truncated
//! SHA-512 digest, optionally verifies a sharded signature workload drawn from
//! a fixed synthetic corpus, and prepares the durable write and the digest
//! notification for the consensus-facing primary, in that order.

pub mod bytes;
pub mod corpus;
pub mod digest;
pub mod messages;
pub mod pipeline;
pub mod shards;
