//! Shard routing: the deterministic partition function from a public key to
//! the shard that owns it.
//!
//! The shard of a key is taken from the key's trailing bytes, reduced modulo
//! the shard count, so it is a pure function of the key and the count and is
//! stable across restarts.

use vstd::prelude::*;

verus! {

/// The 16-bit sample a key is partitioned by: its last two bytes read
/// big-endian (shorter inputs are padded with leading zero bytes).
pub open spec fn shard_sample(bytes: Seq<u8>) -> u16 {
    if bytes.len() >= 2 {
        (bytes[bytes.len() - 2] * 256 + bytes[bytes.len() - 1]) as u16
    } else if bytes.len() == 1 {
        bytes[0] as u16
    } else {
        0
    }
}

/// The shard owning a key: its sample modulo the shard count.
/// `None` exactly when the shard count is zero.
pub open spec fn spec_shard_num(bytes: Seq<u8>, shard_count: u16) -> Option<u16> {
    if shard_count == 0 {
        None
    } else {
        Some((shard_sample(bytes) % shard_count) as u16)
    }
}

/// Maps a public key (or any byte string) to its owning shard.
pub fn shard_num_for_bytes(bytes: &[u8], shard_count: u16) -> (r: Option<u16>)
    ensures
        r == spec_shard_num(bytes@, shard_count),
{
    if shard_count == 0 {
        return None;
    }
    let len = bytes.len();
    let sample: u16 = if len >= 2 {
        (bytes[len - 2] as u16) * 256 + (bytes[len - 1] as u16)
    } else if len == 1 {
        bytes[0] as u16
    } else {
        0
    };
    Some(sample % shard_count)
}

/// Law: for every key and every shard count above zero, the routing function
/// yields a shard, and that shard lies in `[0, shard_count)`. Determinism
/// needs no separate statement: `spec_shard_num` is a function of its
/// arguments alone, and `shard_num_for_bytes` returns exactly its value.
pub proof fn lemma_shard_num_in_range(bytes: Seq<u8>, shard_count: u16)
    requires
        shard_count > 0,
    ensures
        spec_shard_num(bytes, shard_count) matches Some(n) && n < shard_count,
{
}

} // verus!
