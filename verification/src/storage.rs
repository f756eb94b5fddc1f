//! Storage-key derivation: the address of a cell in a shard's state trie.
//!
//! A singleton item's key is the 256-bit BLAKE2b digest of its module-item
//! name; a map entry's key is the digest of the item name followed by the
//! entry's key bytes. Both must match the target chain's addressing scheme
//! bit for bit: a wrong key silently reads an empty cell rather than failing.

use vstd::prelude::*;
use vstd::slice::slice_to_vec;

verus! {

/// The 32-byte BLAKE2b digest of a byte string.
pub uninterp spec fn spec_blake2b_256(data: Seq<u8>) -> Seq<u8>;

/// Relies on blake2_rfc::blake2b::blake2b with 32-byte output and an empty
/// key: the digest is a function of the input bytes alone and is 32 bytes
/// long.
#[verifier::external_body]
pub(crate) fn blake2b_256(data: &[u8]) -> (r: Vec<u8>)
    ensures
        r@ == spec_blake2b_256(data@),
        r@.len() == 32,
{
    blake2_rfc::blake2b::blake2b(32, &[], data).as_bytes().to_vec()
}

/// The storage key of a singleton item.
pub open spec fn spec_value_storage_key(name: Seq<u8>) -> Seq<u8> {
    spec_blake2b_256(name)
}

/// The storage key of one entry of a map-style item.
pub open spec fn spec_map_storage_key(key: Seq<u8>, name: Seq<u8>) -> Seq<u8> {
    spec_blake2b_256(name + key)
}

/// Derives the storage key addressing a singleton item by its module-item
/// name.
pub fn get_value_storage_key(name: &[u8]) -> (r: Vec<u8>)
    ensures
        r@ == spec_value_storage_key(name@),
        r@.len() == 32,
{
    blake2b_256(name)
}

/// Derives the storage key addressing one entry of a map-style item: the
/// digest of the item name followed by the entry key.
pub fn get_map_storage_key(key: &[u8], name: &[u8]) -> (r: Vec<u8>)
    ensures
        r@ == spec_map_storage_key(key@, name@),
        r@.len() == 32,
{
    let mut buf: Vec<u8> = slice_to_vec(name);
    buf.extend_from_slice(key);
    assert(buf@ == name@ + key@);
    blake2b_256(buf.as_slice())
}

/// Law: storage-key derivation is pure and stable. A key is a function of
/// the item name (and, for map entries, the entry key) alone, so identical
/// inputs always derive identical keys, across calls and across restarts.
pub proof fn lemma_storage_key_stable(name1: Seq<u8>, key1: Seq<u8>, name2: Seq<u8>, key2: Seq<u8>)
    requires
        name1 == name2,
        key1 == key2,
    ensures
        spec_value_storage_key(name1) == spec_value_storage_key(name2),
        spec_map_storage_key(key1, name1) == spec_map_storage_key(key2, name2),
{
}

} // verus!
