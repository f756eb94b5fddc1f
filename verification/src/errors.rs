//! Error kinds returned by the gateway's verified logic.
//!
//! "Not found" is never an error: a missing block, header, extrinsic or
//! storage cell is reported as an empty result by the functions that look
//! things up. Transport failures are raised by the unverified I/O layer
//! around this library and never originate here.

use vstd::prelude::*;

verus! {

/// A stable, machine-readable error kind.
#[derive(Clone, Copy, Debug, PartialEq, Eq, Structural)]
pub enum Error {
    /// A shard index lies outside the configured range.
    InvalidShard,
    /// An address failed to decode to a 32-byte public key.
    InvalidAddress,
    /// Submitted or embedded bytes do not deserialize as a transaction,
    /// or the transaction carries no signature.
    InvalidExtrinsic,
    /// A fixed-width or structured decode failed, or a value could not be
    /// projected into the generic structured form.
    ParseError,
}

} // verus!
