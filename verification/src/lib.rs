//! A verified query gateway core for a horizontally-sharded chain.
//!
//! The library holds the gateway's decision and decoding logic: shard
//! routing, binary codecs for storage cells and chain event logs, storage-key
//! derivation, assembly and filtering of fetched blocks, the bounded
//! range-scan used to locate relay transactions, projection of results into a
//! generic structured value, and the enrichment passes that add derived
//! address and shard fields. The asynchronous transport that actually reaches
//! a shard's node stays outside: callers fetch raw data and hand it to the
//! functions here as plain values.

use vstd::prelude::*;

pub mod address;
pub mod codec;
pub mod enrich;
pub mod errors;
pub mod events;
pub mod hexstr;
pub mod pipeline;
pub mod shard;
pub mod storage;
pub mod txcodec;
pub mod types;
pub mod value;

use crate::address::spec_bech32_decode;
use crate::errors::Error;
use crate::pipeline::{account_query_prep, AccountQuery};
use crate::shard::spec_shard_num;
use crate::storage::spec_map_storage_key;
use crate::txcodec::{spec_parse_tx, submit_route};

verus! {

/// Process-wide configuration, constructed once at startup: one endpoint per
/// shard (the shard count is the number of entries) and the human-readable
/// address prefix.
pub struct Config {
    /// One node endpoint per shard; a shard's index is its position here.
    pub shards: Vec<String>,
    /// Human-readable part prepended to encoded addresses.
    pub hrp: String,
}

impl Config {
    /// A configuration is well formed when its shard count fits in a `u16`.
    pub open spec fn wf(&self) -> bool {
        self.shards@.len() <= u16::MAX
    }

    /// The number of configured shards.
    pub fn shard_count(&self) -> (r: u16)
        requires
            self.wf(),
        ensures
            r == self.shards@.len(),
    {
        self.shards.len() as u16
    }
}

/// The gateway's request handler state: the configuration snapshot shared by
/// every operation.
pub struct Chain {
    /// Configuration snapshot taken at startup.
    pub config: Config,
}

impl Chain {
    /// Create a new gateway handler over the given configuration.
    pub fn new(config: Config) -> (r: Self)
        ensures
            r.config == config,
    {
        Chain { config }
    }
}

/// The bytes of an ASCII string, one byte per character.
pub open spec fn ascii_bytes(s: Seq<char>) -> Seq<u8> {
    Seq::new(s.len(), |i: int| s[i] as u8)
}

/// Validates a caller-supplied shard index against the configured count.
/// The boundary is deliberately inclusive of the count itself: the external
/// protocol this gateway fronts has always accepted `shard_num ==
/// shard_count`, and that behaviour is kept bit-for-bit.
pub fn check_shard_num(shard_num: u16, config: &Config) -> (r: Result<(), Error>)
    requires
        config.wf(),
    ensures
        r is Ok <==> shard_num <= config.shards@.len(),
        r matches Err(e) ==> e == Error::InvalidShard,
{
    if shard_num > config.shards.len() as u16 {
        return Err(Error::InvalidShard);
    }
    Ok(())
}

impl Chain {
    /// Resolves an address into the nonce query against the account-nonce
    /// storage item: the decoded public key, its owning shard, and the
    /// storage key of its nonce cell. An absent cell later reads as nonce
    /// zero.
    pub fn nonce_query(&self, address: &str) -> (r: Result<AccountQuery, Error>)
        requires
            self.config.wf(),
        ensures
            r is Ok <==> (spec_bech32_decode(address@) matches Some(p) && p.1.len() == 32
                && self.config.shards@.len() > 0),
            r matches Ok(q) ==> (spec_bech32_decode(address@) matches Some(p) && q.public_key@
                == p.1 && Some(q.shard_num) == spec_shard_num(
                p.1,
                self.config.shards@.len() as u16,
            ) && q.storage_key@ == spec_map_storage_key(
                p.1,
                ascii_bytes("System AccountNonce"@),
            )),
            r matches Err(e) ==> (e == Error::InvalidAddress || e == Error::InvalidShard) && (e
                == Error::InvalidAddress <==> !(spec_bech32_decode(address@) matches Some(p)
                && p.1.len() == 32)),
    {
        let name = "System AccountNonce";
        proof {
            reveal_strlit("System AccountNonce");
            broadcast use vstd::string::is_ascii_spec_bytes;

        }
        assert(name.is_ascii());
        let name_bytes = name.as_bytes();
        proof {
            assert(name_bytes@ =~= ascii_bytes(name@));
        }
        account_query_prep(address, self.config.shard_count(), name_bytes)
    }

    /// Resolves an address into the balance query against the free-balance
    /// storage item: the decoded public key, its owning shard, and the
    /// storage key of its balance cell. An absent cell later reads as
    /// balance zero.
    pub fn balance_query(&self, address: &str) -> (r: Result<AccountQuery, Error>)
        requires
            self.config.wf(),
        ensures
            r is Ok <==> (spec_bech32_decode(address@) matches Some(p) && p.1.len() == 32
                && self.config.shards@.len() > 0),
            r matches Ok(q) ==> (spec_bech32_decode(address@) matches Some(p) && q.public_key@
                == p.1 && Some(q.shard_num) == spec_shard_num(
                p.1,
                self.config.shards@.len() as u16,
            ) && q.storage_key@ == spec_map_storage_key(
                p.1,
                ascii_bytes("Balances FreeBalance"@),
            )),
            r matches Err(e) ==> (e == Error::InvalidAddress || e == Error::InvalidShard) && (e
                == Error::InvalidAddress <==> !(spec_bech32_decode(address@) matches Some(p)
                && p.1.len() == 32)),
    {
        let name = "Balances FreeBalance";
        proof {
            reveal_strlit("Balances FreeBalance");
            broadcast use vstd::string::is_ascii_spec_bytes;

        }
        assert(name.is_ascii());
        let name_bytes = name.as_bytes();
        proof {
            assert(name_bytes@ =~= ascii_bytes(name@));
        }
        account_query_prep(address, self.config.shard_count(), name_bytes)
    }

    /// Decides, before any network work, which shard a submitted transaction
    /// goes to: the shard owning its signer's public key. Undecodable or
    /// unsigned bytes fail with [`Error::InvalidExtrinsic`] without
    /// contacting any shard.
    pub fn submit_shard(&self, raw: &[u8]) -> (r: Result<u16, Error>)
        requires
            self.config.wf(),
        ensures
            match spec_parse_tx(raw@) {
                None => r matches Err(e) && e == Error::InvalidExtrinsic,
                Some(m) => match m.signer {
                    None => r matches Err(e) && e == Error::InvalidExtrinsic,
                    Some(pk) => if self.config.shards@.len() == 0 {
                        r matches Err(e) && e == Error::InvalidShard
                    } else {
                        r == Ok::<u16, Error>(
                            spec_shard_num(pk, self.config.shards@.len() as u16)->Some_0,
                        )
                    },
                },
            },
    {
        submit_route(raw, self.config.shard_count())
    }
}

} // verus!
