//! The query pipelines' decision steps: every computation a gateway
//! operation performs between (and after) its transport calls.
//!
//! Each asynchronous chain of the gateway — number to hash to header, hash
//! to block to event log, the range scan for a relay transaction — is run by
//! the caller, who fetches raw data one step at a time and hands it to the
//! functions here; every decision about what those bytes mean is made and
//! proved here. "Not found" is a normal empty result throughout, never an
//! error.

use std::collections::HashMap;

use vstd::prelude::*;

use crate::address::{decode_address, spec_bech32_decode};
use crate::codec::{spec_dec_str, u128_from_slice, u128_to_dec, u64_from_slice};
use crate::errors::Error;
use crate::events::{
    decode_event_log, outcome_map_matches, spec_fold_events, spec_parse_event_log,
};
use crate::shard::{shard_num_for_bytes, spec_shard_num};
use crate::storage::{blake2b_256, get_map_storage_key, spec_blake2b_256, spec_map_storage_key};
use crate::types::{CallParam, ResultBlock, ResultHeader, ResultTransaction};
use crate::value::{value_view, StructuredValue, ValueModel};
use vstd::bytes::{spec_u128_from_le_bytes, spec_u64_from_le_bytes};

verus! {

/// Byte-for-byte slice equality.
pub fn bytes_eq(a: &[u8], b: &[u8]) -> (r: bool)
    ensures
        r == (a@ == b@),
{
    let n = a.len();
    if n != b.len() {
        return false;
    }
    let mut i: usize = 0;
    while i < n
        invariant
            n == a@.len(),
            n == b@.len(),
            0 <= i <= n,
            forall|j: int| 0 <= j < i ==> a@[j] == b@[j],
        decreases n - i,
    {
        if a[i] != b[i] {
            return false;
        }
        i = i + 1;
    }
    proof {
        assert(a@ =~= b@);
    }
    true
}

/// The number a header reports, where there is a header.
pub fn best_number_of(header: &Option<ResultHeader>) -> (r: Option<u64>)
    ensures
        r == (match header {
            Some(h) => Some(h.number),
            None => None::<u64>,
        }),
{
    match header {
        Some(h) => Some(h.number),
        None => None,
    }
}

/// A header with a resolved hash attached; nothing unless both the header
/// and the hash were found.
pub open spec fn spec_header_with_hash(
    header: Option<ResultHeader>,
    hash: Option<Vec<u8>>,
) -> Option<ResultHeader> {
    match (header, hash) {
        (Some(h), Some(hs)) => Some(
            ResultHeader {
                block_hash: Some(hs),
                number: h.number,
                parent_hash: h.parent_hash,
                state_root: h.state_root,
                extrinsics_root: h.extrinsics_root,
            },
        ),
        _ => None,
    }
}

/// Attaches a resolved block hash to a fetched header. A header alone does
/// not carry its own hash, so the pair is only complete when both lookups
/// succeeded; either lookup coming back empty yields an empty result.
pub fn header_with_hash(header: Option<ResultHeader>, hash: Option<Vec<u8>>) -> (r: Option<
    ResultHeader,
>)
    ensures
        r == spec_header_with_hash(header, hash),
{
    match (header, hash) {
        (Some(h), Some(hs)) => Some(
            ResultHeader {
                block_hash: Some(hs),
                number: h.number,
                parent_hash: h.parent_hash,
                state_root: h.state_root,
                extrinsics_root: h.extrinsics_root,
            },
        ),
        _ => None,
    }
}

/// One transaction after event correlation: the success flag from the event
/// log at its index, and the raw bytes stripped unless explicitly requested.
pub open spec fn spec_tx_with_outcome(
    tx: ResultTransaction,
    success: Option<bool>,
    with_raw: bool,
) -> ResultTransaction {
    ResultTransaction {
        hash: tx.hash,
        raw: if with_raw {
            tx.raw
        } else {
            None
        },
        success,
        block_number: tx.block_number,
        signer: tx.signer,
        call: tx.call,
    }
}

/// The success flag the event-log outcome map assigns to extrinsic index
/// `i`, where it saw that index at all.
pub open spec fn spec_success_flag(m: Map<u32, (bool, Seq<Seq<char>>)>, i: int) -> Option<bool> {
    if 0 <= i <= u32::MAX && m.contains_key(i as u32) {
        Some(m[i as u32].0)
    } else {
        None
    }
}

/// The outcome map of an optional raw event log: an absent log is an empty
/// map; malformed bytes are nothing.
pub open spec fn spec_log_outcomes(e: Option<Seq<u8>>) -> Option<Map<u32, (bool, Seq<Seq<char>>)>> {
    match e {
        None => Some(Map::empty()),
        Some(bs) => match spec_parse_event_log(bs) {
            Some(rs) => Some(spec_fold_events(rs)),
            None => None,
        },
    }
}

/// Correlates a block's transactions with a decoded event-log outcome map:
/// each transaction at index `i` gets the success flag recorded for `i`, and
/// loses its raw bytes unless they were explicitly requested.
fn apply_event_outcomes(
    block: ResultBlock,
    outcomes: &HashMap<u32, (bool, Vec<String>)>,
    Ghost(m): Ghost<Map<u32, (bool, Seq<Seq<char>>)>>,
    with_raw: bool,
) -> (r: ResultBlock)
    requires
        block.extrinsics@.len() <= u32::MAX,
        outcome_map_matches(outcomes@, m),
    ensures
        r.header == block.header,
        r.extrinsics@.len() == block.extrinsics@.len(),
        forall|i: int|
            0 <= i < block.extrinsics@.len() ==> r.extrinsics@[i] == spec_tx_with_outcome(
                block.extrinsics@[i],
                spec_success_flag(m, i),
                with_raw,
            ),
{
    let ghost txs0 = block.extrinsics@;
    let mut exts = block.extrinsics;
    let n = exts.len();
    let mut out: Vec<ResultTransaction> = Vec::new();
    let mut i: usize = 0;
    while i < n
        invariant
            n == txs0.len() <= u32::MAX,
            0 <= i <= n,
            exts@ =~= txs0.skip(i as int),
            out@.len() == i,
            outcome_map_matches(outcomes@, m),
            forall|j: int|
                0 <= j < i ==> out@[j] == spec_tx_with_outcome(
                    txs0[j],
                    spec_success_flag(m, j),
                    with_raw,
                ),
        decreases n - i,
    {
        let tx = exts.remove(0);
        proof {
            assert(tx == txs0[i as int]);
            assert(exts@ =~= txs0.skip(i + 1));
        }
        let idx: u32 = i as u32;
        let success: Option<bool> = match outcomes.get(&idx) {
            Some(p) => Some(p.0),
            None => None,
        };
        proof {
            assert(success == spec_success_flag(m, i as int));
        }
        let tx2 = ResultTransaction {
            hash: tx.hash,
            raw: if with_raw {
                tx.raw
            } else {
                None
            },
            success,
            block_number: tx.block_number,
            signer: tx.signer,
            call: tx.call,
        };
        out.push(tx2);
        i = i + 1;
    }
    ResultBlock { header: block.header, extrinsics: out }
}

/// Assembles the final block of the block pipelines out of its three fetched
/// pieces: the resolved hash, the raw block found at that hash, and the
/// event log read at the same hash. An unresolved hash or an absent block is
/// an empty result, not an error; a malformed event log fails with
/// [`Error::ParseError`]. Unless raw bytes were requested, no transaction of
/// the result keeps its raw bytes.
pub fn assemble_block(
    hash: Option<Vec<u8>>,
    block: Option<ResultBlock>,
    events: Option<&Vec<u8>>,
    with_raw: bool,
) -> (r: Result<Option<ResultBlock>, Error>)
    requires
        block matches Some(b) ==> b.extrinsics@.len() <= u32::MAX,
    ensures
        hash is None ==> (r matches Ok(b) && b is None),
        hash is Some && block is None ==> (r matches Ok(b) && b is None),
        hash matches Some(hs) ==> block matches Some(bl) ==> (match spec_log_outcomes(
            match events {
                Some(e) => Some(e@),
                None => None::<Seq<u8>>,
            },
        ) {
            None => r matches Err(e) && e == Error::ParseError,
            Some(m) => r matches Ok(ob) && ob matches Some(rb) && rb.header
                == (ResultHeader {
                block_hash: Some(hs),
                number: bl.header.number,
                parent_hash: bl.header.parent_hash,
                state_root: bl.header.state_root,
                extrinsics_root: bl.header.extrinsics_root,
            }) && rb.extrinsics@.len() == bl.extrinsics@.len() && (forall|i: int|
                0 <= i < bl.extrinsics@.len() ==> rb.extrinsics@[i] == spec_tx_with_outcome(
                    bl.extrinsics@[i],
                    spec_success_flag(m, i),
                    with_raw,
                )),
        }),
        !with_raw ==> (r matches Ok(ob) ==> (ob matches Some(rb) ==> (forall|i: int|
            0 <= i < rb.extrinsics@.len() ==> (#[trigger] rb.extrinsics@[i]).raw is None))),
{
    let hash = match hash {
        Some(h) => h,
        None => {
            return Ok(None);
        },
    };
    let block = match block {
        Some(b) => b,
        None => {
            return Ok(None);
        },
    };
    let outcomes = decode_event_log(events)?;
    let ghost m = spec_log_outcomes(
        match events {
            Some(e) => Some(e@),
            None => None::<Seq<u8>>,
        },
    )->Some_0;
    let header = ResultHeader {
        block_hash: Some(hash),
        number: block.header.number,
        parent_hash: block.header.parent_hash,
        state_root: block.header.state_root,
        extrinsics_root: block.header.extrinsics_root,
    };
    let block = ResultBlock { header, extrinsics: block.extrinsics };
    let r = apply_event_outcomes(block, &outcomes, Ghost(m), with_raw);
    Ok(Some(r))
}

/// The first transaction whose hash equals `h`.
pub open spec fn spec_find_by_hash(txs: Seq<ResultTransaction>, h: Seq<u8>) -> Option<
    ResultTransaction,
>
    decreases txs.len(),
{
    if txs.len() == 0 {
        None
    } else if txs[0].hash matches Some(v) && v@ == h {
        Some(txs[0])
    } else {
        spec_find_by_hash(txs.drop_first(), h)
    }
}

proof fn lemma_find_by_hash_found(txs: Seq<ResultTransaction>, h: Seq<u8>, i: int)
    requires
        0 <= i < txs.len(),
        txs[i].hash matches Some(v) && v@ == h,
        forall|j: int| 0 <= j < i ==> !((#[trigger] txs[j]).hash matches Some(v) && v@ == h),
    ensures
        spec_find_by_hash(txs, h) == Some(txs[i]),
    decreases i,
{
    if i > 0 {
        lemma_find_by_hash_found(txs.drop_first(), h, i - 1);
    }
}

proof fn lemma_find_by_hash_absent(txs: Seq<ResultTransaction>, h: Seq<u8>)
    requires
        forall|j: int| 0 <= j < txs.len() ==> !((#[trigger] txs[j]).hash matches Some(v) && v@ == h),
    ensures
        spec_find_by_hash(txs, h) is None,
    decreases txs.len(),
{
    if txs.len() > 0 {
        lemma_find_by_hash_absent(txs.drop_first(), h);
    }
}

/// Scans a block's transactions for the first whose hash equals `hash`.
/// An absent match is an empty result, not an error.
#[verifier::loop_isolation(false)]
pub fn find_extrinsic_by_hash(block: ResultBlock, hash: &[u8]) -> (r: Option<ResultTransaction>)
    ensures
        r == spec_find_by_hash(block.extrinsics@, hash@),
{
    let ghost txs = block.extrinsics@;
    let mut exts = block.extrinsics;
    let n = exts.len();
    let mut i: usize = 0;
    while i < n
        invariant
            n == txs.len(),
            0 <= i <= n,
            exts@ == txs,
            forall|j: int| 0 <= j < i ==> !((#[trigger] txs[j]).hash matches Some(v) && v@ == hash@),
        decreases n - i,
    {
        let matched = match &exts[i].hash {
            Some(v) => bytes_eq(v.as_slice(), hash),
            None => false,
        };
        if matched {
            let tx = exts.remove(i);
            proof {
                lemma_find_by_hash_found(txs, hash@, i as int);
            }
            return Some(tx);
        }
        i = i + 1;
    }
    proof {
        lemma_find_by_hash_absent(txs, hash@);
    }
    None
}

/// A transaction with its raw bytes dropped.
pub open spec fn spec_clear_raw(tx: ResultTransaction) -> ResultTransaction {
    ResultTransaction {
        hash: tx.hash,
        raw: None,
        success: tx.success,
        block_number: tx.block_number,
        signer: tx.signer,
        call: tx.call,
    }
}

/// The first transaction whose raw bytes equal `raw`, with those bytes
/// dropped from the result.
pub open spec fn spec_find_by_raw(txs: Seq<ResultTransaction>, raw: Seq<u8>) -> Option<
    ResultTransaction,
>
    decreases txs.len(),
{
    if txs.len() == 0 {
        None
    } else if txs[0].raw matches Some(v) && v@ == raw {
        Some(spec_clear_raw(txs[0]))
    } else {
        spec_find_by_raw(txs.drop_first(), raw)
    }
}

proof fn lemma_find_by_raw_found(txs: Seq<ResultTransaction>, raw: Seq<u8>, i: int)
    requires
        0 <= i < txs.len(),
        txs[i].raw matches Some(v) && v@ == raw,
        forall|j: int| 0 <= j < i ==> !((#[trigger] txs[j]).raw matches Some(v) && v@ == raw),
    ensures
        spec_find_by_raw(txs, raw) == Some(spec_clear_raw(txs[i])),
    decreases i,
{
    if i > 0 {
        lemma_find_by_raw_found(txs.drop_first(), raw, i - 1);
    }
}

proof fn lemma_find_by_raw_absent(txs: Seq<ResultTransaction>, raw: Seq<u8>)
    requires
        forall|j: int| 0 <= j < txs.len() ==> !((#[trigger] txs[j]).raw matches Some(v) && v@ == raw),
    ensures
        spec_find_by_raw(txs, raw) is None,
    decreases txs.len(),
{
    if txs.len() > 0 {
        lemma_find_by_raw_absent(txs.drop_first(), raw);
    }
}

/// Scans a block's transactions for the first whose raw bytes equal `raw`;
/// the found transaction is returned without its raw bytes (they merely
/// repeat the query). An absent match is an empty result, not an error.
#[verifier::loop_isolation(false)]
pub fn find_extrinsic_by_raw(block: ResultBlock, raw: &[u8]) -> (r: Option<ResultTransaction>)
    ensures
        r == spec_find_by_raw(block.extrinsics@, raw@),
{
    let ghost txs = block.extrinsics@;
    let mut exts = block.extrinsics;
    let n = exts.len();
    let mut i: usize = 0;
    while i < n
        invariant
            n == txs.len(),
            0 <= i <= n,
            exts@ == txs,
            forall|j: int| 0 <= j < i ==> !((#[trigger] txs[j]).raw matches Some(v) && v@ == raw@),
        decreases n - i,
    {
        let matched = match &exts[i].raw {
            Some(v) => bytes_eq(v.as_slice(), raw),
            None => false,
        };
        if matched {
            let tx = exts.remove(i);
            let tx = ResultTransaction {
                hash: tx.hash,
                raw: None,
                success: tx.success,
                block_number: tx.block_number,
                signer: tx.signer,
                call: tx.call,
            };
            proof {
                lemma_find_by_raw_found(txs, raw@, i as int);
            }
            return Some(tx);
        }
        i = i + 1;
    }
    proof {
        lemma_find_by_raw_absent(txs, raw@);
    }
    None
}

/// The first parameter with the given name, if any.
pub open spec fn spec_param_get(ps: Seq<(String, CallParam)>, name: Seq<char>) -> Option<CallParam>
    decreases ps.len(),
{
    if ps.len() == 0 {
        None
    } else if ps[0].0@ == name {
        Some(ps[0].1)
    } else {
        spec_param_get(ps.drop_first(), name)
    }
}

proof fn lemma_param_get_found(ps: Seq<(String, CallParam)>, name: Seq<char>, i: int)
    requires
        0 <= i < ps.len(),
        ps[i].0@ == name,
        forall|j: int| 0 <= j < i ==> ps[j].0@ != name,
    ensures
        spec_param_get(ps, name) == Some(ps[i].1),
    decreases i,
{
    if i > 0 {
        lemma_param_get_found(ps.drop_first(), name, i - 1);
    }
}

proof fn lemma_param_get_absent(ps: Seq<(String, CallParam)>, name: Seq<char>)
    requires
        forall|j: int| 0 <= j < ps.len() ==> ps[j].0@ != name,
    ensures
        spec_param_get(ps, name) is None,
    decreases ps.len(),
{
    if ps.len() > 0 {
        lemma_param_get_absent(ps.drop_first(), name);
    }
}

/// Looks up the first parameter with the given name.
pub fn param_get<'a>(params: &'a Vec<(String, CallParam)>, name: &str) -> (r: Option<
    &'a CallParam,
>)
    ensures
        r matches Some(p) ==> spec_param_get(params@, name@) == Some(*p),
        r is None ==> spec_param_get(params@, name@) is None,
{
    let n = params.len();
    let mut i: usize = 0;
    while i < n
        invariant
            n == params@.len(),
            0 <= i <= n,
            forall|j: int| 0 <= j < i ==> params@[j].0@ != name@,
        decreases n - i,
    {
        if crate::value::str_eq(params[i].0.as_str(), name) {
            proof {
                lemma_param_get_found(params@, name@, i as int);
            }
            return Some(&params[i].1);
        }
        i = i + 1;
    }
    proof {
        lemma_param_get_absent(params@, name@);
    }
    None
}

/// Does this transaction dispatch the relay-transfer call whose embedded
/// origin transaction hashes to `h`?
pub open spec fn spec_is_relay_match(tx: ResultTransaction, h: Seq<u8>) -> bool {
    tx.call.module == 9 && tx.call.method == 0 && (match spec_param_get(tx.call.params@, "tx"@) {
        Some(CallParam::Bytes(b)) => spec_blake2b_256(b@) == h,
        _ => false,
    })
}

/// Decides whether one transaction is the relay transfer sought: the call
/// must be the relay module's transfer dispatch, and the digest of its
/// embedded origin transaction must equal the queried origin hash.
fn is_relay_match(tx: &ResultTransaction, origin_hash: &[u8]) -> (r: bool)
    ensures
        r == spec_is_relay_match(*tx, origin_hash@),
{
    if tx.call.module != 9 || tx.call.method != 0 {
        return false;
    }
    match param_get(&tx.call.params, "tx") {
        Some(CallParam::Bytes(b)) => {
            let digest = blake2b_256(b.as_slice());
            bytes_eq(digest.as_slice(), origin_hash)
        },
        _ => false,
    }
}

/// A transaction stamped with the block number it was found in.
pub open spec fn spec_with_block_number(tx: ResultTransaction, bn: u64) -> ResultTransaction {
    ResultTransaction {
        hash: tx.hash,
        raw: tx.raw,
        success: tx.success,
        block_number: Some(bn),
        signer: tx.signer,
        call: tx.call,
    }
}

/// The first relay-transfer transaction matching origin hash `h`, stamped
/// with block number `bn`.
pub open spec fn spec_find_relay(txs: Seq<ResultTransaction>, h: Seq<u8>, bn: u64) -> Option<
    ResultTransaction,
>
    decreases txs.len(),
{
    if txs.len() == 0 {
        None
    } else if spec_is_relay_match(txs[0], h) {
        Some(spec_with_block_number(txs[0], bn))
    } else {
        spec_find_relay(txs.drop_first(), h, bn)
    }
}

proof fn lemma_find_relay_found(txs: Seq<ResultTransaction>, h: Seq<u8>, bn: u64, i: int)
    requires
        0 <= i < txs.len(),
        spec_is_relay_match(txs[i], h),
        forall|j: int| 0 <= j < i ==> !spec_is_relay_match(txs[j], h),
    ensures
        spec_find_relay(txs, h, bn) == Some(spec_with_block_number(txs[i], bn)),
    decreases i,
{
    if i > 0 {
        lemma_find_relay_found(txs.drop_first(), h, bn, i - 1);
    }
}

proof fn lemma_find_relay_absent(txs: Seq<ResultTransaction>, h: Seq<u8>, bn: u64)
    requires
        forall|j: int| 0 <= j < txs.len() ==> !spec_is_relay_match(txs[j], h),
    ensures
        spec_find_relay(txs, h, bn) is None,
    decreases txs.len(),
{
    if txs.len() > 0 {
        lemma_find_relay_absent(txs.drop_first(), h, bn);
    }
}

/// Scans a block's transactions for the first relay transfer whose embedded
/// origin transaction hashes to `origin_hash`; the match is stamped with the
/// containing block's number. An absent match is an empty result.
#[verifier::loop_isolation(false)]
pub fn find_relay_extrinsic(block: ResultBlock, origin_hash: &[u8], block_number: u64) -> (r:
    Option<ResultTransaction>)
    ensures
        r == spec_find_relay(block.extrinsics@, origin_hash@, block_number),
{
    let ghost txs = block.extrinsics@;
    let mut exts = block.extrinsics;
    let n = exts.len();
    let mut i: usize = 0;
    while i < n
        invariant
            n == txs.len(),
            0 <= i <= n,
            exts@ == txs,
            forall|j: int| 0 <= j < i ==> !spec_is_relay_match(txs[j], origin_hash@),
        decreases n - i,
    {
        if is_relay_match(&exts[i], origin_hash) {
            let tx = exts.remove(i);
            let tx = ResultTransaction {
                hash: tx.hash,
                raw: tx.raw,
                success: tx.success,
                block_number: Some(block_number),
                signer: tx.signer,
                call: tx.call,
            };
            proof {
                lemma_find_relay_found(txs, origin_hash@, block_number, i as int);
            }
            return Some(tx);
        }
        i = i + 1;
    }
    proof {
        lemma_find_relay_absent(txs, origin_hash@, block_number);
    }
    None
}

/// What the range scan does after one probe.
pub enum ScanOutcome {
    /// The relay transfer was found; the search stops with it.
    Found(ResultTransaction),
    /// No match, and the probed block reached the end of the range; the
    /// search stops empty.
    NotFound,
    /// No match yet; probe this block number next.
    Continue(u64),
}

/// The range scan's step decision: a match in the probed block ends the
/// search with it; otherwise the search ends empty at or beyond `to_block`,
/// and advances one block below it. A reversed range thus degenerates to a
/// single check-and-stop after the first probe.
pub open spec fn spec_scan_step(
    block_number: u64,
    to_block: u64,
    probe: Option<ResultBlock>,
    h: Seq<u8>,
) -> ScanOutcome {
    let found = match probe {
        Some(bl) => spec_find_relay(bl.extrinsics@, h, block_number),
        None => None,
    };
    match found {
        Some(tx) => ScanOutcome::Found(tx),
        None => if block_number >= to_block {
            ScanOutcome::NotFound
        } else {
            ScanOutcome::Continue((block_number + 1) as u64)
        },
    }
}

/// One step of the bounded range scan over `[from_block, to_block]`: decides
/// from this probe's fetched block whether the search is over and what to
/// probe next. The caller runs the loop, fetching each probed block;
/// successive steps visit strictly increasing block numbers, so the first
/// match by that order is returned.
pub fn scan_step(
    block_number: u64,
    to_block: u64,
    probe: Option<ResultBlock>,
    origin_hash: &[u8],
) -> (r: ScanOutcome)
    ensures
        r == spec_scan_step(block_number, to_block, probe, origin_hash@),
{
    let found = match probe {
        Some(bl) => find_relay_extrinsic(bl, origin_hash, block_number),
        None => None,
    };
    match found {
        Some(tx) => ScanOutcome::Found(tx),
        None => {
            if block_number >= to_block {
                ScanOutcome::NotFound
            } else {
                ScanOutcome::Continue(block_number + 1)
            }
        },
    }
}

/// Law: the range scan visits blocks in strictly increasing order. A step
/// that continues the search continues it at exactly the next block number,
/// and only strictly below the end of the range; with first-match scanning
/// inside each probed block, the first match by that order is returned.
pub proof fn lemma_scan_advances(
    block_number: u64,
    to_block: u64,
    probe: Option<ResultBlock>,
    h: Seq<u8>,
)
    ensures
        spec_scan_step(block_number, to_block, probe, h) matches ScanOutcome::Continue(n) ==> n
            == block_number + 1 && block_number < to_block,
{
}

/// Everything a nonce or balance query needs before touching the network:
/// the decoded public key, the shard that owns it, and the storage key of
/// the cell to read.
pub struct AccountQuery {
    /// The 32-byte public key the address decodes to.
    pub public_key: Vec<u8>,
    /// The shard owning that key.
    pub shard_num: u16,
    /// The storage key of the account's cell under the queried item.
    pub storage_key: Vec<u8>,
}

/// Resolves an address into an [`AccountQuery`] against the map-style
/// storage item `item_name`. Fails with [`Error::InvalidAddress`] exactly
/// where the address does not decode to 32 bytes, and with
/// [`Error::InvalidShard`] exactly where it does but no shards are
/// configured.
pub fn account_query_prep(address: &str, shard_count: u16, item_name: &[u8]) -> (r: Result<
    AccountQuery,
    Error,
>)
    ensures
        r is Ok <==> (spec_bech32_decode(address@) matches Some(p) && p.1.len() == 32
            && shard_count > 0),
        r matches Ok(q) ==> (spec_bech32_decode(address@) matches Some(p) && q.public_key@ == p.1
            && Some(q.shard_num) == spec_shard_num(p.1, shard_count) && q.storage_key@
            == spec_map_storage_key(p.1, item_name@)),
        r matches Err(e) ==> (e == Error::InvalidAddress || e == Error::InvalidShard) && (e
            == Error::InvalidAddress <==> !(spec_bech32_decode(address@) matches Some(p)
            && p.1.len() == 32)),
{
    let (public_key, _hrp) = decode_address(address)?;
    let shard_num = match shard_num_for_bytes(public_key.as_slice(), shard_count) {
        Some(n) => n,
        None => {
            return Err(Error::InvalidShard);
        },
    };
    let storage_key = get_map_storage_key(public_key.as_slice(), item_name);
    Ok(AccountQuery { public_key, shard_num, storage_key })
}

/// The nonce a storage cell holds: an absent cell is a fresh account with
/// nonce zero; a present cell must be exactly 8 little-endian bytes.
pub fn nonce_from_storage(data: Option<&Vec<u8>>) -> (r: Result<u64, Error>)
    ensures
        data is None ==> r == Ok::<u64, Error>(0),
        data matches Some(b) ==> {
            &&& r is Ok <==> b@.len() == 8
            &&& (r matches Ok(v) ==> v == spec_u64_from_le_bytes(b@))
            &&& (r matches Err(e) ==> e == Error::ParseError)
        },
{
    match data {
        None => Ok(0),
        Some(b) => u64_from_slice(b.as_slice()),
    }
}

/// The balance a storage cell holds: an absent cell is a fresh account with
/// balance zero; a present cell must be exactly 16 little-endian bytes.
pub fn balance_from_storage(data: Option<&Vec<u8>>) -> (r: Result<u128, Error>)
    ensures
        data is None ==> r == Ok::<u128, Error>(0),
        data matches Some(b) ==> {
            &&& r is Ok <==> b@.len() == 16
            &&& (r matches Ok(v) ==> v == spec_u128_from_le_bytes(b@))
            &&& (r matches Err(e) ==> e == Error::ParseError)
        },
{
    match data {
        None => Ok(0),
        Some(b) => u128_from_slice(b.as_slice()),
    }
}

/// Projects a balance into the generic structured value, as decimal text:
/// serializers downstream cannot represent 128-bit integers natively.
pub fn balance_to_value(b: u128) -> (r: StructuredValue)
    ensures
        value_view(&r) == ValueModel::Str(spec_dec_str(b as nat)),
{
    StructuredValue::Str(u128_to_dec(b))
}

} // verus!
