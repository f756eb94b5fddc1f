//! The transaction envelope codec: the gateway's reading of an encoded
//! transaction.
//!
//! A transaction arrives as a compact length prefix, a version byte whose
//! high bit marks a signed transaction, then — when signed — the sender's
//! address (a full-key tag byte and the 32-byte public key), a 64-byte
//! signature, a compact nonce and the mortality era, and finally the call: a
//! module index byte, a method index byte, and the call's parameter bytes.
//! The parameter bytes are runtime-specific; the gateway decodes exactly the
//! two parameters it acts on (a transfer's destination, a relay transfer's
//! embedded origin transaction) and carries anything else opaquely. Bytes
//! that do not fit this shape fail with [`Error::InvalidExtrinsic`].

use vstd::prelude::*;
use vstd::slice::{slice_subrange, slice_to_vec};
use vstd::string::StringExecFns;

use crate::errors::Error;
use crate::events::{parse_compact_u32, spec_parse_compact_u32};
use crate::shard::{shard_num_for_bytes, spec_shard_num};
use crate::storage::{blake2b_256, spec_blake2b_256};
use crate::types::{CallParam, ResultCall, ResultTransaction};

verus! {

/// The mathematical shape of a decoded envelope.
pub struct TxModel {
    /// The signer's 32-byte public key, for a signed transaction.
    pub signer: Option<Seq<u8>>,
    /// Index of the runtime module dispatched into.
    pub module: u8,
    /// Index of the method within the module.
    pub method: u8,
    /// The call's parameter bytes, carried opaquely.
    pub params: Seq<u8>,
}

/// A decoded transaction envelope.
pub struct DecodedTx {
    /// The signer's 32-byte public key, for a signed transaction.
    pub signer: Option<Vec<u8>>,
    /// Index of the runtime module dispatched into.
    pub module: u8,
    /// Index of the method within the module.
    pub method: u8,
    /// The call's parameter bytes, carried opaquely.
    pub params: Vec<u8>,
}

/// The model of a decoded envelope.
pub open spec fn tx_model(tx: &DecodedTx) -> TxModel {
    TxModel {
        signer: match tx.signer {
            Some(v) => Some(v@),
            None => None,
        },
        module: tx.module,
        method: tx.method,
        params: tx.params@,
    }
}

/// Parses the call at the end of an envelope: module byte, method byte, and
/// the rest as opaque parameters.
pub open spec fn spec_parse_call(s: Seq<u8>, signer: Option<Seq<u8>>) -> Option<TxModel> {
    if s.len() >= 2 {
        Some(TxModel { signer, module: s[0], method: s[1], params: s.skip(2) })
    } else {
        None
    }
}

/// Parses the era then the call: one zero byte for an immortal transaction,
/// two bytes for a mortal one.
pub open spec fn spec_parse_era_call(s: Seq<u8>, signer: Option<Seq<u8>>) -> Option<TxModel> {
    if s.len() == 0 {
        None
    } else if s[0] == 0 {
        spec_parse_call(s.skip(1), signer)
    } else if s.len() >= 2 {
        spec_parse_call(s.skip(2), signer)
    } else {
        None
    }
}

/// Parses the body after the length prefix: the version byte, then for a
/// signed transaction the address (full-key form only), signature, nonce and
/// era, and finally the call.
pub open spec fn spec_parse_tx_body(s: Seq<u8>) -> Option<TxModel> {
    if s.len() == 0 {
        None
    } else if s[0] == 0x81 {
        let t = s.skip(1);
        if t.len() >= 33 && t[0] == 0xFF {
            let pk = t.subrange(1, 33);
            let u = t.skip(33);
            if u.len() >= 64 {
                let v = u.skip(64);
                match spec_parse_compact_u32(v) {
                    None => None,
                    Some((_nonce, kn)) => spec_parse_era_call(v.skip(kn), Some(pk)),
                }
            } else {
                None
            }
        } else {
            None
        }
    } else if s[0] == 0x01 {
        spec_parse_call(s.skip(1), None)
    } else {
        None
    }
}

/// Parses a whole encoded transaction: the compact length prefix (read and
/// not re-checked, as the chain's own decoder reads it), then the body.
pub open spec fn spec_parse_tx(s: Seq<u8>) -> Option<TxModel> {
    match spec_parse_compact_u32(s) {
        None => None,
        Some((_len, k)) => spec_parse_tx_body(s.skip(k)),
    }
}

/// Decodes a transaction envelope. Fails with [`Error::InvalidExtrinsic`]
/// exactly where the specification parser fails.
pub fn decode_transaction(raw: &[u8]) -> (r: Result<DecodedTx, Error>)
    ensures
        r is Ok <==> spec_parse_tx(raw@) is Some,
        r matches Ok(tx) ==> spec_parse_tx(raw@) == Some(tx_model(&tx)),
        r matches Err(e) ==> e == Error::InvalidExtrinsic,
{
    let n = raw.len();
    let (_len, body) = match parse_compact_u32(raw, 0) {
        Ok(p) => p,
        Err(_) => {
            proof {
                assert(raw@.skip(0) =~= raw@);
            }
            return Err(Error::InvalidExtrinsic);
        },
    };
    proof {
        assert(raw@.skip(0) =~= raw@);
    }
    let ghost s = raw@.skip(body as int);
    if body >= n {
        return Err(Error::InvalidExtrinsic);
    }
    let version = raw[body];
    assert(s[0] == raw@[body as int]);
    if version == 0x81 {
        // signed transaction
        let ghost t = s.skip(1);
        if n - (body + 1) < 33 {
            return Err(Error::InvalidExtrinsic);
        }
        let tag = raw[body + 1];
        assert(t[0] == raw@[body + 1]);
        if tag != 0xFF {
            return Err(Error::InvalidExtrinsic);
        }
        let pk = slice_to_vec(slice_subrange(raw, body + 2, body + 34));
        proof {
            assert(pk@ =~= t.subrange(1, 33));
        }
        let ghost u = t.skip(33);
        if n - (body + 34) < 64 {
            return Err(Error::InvalidExtrinsic);
        }
        let after_sig = body + 34 + 64;
        let ghost v = u.skip(64);
        proof {
            assert(raw@.skip(after_sig as int) =~= v);
        }
        let (_nonce, after_nonce) = match parse_compact_u32(raw, after_sig) {
            Ok(p) => p,
            Err(_) => {
                return Err(Error::InvalidExtrinsic);
            },
        };
        proof {
            assert(raw@.skip(after_nonce as int) =~= v.skip(after_nonce - after_sig));
        }
        parse_era_call(raw, after_nonce, Some(pk))
    } else if version == 0x01 {
        proof {
            assert(raw@.skip(body + 1) =~= s.skip(1));
        }
        parse_call(raw, body + 1, None)
    } else {
        Err(Error::InvalidExtrinsic)
    }
}

/// Reads the era then the call, starting at `pos`.
fn parse_era_call(raw: &[u8], pos: usize, signer: Option<Vec<u8>>) -> (r: Result<DecodedTx, Error>)
    requires
        pos <= raw@.len(),
    ensures
        r is Ok <==> spec_parse_era_call(
            raw@.skip(pos as int),
            match signer {
                Some(v) => Some(v@),
                None => None,
            },
        ) is Some,
        r matches Ok(tx) ==> spec_parse_era_call(
            raw@.skip(pos as int),
            match signer {
                Some(v) => Some(v@),
                None => None,
            },
        ) == Some(tx_model(&tx)),
        r matches Err(e) ==> e == Error::InvalidExtrinsic,
{
    let ghost s = raw@.skip(pos as int);
    let n = raw.len();
    if pos >= n {
        return Err(Error::InvalidExtrinsic);
    }
    let era = raw[pos];
    assert(s[0] == raw@[pos as int]);
    if era == 0 {
        proof {
            assert(raw@.skip(pos + 1) =~= s.skip(1));
        }
        parse_call(raw, pos + 1, signer)
    } else if n - pos >= 2 {
        proof {
            assert(raw@.skip(pos + 2) =~= s.skip(2));
        }
        parse_call(raw, pos + 2, signer)
    } else {
        Err(Error::InvalidExtrinsic)
    }
}

/// Reads the call at `pos`: module byte, method byte, opaque parameters.
fn parse_call(raw: &[u8], pos: usize, signer: Option<Vec<u8>>) -> (r: Result<DecodedTx, Error>)
    requires
        pos <= raw@.len(),
    ensures
        r is Ok <==> spec_parse_call(
            raw@.skip(pos as int),
            match signer {
                Some(v) => Some(v@),
                None => None,
            },
        ) is Some,
        r matches Ok(tx) ==> spec_parse_call(
            raw@.skip(pos as int),
            match signer {
                Some(v) => Some(v@),
                None => None,
            },
        ) == Some(tx_model(&tx)),
        r matches Err(e) ==> e == Error::InvalidExtrinsic,
{
    let ghost s = raw@.skip(pos as int);
    let n = raw.len();
    if n - pos < 2 || pos >= n {
        return Err(Error::InvalidExtrinsic);
    }
    let module = raw[pos];
    let method = raw[pos + 1];
    assert(s[0] == raw@[pos as int] && s[1] == raw@[pos + 1]);
    let params = slice_to_vec(slice_subrange(raw, pos + 2, n));
    proof {
        assert(params@ =~= s.skip(2));
    }
    Ok(DecodedTx { signer, module, method, params })
}

/// The one call parameter the gateway decodes out of a call's parameter
/// bytes: a transfer's destination (the address tag byte and public key), a
/// relay transfer's embedded origin transaction, or, for any other call, the
/// parameter bytes themselves carried opaquely.
pub open spec fn spec_call_param(module: u8, method: u8, payload: Seq<u8>) -> (Seq<char>, Seq<u8>) {
    if module == 4 && method == 0 && payload.len() >= 33 && payload[0] == 0xFF {
        ("dest"@, payload.take(33))
    } else if module == 9 && method == 0 {
        match spec_parse_compact_u32(payload) {
            Some((l, k)) => if payload.len() >= k + l {
                ("tx"@, payload.subrange(k, k + l))
            } else {
                ("data"@, payload)
            },
            None => ("data"@, payload),
        }
    } else {
        ("data"@, payload)
    }
}

/// Decodes the named parameter of a call out of its parameter bytes.
pub fn call_params_from_payload(module: u8, method: u8, payload: Vec<u8>) -> (r: Vec<
    (String, CallParam),
>)
    ensures
        r@.len() == 1,
        r@[0].0@ == spec_call_param(module, method, payload@).0,
        r@[0].1 matches CallParam::Bytes(b) && b@ == spec_call_param(module, method, payload@).1,
{
    if module == 4 && method == 0 && payload.len() >= 33 && payload[0] == 0xFF {
        let ghost p0 = payload@;
        let mut dest = payload;
        dest.truncate(33);
        proof {
            assert(dest@ =~= p0.take(33));
        }
        let mut r: Vec<(String, CallParam)> = Vec::new();
        r.push((String::from_str("dest"), CallParam::Bytes(dest)));
        r
    } else if module == 9 && method == 0 {
        match parse_compact_u32(payload.as_slice(), 0) {
            Ok((l, k)) => {
                proof {
                    assert(payload@.skip(0) =~= payload@);
                }
                if payload.len() - k >= l as usize {
                    let tx = slice_to_vec(slice_subrange(payload.as_slice(), k, k + (l as usize)));
                    let mut r: Vec<(String, CallParam)> = Vec::new();
                    r.push((String::from_str("tx"), CallParam::Bytes(tx)));
                    r
                } else {
                    let mut r: Vec<(String, CallParam)> = Vec::new();
                    r.push((String::from_str("data"), CallParam::Bytes(payload)));
                    r
                }
            },
            Err(_) => {
                proof {
                    assert(payload@.skip(0) =~= payload@);
                }
                let mut r: Vec<(String, CallParam)> = Vec::new();
                r.push((String::from_str("data"), CallParam::Bytes(payload)));
                r
            },
        }
    } else {
        let mut r: Vec<(String, CallParam)> = Vec::new();
        r.push((String::from_str("data"), CallParam::Bytes(payload)));
        r
    }
}

/// Decodes one raw extrinsic of a fetched block into its display form: the
/// transaction's hash is the digest of its encoded bytes, the bytes
/// themselves are kept (later stripped unless explicitly requested), and the
/// envelope gives the signer and the call. Fails with
/// [`Error::InvalidExtrinsic`] exactly where the envelope does not decode.
pub fn decode_result_transaction(raw: &[u8]) -> (r: Result<ResultTransaction, Error>)
    ensures
        r is Ok <==> spec_parse_tx(raw@) is Some,
        r matches Ok(t) ==> spec_parse_tx(raw@) matches Some(m) && {
            &&& t.hash matches Some(h) && h@ == spec_blake2b_256(raw@)
            &&& t.raw matches Some(rw) && rw@ == raw@
            &&& t.success is None
            &&& t.block_number is None
            &&& match m.signer {
                Some(pk) => t.signer matches Some(v) && v@ == pk,
                None => t.signer is None,
            }
            &&& t.call.module == m.module as u64
            &&& t.call.method == m.method as u64
            &&& t.call.params@.len() == 1
            &&& t.call.params@[0].0@ == spec_call_param(m.module, m.method, m.params).0
            &&& t.call.params@[0].1 matches CallParam::Bytes(b) && b@ == spec_call_param(
                m.module,
                m.method,
                m.params,
            ).1
        },
        r matches Err(e) ==> e == Error::InvalidExtrinsic,
{
    let tx = decode_transaction(raw)?;
    let hash = blake2b_256(raw);
    let DecodedTx { signer, module, method, params } = tx;
    let cps = call_params_from_payload(module, method, params);
    Ok(
        ResultTransaction {
            hash: Some(hash),
            raw: Some(slice_to_vec(raw)),
            success: None,
            block_number: None,
            signer,
            call: ResultCall { module: module as u64, method: method as u64, params: cps },
        },
    )
}

/// Routes a submitted transaction to the shard owning its signer. Fails with
/// [`Error::InvalidExtrinsic`] exactly where the bytes do not decode as a
/// transaction or the transaction carries no signature, and with
/// [`Error::InvalidShard`] where no shards are configured; no network is
/// touched either way.
pub fn submit_route(raw: &[u8], shard_count: u16) -> (r: Result<u16, Error>)
    ensures
        match spec_parse_tx(raw@) {
            None => r matches Err(e) && e == Error::InvalidExtrinsic,
            Some(m) => match m.signer {
                None => r matches Err(e) && e == Error::InvalidExtrinsic,
                Some(pk) => if shard_count == 0 {
                    r matches Err(e) && e == Error::InvalidShard
                } else {
                    r == Ok::<u16, Error>(spec_shard_num(pk, shard_count)->Some_0)
                },
            },
        },
{
    let tx = match decode_transaction(raw) {
        Ok(tx) => tx,
        Err(e) => {
            return Err(e);
        },
    };
    let pk = match tx.signer {
        Some(pk) => pk,
        None => {
            return Err(Error::InvalidExtrinsic);
        },
    };
    match shard_num_for_bytes(pk.as_slice(), shard_count) {
        Some(n) => Ok(n),
        None => Err(Error::InvalidShard),
    }
}

} // verus!
