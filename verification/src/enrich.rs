//! The result enricher: post-processing passes over the generic structured
//! value that inject derived fields.
//!
//! The "append address" rule recognizes the built-in transfer dispatch (the
//! module and method pair `4, 0`) whose hex-encoded `dest` parameter starts
//! with the full-key sentinel byte: the remaining bytes are a public key, and
//! the pass injects its human-readable address and owning shard. Every
//! failure along the way — malformed hex, no shards configured, an
//! unencodable prefix — is swallowed: the fields are simply omitted, never
//! surfaced as an error.
//!
//! The "append decoded transaction" rule recognizes the relay-transfer
//! submission (the pair `9, 0`) and decodes its hex-encoded `tx` parameter as
//! an embedded transaction, injecting the decoded form under `tx_decoded`
//! with "append address" applied to it. Here a transaction that does not
//! decode fails closed with [`Error::ParseError`].

use vstd::pervasive::unreached;
use vstd::prelude::*;
use vstd::slice::{slice_subrange, slice_to_vec};

use crate::address::{bech32_encode, spec_bech32_encode};
use crate::errors::Error;
use crate::hexstr::{hex_decode, spec_hex_bytes, spec_hex_decodable, spec_strip_0x, strip_0x};
use crate::shard::{shard_num_for_bytes, spec_shard_num};
use crate::txcodec::{
    call_params_from_payload, decode_transaction, spec_call_param, spec_parse_tx, tx_model,
    DecodedTx, TxModel,
};
use crate::types::{
    hex_text_model, lemma_params_model, params_model, transaction_model, transaction_to_value,
    ResultCall, ResultTransaction,
};
use crate::value::{
    fields_view, lemma_fields_view, lemma_model_obj_get_absent, lemma_model_obj_get_found,
    lemma_model_obj_set_found, lemma_values_view, model_obj_get, model_obj_set, obj_find, obj_get,
    obj_set, values_view, value_view, StructuredValue, ValueModel,
};

verus! {

/// The address and shard that "append address" would inject into an
/// extrinsic value, where the rule applies at all: the call must be the
/// transfer dispatch, its `dest` parameter hexadecimal text whose bytes
/// start with the full-key sentinel, the shard count above zero, and the
/// prefix encodable.
pub open spec fn spec_address_fields(v: ValueModel, hrp: Seq<char>, shard_count: u16) -> Option<
    (Seq<char>, u16),
> {
    match v {
        ValueModel::Object(fs) => match model_obj_get(fs, "call"@) {
            Some(ValueModel::Object(cfs)) => {
                if model_obj_get(cfs, "module"@) == Some(ValueModel::UInt(4)) && model_obj_get(
                    cfs,
                    "method"@,
                ) == Some(ValueModel::UInt(0)) {
                    match model_obj_get(cfs, "params"@) {
                        Some(ValueModel::Object(pfs)) => match model_obj_get(pfs, "dest"@) {
                            Some(ValueModel::Str(dest)) => {
                                let stripped = spec_strip_0x(dest);
                                if spec_hex_decodable(stripped) {
                                    let bytes = spec_hex_bytes(stripped);
                                    if bytes.len() >= 1 && bytes[0] == 0xFF && shard_count > 0 {
                                        match spec_bech32_encode(hrp, bytes.skip(1)) {
                                            Some(addr) => Some(
                                                (
                                                    addr,
                                                    spec_shard_num(
                                                        bytes.skip(1),
                                                        shard_count,
                                                    )->Some_0,
                                                ),
                                            ),
                                            None => None,
                                        }
                                    } else {
                                        None
                                    }
                                } else {
                                    None
                                }
                            },
                            _ => None,
                        },
                        _ => None,
                    }
                } else {
                    None
                }
            },
            _ => None,
        },
        _ => None,
    }
}

/// An extrinsic value after "append address": unchanged where the rule does
/// not apply, otherwise with `dest_address` and `dest_shard_num` set among
/// the call's parameters.
pub open spec fn spec_append_address(v: ValueModel, hrp: Seq<char>, shard_count: u16) -> ValueModel {
    match spec_address_fields(v, hrp, shard_count) {
        None => v,
        Some((addr, sn)) => {
            let fs = v->Object_0;
            let cfs = model_obj_get(fs, "call"@)->Some_0->Object_0;
            let pfs = model_obj_get(cfs, "params"@)->Some_0->Object_0;
            let pfs2 = model_obj_set(
                model_obj_set(pfs, "dest_address"@, ValueModel::Str(addr)),
                "dest_shard_num"@,
                ValueModel::UInt(sn as u64),
            );
            let cfs2 = model_obj_set(cfs, "params"@, ValueModel::Object(pfs2));
            ValueModel::Object(model_obj_set(fs, "call"@, ValueModel::Object(cfs2)))
        },
    }
}

/// Computes what "append address" would inject, reading the extrinsic value
/// without changing it.
fn compute_address_fields(v: &StructuredValue, hrp: &str, shard_count: u16) -> (r: Option<
    (String, u16),
>)
    ensures
        r is Some <==> spec_address_fields(value_view(v), hrp@, shard_count) is Some,
        r matches Some(p) ==> spec_address_fields(value_view(v), hrp@, shard_count) == Some(
            (p.0@, p.1),
        ),
{
    let fs = match v {
        StructuredValue::Object(fs) => fs,
        _ => {
            return None;
        },
    };
    let call_fs = match obj_get(fs, "call") {
        Some(StructuredValue::Object(c)) => c,
        _ => {
            return None;
        },
    };
    let ok_module = match obj_get(call_fs, "module") {
        Some(StructuredValue::UInt(m)) => *m == 4,
        _ => false,
    };
    let ok_method = match obj_get(call_fs, "method") {
        Some(StructuredValue::UInt(m)) => *m == 0,
        _ => false,
    };
    if !ok_module || !ok_method {
        return None;
    }
    let params = match obj_get(call_fs, "params") {
        Some(StructuredValue::Object(p)) => p,
        _ => {
            return None;
        },
    };
    let dest = match obj_get(params, "dest") {
        Some(StructuredValue::Str(s)) => s,
        _ => {
            return None;
        },
    };
    let stripped = strip_0x(dest.as_str());
    let bytes = match hex_decode(stripped) {
        Some(b) => b,
        None => {
            return None;
        },
    };
    if bytes.len() < 1 {
        return None;
    }
    if bytes[0] != 0xFF {
        return None;
    }
    let public = slice_to_vec(slice_subrange(bytes.as_slice(), 1, bytes.len()));
    proof {
        assert(public@ =~= spec_hex_bytes(spec_strip_0x(dest@)).skip(1));
    }
    let sn = match shard_num_for_bytes(public.as_slice(), shard_count) {
        Some(n) => n,
        None => {
            return None;
        },
    };
    match bech32_encode(hrp, public.as_slice()) {
        Some(addr) => Some((addr, sn)),
        None => None,
    }
}

/// Applies "append address" to one extrinsic value: where the call is the
/// transfer dispatch and its destination carries a full public key, the
/// owning shard and human-readable address are injected among the call's
/// parameters; on any failure the value is returned unchanged.
pub fn extrinsic_append_address(v: StructuredValue, hrp: &str, shard_count: u16) -> (r:
    StructuredValue)
    ensures
        value_view(&r) == spec_append_address(value_view(&v), hrp@, shard_count),
{
    let decision = compute_address_fields(&v, hrp, shard_count);
    let (addr, sn) = match decision {
        Some(p) => p,
        None => {
            return v;
        },
    };
    let ghost vm = value_view(&v);
    let mut fs = match v {
        StructuredValue::Object(f) => f,
        _ => unreached(),
    };
    let ghost fs0 = fs@;
    let ghost fsm = fields_view(fs0);
    proof {
        lemma_fields_view(fs0);
    }
    let ci = match obj_find(&fs, "call") {
        Some(i) => i,
        None => {
            proof {
                lemma_model_obj_get_absent(fsm, "call"@);
            }
            unreached()
        },
    };
    proof {
        lemma_model_obj_get_found(fsm, "call"@, ci as int);
    }
    let (ck, cv) = fs.remove(ci);
    let mut call_fs = match cv {
        StructuredValue::Object(c) => c,
        _ => unreached(),
    };
    let ghost cfs0 = call_fs@;
    let ghost cm = fields_view(cfs0);
    proof {
        lemma_fields_view(cfs0);
    }
    let pi = match obj_find(&call_fs, "params") {
        Some(i) => i,
        None => {
            proof {
                lemma_model_obj_get_absent(cm, "params"@);
            }
            unreached()
        },
    };
    proof {
        lemma_model_obj_get_found(cm, "params"@, pi as int);
    }
    let (pk, pv) = call_fs.remove(pi);
    let pfs = match pv {
        StructuredValue::Object(p) => p,
        _ => unreached(),
    };
    let ghost pm = fields_view(pfs@);
    let pfs1 = obj_set(pfs, "dest_address", StructuredValue::Str(addr));
    let pfs2 = obj_set(pfs1, "dest_shard_num", StructuredValue::UInt(sn as u64));
    call_fs.insert(pi, (pk, StructuredValue::Object(pfs2)));
    proof {
        assert(call_fs@ =~= cfs0.update(
            pi as int,
            (cfs0[pi as int].0, StructuredValue::Object(pfs2)),
        ));
        lemma_fields_view(call_fs@);
        lemma_model_obj_set_found(
            cm,
            "params"@,
            ValueModel::Object(fields_view(pfs2@)),
            pi as int,
        );
        assert(fields_view(call_fs@) =~= model_obj_set(
            cm,
            "params"@,
            ValueModel::Object(fields_view(pfs2@)),
        ));
    }
    fs.insert(ci, (ck, StructuredValue::Object(call_fs)));
    proof {
        assert(fs@ =~= fs0.update(ci as int, (fs0[ci as int].0, StructuredValue::Object(call_fs))));
        lemma_fields_view(fs@);
        lemma_model_obj_set_found(
            fsm,
            "call"@,
            ValueModel::Object(fields_view(call_fs@)),
            ci as int,
        );
        assert(fields_view(fs@) =~= model_obj_set(
            fsm,
            "call"@,
            ValueModel::Object(fields_view(call_fs@)),
        ));
    }
    StructuredValue::Object(fs)
}

/// The extrinsic values of a list after "append address", in order.
pub open spec fn spec_append_address_all(
    items: Seq<ValueModel>,
    hrp: Seq<char>,
    shard_count: u16,
) -> Seq<ValueModel>
    decreases items.len(),
{
    if items.len() == 0 {
        Seq::empty()
    } else {
        seq![spec_append_address(items[0], hrp, shard_count)] + spec_append_address_all(
            items.drop_first(),
            hrp,
            shard_count,
        )
    }
}

/// Pointwise reading of `spec_append_address_all`.
pub proof fn lemma_append_address_all(items: Seq<ValueModel>, hrp: Seq<char>, shard_count: u16)
    ensures
        spec_append_address_all(items, hrp, shard_count).len() == items.len(),
        forall|i: int|
            0 <= i < items.len() ==> spec_append_address_all(items, hrp, shard_count)[i]
                == spec_append_address(items[i], hrp, shard_count),
    decreases items.len(),
{
    if items.len() > 0 {
        lemma_append_address_all(items.drop_first(), hrp, shard_count);
    }
}

/// A value with its `extrinsics` array, where it has one, enriched
/// elementwise by "append address".
pub open spec fn spec_enrich_extrinsics(v: ValueModel, hrp: Seq<char>, shard_count: u16) -> ValueModel {
    match v {
        ValueModel::Object(fs) => match model_obj_get(fs, "extrinsics"@) {
            Some(ValueModel::Array(items)) => ValueModel::Object(
                model_obj_set(
                    fs,
                    "extrinsics"@,
                    ValueModel::Array(spec_append_address_all(items, hrp, shard_count)),
                ),
            ),
            _ => v,
        },
        _ => v,
    }
}

/// A pipeline result after the address pass: a block-shaped value (one with
/// an `extrinsics` array) has every contained extrinsic enriched; a value
/// that itself looks like an extrinsic (one with a `call` field) is enriched
/// directly.
pub open spec fn spec_value_with_address(v: ValueModel, hrp: Seq<char>, shard_count: u16) -> ValueModel {
    spec_append_address(spec_enrich_extrinsics(v, hrp, shard_count), hrp, shard_count)
}

/// Applies the address pass to a pipeline result: every extrinsic of a
/// block-shaped value, and the value itself where it is extrinsic-shaped.
pub fn value_with_address(v: StructuredValue, hrp: &str, shard_count: u16) -> (r: StructuredValue)
    ensures
        value_view(&r) == spec_value_with_address(value_view(&v), hrp@, shard_count),
{
    let ghost vm = value_view(&v);
    let v1 = match v {
        StructuredValue::Object(mut fs) => {
            let ghost fs0 = fs@;
            let ghost fsm = fields_view(fs0);
            proof {
                lemma_fields_view(fs0);
            }
            match obj_find(&fs, "extrinsics") {
                Some(ei) => {
                    proof {
                        lemma_model_obj_get_found(fsm, "extrinsics"@, ei as int);
                    }
                    let (ek, ev) = fs.remove(ei);
                    match ev {
                        StructuredValue::Array(items) => {
                            let ghost items0 = items@;
                            let ghost im = values_view(items0);
                            let mut items = items;
                            let n = items.len();
                            let mut out: Vec<StructuredValue> = Vec::new();
                            let mut i: usize = 0;
                            proof {
                                lemma_values_view(items0);
                                lemma_append_address_all(im, hrp@, shard_count);
                            }
                            while i < n
                                invariant
                                    n == items0.len(),
                                    0 <= i <= n,
                                    items@ =~= items0.skip(i as int),
                                    out@.len() == i,
                                    values_view(items0) == im,
                                    forall|j: int|
                                        0 <= j < i ==> value_view(&out@[j])
                                            == spec_append_address(im[j], hrp@, shard_count),
                                decreases n - i,
                            {
                                let item = items.remove(0);
                                proof {
                                    assert(item == items0[i as int]);
                                    assert(items@ =~= items0.skip(i + 1));
                                    lemma_values_view(items0);
                                }
                                let e = extrinsic_append_address(item, hrp, shard_count);
                                out.push(e);
                                i = i + 1;
                            }
                            proof {
                                lemma_values_view(out@);
                                lemma_append_address_all(im, hrp@, shard_count);
                                assert(values_view(out@) =~= spec_append_address_all(
                                    im,
                                    hrp@,
                                    shard_count,
                                ));
                            }
                            fs.insert(ei, (ek, StructuredValue::Array(out)));
                            proof {
                                assert(fs@ =~= fs0.update(
                                    ei as int,
                                    (fs0[ei as int].0, StructuredValue::Array(out)),
                                ));
                                lemma_fields_view(fs@);
                                lemma_model_obj_set_found(
                                    fsm,
                                    "extrinsics"@,
                                    ValueModel::Array(values_view(out@)),
                                    ei as int,
                                );
                                assert(fields_view(fs@) =~= model_obj_set(
                                    fsm,
                                    "extrinsics"@,
                                    ValueModel::Array(values_view(out@)),
                                ));
                            }
                            StructuredValue::Object(fs)
                        },
                        other => {
                            fs.insert(ei, (ek, other));
                            proof {
                                assert(fs@ =~= fs0);
                            }
                            StructuredValue::Object(fs)
                        },
                    }
                },
                None => {
                    proof {
                        lemma_model_obj_get_absent(fsm, "extrinsics"@);
                    }
                    StructuredValue::Object(fs)
                },
            }
        },
        other => other,
    };
    proof {
        assert(value_view(&v1) == spec_enrich_extrinsics(vm, hrp@, shard_count));
    }
    extrinsic_append_address(v1, hrp, shard_count)
}

/// The embedded transaction bytes that "append decoded transaction" would
/// decode, where the rule applies at all: the call must be the relay
/// transfer submission and its `tx` parameter hexadecimal text.
pub open spec fn spec_tx_decoded_bytes(v: ValueModel) -> Option<Seq<u8>> {
    match v {
        ValueModel::Object(fs) => match model_obj_get(fs, "call"@) {
            Some(ValueModel::Object(cfs)) => {
                if model_obj_get(cfs, "module"@) == Some(ValueModel::UInt(9)) && model_obj_get(
                    cfs,
                    "method"@,
                ) == Some(ValueModel::UInt(0)) {
                    match model_obj_get(cfs, "params"@) {
                        Some(ValueModel::Object(pfs)) => match model_obj_get(pfs, "tx"@) {
                            Some(ValueModel::Str(tx)) => {
                                let stripped = spec_strip_0x(tx);
                                if spec_hex_decodable(stripped) {
                                    Some(spec_hex_bytes(stripped))
                                } else {
                                    None
                                }
                            },
                            _ => None,
                        },
                        _ => None,
                    }
                } else {
                    None
                }
            },
            _ => None,
        },
        _ => None,
    }
}

/// The structured form of a decoded embedded transaction: no hash, raw
/// bytes, outcome or block number (none are known for an embedded
/// transaction), the signer where present, and the call with its one decoded
/// parameter as hexadecimal text.
pub open spec fn spec_decoded_tx_model(m: TxModel) -> ValueModel {
    ValueModel::Object(
        seq![
            ("hash"@, ValueModel::Null),
            ("raw"@, ValueModel::Null),
            ("success"@, ValueModel::Null),
            ("block_number"@, ValueModel::Null),
            (
                "signer"@,
                match m.signer {
                    Some(pk) => hex_text_model(pk),
                    None => ValueModel::Null,
                },
            ),
            (
                "call"@,
                ValueModel::Object(
                    seq![
                        ("module"@, ValueModel::UInt(m.module as u64)),
                        ("method"@, ValueModel::UInt(m.method as u64)),
                        (
                            "params"@,
                            ValueModel::Object(
                                seq![
                                    (
                                        spec_call_param(m.module, m.method, m.params).0,
                                        hex_text_model(
                                            spec_call_param(m.module, m.method, m.params).1,
                                        ),
                                    ),
                                ],
                            ),
                        ),
                    ],
                ),
            ),
        ],
    )
}

/// Projects a decoded envelope into the generic structured value.
fn decoded_tx_value(tx: DecodedTx) -> (r: StructuredValue)
    ensures
        value_view(&r) == spec_decoded_tx_model(tx_model(&tx)),
{
    let ghost m = tx_model(&tx);
    let DecodedTx { signer, module, method, params } = tx;
    let cps = call_params_from_payload(module, method, params);
    let rtx = ResultTransaction {
        hash: None,
        raw: None,
        success: None,
        block_number: None,
        signer,
        call: ResultCall { module: module as u64, method: method as u64, params: cps },
    };
    let r = transaction_to_value(&rtx);
    proof {
        lemma_params_model(rtx.call.params@);
        assert(params_model(rtx.call.params@) =~= seq![
            (
                spec_call_param(m.module, m.method, m.params).0,
                hex_text_model(spec_call_param(m.module, m.method, m.params).1),
            ),
        ]);
        assert(transaction_model(&rtx)->Object_0 =~= spec_decoded_tx_model(m)->Object_0);
    }
    r
}

/// A pipeline result after the decoded-transaction pass: unchanged where the
/// rule does not apply; nothing where the embedded bytes are no transaction;
/// otherwise with the decoded form, itself address-enriched, injected under
/// `tx_decoded` among the call's parameters.
pub open spec fn spec_append_tx_decoded(v: ValueModel, hrp: Seq<char>, shard_count: u16) -> Option<
    ValueModel,
> {
    match spec_tx_decoded_bytes(v) {
        None => Some(v),
        Some(bytes) => match spec_parse_tx(bytes) {
            None => None,
            Some(m) => {
                let txv = spec_append_address(spec_decoded_tx_model(m), hrp, shard_count);
                let fs = v->Object_0;
                let cfs = model_obj_get(fs, "call"@)->Some_0->Object_0;
                let pfs = model_obj_get(cfs, "params"@)->Some_0->Object_0;
                let pfs2 = model_obj_set(pfs, "tx_decoded"@, txv);
                let cfs2 = model_obj_set(cfs, "params"@, ValueModel::Object(pfs2));
                Some(ValueModel::Object(model_obj_set(fs, "call"@, ValueModel::Object(cfs2))))
            },
        },
    }
}

/// Reads the embedded transaction bytes the decoded-transaction pass acts
/// on, without changing the value.
fn compute_tx_decoded_bytes(v: &StructuredValue) -> (r: Option<Vec<u8>>)
    ensures
        r is Some <==> spec_tx_decoded_bytes(value_view(v)) is Some,
        r matches Some(b) ==> spec_tx_decoded_bytes(value_view(v)) == Some(b@),
{
    let fs = match v {
        StructuredValue::Object(fs) => fs,
        _ => {
            return None;
        },
    };
    let call_fs = match obj_get(fs, "call") {
        Some(StructuredValue::Object(c)) => c,
        _ => {
            return None;
        },
    };
    let ok_module = match obj_get(call_fs, "module") {
        Some(StructuredValue::UInt(m)) => *m == 9,
        _ => false,
    };
    let ok_method = match obj_get(call_fs, "method") {
        Some(StructuredValue::UInt(m)) => *m == 0,
        _ => false,
    };
    if !ok_module || !ok_method {
        return None;
    }
    let params = match obj_get(call_fs, "params") {
        Some(StructuredValue::Object(p)) => p,
        _ => {
            return None;
        },
    };
    let tx = match obj_get(params, "tx") {
        Some(StructuredValue::Str(s)) => s,
        _ => {
            return None;
        },
    };
    let stripped = strip_0x(tx.as_str());
    hex_decode(stripped)
}

/// Applies the decoded-transaction pass to a pipeline result: where the call
/// is the relay transfer submission, its embedded origin transaction is
/// decoded, address-enriched and injected under `tx_decoded`. An embedded
/// transaction that does not decode fails with [`Error::ParseError`] rather
/// than being passed through.
pub fn value_with_tx_decoded(v: StructuredValue, hrp: &str, shard_count: u16) -> (r: Result<
    StructuredValue,
    Error,
>)
    ensures
        match spec_append_tx_decoded(value_view(&v), hrp@, shard_count) {
            None => r matches Err(e) && e == Error::ParseError,
            Some(m) => r matches Ok(rv) && value_view(&rv) == m,
        },
{
    let bytes = match compute_tx_decoded_bytes(&v) {
        Some(b) => b,
        None => {
            return Ok(v);
        },
    };
    let tx = match decode_transaction(bytes.as_slice()) {
        Ok(tx) => tx,
        Err(_) => {
            return Err(Error::ParseError);
        },
    };
    let txv = extrinsic_append_address(decoded_tx_value(tx), hrp, shard_count);
    let ghost vm = value_view(&v);
    let mut fs = match v {
        StructuredValue::Object(f) => f,
        _ => unreached(),
    };
    let ghost fs0 = fs@;
    let ghost fsm = fields_view(fs0);
    proof {
        lemma_fields_view(fs0);
    }
    let ci = match obj_find(&fs, "call") {
        Some(i) => i,
        None => {
            proof {
                lemma_model_obj_get_absent(fsm, "call"@);
            }
            unreached()
        },
    };
    proof {
        lemma_model_obj_get_found(fsm, "call"@, ci as int);
    }
    let (ck, cv) = fs.remove(ci);
    let mut call_fs = match cv {
        StructuredValue::Object(c) => c,
        _ => unreached(),
    };
    let ghost cfs0 = call_fs@;
    let ghost cm = fields_view(cfs0);
    proof {
        lemma_fields_view(cfs0);
    }
    let pi = match obj_find(&call_fs, "params") {
        Some(i) => i,
        None => {
            proof {
                lemma_model_obj_get_absent(cm, "params"@);
            }
            unreached()
        },
    };
    proof {
        lemma_model_obj_get_found(cm, "params"@, pi as int);
    }
    let (pk, pv) = call_fs.remove(pi);
    let pfs = match pv {
        StructuredValue::Object(p) => p,
        _ => unreached(),
    };
    let pfs2 = obj_set(pfs, "tx_decoded", txv);
    call_fs.insert(pi, (pk, StructuredValue::Object(pfs2)));
    proof {
        assert(call_fs@ =~= cfs0.update(
            pi as int,
            (cfs0[pi as int].0, StructuredValue::Object(pfs2)),
        ));
        lemma_fields_view(call_fs@);
        lemma_model_obj_set_found(
            cm,
            "params"@,
            ValueModel::Object(fields_view(pfs2@)),
            pi as int,
        );
        assert(fields_view(call_fs@) =~= model_obj_set(
            cm,
            "params"@,
            ValueModel::Object(fields_view(pfs2@)),
        ));
    }
    fs.insert(ci, (ck, StructuredValue::Object(call_fs)));
    proof {
        assert(fs@ =~= fs0.update(ci as int, (fs0[ci as int].0, StructuredValue::Object(call_fs))));
        lemma_fields_view(fs@);
        lemma_model_obj_set_found(
            fsm,
            "call"@,
            ValueModel::Object(fields_view(call_fs@)),
            ci as int,
        );
        assert(fields_view(fs@) =~= model_obj_set(
            fsm,
            "call"@,
            ValueModel::Object(fields_view(call_fs@)),
        ));
    }
    Ok(StructuredValue::Object(fs))
}

} // verus!
