//! Decoded, display-oriented views of raw chain data, and their projection
//! into the generic structured value.

use vstd::prelude::*;
use vstd::string::{StrSliceExecFns, StringExecFns};

use crate::hexstr::{hex_encode, spec_hex_str};
use crate::value::{
    fields_view, lemma_fields_view, lemma_values_view, value_view, values_view, StructuredValue,
    ValueModel,
};

verus! {

/// A decoded block header. The hash is attached only once it is known from
/// the lookup that produced the header: a header alone does not carry it.
pub struct ResultHeader {
    /// Hash of this block, once resolved.
    pub block_hash: Option<Vec<u8>>,
    /// Height of this block in its shard's chain.
    pub number: u64,
    /// Hash of the parent block.
    pub parent_hash: Vec<u8>,
    /// Root of the state trie at this block.
    pub state_root: Vec<u8>,
    /// Root of the extrinsics trie of this block.
    pub extrinsics_root: Vec<u8>,
}

/// One parameter of a decoded call.
pub enum CallParam {
    /// An unsigned integer parameter.
    U64(u64),
    /// A raw byte-string parameter; displayed as prefixed hexadecimal text.
    Bytes(Vec<u8>),
    /// A textual parameter.
    Str(String),
}

/// A decoded call: the numeric module and method pair that identifies the
/// dispatched function, and its named parameters in declaration order.
pub struct ResultCall {
    /// Index of the runtime module dispatched into.
    pub module: u64,
    /// Index of the method within the module.
    pub method: u64,
    /// Named parameters, in order.
    pub params: Vec<(String, CallParam)>,
}

/// A decoded transaction of a block.
pub struct ResultTransaction {
    /// Hash of the transaction, where known.
    pub hash: Option<Vec<u8>>,
    /// The raw encoded bytes; stripped before display unless raw bytes were
    /// explicitly requested.
    pub raw: Option<Vec<u8>>,
    /// Whether the transaction was applied successfully; present only once
    /// chain events have been correlated.
    pub success: Option<bool>,
    /// The block this transaction was found in, where known.
    pub block_number: Option<u64>,
    /// The signer's 32-byte public key, for a signed transaction.
    pub signer: Option<Vec<u8>>,
    /// The dispatched call.
    pub call: ResultCall,
}

/// A decoded block: its header and its transactions in order.
pub struct ResultBlock {
    /// The block's header.
    pub header: ResultHeader,
    /// The block's transactions, in on-chain order.
    pub extrinsics: Vec<ResultTransaction>,
}

/// Byte strings are displayed as `0x`-prefixed lowercase hexadecimal text.
pub open spec fn hex_text_model(b: Seq<u8>) -> ValueModel {
    ValueModel::Str("0x"@ + spec_hex_str(b))
}

/// An optional byte string displays as hexadecimal text or null.
pub open spec fn opt_hex_model(b: Option<Vec<u8>>) -> ValueModel {
    match b {
        Some(v) => hex_text_model(v@),
        None => ValueModel::Null,
    }
}

/// The structured form of a header.
pub open spec fn header_model(h: &ResultHeader) -> ValueModel {
    ValueModel::Object(
        seq![
            ("block_hash"@, opt_hex_model(h.block_hash)),
            ("number"@, ValueModel::UInt(h.number)),
            ("parent_hash"@, hex_text_model(h.parent_hash@)),
            ("state_root"@, hex_text_model(h.state_root@)),
            ("extrinsics_root"@, hex_text_model(h.extrinsics_root@)),
        ],
    )
}

/// The structured form of one call parameter.
pub open spec fn param_model(p: &CallParam) -> ValueModel {
    match p {
        CallParam::U64(n) => ValueModel::UInt(*n),
        CallParam::Bytes(b) => hex_text_model(b@),
        CallParam::Str(s) => ValueModel::Str(s@),
    }
}

/// The structured form of a parameter list.
pub open spec fn params_model(ps: Seq<(String, CallParam)>) -> Seq<(Seq<char>, ValueModel)>
    decreases ps.len(),
{
    if ps.len() == 0 {
        Seq::empty()
    } else {
        seq![(ps[0].0@, param_model(&ps[0].1))] + params_model(ps.drop_first())
    }
}

/// The structured form of a call.
pub open spec fn call_model(c: &ResultCall) -> ValueModel {
    ValueModel::Object(
        seq![
            ("module"@, ValueModel::UInt(c.module)),
            ("method"@, ValueModel::UInt(c.method)),
            ("params"@, ValueModel::Object(params_model(c.params@))),
        ],
    )
}

/// The structured form of a transaction.
pub open spec fn transaction_model(t: &ResultTransaction) -> ValueModel {
    ValueModel::Object(
        seq![
            ("hash"@, opt_hex_model(t.hash)),
            ("raw"@, opt_hex_model(t.raw)),
            (
                "success"@,
                match t.success {
                    Some(b) => ValueModel::Bool(b),
                    None => ValueModel::Null,
                },
            ),
            (
                "block_number"@,
                match t.block_number {
                    Some(n) => ValueModel::UInt(n),
                    None => ValueModel::Null,
                },
            ),
            ("signer"@, opt_hex_model(t.signer)),
            ("call"@, call_model(&t.call)),
        ],
    )
}

/// The structured forms of a transaction list, in order.
pub open spec fn transactions_model(ts: Seq<ResultTransaction>) -> Seq<ValueModel>
    decreases ts.len(),
{
    if ts.len() == 0 {
        Seq::empty()
    } else {
        seq![transaction_model(&ts[0])] + transactions_model(ts.drop_first())
    }
}

/// The structured form of a block: its header, and its transactions under
/// the `extrinsics` field.
pub open spec fn block_model(b: &ResultBlock) -> ValueModel {
    ValueModel::Object(
        seq![
            ("header"@, header_model(&b.header)),
            ("extrinsics"@, ValueModel::Array(transactions_model(b.extrinsics@))),
        ],
    )
}

/// Renders a byte string as `0x`-prefixed lowercase hexadecimal text.
pub fn hex_text(b: &[u8]) -> (r: StructuredValue)
    ensures
        value_view(&r) == hex_text_model(b@),
{
    let mut s = String::from_str("0x");
    let h = hex_encode(b);
    s.append(h.as_str());
    StructuredValue::Str(s)
}

/// Renders an optional byte string as hexadecimal text or null.
fn opt_hex_text(b: &Option<Vec<u8>>) -> (r: StructuredValue)
    ensures
        value_view(&r) == opt_hex_model(*b),
{
    match b {
        Some(v) => hex_text(v.as_slice()),
        None => StructuredValue::Null,
    }
}

/// Projects a header into the generic structured value.
pub fn header_to_value(h: &ResultHeader) -> (r: StructuredValue)
    ensures
        value_view(&r) == header_model(h),
{
    let mut fields: Vec<(String, StructuredValue)> = Vec::new();
    fields.push((String::from_str("block_hash"), opt_hex_text(&h.block_hash)));
    fields.push((String::from_str("number"), StructuredValue::UInt(h.number)));
    fields.push((String::from_str("parent_hash"), hex_text(h.parent_hash.as_slice())));
    fields.push((String::from_str("state_root"), hex_text(h.state_root.as_slice())));
    fields.push((String::from_str("extrinsics_root"), hex_text(h.extrinsics_root.as_slice())));
    let r = StructuredValue::Object(fields);
    proof {
        lemma_fields_view(fields@);
        assert(fields_view(fields@) =~= header_model(h)->Object_0);
    }
    r
}

/// Projects one call parameter into the generic structured value.
fn param_to_value(p: &CallParam) -> (r: StructuredValue)
    ensures
        value_view(&r) == param_model(p),
{
    match p {
        CallParam::U64(n) => StructuredValue::UInt(*n),
        CallParam::Bytes(b) => hex_text(b.as_slice()),
        CallParam::Str(s) => StructuredValue::Str(s.clone()),
    }
}

/// Pointwise reading of `params_model`.
pub proof fn lemma_params_model(ps: Seq<(String, CallParam)>)
    ensures
        params_model(ps).len() == ps.len(),
        forall|i: int| 0 <= i < ps.len() ==> params_model(ps)[i] == (ps[i].0@, param_model(&ps[i].1)),
    decreases ps.len(),
{
    if ps.len() > 0 {
        lemma_params_model(ps.drop_first());
    }
}

/// Pointwise reading of `transactions_model`.
pub proof fn lemma_transactions_model(ts: Seq<ResultTransaction>)
    ensures
        transactions_model(ts).len() == ts.len(),
        forall|i: int| 0 <= i < ts.len() ==> transactions_model(ts)[i] == transaction_model(&ts[i]),
    decreases ts.len(),
{
    if ts.len() > 0 {
        lemma_transactions_model(ts.drop_first());
    }
}

/// Projects a call into the generic structured value.
pub fn call_to_value(c: &ResultCall) -> (r: StructuredValue)
    ensures
        value_view(&r) == call_model(c),
{
    let n = c.params.len();
    let mut params: Vec<(String, StructuredValue)> = Vec::new();
    let mut i: usize = 0;
    while i < n
        invariant
            n == c.params@.len(),
            0 <= i <= n,
            params@.len() == i,
            forall|j: int|
                0 <= j < i ==> params@[j].0@ == c.params@[j].0@ && value_view(&params@[j].1)
                    == param_model(&c.params@[j].1),
        decreases n - i,
    {
        let name = c.params[i].0.clone();
        let val = param_to_value(&c.params[i].1);
        params.push((name, val));
        i = i + 1;
    }
    let mut fields: Vec<(String, StructuredValue)> = Vec::new();
    fields.push((String::from_str("module"), StructuredValue::UInt(c.module)));
    fields.push((String::from_str("method"), StructuredValue::UInt(c.method)));
    fields.push((String::from_str("params"), StructuredValue::Object(params)));
    let r = StructuredValue::Object(fields);
    proof {
        lemma_fields_view(params@);
        lemma_params_model(c.params@);
        assert(fields_view(params@) =~= params_model(c.params@));
        lemma_fields_view(fields@);
        assert(fields_view(fields@) =~= call_model(c)->Object_0);
    }
    r
}

/// Projects a transaction into the generic structured value.
pub fn transaction_to_value(t: &ResultTransaction) -> (r: StructuredValue)
    ensures
        value_view(&r) == transaction_model(t),
{
    let mut fields: Vec<(String, StructuredValue)> = Vec::new();
    fields.push((String::from_str("hash"), opt_hex_text(&t.hash)));
    fields.push((String::from_str("raw"), opt_hex_text(&t.raw)));
    let success = match t.success {
        Some(b) => StructuredValue::Bool(b),
        None => StructuredValue::Null,
    };
    fields.push((String::from_str("success"), success));
    let number = match t.block_number {
        Some(n) => StructuredValue::UInt(n),
        None => StructuredValue::Null,
    };
    fields.push((String::from_str("block_number"), number));
    fields.push((String::from_str("signer"), opt_hex_text(&t.signer)));
    fields.push((String::from_str("call"), call_to_value(&t.call)));
    let r = StructuredValue::Object(fields);
    proof {
        lemma_fields_view(fields@);
        assert(fields_view(fields@) =~= transaction_model(t)->Object_0);
    }
    r
}

/// Projects a block into the generic structured value.
pub fn block_to_value(b: &ResultBlock) -> (r: StructuredValue)
    ensures
        value_view(&r) == block_model(b),
{
    let n = b.extrinsics.len();
    let mut txs: Vec<StructuredValue> = Vec::new();
    let mut i: usize = 0;
    while i < n
        invariant
            n == b.extrinsics@.len(),
            0 <= i <= n,
            txs@.len() == i,
            forall|j: int|
                0 <= j < i ==> value_view(&txs@[j]) == transaction_model(&b.extrinsics@[j]),
        decreases n - i,
    {
        let tv = transaction_to_value(&b.extrinsics[i]);
        txs.push(tv);
        i = i + 1;
    }
    let mut fields: Vec<(String, StructuredValue)> = Vec::new();
    fields.push((String::from_str("header"), header_to_value(&b.header)));
    fields.push((String::from_str("extrinsics"), StructuredValue::Array(txs)));
    let r = StructuredValue::Object(fields);
    proof {
        lemma_values_view(txs@);
        lemma_transactions_model(b.extrinsics@);
        assert(values_view(txs@) =~= transactions_model(b.extrinsics@));
        lemma_fields_view(fields@);
        assert(fields_view(fields@) =~= block_model(b)->Object_0);
    }
    r
}

} // verus!
