use shard_gateway::enrich::{extrinsic_append_address, value_with_address, value_with_tx_decoded};
use shard_gateway::errors::Error;
use shard_gateway::pipeline::balance_to_value;
use shard_gateway::types::{hex_text, header_to_value, transaction_to_value, ResultCall, ResultHeader, ResultTransaction};
use shard_gateway::value::StructuredValue;

fn obj(fields: Vec<(&str, StructuredValue)>) -> StructuredValue {
    StructuredValue::Object(fields.into_iter().map(|(k, v)| (String::from(k), v)).collect())
}

fn field<'a>(v: &'a StructuredValue, key: &str) -> &'a StructuredValue {
    match v {
        StructuredValue::Object(fs) => {
            for (k, val) in fs {
                if k == key {
                    return val;
                }
            }
            panic!("missing field {}", key)
        },
        _ => panic!("not an object"),
    }
}

fn has_field(v: &StructuredValue, key: &str) -> bool {
    match v {
        StructuredValue::Object(fs) => fs.iter().any(|(k, _)| k == key),
        _ => false,
    }
}

fn as_str(v: &StructuredValue) -> &String {
    match v {
        StructuredValue::Str(s) => s,
        _ => panic!("not text"),
    }
}

fn as_u64(v: &StructuredValue) -> u64 {
    match v {
        StructuredValue::UInt(n) => *n,
        _ => panic!("not a number"),
    }
}

fn transfer_extrinsic(dest_hex: &str) -> StructuredValue {
    obj(vec![(
        "call",
        obj(vec![
            ("module", StructuredValue::UInt(4)),
            ("method", StructuredValue::UInt(0)),
            ("params", obj(vec![("dest", StructuredValue::Str(String::from(dest_hex)))])),
        ]),
    )])
}

fn compact(n: u32) -> Vec<u8> {
    if n < 64 {
        vec![(n as u8) << 2]
    } else {
        let v = (n << 2) | 1;
        vec![(v & 0xFF) as u8, (v >> 8) as u8]
    }
}

fn encode_tx(pk: &[u8; 32], module: u8, method: u8, params: &[u8]) -> Vec<u8> {
    let mut body = vec![0x81u8, 0xFF];
    body.extend_from_slice(pk);
    body.extend_from_slice(&[0u8; 64]);
    body.push(0x00);
    body.push(0x00);
    body.push(module);
    body.push(method);
    body.extend_from_slice(params);
    let mut out = compact(body.len() as u32);
    out.extend_from_slice(&body);
    out
}

#[test]
fn append_address_injects_shard_and_address() {
    let mut pk = [0u8; 32];
    pk[31] = 2;
    let dest = format!("0xff{}", hex::encode(pk));
    let out = extrinsic_append_address(transfer_extrinsic(&dest), "yee", 4);
    let params = field(field(&out, "call"), "params");
    assert_eq!(as_u64(field(params, "dest_shard_num")), 2);
    let address = as_str(field(params, "dest_address"));
    let (hrp, data) = bech32::decode(address).unwrap();
    assert_eq!(hrp.to_lowercase(), "yee");
    assert_eq!(data, pk.to_vec());
}

#[test]
fn append_address_swallows_malformed_hex() {
    let out = extrinsic_append_address(transfer_extrinsic("0xzz"), "yee", 4);
    let params = field(field(&out, "call"), "params");
    assert!(!has_field(params, "dest_address"));
    assert!(!has_field(params, "dest_shard_num"));
}

#[test]
fn append_address_swallows_missing_sentinel() {
    // The destination does not start with the full-key sentinel byte.
    let mut pk = [0u8; 32];
    pk[31] = 2;
    let dest = format!("0x00{}", hex::encode(pk));
    let out = extrinsic_append_address(transfer_extrinsic(&dest), "yee", 4);
    assert!(!has_field(field(field(&out, "call"), "params"), "dest_address"));
}

#[test]
fn append_address_swallows_zero_shards() {
    let mut pk = [0u8; 32];
    pk[31] = 2;
    let dest = format!("0xff{}", hex::encode(pk));
    let out = extrinsic_append_address(transfer_extrinsic(&dest), "yee", 0);
    assert!(!has_field(field(field(&out, "call"), "params"), "dest_address"));
}

#[test]
fn append_address_ignores_other_calls() {
    let v = obj(vec![(
        "call",
        obj(vec![
            ("module", StructuredValue::UInt(5)),
            ("method", StructuredValue::UInt(0)),
            ("params", obj(vec![])),
        ]),
    )]);
    let out = extrinsic_append_address(v, "yee", 4);
    assert!(!has_field(field(field(&out, "call"), "params"), "dest_address"));
}

#[test]
fn address_pass_enriches_every_block_extrinsic() {
    let mut pk = [0u8; 32];
    pk[31] = 2;
    let dest = format!("0xff{}", hex::encode(pk));
    let block_value = obj(vec![
        ("header", obj(vec![("number", StructuredValue::UInt(1))])),
        (
            "extrinsics",
            StructuredValue::Array(vec![
                transfer_extrinsic(&dest),
                transfer_extrinsic("0xzz"),
            ]),
        ),
    ]);
    let out = value_with_address(block_value, "yee", 4);
    let items = match field(&out, "extrinsics") {
        StructuredValue::Array(items) => items,
        _ => panic!("extrinsics must stay an array"),
    };
    assert_eq!(items.len(), 2);
    assert!(has_field(field(field(&items[0], "call"), "params"), "dest_address"));
    assert!(!has_field(field(field(&items[1], "call"), "params"), "dest_address"));
}

#[test]
fn address_pass_enriches_bare_extrinsic() {
    let mut pk = [0u8; 32];
    pk[31] = 2;
    let dest = format!("0xff{}", hex::encode(pk));
    let out = value_with_address(transfer_extrinsic(&dest), "yee", 4);
    assert!(has_field(field(field(&out, "call"), "params"), "dest_address"));
}

fn relay_submit_extrinsic(tx_hex: &str) -> StructuredValue {
    obj(vec![(
        "call",
        obj(vec![
            ("module", StructuredValue::UInt(9)),
            ("method", StructuredValue::UInt(0)),
            ("params", obj(vec![("tx", StructuredValue::Str(String::from(tx_hex)))])),
        ]),
    )])
}

#[test]
fn tx_decoded_pass_decodes_embedded_transaction() {
    let mut signer = [0u8; 32];
    signer[31] = 9;
    let mut dest_pk = [0u8; 32];
    dest_pk[31] = 2;
    let mut transfer_params = vec![0xFFu8];
    transfer_params.extend_from_slice(&dest_pk);
    let embedded = encode_tx(&signer, 4, 0, &transfer_params);
    let v = relay_submit_extrinsic(&format!("0x{}", hex::encode(&embedded)));
    let out = value_with_tx_decoded(v, "yee", 4).unwrap();
    let params = field(field(&out, "call"), "params");
    let decoded = field(params, "tx_decoded");
    let call = field(decoded, "call");
    assert_eq!(as_u64(field(call, "module")), 4);
    assert_eq!(as_u64(field(call, "method")), 0);
    // The embedded transfer's destination was itself address-enriched.
    let inner_params = field(call, "params");
    assert_eq!(as_u64(field(inner_params, "dest_shard_num")), 2);
    let address = as_str(field(inner_params, "dest_address"));
    let (_, data) = bech32::decode(address).unwrap();
    assert_eq!(data, dest_pk.to_vec());
    // The embedded signer travels as hexadecimal text.
    assert_eq!(as_str(field(decoded, "signer")), &format!("0x{}", hex::encode(signer)));
}

#[test]
fn tx_decoded_pass_fails_closed_on_malformed_transaction() {
    let v = relay_submit_extrinsic("0xdead");
    assert_eq!(value_with_tx_decoded(v, "yee", 4).map(|_| ()), Err(Error::ParseError));
}

#[test]
fn tx_decoded_pass_ignores_other_calls() {
    let mut pk = [0u8; 32];
    pk[31] = 2;
    let v = transfer_extrinsic(&format!("0xff{}", hex::encode(pk)));
    let out = value_with_tx_decoded(v, "yee", 4).unwrap();
    assert!(!has_field(field(field(&out, "call"), "params"), "tx_decoded"));
}

#[test]
fn hex_projection_is_prefixed_lowercase() {
    match hex_text(&[0xAB, 0x01]) {
        StructuredValue::Str(s) => assert_eq!(s, "0xab01"),
        _ => panic!("hex text must be text"),
    }
}

#[test]
fn balance_projection_is_decimal_text() {
    match balance_to_value(5) {
        StructuredValue::Str(s) => assert_eq!(s, "5"),
        _ => panic!("a balance must project to text"),
    }
    match balance_to_value(u128::MAX) {
        StructuredValue::Str(s) => assert_eq!(s, "340282366920938463463374607431768211455"),
        _ => panic!("a balance must project to text"),
    }
}

#[test]
fn header_projection_carries_all_fields() {
    let h = ResultHeader {
        block_hash: Some(vec![0xCD]),
        number: 7,
        parent_hash: vec![0x11],
        state_root: vec![0x22],
        extrinsics_root: vec![0x33],
    };
    let v = header_to_value(&h);
    assert_eq!(as_u64(field(&v, "number")), 7);
    assert_eq!(as_str(field(&v, "block_hash")), "0xcd");
    assert_eq!(as_str(field(&v, "parent_hash")), "0x11");
}

#[test]
fn transaction_projection_shows_success_and_call() {
    let t = ResultTransaction {
        hash: Some(vec![0x01]),
        raw: None,
        success: Some(true),
        block_number: Some(12),
        signer: None,
        call: ResultCall { module: 9, method: 0, params: vec![] },
    };
    let v = transaction_to_value(&t);
    assert_eq!(as_str(field(&v, "hash")), "0x01");
    assert!(matches!(field(&v, "raw"), StructuredValue::Null));
    assert!(matches!(field(&v, "success"), StructuredValue::Bool(true)));
    assert_eq!(as_u64(field(&v, "block_number")), 12);
    assert_eq!(as_u64(field(field(&v, "call"), "module")), 9);
}
