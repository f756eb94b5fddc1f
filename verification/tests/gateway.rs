use shard_gateway::codec::{
    u128_from_slice, u128_to_dec, u128_to_le_vec, u64_from_slice, u64_to_le_vec,
};
use shard_gateway::errors::Error;
use shard_gateway::events::{decode_event_log, fold_event_records, EventKind, EventPhase, EventRecord};
use shard_gateway::pipeline::{
    assemble_block, balance_from_storage, best_number_of, find_extrinsic_by_hash,
    find_extrinsic_by_raw, header_with_hash, nonce_from_storage, scan_step, AccountQuery,
    ScanOutcome,
};
use shard_gateway::shard::shard_num_for_bytes;
use shard_gateway::storage::{get_map_storage_key, get_value_storage_key};
use shard_gateway::txcodec::{call_params_from_payload, decode_transaction, submit_route};
use shard_gateway::types::{CallParam, ResultBlock, ResultCall, ResultHeader, ResultTransaction};
use shard_gateway::{check_shard_num, Chain, Config};

fn config(shards: usize) -> Config {
    Config {
        shards: (0..shards).map(|i| format!("http://node-{}.example:8545", i)).collect(),
        hrp: String::from("yee"),
    }
}

fn compact(n: u32) -> Vec<u8> {
    if n < 64 {
        vec![(n as u8) << 2]
    } else if n < 16384 {
        let v = (n << 2) | 1;
        vec![(v & 0xFF) as u8, (v >> 8) as u8]
    } else {
        let v = (n << 2) | 2;
        v.to_le_bytes().to_vec()
    }
}

fn encode_tx(pk: &[u8; 32], module: u8, method: u8, params: &[u8]) -> Vec<u8> {
    let mut body = vec![0x81u8, 0xFF];
    body.extend_from_slice(pk);
    body.extend_from_slice(&[0u8; 64]);
    body.push(0x00); // nonce, compact zero
    body.push(0x00); // immortal era
    body.push(module);
    body.push(method);
    body.extend_from_slice(params);
    let mut out = compact(body.len() as u32);
    out.extend_from_slice(&body);
    out
}

fn plain_call() -> ResultCall {
    ResultCall { module: 4, method: 0, params: vec![] }
}

fn header(number: u64) -> ResultHeader {
    ResultHeader {
        block_hash: None,
        number,
        parent_hash: vec![0x11; 32],
        state_root: vec![0x22; 32],
        extrinsics_root: vec![0x33; 32],
    }
}

fn tx_with_hash(h: Vec<u8>) -> ResultTransaction {
    ResultTransaction {
        hash: Some(h),
        raw: Some(vec![0xAA, 0xBB]),
        success: None,
        block_number: None,
        signer: None,
        call: plain_call(),
    }
}

fn relay_tx(origin: Vec<u8>) -> ResultTransaction {
    ResultTransaction {
        hash: None,
        raw: None,
        success: None,
        block_number: None,
        signer: None,
        call: ResultCall {
            module: 9,
            method: 0,
            params: vec![(String::from("tx"), CallParam::Bytes(origin))],
        },
    }
}

fn block(number: u64, extrinsics: Vec<ResultTransaction>) -> ResultBlock {
    ResultBlock { header: header(number), extrinsics }
}

#[test]
fn shard_routing_is_deterministic_and_in_range() {
    for count in [1u16, 2, 4, 7, 1024] {
        for last in [0u8, 1, 2, 9, 200, 255] {
            let mut key = [0u8; 32];
            key[31] = last;
            let a = shard_num_for_bytes(&key, count).unwrap();
            let b = shard_num_for_bytes(&key, count).unwrap();
            assert_eq!(a, b);
            assert!(a < count);
        }
    }
}

#[test]
fn shard_routing_none_only_for_zero_count() {
    let key = [7u8; 32];
    assert_eq!(shard_num_for_bytes(&key, 0), None);
    assert!(shard_num_for_bytes(&key, 1).is_some());
}

#[test]
fn shard_routing_uses_trailing_bytes() {
    let mut key = [0u8; 32];
    key[31] = 2;
    assert_eq!(shard_num_for_bytes(&key, 4), Some(2));
    key[31] = 5;
    assert_eq!(shard_num_for_bytes(&key, 4), Some(1));
}

#[test]
fn validate_shard_boundary_is_inclusive() {
    let cfg = config(4);
    for s in 0u16..=4 {
        assert!(check_shard_num(s, &cfg).is_ok());
    }
    assert_eq!(check_shard_num(5, &cfg), Err(Error::InvalidShard));
    assert_eq!(check_shard_num(u16::MAX, &cfg), Err(Error::InvalidShard));
}

#[test]
fn u64_decode_requires_exactly_eight_bytes() {
    assert_eq!(u64_from_slice(&[5, 0, 0, 0, 0, 0, 0, 0]), Ok(5));
    assert_eq!(u64_from_slice(&[0, 0, 0, 0, 0, 0, 0, 1]), Ok(1 << 56));
    assert_eq!(u64_from_slice(&[5, 0, 0, 0, 0, 0, 0]), Err(Error::ParseError));
    assert_eq!(u64_from_slice(&[]), Err(Error::ParseError));
    assert_eq!(u64_from_slice(&[0; 9]), Err(Error::ParseError));
}

#[test]
fn u128_decode_requires_exactly_sixteen_bytes() {
    let mut cell = [0u8; 16];
    cell[0] = 9;
    assert_eq!(u128_from_slice(&cell), Ok(9));
    assert_eq!(u128_from_slice(&[0; 15]), Err(Error::ParseError));
    assert_eq!(u128_from_slice(&[0; 17]), Err(Error::ParseError));
}

#[test]
fn little_endian_round_trips() {
    for x in [0u64, 1, 5, 0xDEAD_BEEF, u64::MAX] {
        let enc = u64_to_le_vec(x);
        assert_eq!(enc.len(), 8);
        assert_eq!(u64_from_slice(&enc), Ok(x));
    }
    for x in [0u128, 1, 340_282_366_920_938_463_463_374_607_431_768_211_455u128] {
        let enc = u128_to_le_vec(x);
        assert_eq!(enc.len(), 16);
        assert_eq!(u128_from_slice(&enc), Ok(x));
    }
}

#[test]
fn storage_keys_are_stable_and_distinct() {
    let nonce_item = "System AccountNonce".as_bytes();
    let balance_item = "Balances FreeBalance".as_bytes();
    let key = [3u8; 32];
    let a = get_map_storage_key(&key, nonce_item);
    let b = get_map_storage_key(&key, nonce_item);
    assert_eq!(a, b);
    assert_eq!(a.len(), 32);
    assert_ne!(a, get_map_storage_key(&key, balance_item));
    let other_key = [4u8; 32];
    assert_ne!(a, get_map_storage_key(&other_key, nonce_item));
    let events = get_value_storage_key("System Events".as_bytes());
    assert_eq!(events.len(), 32);
    assert_ne!(events, get_value_storage_key("System AccountNonce".as_bytes()));
}

#[test]
fn event_log_absent_is_empty_mapping() {
    let m = decode_event_log(None).unwrap();
    assert!(m.is_empty());
}

#[test]
fn event_log_single_success_at_index_two() {
    let bytes = vec![0x04, 0x00, 0x02, 0x00, 0x00, 0x00, 0x00, 0x00];
    let m = decode_event_log(Some(&bytes)).unwrap();
    assert_eq!(m.len(), 1);
    assert_eq!(m.get(&2), Some(&(true, vec![])));
}

#[test]
fn event_log_failure_marker() {
    let bytes = vec![0x04, 0x00, 0x01, 0x00, 0x00, 0x00, 0x00, 0x01];
    let m = decode_event_log(Some(&bytes)).unwrap();
    assert_eq!(m.get(&1), Some(&(false, vec![])));
}

#[test]
fn event_log_finalization_phase_is_ignored() {
    let bytes = vec![0x04, 0x01, 0x00, 0x00];
    let m = decode_event_log(Some(&bytes)).unwrap();
    assert!(m.is_empty());
}

#[test]
fn event_log_malformed_is_parse_error() {
    assert_eq!(decode_event_log(Some(&vec![0x04, 0x07])), Err(Error::ParseError));
    assert_eq!(decode_event_log(Some(&vec![0x04, 0x00, 0x02, 0x00])), Err(Error::ParseError));
    assert_eq!(decode_event_log(Some(&vec![])), Err(Error::ParseError));
}

#[test]
fn event_fold_keeps_descriptions_in_order() {
    let records = vec![
        EventRecord {
            phase: EventPhase::ApplyExtrinsic(1),
            event: EventKind::Other(String::from("minted")),
        },
        EventRecord {
            phase: EventPhase::ApplyExtrinsic(1),
            event: EventKind::Other(String::from("burned")),
        },
        EventRecord { phase: EventPhase::ApplyExtrinsic(1), event: EventKind::ExtrinsicSuccess },
        EventRecord { phase: EventPhase::Finalization, event: EventKind::ExtrinsicFailed },
    ];
    let m = fold_event_records(&records);
    assert_eq!(m.len(), 1);
    let entry = m.get(&1).unwrap();
    assert!(entry.0);
    assert_eq!(entry.1, vec![String::from("minted"), String::from("burned")]);
}

#[test]
fn header_with_hash_needs_both_pieces() {
    let h = header(7);
    let with = header_with_hash(Some(h), Some(vec![0xAB])).unwrap();
    assert_eq!(with.number, 7);
    assert_eq!(with.block_hash, Some(vec![0xAB]));
    assert!(header_with_hash(Some(header(7)), None).is_none());
    assert!(header_with_hash(None, Some(vec![0xAB])).is_none());
}

#[test]
fn best_number_projects_header_number() {
    assert_eq!(best_number_of(&Some(header(42))), Some(42));
    assert_eq!(best_number_of(&None), None);
}

#[test]
fn block_pipeline_absent_hash_is_empty_not_error() {
    assert_eq!(assemble_block(None, None, None, false).map(|b| b.is_none()), Ok(true));
    assert_eq!(
        assemble_block(Some(vec![0xAB]), None, None, false).map(|b| b.is_none()),
        Ok(true)
    );
}

#[test]
fn block_pipeline_attaches_hash_and_outcomes() {
    let txs = vec![tx_with_hash(vec![1]), tx_with_hash(vec![2])];
    let log = vec![
        0x08, // two records
        0x00, 0x00, 0x00, 0x00, 0x00, 0x00, 0x00, // success at index 0
        0x00, 0x01, 0x00, 0x00, 0x00, 0x00, 0x01, // failure at index 1
    ];
    let out = assemble_block(Some(vec![0xCD]), Some(block(9, txs)), Some(&log), false)
        .unwrap()
        .unwrap();
    assert_eq!(out.header.block_hash, Some(vec![0xCD]));
    assert_eq!(out.extrinsics.len(), 2);
    assert_eq!(out.extrinsics[0].success, Some(true));
    assert_eq!(out.extrinsics[1].success, Some(false));
    assert!(out.extrinsics.iter().all(|t| t.raw.is_none()));
}

#[test]
fn block_pipeline_keeps_raw_only_on_request() {
    let txs = vec![tx_with_hash(vec![1])];
    let out = assemble_block(Some(vec![0xCD]), Some(block(9, txs)), None, true)
        .unwrap()
        .unwrap();
    assert_eq!(out.extrinsics[0].raw, Some(vec![0xAA, 0xBB]));
}

#[test]
fn block_pipeline_malformed_events_fail() {
    let txs = vec![tx_with_hash(vec![1])];
    let bad = vec![0x04, 0x09];
    assert_eq!(
        assemble_block(Some(vec![0xCD]), Some(block(9, txs)), Some(&bad), false).map(|_| ()),
        Err(Error::ParseError)
    );
}

#[test]
fn extrinsic_lookup_by_hash() {
    let b = block(3, vec![tx_with_hash(vec![1]), tx_with_hash(vec![2])]);
    let found = find_extrinsic_by_hash(b, &[2]).unwrap();
    assert_eq!(found.hash, Some(vec![2]));
    let b = block(3, vec![tx_with_hash(vec![1])]);
    assert!(find_extrinsic_by_hash(b, &[9]).is_none());
}

#[test]
fn extrinsic_lookup_by_raw_strips_raw() {
    let b = block(3, vec![tx_with_hash(vec![1])]);
    let found = find_extrinsic_by_raw(b, &[0xAA, 0xBB]).unwrap();
    assert_eq!(found.hash, Some(vec![1]));
    assert_eq!(found.raw, None);
    let b = block(3, vec![tx_with_hash(vec![1])]);
    assert!(find_extrinsic_by_raw(b, &[0xAA]).is_none());
}

#[test]
fn range_scan_single_block_no_match() {
    // Over [10, 10] with no matching transaction: exactly one probe, then
    // "not found".
    let probe = block(10, vec![tx_with_hash(vec![1])]);
    match scan_step(10, 10, Some(probe), &[0u8; 32]) {
        ScanOutcome::NotFound => {},
        _ => panic!("expected the scan to stop empty after one probe"),
    }
}

#[test]
fn range_scan_finds_match_in_increasing_order() {
    let origin = vec![0xEE, 0x01, 0x02];
    // The origin hash is the 32-byte digest of the embedded origin
    // transaction; the singleton-item key of those bytes is that same digest.
    let origin_hash = get_value_storage_key(&origin);
    let mut probes = 0;
    let mut number = 10u64;
    let result = loop {
        probes += 1;
        let b = if number == 12 {
            block(number, vec![tx_with_hash(vec![7]), relay_tx(origin.clone())])
        } else {
            block(number, vec![tx_with_hash(vec![7])])
        };
        match scan_step(number, 12, Some(b), &origin_hash) {
            ScanOutcome::Found(tx) => break Some(tx),
            ScanOutcome::NotFound => break None,
            ScanOutcome::Continue(next) => {
                assert_eq!(next, number + 1);
                number = next;
            },
        }
    };
    assert_eq!(probes, 3);
    let tx = result.expect("the relay transfer at block 12 must be found");
    assert_eq!(tx.block_number, Some(12));
    assert_eq!(tx.call.module, 9);
}

#[test]
fn range_scan_reversed_range_stops_after_first_probe() {
    let probe = block(10, vec![]);
    match scan_step(10, 5, Some(probe), &[0u8; 32]) {
        ScanOutcome::NotFound => {},
        _ => panic!("a reversed range must stop after the first probe"),
    }
}

#[test]
fn nonce_storage_absent_reads_zero() {
    assert_eq!(nonce_from_storage(None), Ok(0));
    assert_eq!(nonce_from_storage(Some(&vec![5, 0, 0, 0, 0, 0, 0, 0])), Ok(5));
    assert_eq!(nonce_from_storage(Some(&vec![5, 0])), Err(Error::ParseError));
}

#[test]
fn balance_storage_absent_reads_zero() {
    assert_eq!(balance_from_storage(None), Ok(0));
    let mut cell = vec![0u8; 16];
    cell[0] = 7;
    assert_eq!(balance_from_storage(Some(&cell)), Ok(7));
    assert_eq!(balance_from_storage(Some(&vec![1, 2, 3])), Err(Error::ParseError));
}

#[test]
fn account_query_resolves_shard_and_storage_key() {
    // A key whose trailing bytes read 2 maps to shard 2 of 4.
    let mut pk = [0u8; 32];
    pk[31] = 2;
    let hrp = bech32::Hrp::parse("yee").unwrap();
    let address = bech32::encode::<bech32::Bech32>(hrp, &pk).unwrap();
    let chain = Chain::new(config(4));
    let q: AccountQuery = chain.nonce_query(&address).unwrap();
    assert_eq!(q.public_key, pk.to_vec());
    assert_eq!(q.shard_num, 2);
    assert_eq!(q.storage_key, get_map_storage_key(&pk, "System AccountNonce".as_bytes()));
    let qb = chain.balance_query(&address).unwrap();
    assert_eq!(qb.storage_key, get_map_storage_key(&pk, "Balances FreeBalance".as_bytes()));
    assert_ne!(q.storage_key, qb.storage_key);
}

#[test]
fn account_query_rejects_bad_address() {
    let chain = Chain::new(config(4));
    assert_eq!(chain.nonce_query("not an address").map(|_| ()), Err(Error::InvalidAddress));
    // A valid encoding of a payload that is not 32 bytes is also rejected.
    let hrp = bech32::Hrp::parse("yee").unwrap();
    let short = bech32::encode::<bech32::Bech32>(hrp, &[1, 2, 3]).unwrap();
    assert_eq!(chain.nonce_query(&short).map(|_| ()), Err(Error::InvalidAddress));
}

#[test]
fn account_query_rejects_zero_shards() {
    let mut pk = [0u8; 32];
    pk[31] = 2;
    let hrp = bech32::Hrp::parse("yee").unwrap();
    let address = bech32::encode::<bech32::Bech32>(hrp, &pk).unwrap();
    let chain = Chain::new(config(0));
    assert_eq!(chain.nonce_query(&address).map(|_| ()), Err(Error::InvalidShard));
}

#[test]
fn transaction_envelope_decodes_signer_and_call() {
    let mut pk = [0u8; 32];
    pk[31] = 2;
    let raw = encode_tx(&pk, 4, 0, &[0x01, 0x02]);
    let tx = decode_transaction(&raw).unwrap();
    assert_eq!(tx.signer, Some(pk.to_vec()));
    assert_eq!(tx.module, 4);
    assert_eq!(tx.method, 0);
    assert_eq!(tx.params, vec![0x01, 0x02]);
}

#[test]
fn transaction_envelope_rejects_garbage() {
    assert_eq!(decode_transaction(&[]).map(|_| ()), Err(Error::InvalidExtrinsic));
    assert_eq!(decode_transaction(&[0xFF]).map(|_| ()), Err(Error::InvalidExtrinsic));
    assert_eq!(decode_transaction(&[0x04, 0x42]).map(|_| ()), Err(Error::InvalidExtrinsic));
}

#[test]
fn submit_rejects_undecodable_bytes_before_any_network_work() {
    let chain = Chain::new(config(4));
    assert_eq!(chain.submit_shard(&[0xDE, 0xAD]), Err(Error::InvalidExtrinsic));
}

#[test]
fn submit_rejects_unsigned_transaction() {
    // An unsigned envelope: version byte without the signed bit.
    let body = vec![0x01u8, 4, 0];
    let mut raw = compact(body.len() as u32);
    raw.extend_from_slice(&body);
    assert_eq!(submit_route(&raw, 4), Err(Error::InvalidExtrinsic));
}

#[test]
fn submit_routes_to_signer_shard() {
    let mut pk = [0u8; 32];
    pk[31] = 2;
    let raw = encode_tx(&pk, 4, 0, &[]);
    let chain = Chain::new(config(4));
    assert_eq!(chain.submit_shard(&raw), Ok(2));
    assert_eq!(submit_route(&raw, 0), Err(Error::InvalidShard));
}

#[test]
fn call_payload_decodes_transfer_destination() {
    let mut payload = vec![0xFFu8];
    payload.extend_from_slice(&[9u8; 32]);
    payload.extend_from_slice(&[0x07]); // trailing value bytes stay out of dest
    let ps = call_params_from_payload(4, 0, payload.clone());
    assert_eq!(ps.len(), 1);
    assert_eq!(ps[0].0, "dest");
    match &ps[0].1 {
        CallParam::Bytes(b) => assert_eq!(b, &payload[..33].to_vec()),
        _ => panic!("dest must be bytes"),
    }
}

#[test]
fn call_payload_decodes_relay_origin_transaction() {
    let inner = vec![0xAB, 0xCD, 0xEF];
    let mut payload = compact(inner.len() as u32);
    payload.extend_from_slice(&inner);
    payload.push(0x55); // further relay-proof fields stay out of tx
    let ps = call_params_from_payload(9, 0, payload);
    assert_eq!(ps[0].0, "tx");
    match &ps[0].1 {
        CallParam::Bytes(b) => assert_eq!(b, &inner),
        _ => panic!("tx must be bytes"),
    }
}

#[test]
fn call_payload_other_calls_stay_opaque() {
    let ps = call_params_from_payload(3, 1, vec![1, 2, 3]);
    assert_eq!(ps[0].0, "data");
    match &ps[0].1 {
        CallParam::Bytes(b) => assert_eq!(b, &vec![1, 2, 3]),
        _ => panic!("data must be bytes"),
    }
}

#[test]
fn decimal_rendering_of_balances() {
    assert_eq!(u128_to_dec(0), "0");
    assert_eq!(u128_to_dec(5), "5");
    assert_eq!(u128_to_dec(12034), "12034");
    assert_eq!(
        u128_to_dec(u128::MAX),
        "340282366920938463463374607431768211455"
    );
}
