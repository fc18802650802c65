use alloy_primitives::{keccak256, Bytes, U256 as AlloyU256};
use alloy_rlp::Encodable;
use alloy_sol_types::SolValue;
use bor::error::HeimdallError;
use bor::event::{encode_event_record, sort_by_id, EventRecord, EventRecordWithTime};
use bor::genesis_contract_client::GenesisContractClient;
use bor::primitives::{be_fixed_u64, bytes_equal, Address, B256, U256};

fn contracts() -> GenesisContractClient {
    GenesisContractClient::new(Address([0xaa; 20]), Address([0xbb; 20]), Address([0xff; 20]))
}

fn record(id: u64, data: Vec<u8>, chain_id: &str) -> EventRecord {
    EventRecord {
        id,
        contract_address: Address([0x22; 20]),
        data,
        tx_hash: B256([0x33; 32]),
        log_index: 2,
        chain_id: chain_id.to_string(),
    }
}

fn event(id: u64, time: i64) -> EventRecordWithTime {
    EventRecordWithTime { event_record: record(id, vec![id as u8], "137"), time }
}

#[test]
fn event_record_matches_a_known_encoding() {
    let r = EventRecord {
        id: 1,
        contract_address: Address([0x22; 20]),
        data: vec![],
        tx_hash: B256([0x33; 32]),
        log_index: 0,
        chain_id: "a".to_string(),
    };
    let mut expected = vec![0xf8, 58, 0x01, 0x94];
    expected.extend_from_slice(&[0x22; 20]);
    expected.extend_from_slice(&[0x80, 0xa0]);
    expected.extend_from_slice(&[0x33; 32]);
    expected.extend_from_slice(&[0x80, 0x61]);
    assert_eq!(encode_event_record(&r), expected);
}

#[test]
fn event_record_fields_use_string_and_integer_rules() {
    let r = EventRecord {
        id: 0x80,
        contract_address: Address([0; 20]),
        data: vec![0x05],
        tx_hash: B256([0; 32]),
        log_index: 1024,
        chain_id: "".to_string(),
    };
    let mut expected = vec![0xf8, 61, 0x81, 0x80, 0x94];
    expected.extend_from_slice(&[0; 20]);
    expected.extend_from_slice(&[0x05, 0xa0]);
    expected.extend_from_slice(&[0; 32]);
    expected.extend_from_slice(&[0x82, 0x04, 0x00, 0x80]);
    assert_eq!(encode_event_record(&r), expected);
    let mut wide = r.clone();
    wide.data = vec![0x80];
    assert_eq!(encode_event_record(&wide)[2 + 2 + 21..2 + 2 + 21 + 2], [0x81, 0x80]);
    let mut long = r;
    long.data = vec![7u8; 56];
    let enc = encode_event_record(&long);
    assert_eq!(&enc[..3], &[0xf8, 61 - 1 + 58, 0x81]);
    assert_eq!(&enc[2 + 2 + 21..2 + 2 + 21 + 2], &[0xb8, 56]);
}

#[test]
fn event_record_encodes_as_a_list_of_its_fields() {
    let r = record(7, vec![1, 2, 3], "137");
    let mut payload = Vec::new();
    7u64.encode(&mut payload);
    alloy_primitives::Address::from([0x22; 20]).encode(&mut payload);
    Bytes::from(vec![1u8, 2, 3]).encode(&mut payload);
    alloy_primitives::B256::from([0x33; 32]).encode(&mut payload);
    2u64.encode(&mut payload);
    "137".to_string().encode(&mut payload);
    let mut expected = Vec::new();
    alloy_rlp::Header { list: true, payload_length: payload.len() }.encode(&mut expected);
    expected.extend_from_slice(&payload);
    assert_eq!(encode_event_record(&r), expected);
    assert_eq!(expected[0], 0xf8);
}

#[test]
fn last_state_id_call_is_its_selector() {
    let data = contracts().last_state_id().unwrap();
    assert_eq!(data, keccak256(b"lastStateId()")[..4].to_vec());
    assert_eq!(data, vec![0x54, 0x07, 0xca, 0x67]);
}

#[test]
fn commit_state_call_matches_the_contract_abi() {
    let e = event(9, 1_700_000_000);
    let data = contracts().encode_state_sync_data(e.clone()).unwrap();
    let record_bytes = encode_event_record(&e.event_record);
    let mut expected = keccak256(b"commitState(uint256,bytes)")[..4].to_vec();
    expected.extend(
        (AlloyU256::from(1_700_000_000u64), Bytes::from(record_bytes.clone())).abi_encode_params(),
    );
    assert_eq!(data, expected);
    assert_eq!(data.len(), 4 + 32 * 3 + record_bytes.len().div_ceil(32) * 32);
}

#[test]
fn commit_state_call_pads_a_long_record() {
    let mut e = event(1, 5);
    e.event_record.data = vec![0xab; 100];
    let data = contracts().encode_state_sync_data(e.clone()).unwrap();
    let record_bytes = encode_event_record(&e.event_record);
    let mut expected = keccak256(b"commitState(uint256,bytes)")[..4].to_vec();
    expected.extend((AlloyU256::from(5u64), Bytes::from(record_bytes)).abi_encode_params());
    assert_eq!(data, expected);
    assert_eq!((data.len() - 4) % 32, 0);
}

#[test]
fn event_before_the_epoch_is_a_time_error() {
    let e = event(1, -1);
    assert_eq!(contracts().encode_state_sync_data(e), Err(HeimdallError::SystemTimeError));
}

#[test]
fn decode_last_state_id_reads_a_word() {
    let c = contracts();
    let word = AlloyU256::from(77u64).abi_encode();
    assert_eq!(c.decode_last_state_id(&word), Ok(77));
    let max = AlloyU256::from(u64::MAX).abi_encode();
    assert_eq!(c.decode_last_state_id(&max), Ok(u64::MAX));
    let mut trailing = word.clone();
    trailing.extend_from_slice(&[1, 2, 3]);
    assert_eq!(c.decode_last_state_id(&trailing), Ok(77));
}

#[test]
fn decode_last_state_id_rejects_short_or_wide_values() {
    let c = contracts();
    assert!(matches!(c.decode_last_state_id(&[0u8; 31]), Err(HeimdallError::SolDecodeError(_))));
    assert!(matches!(c.decode_last_state_id(&[]), Err(HeimdallError::SolDecodeError(_))));
    let wide = (AlloyU256::from(u64::MAX) + AlloyU256::from(1u64)).abi_encode();
    assert!(matches!(c.decode_last_state_id(&wide), Err(HeimdallError::SolDecodeError(_))));
}

#[test]
fn contract_addresses_are_kept() {
    let c = contracts();
    assert_eq!(c.get_validator_contract_address(), Address([0xaa; 20]));
    assert_eq!(c.get_state_receiver_contract_address(), Address([0xbb; 20]));
    assert_eq!(c.get_system_address(), Address([0xff; 20]));
}

#[test]
fn sort_by_id_orders_and_keeps_every_event() {
    let events = vec![event(5, 0), event(3, 0), event(4, 0), event(9, 0), event(6, 0)];
    let ids: Vec<u64> = sort_by_id(events).iter().map(|e| e.event_record.id).collect();
    assert_eq!(ids, vec![3, 4, 5, 6, 9]);
    assert!(sort_by_id(vec![]).is_empty());
}

#[test]
fn fixed_width_bytes_and_equality() {
    assert_eq!(be_fixed_u64(0x0102, 4), vec![0, 0, 1, 2]);
    assert_eq!(be_fixed_u64(0x0102, 1), vec![2]);
    assert!(bytes_equal(&[1, 2], &[1, 2]));
    assert!(!bytes_equal(&[1, 2], &[1, 3]));
    assert!(!bytes_equal(&[1, 2], &[1]));
    assert!(U256 { limbs: [0; 4] }.is_zero());
    assert!(!U256 { limbs: [0, 0, 0, 1] }.is_zero());
}
