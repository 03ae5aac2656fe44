use kovan_bridge::abi::AbiValue;
use kovan_bridge::bridge::{
    collected_signatures_from_values, deposit_from_values, withdraw_from_values, KovanBridge,
};
use kovan_bridge::types::{
    ConfigError, DecodeError, Definition, EthereumDeposit, FieldKind, KovanCollectSignatures,
    KovanDeposit, KovanWithdraw, LogEntry,
};

const FUNCTIONS: &str = r#"
  {"type":"function","name":"deposit","inputs":[
    {"name":"recipient","type":"address"},{"name":"value","type":"uint256"},
    {"name":"transactionHash","type":"bytes32"}],"outputs":[],"stateMutability":"nonpayable"},
  {"type":"function","name":"collectSignatures","inputs":[
    {"name":"vs","type":"uint8"},{"name":"r","type":"bytes32"},{"name":"s","type":"bytes32"},
    {"name":"message","type":"bytes"}],"outputs":[],"stateMutability":"nonpayable"}"#;

const WITHDRAW_EVENT: &str = r#"
  {"type":"event","name":"Withdraw","anonymous":false,"inputs":[
    {"name":"recipient","type":"address","indexed":false},
    {"name":"value","type":"uint256","indexed":false}]}"#;

const COLLECTED_EVENT: &str = r#"
  {"type":"event","name":"CollectedSignatures","anonymous":false,"inputs":[
    {"name":"authorityResponsibleForRelay","type":"address","indexed":false},
    {"name":"messageHash","type":"bytes32","indexed":false}]}"#;

const DEPOSIT_EVENT: &str = r#"
  {"type":"event","name":"Deposit","anonymous":false,"inputs":[
    {"name":"recipient","type":"address","indexed":false},
    {"name":"value","type":"uint256","indexed":false}]}"#;

const DEPOSIT_EVENT_THREE: &str = r#"
  {"type":"event","name":"Deposit","anonymous":false,"inputs":[
    {"name":"recipient","type":"address","indexed":false},
    {"name":"value","type":"uint256","indexed":false},
    {"name":"fee","type":"uint256","indexed":false}]}"#;

const DEPOSIT_EVENT_UINTS: &str = r#"
  {"type":"event","name":"Deposit","anonymous":false,"inputs":[
    {"name":"recipient","type":"uint256","indexed":false},
    {"name":"value","type":"uint256","indexed":false}]}"#;

fn contract(parts: &[&str]) -> ethabi::Contract {
    let json = format!("[{}]", parts.join(","));
    ethabi::Contract::load(json.as_bytes()).unwrap()
}

fn full_contract() -> ethabi::Contract {
    contract(&[FUNCTIONS, DEPOSIT_EVENT, WITHDRAW_EVENT, COLLECTED_EVENT])
}

fn address_one() -> [u8; 20] {
    let mut a = [0u8; 20];
    a[19] = 1;
    a
}

fn value_word(v: u64) -> [u8; 32] {
    let mut w = [0u8; 32];
    w[24..].copy_from_slice(&v.to_be_bytes());
    w
}

fn keccak_topic(hex_str: &str) -> [u8; 32] {
    let mut out = [0u8; 32];
    for i in 0..32 {
        out[i] = u8::from_str_radix(&hex_str[2 * i..2 * i + 2], 16).unwrap();
    }
    out
}

#[test]
fn deposit_payload_example() {
    let c = full_contract();
    let bridge = KovanBridge::new(&c).unwrap();
    let deposit = EthereumDeposit { recipient: address_one(), value: value_word(1000), hash: [0xAA; 32] };
    let payload = bridge.deposit_payload(deposit);
    assert_eq!(payload.len(), 96);
    let mut word1 = [0u8; 32];
    word1[31] = 1;
    assert_eq!(&payload[0..32], &word1[..]);
    let mut word2 = [0u8; 32];
    word2[30] = 0x03;
    word2[31] = 0xE8;
    assert_eq!(&payload[32..64], &word2[..]);
    assert_eq!(&payload[64..96], &[0xAA; 32][..]);
}

#[test]
fn deposit_payload_matches_words() {
    let c = full_contract();
    let bridge = KovanBridge::new(&c).unwrap();
    let recipient = [0x11; 20];
    let value = [0xFF; 32];
    let hash = [0x42; 32];
    let payload = bridge.deposit_payload(EthereumDeposit { recipient, value, hash });
    assert_eq!(&payload[0..12], &[0u8; 12][..]);
    assert_eq!(&payload[12..32], &recipient[..]);
    assert_eq!(&payload[32..64], &value[..]);
    assert_eq!(&payload[64..96], &hash[..]);
}

#[test]
fn deposit_round_trip() {
    let c = full_contract();
    let bridge = KovanBridge::new(&c).unwrap();
    let deposit = EthereumDeposit { recipient: [0x5A; 20], value: value_word(123456789), hash: [7; 32] };
    let payload = bridge.deposit_payload(deposit);
    let log = LogEntry {
        topics: vec![bridge.deposit_event.signature().0],
        data: payload[0..64].to_vec(),
        transaction_hash: None,
    };
    let record = bridge.deposit_from_log(log).unwrap();
    assert_eq!(record, KovanDeposit { recipient: deposit.recipient, value: deposit.value });
}

#[test]
fn deposit_log_with_three_values_is_arity_mismatch() {
    let c = contract(&[FUNCTIONS, DEPOSIT_EVENT_THREE, WITHDRAW_EVENT, COLLECTED_EVENT]);
    let bridge = KovanBridge::new(&c).unwrap();
    let mut data = vec![0u8; 96];
    data[31] = 1;
    data[63] = 2;
    data[95] = 3;
    let log = LogEntry { topics: vec![bridge.deposit_event.signature().0], data, transaction_hash: None };
    assert_eq!(bridge.deposit_from_log(log), Err(DecodeError::ArityMismatch));
}

#[test]
fn deposit_values_three_is_arity_mismatch() {
    let values = vec![
        AbiValue::Address(address_one()),
        AbiValue::Uint(value_word(1)),
        AbiValue::Uint(value_word(2)),
    ];
    assert_eq!(deposit_from_values(&values), Err(DecodeError::ArityMismatch));
}

#[test]
fn deposit_log_with_uint_recipient_is_type_mismatch() {
    let c = contract(&[FUNCTIONS, DEPOSIT_EVENT_UINTS, WITHDRAW_EVENT, COLLECTED_EVENT]);
    let bridge = KovanBridge::new(&c).unwrap();
    let log = LogEntry { topics: vec![bridge.deposit_event.signature().0], data: vec![0u8; 64], transaction_hash: None };
    assert_eq!(bridge.deposit_from_log(log), Err(DecodeError::TypeMismatch(FieldKind::Address)));
}

#[test]
fn deposit_values_type_mismatch_uint() {
    let values = vec![AbiValue::Address(address_one()), AbiValue::Address(address_one())];
    assert_eq!(deposit_from_values(&values), Err(DecodeError::TypeMismatch(FieldKind::Uint)));
}

#[test]
fn deposit_log_with_wrong_topic_is_invalid() {
    let c = full_contract();
    let bridge = KovanBridge::new(&c).unwrap();
    let log = LogEntry { topics: vec![bridge.withdraw_event.signature().0], data: vec![0u8; 64], transaction_hash: None };
    assert_eq!(bridge.deposit_from_log(log), Err(DecodeError::InvalidLog));
}

#[test]
fn withdraw_without_transaction_hash_is_missing_context() {
    let c = full_contract();
    let bridge = KovanBridge::new(&c).unwrap();
    let log = LogEntry { topics: vec![bridge.withdraw_event.signature().0], data: vec![0u8; 64], transaction_hash: None };
    assert_eq!(bridge.withdraw_from_log(log), Err(DecodeError::MissingTransactionContext));
    assert_eq!(
        withdraw_from_values(&vec![AbiValue::Address(address_one()), AbiValue::Uint(value_word(5))], None),
        Err(DecodeError::MissingTransactionContext)
    );
}

#[test]
fn withdraw_log_decodes_with_hash() {
    let c = full_contract();
    let bridge = KovanBridge::new(&c).unwrap();
    let mut data = vec![0u8; 64];
    data[12..32].copy_from_slice(&[0x33; 20]);
    data[63] = 9;
    let log = LogEntry { topics: vec![bridge.withdraw_event.signature().0], data, transaction_hash: Some([0xCD; 32]) };
    assert_eq!(
        bridge.withdraw_from_log(log),
        Ok(KovanWithdraw { recipient: [0x33; 20], value: value_word(9), hash: [0xCD; 32] })
    );
}

#[test]
fn collect_signatures_payload_splits_signature() {
    let c = full_contract();
    let bridge = KovanBridge::new(&c).unwrap();
    let mut sig = [0u8; 65];
    for (i, b) in sig.iter_mut().enumerate() {
        *b = i as u8 + 1;
    }
    let withdraw = KovanWithdraw { recipient: [0x10; 20], value: value_word(77), hash: [0x20; 32] };
    let payload = bridge.collect_signatures_payload(sig, withdraw);
    assert_eq!(payload.len(), 256);
    assert_eq!(&payload[0..31], &[0u8; 31][..]);
    assert_eq!(payload[31], 65);
    assert_eq!(&payload[32..64], &sig[0..32]);
    assert_eq!(&payload[64..96], &sig[32..64]);
    assert_eq!(payload[96 + 31], 128);
    assert_eq!(payload[128 + 31], 84);
    assert_eq!(&payload[160..244], &withdraw.bytes()[..]);
    assert_eq!(&payload[244..256], &[0u8; 12][..]);
}

#[test]
fn withdraw_bytes_layout() {
    let withdraw = KovanWithdraw { recipient: [1; 20], value: value_word(2), hash: [3; 32] };
    let bytes = withdraw.bytes();
    assert_eq!(bytes.len(), 84);
    assert_eq!(&bytes[0..20], &[1u8; 20][..]);
    assert_eq!(&bytes[20..52], &value_word(2)[..]);
    assert_eq!(&bytes[52..84], &[3u8; 32][..]);
}

#[test]
fn deposits_filter_selects_one_address_and_topic() {
    let c = full_contract();
    let bridge = KovanBridge::new(&c).unwrap();
    let addr = [0x77; 20];
    let filter = bridge.deposits_filter(addr);
    assert_eq!(filter.addresses, vec![addr]);
    let expected = keccak_topic("e1fffcc4923d04b559f4d29a8bfc6cda04eb5b0d3c460751c2402c5c5cc9109c");
    assert_eq!(filter.topic0, Some(vec![expected]));
    assert_eq!(filter.topic1, None);
    assert_eq!(filter.topic2, None);
    assert_eq!(filter.topic3, None);
}

#[test]
fn withdraws_and_collected_filters_use_their_topics() {
    let c = full_contract();
    let bridge = KovanBridge::new(&c).unwrap();
    let addr = [0x01; 20];
    let w = bridge.withdraws_filter(addr);
    assert_eq!(w.addresses, vec![addr]);
    assert_eq!(w.topic0, Some(vec![bridge.withdraw_event.signature().0]));
    let s = bridge.collect_signatures_filter(addr);
    assert_eq!(s.topic0, Some(vec![bridge.collected_signatures_event.signature().0]));
    assert_eq!(s.topic1, None);
    assert_ne!(bridge.withdraw_event.signature().0, bridge.deposit_event.signature().0);
}

#[test]
fn collected_signatures_log_decodes() {
    let c = full_contract();
    let bridge = KovanBridge::new(&c).unwrap();
    let mut data = vec![0u8; 64];
    data[12..32].copy_from_slice(&[0x44; 20]);
    data[32..64].copy_from_slice(&[0x55; 32]);
    let log = LogEntry { topics: vec![bridge.collected_signatures_event.signature().0], data, transaction_hash: None };
    assert_eq!(
        bridge.collect_signatures_from_log(log),
        Ok(KovanCollectSignatures { authority: [0x44; 20], message_hash: [0x55; 32] })
    );
}

#[test]
fn collected_signatures_values_wrong_width() {
    let values = vec![AbiValue::Address(address_one()), AbiValue::FixedBytes(vec![0u8; 16])];
    assert_eq!(
        collected_signatures_from_values(&values),
        Err(DecodeError::TypeMismatch(FieldKind::Bytes32))
    );
    let values = vec![AbiValue::Uint(value_word(1)), AbiValue::FixedBytes(vec![0u8; 32])];
    assert_eq!(
        collected_signatures_from_values(&values),
        Err(DecodeError::TypeMismatch(FieldKind::Address))
    );
}

#[test]
fn missing_definitions_are_reported() {
    let c = contract(&[DEPOSIT_EVENT, WITHDRAW_EVENT, COLLECTED_EVENT]);
    assert_eq!(
        KovanBridge::new(&c).err(),
        Some(ConfigError::MissingDefinition(Definition::DepositFunction))
    );
    let c = contract(&[FUNCTIONS, DEPOSIT_EVENT, COLLECTED_EVENT]);
    assert_eq!(
        KovanBridge::new(&c).err(),
        Some(ConfigError::MissingDefinition(Definition::WithdrawEvent))
    );
    let c = contract(&[FUNCTIONS, DEPOSIT_EVENT, WITHDRAW_EVENT]);
    assert_eq!(
        KovanBridge::new(&c).err(),
        Some(ConfigError::MissingDefinition(Definition::CollectedSignaturesEvent))
    );
}

#[test]
fn withdraw_values_checked_before_transaction_hash() {
    let three = vec![
        AbiValue::Address(address_one()),
        AbiValue::Uint(value_word(1)),
        AbiValue::Uint(value_word(2)),
    ];
    assert_eq!(withdraw_from_values(&three, None), Err(DecodeError::ArityMismatch));
    let swapped = vec![AbiValue::Uint(value_word(1)), AbiValue::Address(address_one())];
    assert_eq!(withdraw_from_values(&swapped, None), Err(DecodeError::TypeMismatch(FieldKind::Address)));
}

#[test]
fn withdraw_log_with_wrong_topic_is_invalid_without_hash() {
    let c = full_contract();
    let bridge = KovanBridge::new(&c).unwrap();
    let log = LogEntry {
        topics: vec![bridge.deposit_event.signature().0],
        data: vec![0u8; 64],
        transaction_hash: None,
    };
    assert_eq!(bridge.withdraw_from_log(log), Err(DecodeError::InvalidLog));
}

#[test]
fn missing_collect_signatures_function_is_reported() {
    let c = contract(&[DEPOSIT_EVENT, WITHDRAW_EVENT, COLLECTED_EVENT, r#"
  {"type":"function","name":"deposit","inputs":[],"outputs":[],"stateMutability":"nonpayable"}"#]);
    assert_eq!(
        KovanBridge::new(&c).err(),
        Some(ConfigError::MissingDefinition(Definition::CollectSignaturesFunction))
    );
}
