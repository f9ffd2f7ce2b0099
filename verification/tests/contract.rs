use events_contract::encode;
use events_contract::EventLog;
use events_contract::EventsContract;
use events_contract::EventsContractTrait;
use events_contract::Identity;
use events_contract::FORMAT_VERSION;

/// A fresh test identity: an Ed25519 principal whose 32-byte key is filled
/// with `fill`.
fn test_identity(fill: u8) -> Identity {
    Identity::Ed25519(vec![fill; 32])
}

#[test]
fn test_types() {
    let mut log = EventLog::new();

    let admin_id = test_identity(1);

    EventsContract::init(&mut log, admin_id);
}

#[test]
fn init_records_one_matching_event() {
    let mut log = EventLog::new();
    let admin_a = test_identity(5);

    EventsContract::init(&mut log, admin_a.clone());

    assert_eq!(log.len(), 1);
    let event = log.get(0);
    assert_eq!(event.topic, "init");
    assert_eq!(event.payload, encode(&admin_a));
}

#[test]
fn init_twice_records_two_independent_events() {
    let mut log = EventLog::new();
    let admin_a = test_identity(10);
    let admin_b = test_identity(20);
    assert_ne!(admin_a, admin_b);

    EventsContract::init(&mut log, admin_a.clone());
    EventsContract::init(&mut log, admin_b.clone());

    assert_eq!(log.len(), 2);
    assert_eq!(log.get(0).topic, "init");
    assert_eq!(log.get(0).payload, encode(&admin_a));
    assert_eq!(log.get(1).topic, "init");
    assert_eq!(log.get(1).payload, encode(&admin_b));
}

#[test]
fn encode_same_identity_twice_is_identical() {
    let admin = test_identity(42);
    let first = encode(&admin);
    let second = encode(&admin);
    assert_eq!(first, second);
}

#[test]
fn encode_distinct_keys_differ() {
    let a = Identity::Ed25519(vec![1; 32]);
    let b = Identity::Ed25519(vec![2; 32]);
    assert_ne!(encode(&a), encode(&b));
}

#[test]
fn encode_distinct_kinds_differ() {
    let key: Vec<u8> = vec![9; 32];
    let a = Identity::Ed25519(key.clone());
    let b = Identity::Account(key.clone());
    let c = Identity::Contract(key);
    assert_ne!(encode(&a), encode(&b));
    assert_ne!(encode(&a), encode(&c));
    assert_ne!(encode(&b), encode(&c));
}

#[test]
fn encode_exact_bytes() {
    let admin = Identity::Ed25519(vec![7, 8, 9]);
    assert_eq!(encode(&admin), vec![FORMAT_VERSION, 0, 7, 8, 9]);

    let account = Identity::Account(vec![7, 8, 9]);
    assert_eq!(encode(&account), vec![FORMAT_VERSION, 1, 7, 8, 9]);

    let contract = Identity::Contract(vec![7, 8, 9]);
    assert_eq!(encode(&contract), vec![FORMAT_VERSION, 2, 7, 8, 9]);
}

#[test]
fn encode_empty_key_is_header_only() {
    let admin = Identity::Ed25519(Vec::new());
    assert_eq!(encode(&admin), vec![FORMAT_VERSION, 0]);
}

#[test]
fn new_log_is_empty() {
    let log = EventLog::new();
    assert_eq!(log.len(), 0);
}

#[test]
fn publish_appends_and_keeps_earlier_events() {
    let mut log = EventLog::new();
    log.publish(String::from("first"), vec![1]);
    log.publish(String::from("second"), vec![2, 3]);

    assert_eq!(log.len(), 2);
    assert_eq!(log.get(0).topic, "first");
    assert_eq!(log.get(0).payload, vec![1]);
    assert_eq!(log.get(1).topic, "second");
    assert_eq!(log.get(1).payload, vec![2, 3]);
}
