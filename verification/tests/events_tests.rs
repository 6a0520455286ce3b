use meridian_contracts::events::{hash_event, EventLog, EVENT_SCHEMA_VERSION};
use sha2::Digest;

fn sha256(data: &[u8]) -> [u8; 32] {
    sha2::Sha256::digest(data).into()
}

#[test]
fn emits_canonical_schema() {
    let mut log = EventLog::new();
    let payload: Vec<u8> = Vec::new();
    let schema = log.emit_event("POLICY".to_string(), "CREATE".to_string(), payload.clone(), 42, b"encoded");
    assert_eq!(schema.contract, "POLICY");
    assert_eq!(schema.action, "CREATE");
    assert_eq!(schema.version, EVENT_SCHEMA_VERSION);
    assert_eq!(schema.payload, payload);
    assert_eq!(schema.block_number, 42);
    assert_eq!(schema.tx_hash, [0u8; 32]);
}

#[test]
fn event_indexer_root_advances_and_is_deterministic() {
    let mut log = EventLog::new();
    let zero = [0u8; 32];
    assert_eq!(log.get_events_root(), zero);
    log.emit_event("CLAIMS".to_string(), "SUBMITTED".to_string(), Vec::new(), 1, b"first event");
    let root1 = log.get_events_root();
    assert_ne!(root1, zero);
    let second: &[u8] = b"second event";
    log.emit_event("CLAIMS".to_string(), "APPROVED".to_string(), Vec::new(), 1, second);
    let root2 = log.get_events_root();
    assert_ne!(root2, root1);

    let h2 = hash_event(second);
    let mut buf = root1.to_vec();
    buf.extend_from_slice(&h2);
    assert_eq!(root2, sha256(&buf));

    let mut again = EventLog::new();
    again.record_event(b"first event");
    again.record_event(second);
    assert_eq!(again.get_events_root(), root2);
}

#[test]
fn hash_event_is_stable() {
    let encoded: &[u8] = b"C/A/7/v1";
    assert_eq!(hash_event(encoded), hash_event(encoded));
    assert_ne!(hash_event(encoded), hash_event(b"C/A/8/v1"));
}

#[test]
fn event_hash_is_the_sha256_of_the_encoding() {
    let digest = hash_event(b"abc");
    assert_eq!(digest[0], 0xba);
    assert_eq!(digest[1], 0x78);
    assert_eq!(digest[31], 0xad);
    assert_eq!(digest, sha256(b"abc"));
}
