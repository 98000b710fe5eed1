use simple_wallet::backup::{
    decode_keypair, encode_keypair, object_name, render_keypair, BackupRegistry,
};
use simple_wallet::errors::WalletError;
use simple_wallet::hex::encode_hex;
use simple_wallet::keypair::{create_keypair, KeyPair};

fn clone_keypair(kp: &KeyPair) -> KeyPair {
    KeyPair {
        public_key: kp.public_key.clone(),
        secret_key: kp.secret_key.clone(),
    }
}

fn expected_dump(kp: &KeyPair) -> Vec<u8> {
    let mut out = b"public_key: ".to_vec();
    out.extend_from_slice(&encode_hex(&kp.public_key));
    out.extend_from_slice(b"\nsecret_key: ");
    out.extend_from_slice(&encode_hex(&kp.secret_key));
    out.push(b'\n');
    out
}

#[test]
fn payload_round_trips() {
    let kp = create_keypair().unwrap();
    let payload = encode_keypair(&kp);
    assert_eq!(payload.len(), 2 + 33 + 32);
    let back = decode_keypair(&payload).unwrap();
    assert_eq!(back.public_key, kp.public_key);
    assert_eq!(back.secret_key, kp.secret_key);
}

#[test]
fn decode_rejects_malformed_payloads() {
    assert!(matches!(
        decode_keypair(&Vec::new()),
        Err(WalletError::TransmissionError)
    ));
    let kp = create_keypair().unwrap();
    let mut truncated = encode_keypair(&kp);
    truncated.pop();
    assert!(matches!(
        decode_keypair(&truncated),
        Err(WalletError::TransmissionError)
    ));
    let mut padded = encode_keypair(&kp);
    padded.push(0);
    assert!(matches!(
        decode_keypair(&padded),
        Err(WalletError::TransmissionError)
    ));
}

#[test]
fn object_names_are_deterministic() {
    assert_eq!(object_name(0), b"backup-keys-0".to_vec());
    assert_eq!(object_name(1), b"backup-keys-1".to_vec());
    assert_eq!(object_name(12), b"backup-keys-12".to_vec());
    assert_eq!(object_name(120), b"backup-keys-120".to_vec());
}

#[test]
fn rendered_dump_matches_fields() {
    let kp = create_keypair().unwrap();
    assert_eq!(render_keypair(&kp), expected_dump(&kp));
}

#[test]
fn single_entry_flush_plans_one_object() {
    let k1 = create_keypair().unwrap();
    let mut registry = BackupRegistry::new();
    registry.add_keypair(clone_keypair(&k1));
    let plan = registry.flush_plan();
    assert_eq!(plan.len(), 1);
    assert_eq!(plan[0].name, b"backup-keys-0".to_vec());
    assert_eq!(plan[0].content, expected_dump(&k1));
}

#[test]
fn two_entry_flush_plans_two_objects() {
    let k1 = create_keypair().unwrap();
    let k2 = create_keypair().unwrap();
    let mut registry = BackupRegistry::new();
    registry.add_keypair(clone_keypair(&k1));
    registry.add_keypair(clone_keypair(&k2));
    let plan = registry.flush_plan();
    assert_eq!(plan.len(), 2);
    assert_eq!(plan[0].name, b"backup-keys-0".to_vec());
    assert_eq!(plan[0].content, expected_dump(&k1));
    assert_eq!(plan[1].name, b"backup-keys-1".to_vec());
    assert_eq!(plan[1].content, expected_dump(&k2));
}

#[test]
fn failed_upload_keeps_registry_for_retry() {
    let mut registry = BackupRegistry::new();
    for _ in 0..3 {
        registry.add_keypair(clone_keypair(&create_keypair().unwrap()));
    }
    let plan = registry.flush_plan();
    assert_eq!(plan.len(), 3);

    // Uploads run in plan order and the third one fails: earlier uploads are
    // not rolled back, later objects are never written, and the flush
    // surfaces FlushError while the registry still holds every entry.
    let mut store: Vec<(Vec<u8>, Vec<u8>)> = Vec::new();
    let mut outcome = Ok(());
    for (i, obj) in plan.iter().enumerate() {
        if i == 2 {
            outcome = Err(WalletError::FlushError);
            break;
        }
        store.push((obj.name.clone(), obj.content.clone()));
    }
    assert_eq!(outcome, Err(WalletError::FlushError));
    assert!(store.iter().any(|(n, _)| n == &b"backup-keys-0".to_vec()));
    assert!(store.iter().any(|(n, _)| n == &b"backup-keys-1".to_vec()));
    assert!(!store.iter().any(|(n, _)| n == &b"backup-keys-2".to_vec()));
    assert_eq!(registry.len(), 3);
}

#[test]
fn adds_after_a_snapshot_are_kept_and_not_interleaved() {
    let k1 = create_keypair().unwrap();
    let k2 = create_keypair().unwrap();
    let k3 = create_keypair().unwrap();
    let mut registry = BackupRegistry::new();
    registry.add_keypair(clone_keypair(&k1));
    registry.add_keypair(clone_keypair(&k2));

    // A flush works on the snapshot it planned; an addition arriving while
    // the uploads run does not change that snapshot and is not lost.
    let plan = registry.flush_plan();
    registry.add_keypair(clone_keypair(&k3));
    assert_eq!(plan.len(), 2);
    assert_eq!(registry.len(), 3);
    let replanned = registry.flush_plan();
    assert_eq!(replanned.len(), 3);
    assert_eq!(replanned[2].content, expected_dump(&k3));
}

#[test]
fn ingest_accepts_exactly_well_formed_payloads() {
    let kp = create_keypair().unwrap();
    let mut registry = BackupRegistry::new();
    assert_eq!(registry.ingest_payload(&encode_keypair(&kp)), Ok(()));
    assert_eq!(registry.len(), 1);
    assert_eq!(
        registry.ingest_payload(&vec![9u8, 1, 2]),
        Err(WalletError::TransmissionError)
    );
    assert_eq!(registry.len(), 1);
    let plan = registry.flush_plan();
    assert_eq!(plan[0].content, expected_dump(&kp));
}
