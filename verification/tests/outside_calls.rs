//! The results of the outside calls, checked through the public functions
//! against known values.

use bind19::catastrophic::{AuditEntry, CatastrophicEvent, CatastrophicManager};
use bind19::crypto::{
    compute_pah_hash, sign, sign_truncated, truncate_signature, verify, verify_truncated,
    verify_truncated_match, KeyPair,
};
use sha2::{Digest, Sha256};

fn hex(s: &str) -> Vec<u8> {
    (0..s.len()).step_by(2).map(|i| u8::from_str_radix(&s[i..i + 2], 16).unwrap()).collect()
}

fn sha(data: &[u8]) -> [u8; 32] {
    Sha256::digest(data).into()
}

#[test]
fn pah_hash_is_the_sha256_prefix() {
    let expected = hex("ba7816bf8f01cfea414140de5dae2223b00361a396177a9cb410ff61f20015ad");
    assert_eq!(compute_pah_hash(b"abc").to_vec(), expected[..14].to_vec());
}

#[test]
fn truncated_signature_is_the_sha256_prefix_of_the_signature() {
    let sig = [0x3Cu8; 64];
    assert_eq!(truncate_signature(&sig).to_vec(), sha(&sig)[..8].to_vec());
    assert!(verify_truncated_match(&sig, &truncate_signature(&sig)));
}

#[test]
fn ed25519_rfc8032_first_vector() {
    let seed: [u8; 32] =
        hex("9d61b19deffd5a60ba844af492ec2cc44449c5697b326919703bac031cae7f60").try_into().unwrap();
    let kp = KeyPair::from_seed(&seed);
    assert_eq!(
        kp.public_key().to_vec(),
        hex("d75a980182b10ab7d54bfed3c964073a0ee172f3daa62325af021a68f707511a")
    );
    assert_eq!(kp.seed(), seed);
    let signature = sign(&kp, b"");
    assert_eq!(signature.to_vec(), hex(rfc8032_first_signature()));
    assert!(verify(&kp.public_key(), b"", &signature));
    assert!(!verify(&kp.public_key(), b"x", &signature));
    assert_eq!(sign_truncated(&kp, b"").to_vec(), sha(&signature)[..8].to_vec());
    assert!(!verify_truncated(&kp.public_key(), b"", &sign_truncated(&kp, b"")));
}

fn rfc8032_first_signature() -> &'static str {
    "e5564300c360ac729086e2cc806e828a84877f1eb8e5d974d873e065224901555fb8821590a33bacc61e39701cf9b46bd25bf5f0595bbe24655141438e7a100b"
}

#[test]
fn verify_refuses_another_keys_signature() {
    let kp1 = KeyPair::from_seed(&[1u8; 32]);
    let kp2 = KeyPair::from_seed(&[2u8; 32]);
    let signature = sign(&kp1, b"m");
    assert!(verify(&kp1.public_key(), b"m", &signature));
    assert!(!verify(&kp2.public_key(), b"m", &signature));
    assert_ne!(kp1.public_key(), kp2.public_key());
}

fn fixed_event() -> CatastrophicEvent {
    let mut e = CatastrophicEvent::new([0xCF, 0x14, 0x0C, 0x02], Some(0x0102), Some(vec![9, 8]), "tuck");
    e.timestamp = 0x1122_3344_5566_7788;
    e.timestamp_nanos = 0x0A0B_0C0D;
    e
}

#[test]
fn event_hash_covers_the_little_endian_fields() {
    let e = fixed_event();
    let mut bytes = vec![0x88, 0x77, 0x66, 0x55, 0x44, 0x33, 0x22, 0x11, 0x0D, 0x0C, 0x0B, 0x0A];
    bytes.extend_from_slice(&[0xCF, 0x14, 0x0C, 0x02, 0x02, 0x01, 9, 8]);
    bytes.extend_from_slice(b"tuck");
    assert_eq!(e.hash(), sha(&bytes));
    let mut without = e.clone();
    without.seq_counter = None;
    without.sensor_context = None;
    let mut bytes2 = bytes[..16].to_vec();
    bytes2.extend_from_slice(&[0, 0]);
    bytes2.extend_from_slice(b"tuck");
    assert_eq!(without.hash(), sha(&bytes2));
}

#[test]
fn audit_entry_hash_covers_sequence_event_hash_and_link() {
    let e = fixed_event();
    let prev = [0x42u8; 32];
    let entry = AuditEntry::new(5, e.clone(), prev);
    let mut bytes = 5u64.to_le_bytes().to_vec();
    bytes.extend_from_slice(&e.hash());
    bytes.extend_from_slice(&prev);
    assert_eq!(entry.hash, sha(&bytes));
    assert!(entry.verify_hash());
}

#[test]
fn event_new_keeps_its_inputs_and_a_sub_second_nanos() {
    let e = CatastrophicEvent::new([1, 2, 3, 4], None, Some(vec![5]), "manual");
    assert_eq!(e.pfp_bytes, [1, 2, 3, 4]);
    assert_eq!(e.seq_counter, None);
    assert_eq!(e.sensor_context, Some(vec![5]));
    assert_eq!(e.source, "manual");
    assert!(e.timestamp_nanos < 1_000_000_000);
    assert!(e.timestamp > 1_600_000_000);
}

#[test]
fn manager_without_receiver_still_audits() {
    let (manager, receiver) = CatastrophicManager::new();
    drop(receiver);
    let cat = [0xCF, 0x14, 0x0C, 0x02];
    assert!(manager.handle_frame(&cat, None, None, "x"));
    assert!(!manager.handle_frame(&[0xCF, 0x14, 0x0C, 0x00], None, None, "x"));
    assert_eq!(manager.total_triggers(), 1);
    assert!(manager.verify_audit_chain());
    let entries = manager.audit_entries();
    assert_eq!(entries.len(), 1);
    assert_eq!(entries[0].event.pfp_bytes, cat);
}

#[test]
fn bus_reports_whether_its_receiver_lives() {
    let (bus, receiver) = bind19::catastrophic::CatastrophicEventBus::new();
    assert!(bus.has_receivers());
    let other = bus.clone();
    assert!(other.has_receivers());
    drop(receiver);
    assert!(!bus.has_receivers());
    assert!(!other.has_receivers());
    assert!(!bind19::catastrophic::CatastrophicEventBus::default().has_receivers());
    let (manager, rx) = CatastrophicManager::new();
    let clone = manager.clone();
    assert!(manager.event_bus().has_receivers());
    drop(rx);
    assert!(!clone.event_bus().has_receivers());
}

#[test]
fn receiver_count_decision() {
    assert!(bind19::catastrophic::receivers_remain(2, 1));
    assert!(bind19::catastrophic::receivers_remain(3, 1));
    assert!(!bind19::catastrophic::receivers_remain(1, 1));
    assert!(!bind19::catastrophic::receivers_remain(1, 2));
}

#[test]
fn event_from_clock_keeps_the_reading() {
    let e = CatastrophicEvent::from_clock([1, 2, 3, 4], Some(7), None, "tuck", 1_700_000_000, 123);
    assert_eq!(e.timestamp, 1_700_000_000);
    assert_eq!(e.timestamp_nanos, 123);
    assert_eq!(e.pfp_bytes, [1, 2, 3, 4]);
    assert_eq!(e.seq_counter, Some(7));
    assert_eq!(e.sensor_context, None);
    assert_eq!(e.source, "tuck");
}
