#![allow(unused_imports)]

use bind19::sap::{SAP_SIZE, SAP_PROTOCOL_ID, SAP_VERSION, PAH_SIZE, SIG_SIZE, SEQ_ROTATION_THRESHOLD, SapHeader};

#[test]
fn test_sap_size_constants() {
    assert_eq!(SAP_SIZE, 28);
    assert_eq!(SAP_PROTOCOL_ID, 0x01);
    assert_eq!(SAP_VERSION, 0b0001);
    assert_eq!(PAH_SIZE, 14);
    assert_eq!(SIG_SIZE, 8);
    assert_eq!(2 + 1 + 1 + 2 + PAH_SIZE + SIG_SIZE, SAP_SIZE);
    assert_eq!(SEQ_ROTATION_THRESHOLD, 65534);
}

#[test]
fn test_family_magic_and_protocol_id_encoding() {
    let sap = SapHeader::default();
    let encoded = sap.encode();
    // Family-Magic = 0xCF14
    assert_eq!(encoded[0], 0xCF);
    assert_eq!(encoded[1], 0x14);
    // Protocol-ID = 0x01
    assert_eq!(encoded[2], 0x01);
    assert!(SapHeader::verify_magic(&encoded));
    assert!(SapHeader::verify_protocol_id(&encoded));
}

#[test]
fn sap_test_encode_decode_roundtrip_default() {
    let sap = SapHeader::default();
    let encoded = sap.encode();
    assert_eq!(encoded.len(), SAP_SIZE);
    let decoded = SapHeader::decode(&encoded);
    assert_eq!(sap, decoded);
}

#[test]
fn test_encode_decode_roundtrip_full() {
    let mut pah = [0u8; PAH_SIZE];
    pah[0] = 0xAA;
    pah[PAH_SIZE - 1] = 0xFF;
    let mut sig = [0u8; SIG_SIZE];
    sig[0] = 0xDE;
    sig[SIG_SIZE - 1] = 0xAD;

    let sap = SapHeader::new(12345, pah, sig);
    let encoded = sap.encode();
    let decoded = SapHeader::decode(&encoded);

    assert_eq!(decoded.sap_version, SAP_VERSION);
    assert!(decoded.is_version_current());
    assert_eq!(decoded.seq_counter, 12345);
    assert_eq!(decoded.pah_hash, pah);
    assert_eq!(decoded.pah_signature, sig);
}

#[test]
fn test_fixed_offsets() {
    let mut pah = [0u8; PAH_SIZE];
    pah[0] = 0x11;
    pah[PAH_SIZE - 1] = 0x22;
    let mut sig = [0u8; SIG_SIZE];
    sig[0] = 0x33;
    sig[SIG_SIZE - 1] = 0x44;

    let sap = SapHeader::new(0x1234, pah, sig);
    let encoded = sap.encode();

    // Byte 0-1: Magic
    assert_eq!(&encoded[0..2], &[0xCF, 0x14]);
    // Byte 2: Protocol-ID
    assert_eq!(encoded[2], 0x01);
    // Byte 3: SAP-Version
    assert_eq!(encoded[3], SAP_VERSION);
    // Byte 4-5: Seq-Counter（大端序）
    assert_eq!(encoded[4], 0x12);
    assert_eq!(encoded[5], 0x34);
    // Byte 6-19: PAH-Hash
    assert_eq!(encoded[6], 0x11);
    assert_eq!(encoded[6 + PAH_SIZE - 1], 0x22);
    // Byte 20-27: PAH-Signature
    assert_eq!(encoded[6 + PAH_SIZE], 0x33);
    assert_eq!(encoded[SAP_SIZE - 1], 0x44);
}

#[test]
fn test_seq_counter_increment() {
    let mut sap = SapHeader::default();
    assert_eq!(sap.seq_counter, 0);
    assert_eq!(sap.increment_seq(), 1);
    assert_eq!(sap.increment_seq(), 2);
    assert_eq!(sap.seq_counter, 2);
}

#[test]
fn sap_test_seq_counter_wrapping() {
    let mut sap = SapHeader::new(65535, [0u8; PAH_SIZE], [0u8; SIG_SIZE]);
    assert_eq!(sap.increment_seq(), 0); // wrapping add
}

#[test]
fn test_key_rotation_threshold() {
    let sap_low = SapHeader::new(100, [0u8; PAH_SIZE], [0u8; SIG_SIZE]);
    assert!(!sap_low.needs_key_rotation());

    let sap_threshold = SapHeader::new(65534, [0u8; PAH_SIZE], [0u8; SIG_SIZE]);
    assert!(sap_threshold.needs_key_rotation());

    let sap_high = SapHeader::new(65535, [0u8; PAH_SIZE], [0u8; SIG_SIZE]);
    assert!(sap_high.needs_key_rotation());
}

#[test]
fn test_version_field() {
    let sap = SapHeader::default();
    assert_eq!(sap.sap_version, SAP_VERSION);
    assert!(sap.is_version_current());

    // 模拟旧版本
    let mut old_sap = sap.clone();
    old_sap.sap_version = 0;
    assert!(!old_sap.is_version_current());
}

#[test]
fn test_magic_and_protocol_id_verification() {
    let sap = SapHeader::default();
    let encoded = sap.encode();
    assert!(SapHeader::verify_magic(&encoded));
    assert!(SapHeader::verify_protocol_id(&encoded));

    // 篡改魔数
    let mut bad_magic = encoded;
    bad_magic[0] = 0x00;
    assert!(!SapHeader::verify_magic(&bad_magic));

    // 篡改协议 ID
    let mut bad_id = encoded;
    bad_id[2] = 0x00;
    assert!(!SapHeader::verify_protocol_id(&bad_id));
}

#[test]
fn test_reserved_bits_forced_zero() {
    let sap = SapHeader::default();
    let encoded = sap.encode();
    // Byte 3 bit 4-7 (Reserved) 强制为 0
    assert_eq!(encoded[3] & 0b11110000, 0);
}
