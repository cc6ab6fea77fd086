//! Concrete instances of the codec laws and of every decode error.

use bind19::config::BindConfig;
use bind19::frame::{
    BindFrame, BindHeader, FrameError, FrameType, FLAG_PFP_PRESENT, FLAG_SAP_PRESENT, HEADER_SIZE,
};
use bind19::pal::PalHeader;
use bind19::pfp::{
    BodyStance, Modality, OutputDest, OverrideFlag, PfpHeader, ProximityEdge, RiskLevel,
};
use bind19::rotation::{KeyRotationPayload, RotationError, NONCE_SIZE};
use bind19::sap::{SapHeader, SAP_VERSION};

#[test]
fn pfp_all_zero_vector_encodes_as_documented() {
    let pfp = PfpHeader::new(
        Modality::Cognitive,
        RiskLevel::Low,
        BodyStance::Seated,
        ProximityEdge::Safe,
        OutputDest::Internal,
        OverrideFlag::Normal,
        false,
    );
    assert_eq!(pfp.encode(), [0xCF, 0x14, 0x00, 0x00]);
}

#[test]
fn pfp_all_one_vector_encodes_every_field_bit() {
    let pfp = PfpHeader::new(
        Modality::SensorFeed,
        RiskLevel::Catastrophic,
        BodyStance::Unknown,
        ProximityEdge::CriticalEdge,
        OutputDest::External,
        OverrideFlag::HardOverride,
        true,
    );
    // Byte 3 carries the three flags; its reserved bits stay zero.
    assert_eq!(pfp.encode(), [0xCF, 0x14, 0xFF, 0x07]);
}

#[test]
fn pfp_decode_of_encode_clears_reserved_bits() {
    let pfp = PfpHeader { reserved: 0b10101, ..PfpHeader::default() };
    let decoded = PfpHeader::decode(&pfp.encode());
    assert_eq!(decoded, PfpHeader { reserved: 0, ..pfp });
}

#[test]
fn pfp_encode_of_decode_gives_bytes_back_without_reserved() {
    let bytes = [0xCF, 0x14, 0x9C, 0b1010_1101];
    let decoded = PfpHeader::decode(&bytes);
    assert_eq!(decoded.reserved, 0b10101);
    assert_eq!(decoded.encode(), [0xCF, 0x14, 0x9C, 0b0000_0101]);
}

#[test]
fn pal_decode_of_encode_gives_header_back() {
    let pal = PalHeader::new(
        bind19::pal::Modality::Render,
        bind19::pal::RiskLevel::Critical,
        bind19::pal::BodyStance::Standing,
        bind19::pal::ProximityEdge::Danger,
        bind19::pal::OutputDest::External,
        bind19::pal::OverrideFlag::Normal,
        false,
        [0x5A; 14],
        [0xA5; 8],
    );
    assert_eq!(PalHeader::decode(&pal.encode()), pal);
}

#[test]
fn sap_seq_vectors_encode_big_endian() {
    let sap = SapHeader::new(1000, [0xDE; 14], [0xAD; 8]);
    let encoded = sap.encode();
    assert_eq!(&encoded[0..4], &[0xCF, 0x14, 0x01, SAP_VERSION]);
    assert_eq!(&encoded[4..6], &[0x03, 0xE8]);
    assert_eq!(&encoded[6..20], &[0xDE; 14]);
    assert_eq!(&encoded[20..28], &[0xAD; 8]);
    assert_eq!(SapHeader::decode(&encoded), sap);
}

#[test]
fn sap_decode_keeps_only_the_version_nibble() {
    let mut bytes = SapHeader::new(7, [1; 14], [2; 8]).encode();
    bytes[3] = 0xF3;
    let decoded = SapHeader::decode(&bytes);
    assert_eq!(decoded.sap_version, 0x03);
    assert!(!decoded.is_version_current());
    assert_eq!(decoded.encode()[3], 0x03);
}

#[test]
fn sap_rotation_threshold_boundary() {
    assert!(!SapHeader::new(65533, [0; 14], [0; 8]).needs_key_rotation());
    assert!(SapHeader::new(65534, [0; 14], [0; 8]).needs_key_rotation());
}

fn full_frame() -> BindFrame {
    let pfp = PfpHeader::new(
        Modality::Executive,
        RiskLevel::Critical,
        BodyStance::Standing,
        ProximityEdge::Warning,
        OutputDest::External,
        OverrideFlag::Normal,
        true,
    );
    let sap = SapHeader::new(0xBEEF, [0x11; 14], [0x22; 8]);
    BindFrame::new(FrameType::Control, 9, 4, Some(pfp), Some(sap), vec![1, 2, 3, 4, 5]).unwrap()
}

#[test]
fn frame_decode_of_encode_gives_frame_back() {
    let frame = full_frame();
    let encoded = frame.encode();
    assert_eq!(encoded.len(), HEADER_SIZE + 4 + 28 + 5);
    assert_eq!(BindFrame::decode(&encoded), Ok(frame));
}

#[test]
fn frame_header_decode_of_encode_gives_header_back() {
    let header = BindHeader::new(FrameType::Unknown(0x33), 0x42, FLAG_PFP_PRESENT, 0x07, 0x0102_0304);
    assert_eq!(BindHeader::decode(&header.encode()), header);
}

#[test]
fn frame_decode_reports_invalid_sap_magic() {
    let mut bytes = full_frame().encode();
    bytes[HEADER_SIZE + 4] = 0x00;
    assert_eq!(BindFrame::decode(&bytes), Err(FrameError::InvalidSapMagic));
}

#[test]
fn frame_decode_reports_invalid_sap_protocol_id() {
    let mut bytes = full_frame().encode();
    bytes[HEADER_SIZE + 4 + 2] = 0x02;
    assert_eq!(BindFrame::decode(&bytes), Err(FrameError::InvalidSapProtocolId));
}

#[test]
fn frame_decode_reports_sap_without_pfp() {
    let header = BindHeader::new(FrameType::Data, 0, FLAG_SAP_PRESENT, 0, 0);
    let mut bytes = header.encode().to_vec();
    bytes.extend_from_slice(&SapHeader::default().encode());
    assert_eq!(BindFrame::decode(&bytes), Err(FrameError::SapWithoutPfp));
    // Length and magic checks come first.
    assert_eq!(BindFrame::decode(&header.encode()), Err(FrameError::IncompleteFrame));
    let mut bad_magic = bytes.clone();
    bad_magic[HEADER_SIZE] = 0;
    assert_eq!(BindFrame::decode(&bad_magic), Err(FrameError::InvalidSapMagic));
    assert_eq!(
        BindFrame::new(FrameType::Data, 0, 0, None, Some(SapHeader::default()), vec![]).err(),
        Some(FrameError::SapWithoutPfp)
    );
}

#[test]
fn frame_decode_reports_incomplete_extension() {
    let header = BindHeader::new(FrameType::Data, 0, FLAG_PFP_PRESENT | FLAG_SAP_PRESENT, 0, 0);
    let mut bytes = header.encode().to_vec();
    bytes.extend_from_slice(&PfpHeader::default().encode());
    assert_eq!(BindFrame::decode(&bytes), Err(FrameError::IncompleteFrame));
}

#[test]
fn frame_decode_reports_announced_payload_over_limit() {
    let header = BindHeader::new(FrameType::Data, 0, 0, 0, 0x0400_0001);
    // Refused at once, whatever the buffer holds.
    assert_eq!(BindFrame::decode(&header.encode()), Err(FrameError::BufferOverflow));
    let mut bytes = header.encode().to_vec();
    bytes.resize(HEADER_SIZE + 0x0400_0001, 0);
    assert_eq!(BindFrame::decode(&bytes), Err(FrameError::BufferOverflow));
    // At the cap itself only the missing bytes are reported.
    let at_cap = BindHeader::new(FrameType::Data, 0, 0, 0, 0x0400_0000);
    assert_eq!(BindFrame::decode(&at_cap.encode()), Err(FrameError::IncompleteFrame));
}

#[test]
fn frame_decode_ignores_trailing_bytes() {
    let frame = full_frame();
    let mut bytes = frame.encode();
    bytes.extend_from_slice(&[0xEE; 3]);
    assert_eq!(BindFrame::decode(&bytes), Ok(frame));
}

#[test]
fn frame_error_messages() {
    assert_eq!(
        FrameError::IncompleteHeader.to_string(),
        "incomplete BIND-19 header (need 8 bytes)"
    );
    assert_eq!(FrameError::IncompleteFrame.to_string(), "incomplete BIND-19 frame");
    assert_eq!(FrameError::BufferOverflow.to_string(), "payload exceeds 64MB hard limit");
    assert_eq!(FrameError::SapWithoutPfp.to_string(), "SAP cannot exist without PFP");
    assert_eq!(
        FrameError::InvalidPfpMagic.to_string(),
        "invalid PFP family magic (expected 0xCF14)"
    );
    assert_eq!(
        FrameError::InvalidSapMagic.to_string(),
        "invalid SAP family magic (expected 0xCF14)"
    );
    assert_eq!(
        FrameError::InvalidSapProtocolId.to_string(),
        "invalid SAP protocol ID (expected 0x01)"
    );
}

#[test]
fn frame_type_codes_round_trip() {
    for b in 0u8..=255 {
        assert_eq!(FrameType::from_byte(b).to_byte(), b);
    }
    assert_eq!(FrameType::from_byte(0x07), FrameType::KeyRotation);
}

#[test]
fn rule6_applies_only_in_production_mode() {
    let frame = BindFrame::new(
        FrameType::Data,
        0,
        0,
        Some(PfpHeader { replay_enable: false, risk_level: RiskLevel::Critical, ..PfpHeader::default() }),
        None,
        vec![],
    )
    .unwrap();
    assert_eq!(
        frame.effective_risk_level_with_config(&BindConfig::default()),
        Some(RiskLevel::Medium)
    );
    assert_eq!(
        frame.effective_risk_level_with_config(&BindConfig { debug_mode: true }),
        Some(RiskLevel::Critical)
    );
}

#[test]
fn rotation_payload_round_trip_and_short_input() {
    let payload = KeyRotationPayload::new([7; NONCE_SIZE], vec![9, 8, 7]);
    let bytes = payload.encode();
    assert_eq!(bytes.len(), NONCE_SIZE + 3);
    assert_eq!(KeyRotationPayload::decode(&bytes), Ok(payload));
    assert_eq!(
        KeyRotationPayload::decode(&bytes[..NONCE_SIZE - 1]),
        Err(RotationError::PayloadTooShort)
    );
    let bare = KeyRotationPayload::decode(&bytes[..NONCE_SIZE]).unwrap();
    assert!(bare.new_key_encrypted.is_empty());
}

#[test]
fn debug_setting_values() {
    for on in ["1", "true", "TRUE", "Yes", "oN"] {
        assert!(BindConfig::from_env_value(Some(on)).is_debug(), "{on}");
    }
    for off in ["0", "false", "", "enable", " on", "yes "] {
        assert!(!BindConfig::from_env_value(Some(off)).is_debug(), "{off}");
    }
    assert!(!BindConfig::from_env_value(None).is_debug());
}
