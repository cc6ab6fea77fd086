#![allow(unused_imports)]

use bind19::pal::{PAL_SIZE, PAH_SIZE, SIG_SIZE, PAL_VERSION, Modality, RiskLevel, BodyStance, ProximityEdge, OutputDest, OverrideFlag, PalHeader};

#[test]
fn test_pal_size_constants() {
    assert_eq!(PAL_SIZE, 24);
    assert_eq!(PAH_SIZE, 14);
    assert_eq!(SIG_SIZE, 8);
    assert_eq!(2 + PAH_SIZE + SIG_SIZE, PAL_SIZE);
}

#[test]
fn pal_test_encode_decode_roundtrip_default() {
    let pal = PalHeader::default();
    let encoded = pal.encode();
    assert_eq!(encoded.len(), PAL_SIZE);
    let decoded = PalHeader::decode(&encoded);
    assert_eq!(pal, decoded);
}

#[test]
fn pal_test_encode_decode_roundtrip_catastrophic() {
    let mut pah = [0u8; PAH_SIZE];
    pah[0] = 0xAA;
    pah[13] = 0xFF;
    let mut sig = [0u8; SIG_SIZE];
    sig[0] = 0xDE;
    sig[7] = 0xAD;

    let pal = PalHeader::new(
        Modality::Executive,
        RiskLevel::Catastrophic,
        BodyStance::Moving,
        ProximityEdge::CriticalEdge,
        OutputDest::External,
        OverrideFlag::HardOverride,
        true,
        pah,
        sig,
    );

    let encoded = pal.encode();
    let decoded = PalHeader::decode(&encoded);

    assert_eq!(decoded.modality, Modality::Executive);
    assert_eq!(decoded.risk_level, RiskLevel::Catastrophic);
    assert_eq!(decoded.body_stance, BodyStance::Moving);
    assert_eq!(decoded.proximity_edge, ProximityEdge::CriticalEdge);
    assert_eq!(decoded.output_dest, OutputDest::External);
    assert_eq!(decoded.override_flag, OverrideFlag::HardOverride);
    assert_eq!(decoded.pal_version, PAL_VERSION);
    assert!(decoded.replay_enable);
    assert!(!decoded.reserved);
    assert_eq!(decoded.physical_context_hash, pah);
    assert_eq!(decoded.pah_signature, sig);
}

#[test]
fn test_fixed_offset_byte0() {
    let pal = PalHeader::new(
        Modality::Render,       // bits 0-1 = 01
        RiskLevel::Critical,    // bits 2-3 = 10
        BodyStance::Standing,   // bits 4-5 = 01
        ProximityEdge::Warning, // bits 6-7 = 01
        OutputDest::Internal,
        OverrideFlag::Normal,
        true,
        [0u8; PAH_SIZE],
        [0u8; SIG_SIZE],
    );

    let encoded = pal.encode();
    // byte0 = Render(01) | Critical(10)<<2 | Standing(01)<<4 | Warning(01)<<6
    //       = 01 | 1000 | 010000 | 01000000
    //       = 01011001 = 0x59 = 89
    assert_eq!(encoded[0], 0b01011001);
    assert_eq!(encoded[0], 0x59);
}

#[test]
fn test_fixed_offset_byte1() {
    let pal = PalHeader::new(
        Modality::Cognitive,
        RiskLevel::Low,
        BodyStance::Unknown,
        ProximityEdge::Safe,
        OutputDest::External,   // bit 0 = 1
        OverrideFlag::HardOverride, // bit 1 = 1
        false,                  // bit 6 = 0 (replay_enable)
        [0u8; PAH_SIZE],
        [0u8; SIG_SIZE],
    );

    let encoded = pal.encode();
    // byte1: bit0=1 (External), bit1=1 (HardOverride), bits2-5=PAL_VERSION=0001 (bit2=1), bit6=0, bit7=0
    // = 1 | 2 | 4 | 0 | 0 = 7 = 0x07 = 00000111
    assert_eq!(encoded[1], 0b00000111);
    assert_eq!(encoded[1], 0x07);
}

#[test]
fn test_pah_and_signature_offsets() {
    let mut pah = [0u8; PAH_SIZE];
    pah[0] = 0x11;
    pah[PAH_SIZE - 1] = 0x22;
    let mut sig = [0u8; SIG_SIZE];
    sig[0] = 0x33;
    sig[SIG_SIZE - 1] = 0x44;

    let pal = PalHeader::new(
        Modality::Cognitive,
        RiskLevel::Low,
        BodyStance::Unknown,
        ProximityEdge::Safe,
        OutputDest::Internal,
        OverrideFlag::Normal,
        true,
        pah,
        sig,
    );

    let encoded = pal.encode();
    // PAH starts at byte 2
    assert_eq!(encoded[2], 0x11);
    assert_eq!(encoded[2 + PAH_SIZE - 1], 0x22);
    // Signature starts at byte 2 + PAH_SIZE = 16
    assert_eq!(encoded[2 + PAH_SIZE], 0x33);
    assert_eq!(encoded[PAL_SIZE - 1], 0x44);
}

#[test]
fn pal_test_catastrophic_override_detection() {
    let pal_normal = PalHeader::default();
    assert!(!pal_normal.is_catastrophic_override());

    let pal_cat = PalHeader::new(
        Modality::Executive,
        RiskLevel::Catastrophic,
        BodyStance::Moving,
        ProximityEdge::CriticalEdge,
        OutputDest::External,
        OverrideFlag::HardOverride,
        true,
        [0u8; PAH_SIZE],
        [0u8; SIG_SIZE],
    );
    assert!(pal_cat.is_catastrophic_override());

    // Catastrophic risk but no override flag → not hard override
    let pal_cat_no_override = PalHeader::new(
        Modality::Executive,
        RiskLevel::Catastrophic,
        BodyStance::Moving,
        ProximityEdge::CriticalEdge,
        OutputDest::External,
        OverrideFlag::Normal,
        true,
        [0u8; PAH_SIZE],
        [0u8; SIG_SIZE],
    );
    assert!(!pal_cat_no_override.is_catastrophic_override());
}

#[test]
fn pal_test_replay_disabled_forces_medium_risk() {
    // Replay-Enable=1 → 保持原始风险等级
    let pal_replay_on = PalHeader::new(
        Modality::Executive,
        RiskLevel::Catastrophic,
        BodyStance::Moving,
        ProximityEdge::CriticalEdge,
        OutputDest::External,
        OverrideFlag::HardOverride,
        true, // replay_enable
        [0u8; PAH_SIZE],
        [0u8; SIG_SIZE],
    );
    assert_eq!(pal_replay_on.effective_risk_level(), RiskLevel::Catastrophic);

    // Replay-Enable=0 → 强制降级至 MEDIUM（规则 6）
    let pal_replay_off = PalHeader::new(
        Modality::Executive,
        RiskLevel::Catastrophic,
        BodyStance::Moving,
        ProximityEdge::CriticalEdge,
        OutputDest::External,
        OverrideFlag::HardOverride,
        false, // replay_enable = 0
        [0u8; PAH_SIZE],
        [0u8; SIG_SIZE],
    );
    assert_eq!(pal_replay_off.effective_risk_level(), RiskLevel::Medium);
    // 原始风险等级仍保留在 risk_level 字段
    assert_eq!(pal_replay_off.risk_level, RiskLevel::Catastrophic);
}

#[test]
fn test_reserved_bit_forced_zero_on_encode() {
    let pal = PalHeader { reserved: true, ..Default::default() };
    let encoded = pal.encode();
    // 编码时 Reserved 位（bit 7 of byte1）强制为 0
    assert_eq!(encoded[1] & (1 << 7), 0);

    // 解码时如果输入有 Reserved=1，应该能检测到
    let mut buf = pal.encode();
    buf[1] |= 1 << 7; // 手动设置 Reserved=1
    let decoded = PalHeader::decode(&buf);
    assert!(decoded.has_unknown_reserved());
}

#[test]
fn test_pal_version_field() {
    let pal = PalHeader::default();
    assert_eq!(pal.pal_version, PAL_VERSION);
    assert!(pal.is_version_current());

    let encoded = pal.encode();
    let decoded = PalHeader::decode(&encoded);
    assert_eq!(decoded.pal_version, PAL_VERSION);
    assert!(decoded.is_version_current());
}

#[test]
fn pal_test_all_enum_values_roundtrip() {
    for modality in [Modality::Cognitive, Modality::Render, Modality::Executive, Modality::SensorFeed] {
        for risk in [RiskLevel::Low, RiskLevel::Medium, RiskLevel::Critical, RiskLevel::Catastrophic] {
            for stance in [BodyStance::Seated, BodyStance::Standing, BodyStance::Moving, BodyStance::Unknown] {
                for edge in [ProximityEdge::Safe, ProximityEdge::Warning, ProximityEdge::Danger, ProximityEdge::CriticalEdge] {
                    let pal = PalHeader::new(
                        modality, risk, stance, edge,
                        OutputDest::External, OverrideFlag::HardOverride,
                        true, [0xAB; PAH_SIZE], [0xCD; SIG_SIZE],
                    );
                    let encoded = pal.encode();
                    let decoded = PalHeader::decode(&encoded);
                    assert_eq!(decoded.modality, modality);
                    assert_eq!(decoded.risk_level, risk);
                    assert_eq!(decoded.body_stance, stance);
                    assert_eq!(decoded.proximity_edge, edge);
                }
            }
        }
    }
}
