#![allow(unused_imports)]

use bind19::pfp::{PFP_SIZE, FAMILY_MAGIC, PFP_PROTOCOL_ID, PFP_VERSION, Modality, RiskLevel, BodyStance, ProximityEdge, OutputDest, OverrideFlag, PfpHeader};

#[test]
fn test_pfp_size_constants() {
    assert_eq!(PFP_SIZE, 4);
    assert_eq!(FAMILY_MAGIC, 0xCF14);
    assert_eq!(PFP_PROTOCOL_ID, 0x00);
}

#[test]
fn test_family_magic_encoding() {
    let pfp = PfpHeader::default();
    let encoded = pfp.encode();
    assert_eq!(encoded[0], 0xCF);
    assert_eq!(encoded[1], 0x14);
    assert!(PfpHeader::verify_magic(&encoded));
}

#[test]
fn pfp_test_encode_decode_roundtrip_default() {
    let pfp = PfpHeader::default();
    let encoded = pfp.encode();
    assert_eq!(encoded.len(), PFP_SIZE);
    let decoded = PfpHeader::decode(&encoded);
    assert_eq!(pfp, decoded);
}

#[test]
fn pfp_test_encode_decode_roundtrip_catastrophic() {
    let pfp = PfpHeader::new(
        Modality::Executive,
        RiskLevel::Catastrophic,
        BodyStance::Moving,
        ProximityEdge::CriticalEdge,
        OutputDest::External,
        OverrideFlag::HardOverride,
        true,
    );

    let encoded = pfp.encode();
    let decoded = PfpHeader::decode(&encoded);

    assert_eq!(decoded.modality, Modality::Executive);
    assert_eq!(decoded.risk_level, RiskLevel::Catastrophic);
    assert_eq!(decoded.body_stance, BodyStance::Moving);
    assert_eq!(decoded.proximity_edge, ProximityEdge::CriticalEdge);
    assert_eq!(decoded.output_dest, OutputDest::External);
    assert_eq!(decoded.override_flag, OverrideFlag::HardOverride);
    assert!(decoded.replay_enable);
    assert_eq!(decoded.reserved, 0);
}

#[test]
fn test_fixed_offset_byte2() {
    let pfp = PfpHeader::new(
        Modality::Render,       // bits 0-1 = 01
        RiskLevel::Critical,    // bits 2-3 = 10
        BodyStance::Standing,   // bits 4-5 = 01
        ProximityEdge::Warning, // bits 6-7 = 01
        OutputDest::Internal,
        OverrideFlag::Normal,
        true,
    );

    let encoded = pfp.encode();
    // byte2 = 01 | 10<<2 | 01<<4 | 01<<6
    //       = 01 | 1000 | 010000 | 01000000
    //       = 01011001 = 0x59 = 89
    assert_eq!(encoded[2], 0b01011001);
    assert_eq!(encoded[2], 0x59);
}

#[test]
fn test_fixed_offset_byte3() {
    let pfp = PfpHeader::new(
        Modality::Cognitive,
        RiskLevel::Low,
        BodyStance::Unknown,
        ProximityEdge::Safe,
        OutputDest::External,    // bit 0 = 1
        OverrideFlag::HardOverride, // bit 1 = 1
        false,                   // bit 2 = 0 (replay_enable)
    );

    let encoded = pfp.encode();
    // byte3: bit0=1, bit1=1, bit2=0, bit3-7=0
    // = 00000011 = 0x03 = 3
    assert_eq!(encoded[3], 0b00000011);
    assert_eq!(encoded[3], 0x03);
}

#[test]
fn pfp_test_catastrophic_override_detection() {
    let pfp_normal = PfpHeader::default();
    assert!(!pfp_normal.is_catastrophic_override());

    let pfp_cat = PfpHeader::new(
        Modality::Executive,
        RiskLevel::Catastrophic,
        BodyStance::Moving,
        ProximityEdge::CriticalEdge,
        OutputDest::External,
        OverrideFlag::HardOverride,
        true,
    );
    assert!(pfp_cat.is_catastrophic_override());

    // Catastrophic risk but no override flag → not hard override
    // (see test_catastrophic_no_override)
}

#[test]
fn test_catastrophic_no_override() {
    let pfp_cat_no_override = PfpHeader::new(
        Modality::Executive,
        RiskLevel::Catastrophic,
        BodyStance::Moving,
        ProximityEdge::CriticalEdge,
        OutputDest::External,
        OverrideFlag::Normal,
        true,
    );
    assert!(!pfp_cat_no_override.is_catastrophic_override());
}

#[test]
fn pfp_test_replay_disabled_forces_medium_risk() {
    // Replay-Enable=1 → 保持原始风险等级
    let pfp_replay_on = PfpHeader::new(
        Modality::Executive,
        RiskLevel::Catastrophic,
        BodyStance::Moving,
        ProximityEdge::CriticalEdge,
        OutputDest::External,
        OverrideFlag::HardOverride,
        true,
    );
    assert_eq!(pfp_replay_on.effective_risk_level(), RiskLevel::Catastrophic);

    // Replay-Enable=0 → 强制降级至 MEDIUM（规则 6）
    let pfp_replay_off = PfpHeader::new(
        Modality::Executive,
        RiskLevel::Catastrophic,
        BodyStance::Moving,
        ProximityEdge::CriticalEdge,
        OutputDest::External,
        OverrideFlag::HardOverride,
        false,
    );
    assert_eq!(pfp_replay_off.effective_risk_level(), RiskLevel::Medium);
    // 原始风险等级仍保留在 risk_level 字段
    assert_eq!(pfp_replay_off.risk_level, RiskLevel::Catastrophic);
}

#[test]
fn test_reserved_bits_forced_zero_on_encode() {
    let pfp = PfpHeader { reserved: 0b11111, ..Default::default() };
    let encoded = pfp.encode();
    // 编码时 Reserved 位（bit 3-7 of byte3）强制为 0
    assert_eq!(encoded[3] & 0b11111000, 0);

    // 解码时如果输入有 Reserved 非零，应该能检测到
    let mut buf = pfp.encode();
    buf[3] |= 0b11111000; // 手动设置 Reserved=非零
    let decoded = PfpHeader::decode(&buf);
    assert!(decoded.has_unknown_reserved());
    assert_eq!(decoded.reserved, 0b11111);
}

#[test]
fn pfp_test_all_enum_values_roundtrip() {
    for modality in [Modality::Cognitive, Modality::Render, Modality::Executive, Modality::SensorFeed] {
        for risk in [RiskLevel::Low, RiskLevel::Medium, RiskLevel::Critical, RiskLevel::Catastrophic] {
            for stance in [BodyStance::Seated, BodyStance::Standing, BodyStance::Moving, BodyStance::Unknown] {
                for edge in [ProximityEdge::Safe, ProximityEdge::Warning, ProximityEdge::Danger, ProximityEdge::CriticalEdge] {
                    let pfp = PfpHeader::new(
                        modality, risk, stance, edge,
                        OutputDest::External, OverrideFlag::HardOverride,
                        true,
                    );
                    let encoded = pfp.encode();
                    let decoded = PfpHeader::decode(&encoded);
                    assert_eq!(decoded.modality, modality);
                    assert_eq!(decoded.risk_level, risk);
                    assert_eq!(decoded.body_stance, stance);
                    assert_eq!(decoded.proximity_edge, edge);
                }
            }
        }
    }
}

#[test]
fn test_magic_verification() {
    let pfp = PfpHeader::default();
    let encoded = pfp.encode();
    assert!(PfpHeader::verify_magic(&encoded));

    // 篡改魔数
    let mut bad = encoded;
    bad[0] = 0x00;
    assert!(!PfpHeader::verify_magic(&bad));
}
