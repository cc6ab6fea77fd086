#![allow(unused_imports)]

use bind19::processor::{FrameProcessResult, FrameProcessor};
use bind19::frame::{BindFrame, FrameType};
use bind19::pfp::{BodyStance, Modality, OutputDest, OverrideFlag, PfpHeader, ProximityEdge, RiskLevel};
use bind19::sap::{SapHeader};


fn make_frame_with_sap(seq: u16, replay_enable: bool) -> BindFrame {
    let pfp = PfpHeader::new(
        Modality::Cognitive,
        RiskLevel::Low,
        BodyStance::Unknown,
        ProximityEdge::Safe,
        OutputDest::Internal,
        OverrideFlag::Normal,
        replay_enable,
    );
    let pah_hash = [0u8; 14];
    let pah_signature = [0u8; 8];
    let sap = SapHeader::new(seq, pah_hash, pah_signature);
    BindFrame::new(FrameType::Data, 0, 0, Some(pfp), Some(sap), vec![]).unwrap()
}

fn make_frame_without_sap() -> BindFrame {
    let pfp = PfpHeader::new(
        Modality::Cognitive,
        RiskLevel::Low,
        BodyStance::Unknown,
        ProximityEdge::Safe,
        OutputDest::Internal,
        OverrideFlag::Normal,
        true,
    );
    BindFrame::new(FrameType::Data, 0, 0, Some(pfp), None, vec![]).unwrap()
}

#[test]
fn test_processor_new() {
    let mut processor = FrameProcessor::new(1);
    assert_eq!(processor.tenant_id(), 1);
    assert!(processor.replay_cache().is_empty());
}

#[test]
fn test_process_frame_first_seen_allowed() {
    let mut processor = FrameProcessor::new(1);
    let frame = make_frame_with_sap(42, true);
    let result = processor.process_frame(&frame, 100);
    assert_eq!(result, FrameProcessResult::Allowed);
    assert!(result.is_allowed());
    assert_eq!(processor.last_seq(100), Some(42));
}

#[test]
fn test_process_frame_replay_rejected() {
    let mut processor = FrameProcessor::new(1);
    let frame1 = make_frame_with_sap(42, true);
    let frame2 = make_frame_with_sap(42, true); // 重放

    assert_eq!(processor.process_frame(&frame1, 100), FrameProcessResult::Allowed);
    assert_eq!(processor.process_frame(&frame2, 100), FrameProcessResult::RejectedReplay);
    assert!(processor.process_frame(&frame2, 100).is_rejected());
}

#[test]
fn test_process_frame_old_seq_rejected() {
    let mut processor = FrameProcessor::new(1);
    let frame1 = make_frame_with_sap(50, true);
    let frame2 = make_frame_with_sap(40, true); // 旧 seq

    assert_eq!(processor.process_frame(&frame1, 100), FrameProcessResult::Allowed);
    assert_eq!(processor.process_frame(&frame2, 100), FrameProcessResult::RejectedReplay);
}

#[test]
fn test_process_frame_newer_seq_allowed() {
    let mut processor = FrameProcessor::new(1);
    let frame1 = make_frame_with_sap(42, true);
    let frame2 = make_frame_with_sap(43, true);
    let frame3 = make_frame_with_sap(100, true);

    assert_eq!(processor.process_frame(&frame1, 100), FrameProcessResult::Allowed);
    assert_eq!(processor.process_frame(&frame2, 100), FrameProcessResult::Allowed);
    assert_eq!(processor.process_frame(&frame3, 100), FrameProcessResult::Allowed);
    assert_eq!(processor.last_seq(100), Some(100));
}

#[test]
fn test_process_frame_replay_disabled_skips_check() {
    let mut processor = FrameProcessor::new(1);
    // Replay-Enable=0，跳过防重放检查
    let frame1 = make_frame_with_sap(42, false);
    let frame2 = make_frame_with_sap(42, false); // 相同 seq，但跳过检查

    assert_eq!(processor.process_frame(&frame1, 100), FrameProcessResult::Allowed);
    assert_eq!(processor.process_frame(&frame2, 100), FrameProcessResult::Allowed);
    // 缓存不应该更新（因为跳过了检查）
    assert_eq!(processor.last_seq(100), None);
}

#[test]
fn test_process_frame_no_sap() {
    let mut processor = FrameProcessor::new(1);
    let frame = make_frame_without_sap();
    let result = processor.process_frame(&frame, 100);
    assert_eq!(result, FrameProcessResult::NoSap);
    assert!(result.is_allowed());
}

#[test]
fn test_process_frame_multiple_sources_isolated() {
    let mut processor = FrameProcessor::new(1);
    let frame1 = make_frame_with_sap(42, true);
    let frame2 = make_frame_with_sap(42, true); // 相同 seq，不同 source

    assert_eq!(processor.process_frame(&frame1, 100), FrameProcessResult::Allowed);
    assert_eq!(processor.process_frame(&frame2, 200), FrameProcessResult::Allowed);
    assert_eq!(processor.replay_cache().len(), 2);
}

#[test]
fn test_process_frame_multiple_tenants_isolated() {
    let mut processor1 = FrameProcessor::new(1);
    let mut processor2 = FrameProcessor::new(2);
    let frame = make_frame_with_sap(42, true);

    assert_eq!(processor1.process_frame(&frame, 100), FrameProcessResult::Allowed);
    // 不同租户，相同 source_id 和 seq，应该允许
    assert_eq!(processor2.process_frame(&frame, 100), FrameProcessResult::Allowed);
}

#[test]
fn test_check_frame_does_not_update() {
    let mut processor = FrameProcessor::new(1);
    let frame = make_frame_with_sap(42, true);

    // check_only 不更新缓存
    assert_eq!(processor.check_frame(&frame, 100), FrameProcessResult::Allowed);
    assert!(processor.replay_cache().is_empty());

    // process_frame 才更新
    assert_eq!(processor.process_frame(&frame, 100), FrameProcessResult::Allowed);
    assert_eq!(processor.replay_cache().len(), 1);
}

#[test]
fn test_remove_source_after_key_rotation() {
    let mut processor = FrameProcessor::new(1);
    let frame = make_frame_with_sap(42, true);

    processor.process_frame(&frame, 100);
    assert_eq!(processor.last_seq(100), Some(42));

    // 密钥轮换后移除源缓存
    assert!(processor.remove_source(100));
    assert_eq!(processor.last_seq(100), None);

    // 移除后，相同 seq 应该允许（新会话）
    assert_eq!(processor.process_frame(&frame, 100), FrameProcessResult::Allowed);
}

#[test]
fn test_frame_process_result_is_allowed() {
    assert!(FrameProcessResult::Allowed.is_allowed());
    assert!(FrameProcessResult::NoSap.is_allowed());
    assert!(!FrameProcessResult::RejectedReplay.is_allowed());
    assert!(!FrameProcessResult::RejectedCacheFull.is_allowed());
}

#[test]
fn test_frame_process_result_is_rejected() {
    assert!(!FrameProcessResult::Allowed.is_rejected());
    assert!(!FrameProcessResult::NoSap.is_rejected());
    assert!(FrameProcessResult::RejectedReplay.is_rejected());
    assert!(FrameProcessResult::RejectedCacheFull.is_rejected());
}
