#![allow(unused_imports)]

use std::time::Duration;

use bind19::replay_cache::{REPLAY_CACHE_MAX_CAPACITY, REPLAY_CACHE_DEFAULT_TTL_SECS, TenantId, SourceId, ReplayKey, ReplayCheckResult, ReplayCache};

#[test]
fn replay_cache_test_constants() {
    assert_eq!(REPLAY_CACHE_MAX_CAPACITY, 100_000);
    assert_eq!(Duration::from_secs(REPLAY_CACHE_DEFAULT_TTL_SECS), Duration::from_secs(60));
}

#[test]
fn test_new_cache_empty() {
    let mut cache = ReplayCache::new();
    assert!(cache.is_empty());
    assert_eq!(cache.len(), 0);
    assert_eq!(cache.ttl(), Duration::from_secs(REPLAY_CACHE_DEFAULT_TTL_SECS));
    assert_eq!(cache.max_capacity(), 100_000);
}

#[test]
fn test_first_seen_allowed() {
    let mut cache = ReplayCache::new();
    let key = ReplayKey::new(1, 100);
    assert_eq!(cache.check_and_update(key, 42), ReplayCheckResult::Allowed);
    assert_eq!(cache.len(), 1);
    assert_eq!(cache.last_seq(key), Some(42));
}

#[test]
fn test_replay_same_seq_rejected() {
    let mut cache = ReplayCache::new();
    let key = ReplayKey::new(1, 100);
    assert_eq!(cache.check_and_update(key, 42), ReplayCheckResult::Allowed);
    // 相同 seq，重放
    assert_eq!(cache.check_and_update(key, 42), ReplayCheckResult::Rejected);
    // last_seq 不变
    assert_eq!(cache.last_seq(key), Some(42));
}

#[test]
fn test_old_seq_rejected() {
    let mut cache = ReplayCache::new();
    let key = ReplayKey::new(1, 100);
    assert_eq!(cache.check_and_update(key, 42), ReplayCheckResult::Allowed);
    // 旧 seq，重放
    assert_eq!(cache.check_and_update(key, 40), ReplayCheckResult::Rejected);
    assert_eq!(cache.check_and_update(key, 0), ReplayCheckResult::Rejected);
}

#[test]
fn test_newer_seq_allowed() {
    let mut cache = ReplayCache::new();
    let key = ReplayKey::new(1, 100);
    assert_eq!(cache.check_and_update(key, 42), ReplayCheckResult::Allowed);
    assert_eq!(cache.check_and_update(key, 43), ReplayCheckResult::Allowed);
    assert_eq!(cache.check_and_update(key, 100), ReplayCheckResult::Allowed);
    assert_eq!(cache.last_seq(key), Some(100));
}

#[test]
fn replay_cache_test_seq_counter_wrapping() {
    // 测试 16-bit 回绕：65535 → 0 应该被拒绝（回绕需要密钥轮换）
    let mut cache = ReplayCache::new();
    let key = ReplayKey::new(1, 100);
    assert_eq!(cache.check_and_update(key, 65535), ReplayCheckResult::Allowed);
    // 回绕到 0，应该被拒绝（因为 0 ≤ 65535）
    // 注意：实际协议中回绕需要密钥轮换，轮换后缓存条目被清除
    assert_eq!(cache.check_and_update(key, 0), ReplayCheckResult::Rejected);
}

#[test]
fn test_multiple_tenants_isolated() {
    let mut cache = ReplayCache::new();
    let key1 = ReplayKey::new(1, 100);
    let key2 = ReplayKey::new(2, 100); // 相同 source_id，不同 tenant_id

    assert_eq!(cache.check_and_update(key1, 42), ReplayCheckResult::Allowed);
    // 不同租户，相同 seq 应该允许（隔离）
    assert_eq!(cache.check_and_update(key2, 42), ReplayCheckResult::Allowed);
    assert_eq!(cache.len(), 2);

    // 租户 1 的重放应该被拒绝
    assert_eq!(cache.check_and_update(key1, 42), ReplayCheckResult::Rejected);
    // 租户 2 的重放应该被拒绝
    assert_eq!(cache.check_and_update(key2, 42), ReplayCheckResult::Rejected);
}

#[test]
fn test_multiple_sources_isolated() {
    let mut cache = ReplayCache::new();
    let key1 = ReplayKey::new(1, 100);
    let key2 = ReplayKey::new(1, 200); // 相同 tenant_id，不同 source_id

    assert_eq!(cache.check_and_update(key1, 42), ReplayCheckResult::Allowed);
    assert_eq!(cache.check_and_update(key2, 42), ReplayCheckResult::Allowed);
    assert_eq!(cache.len(), 2);

    assert_eq!(cache.check_and_update(key1, 42), ReplayCheckResult::Rejected);
    assert_eq!(cache.check_and_update(key2, 42), ReplayCheckResult::Rejected);
}

#[test]
fn test_check_only_does_not_update() {
    let mut cache = ReplayCache::new();
    let key = ReplayKey::new(1, 100);

    // check_only 不注册新源
    assert_eq!(cache.check_only(key, 42), ReplayCheckResult::Allowed);
    assert!(cache.is_empty());

    // 实际 check_and_update 才注册
    assert_eq!(cache.check_and_update(key, 42), ReplayCheckResult::Allowed);
    assert_eq!(cache.len(), 1);

    // check_only 旧 seq 应该拒绝
    assert_eq!(cache.check_only(key, 40), ReplayCheckResult::Rejected);
    // check_only 不更新
    assert_eq!(cache.last_seq(key), Some(42));
}

#[test]
fn test_remove_entry() {
    let mut cache = ReplayCache::new();
    let key = ReplayKey::new(1, 100);
    cache.check_and_update(key, 42);
    assert_eq!(cache.len(), 1);

    assert!(cache.remove(key));
    assert!(cache.is_empty());
    assert_eq!(cache.last_seq(key), None);

    // 移除后，相同 seq 应该允许（新源）
    assert_eq!(cache.check_and_update(key, 42), ReplayCheckResult::Allowed);
}

#[test]
fn test_clear_cache() {
    let mut cache = ReplayCache::new();
    for i in 0..10 {
        let key = ReplayKey::new(1, i);
        cache.check_and_update(key, i as u16);
    }
    assert_eq!(cache.len(), 10);

    cache.clear();
    assert!(cache.is_empty());
}

#[test]
fn test_replay_key_equality() {
    let key1 = ReplayKey::new(1, 100);
    let key2 = ReplayKey::new(1, 100);
    let key3 = ReplayKey::new(2, 100);
    let key4 = ReplayKey::new(1, 200);

    assert_eq!(key1, key2);
    assert_ne!(key1, key3);
    assert_ne!(key1, key4);
    assert_eq!(key1.tenant_id, 1);
    assert_eq!(key1.source_id, 100);
}

#[test]
fn test_with_custom_ttl() {
    let ttl = Duration::from_secs(120);
    let mut cache = ReplayCache::with_ttl(ttl);
    assert_eq!(cache.ttl(), ttl);
}
