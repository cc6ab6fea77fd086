//! Frame processor: the anti-replay cache applied to decoded frames.
//!
//! Rule 4: when Replay-Enable is 1, a frame whose Seq-Counter is at or below
//! the last one seen for its source is refused. Rule 6 (Replay-Enable 0
//! downgrades the risk level) is left to `BindFrame`'s effective risk level.

use vstd::prelude::*;
use std::time::Duration;
use crate::frame::BindFrame;
use crate::replay_cache::{
    fresh_keys, replay_step, ReplayCache, ReplayCheckResult, ReplayKey, SourceId, TenantId,
};

verus! {

/// Outcome of processing a frame.
#[derive(Debug, Clone, Copy, PartialEq, Eq, Structural)]
pub enum FrameProcessResult {
    /// Passed the anti-replay check, or Replay-Enable is 0 and the check is
    /// skipped.
    Allowed,
    /// Seq-Counter at or below the last one seen.
    RejectedReplay,
    /// A new source while the cache is full.
    RejectedCacheFull,
    /// No SAP, so no Seq-Counter to check (v1.0 frame or low-power mode).
    NoSap,
}

impl FrameProcessResult {
    /// The frame may pass: `Allowed` or `NoSap`.
    pub fn is_allowed(&self) -> (r: bool)
        ensures
            r == (*self is Allowed || *self is NoSap),
    {
        match self {
            FrameProcessResult::Allowed | FrameProcessResult::NoSap => true,
            _ => false,
        }
    }

    /// The frame is refused: `RejectedReplay` or `RejectedCacheFull`.
    pub fn is_rejected(&self) -> (r: bool)
        ensures
            r == (*self is RejectedReplay || *self is RejectedCacheFull),
    {
        match self {
            FrameProcessResult::RejectedReplay | FrameProcessResult::RejectedCacheFull => true,
            _ => false,
        }
    }
}

/// The processor's answer for an anti-replay outcome.
pub open spec fn outcome_of(r: ReplayCheckResult) -> FrameProcessResult {
    match r {
        ReplayCheckResult::Allowed => FrameProcessResult::Allowed,
        ReplayCheckResult::Rejected => FrameProcessResult::RejectedReplay,
        ReplayCheckResult::CacheFull => FrameProcessResult::RejectedCacheFull,
    }
}

/// Replay-Enable of the frame; a frame without PFP is checked strictly.
pub open spec fn replay_enabled(frame: BindFrame) -> bool {
    match frame.pfp {
        Some(p) => p.replay_enable,
        None => true,
    }
}

/// What processing `frame` from `source` for `tenant` answers, and the
/// anti-replay table afterwards:
/// - no SAP: NoSap, table unchanged;
/// - Replay-Enable 0: Allowed, table unchanged;
/// - otherwise the Seq-Counter is checked and recorded as `replay_step` says.
pub open spec fn process_step(
    m: Map<(u64, u64), u16>,
    tenant: u64,
    frame: BindFrame,
    source: u64,
) -> (FrameProcessResult, Map<(u64, u64), u16>) {
    match frame.sap {
        None => (FrameProcessResult::NoSap, m),
        Some(sap) => if !replay_enabled(frame) {
            (FrameProcessResult::Allowed, m)
        } else {
            let step = replay_step(m, (tenant, source), sap.seq_counter);
            (outcome_of(step.0), step.1)
        },
    }
}

/// Frame processor of one tenant.
#[derive(Debug)]
pub struct FrameProcessor {
    replay_cache: ReplayCache,
    tenant_id: TenantId,
}

impl FrameProcessor {
    /// The tenant this processor checks frames for.
    pub closed spec fn tenant(self) -> u64 {
        self.tenant_id
    }

    /// The anti-replay cache's contents.
    pub closed spec fn table(self) -> Map<(u64, u64), u16> {
        self.replay_cache@
    }

    /// The cache's TTL.
    pub closed spec fn ttl_view(self) -> Duration {
        self.replay_cache.ttl_view()
    }

    /// The cache's TTL in ticks of its clock.
    pub closed spec fn ttl_ticks(self) -> u64 {
        self.replay_cache.ttl_ticks_view()
    }

    /// The tick of each cache entry's last update.
    pub closed spec fn stamps(self) -> Map<(u64, u64), u64> {
        self.replay_cache.stamps()
    }

    /// The latest tick the cache has read off its clock.
    pub closed spec fn latest_tick(self) -> u64 {
        self.replay_cache.latest_tick()
    }

    /// A processor for `tenant_id` with an empty cache (TTL 60 s).
    pub fn new(tenant_id: TenantId) -> (r: Self)
        ensures
            r.tenant() == tenant_id,
            r.table() == Map::<(u64, u64), u16>::empty(),
    {
        FrameProcessor { replay_cache: ReplayCache::new(), tenant_id }
    }

    /// A processor for `tenant_id` with an empty cache of the given TTL.
    pub fn with_ttl(tenant_id: TenantId, ttl: Duration) -> (r: Self)
        ensures
            r.tenant() == tenant_id,
            r.table() == Map::<(u64, u64), u16>::empty(),
            r.ttl_view() == ttl,
    {
        FrameProcessor { replay_cache: ReplayCache::with_ttl(ttl), tenant_id }
    }

    /// Processes `frame` from `source_id`: see `process_step`.
    pub fn process_frame(&mut self, frame: &BindFrame, source_id: SourceId) -> (r:
        FrameProcessResult)
        ensures
            (r, final(self).table()) == process_step(
                old(self).table(),
                old(self).tenant(),
                *frame,
                source_id,
            ),
            final(self).tenant() == old(self).tenant(),
            final(self).ttl_view() == old(self).ttl_view(),
            final(self).ttl_ticks() == old(self).ttl_ticks(),
            final(self).latest_tick() >= old(self).latest_tick(),
            final(self).stamps() == (if frame.sap is Some && replay_enabled(*frame) && r
                == FrameProcessResult::Allowed {
                old(self).stamps().insert((old(self).tenant(), source_id), final(self).latest_tick())
            } else {
                old(self).stamps()
            }),
    {
        let seq = match &frame.sap {
            Some(sap) => sap.seq_counter,
            None => return FrameProcessResult::NoSap,
        };
        let replay_enable = match &frame.pfp {
            Some(p) => p.replay_enable,
            None => true,
        };
        if !replay_enable {
            return FrameProcessResult::Allowed;
        }
        let key = ReplayKey::new(self.tenant_id, source_id);
        match self.replay_cache.check_and_update(key, seq) {
            ReplayCheckResult::Allowed => FrameProcessResult::Allowed,
            ReplayCheckResult::Rejected => FrameProcessResult::RejectedReplay,
            ReplayCheckResult::CacheFull => FrameProcessResult::RejectedCacheFull,
        }
    }

    /// What `process_frame` would answer, without recording anything.
    pub fn check_frame(&self, frame: &BindFrame, source_id: SourceId) -> (r: FrameProcessResult)
        ensures
            r == process_step(self.table(), self.tenant(), *frame, source_id).0,
    {
        let seq = match &frame.sap {
            Some(sap) => sap.seq_counter,
            None => return FrameProcessResult::NoSap,
        };
        let replay_enable = match &frame.pfp {
            Some(p) => p.replay_enable,
            None => true,
        };
        if !replay_enable {
            return FrameProcessResult::Allowed;
        }
        let key = ReplayKey::new(self.tenant_id, source_id);
        match self.replay_cache.check_only(key, seq) {
            ReplayCheckResult::Allowed => FrameProcessResult::Allowed,
            ReplayCheckResult::Rejected => FrameProcessResult::RejectedReplay,
            ReplayCheckResult::CacheFull => FrameProcessResult::RejectedCacheFull,
        }
    }

    /// The anti-replay cache, read-only.
    pub fn replay_cache(&self) -> (r: &ReplayCache)
        ensures
            r@ == self.table(),
            r.ttl_view() == self.ttl_view(),
    {
        &self.replay_cache
    }

    /// The tenant.
    pub fn tenant_id(&self) -> (r: TenantId)
        ensures
            r == self.tenant(),
    {
        self.tenant_id
    }

    /// Drops the cache entries not updated within the TTL; returns how many.
    pub fn cleanup_expired(&mut self) -> (r: usize)
        ensures
            exists|now: u64|
                {
                    &&& now >= old(self).latest_tick()
                    &&& final(self).latest_tick() == now
                    &&& final(self).table() == old(self).table().restrict(
                        #[trigger] fresh_keys(old(self).stamps(), now, old(self).ttl_ticks()),
                    )
                    &&& final(self).stamps() == old(self).stamps().restrict(
                        fresh_keys(old(self).stamps(), now, old(self).ttl_ticks()),
                    )
                },
            r == old(self).table().len() - final(self).table().len(),
            final(self).tenant() == old(self).tenant(),
            final(self).ttl_view() == old(self).ttl_view(),
            final(self).ttl_ticks() == old(self).ttl_ticks(),
    {
        let r = self.replay_cache.cleanup_expired();
        proof {
            let c0 = old(self).replay_cache;
            let c1 = self.replay_cache;
            let now = choose|now: u64|
                {
                    &&& now >= c0.latest_tick()
                    &&& c1.latest_tick() == now
                    &&& c1@ == c0@.restrict(
                        #[trigger] fresh_keys(c0.stamps(), now, c0.ttl_ticks_view()),
                    )
                    &&& c1.stamps() == c0.stamps().restrict(
                        fresh_keys(c0.stamps(), now, c0.ttl_ticks_view()),
                    )
                };
            assert(self.table() == old(self).table().restrict(
                fresh_keys(old(self).stamps(), now, old(self).ttl_ticks()),
            ));
        }
        r
    }

    /// The last Seq-Counter seen from `source_id`, if any.
    pub fn last_seq(&self, source_id: SourceId) -> (r: Option<u16>)
        ensures
            r == (if self.table().contains_key((self.tenant(), source_id)) {
                Some(self.table()[(self.tenant(), source_id)])
            } else {
                None
            }),
    {
        let key = ReplayKey::new(self.tenant_id, source_id);
        self.replay_cache.last_seq(key)
    }

    /// Forgets `source_id` (after a key rotation); true when it was known.
    pub fn remove_source(&mut self, source_id: SourceId) -> (r: bool)
        ensures
            final(self).table() == old(self).table().remove((old(self).tenant(), source_id)),
            final(self).stamps() == old(self).stamps().remove((old(self).tenant(), source_id)),
            r == old(self).table().contains_key((old(self).tenant(), source_id)),
            final(self).tenant() == old(self).tenant(),
            final(self).ttl_view() == old(self).ttl_view(),
            final(self).ttl_ticks() == old(self).ttl_ticks(),
            final(self).latest_tick() == old(self).latest_tick(),
    {
        let key = ReplayKey::new(self.tenant_id, source_id);
        self.replay_cache.remove(key)
    }
}

/// A frame that passed the anti-replay check is refused when it comes again
/// from the same source, and the second attempt changes nothing.
pub proof fn lemma_replayed_frame_rejected(
    m: Map<(u64, u64), u16>,
    tenant: u64,
    frame: BindFrame,
    source: u64,
)
    requires
        frame.sap is Some,
        replay_enabled(frame),
        process_step(m, tenant, frame, source).0 == FrameProcessResult::Allowed,
    ensures
        process_step(process_step(m, tenant, frame, source).1, tenant, frame, source) == (
            FrameProcessResult::RejectedReplay,
            process_step(m, tenant, frame, source).1,
        ),
{
    let seq = frame.sap.unwrap().seq_counter;
    crate::replay_cache::lemma_allowed_then_replay_rejected(m, (tenant, source), seq, seq);
}

/// With Replay-Enable 0 or without a SAP nothing is recorded, and the answer
/// lets the frame pass.
pub proof fn lemma_unchecked_frames_pass(
    m: Map<(u64, u64), u16>,
    tenant: u64,
    frame: BindFrame,
    source: u64,
)
    requires
        frame.sap is None || !replay_enabled(frame),
    ensures
        process_step(m, tenant, frame, source).1 == m,
        process_step(m, tenant, frame, source).0 == FrameProcessResult::Allowed
            || process_step(m, tenant, frame, source).0 == FrameProcessResult::NoSap,
{
}

/// Processing for one (tenant, source) never changes what is recorded for
/// another, so tenants and sources are isolated.
pub proof fn lemma_process_isolation(
    m: Map<(u64, u64), u16>,
    tenant: u64,
    frame: BindFrame,
    source: u64,
    other: (u64, u64),
)
    requires
        other != (tenant, source),
    ensures
        process_step(m, tenant, frame, source).1.contains_key(other) == m.contains_key(other),
        m.contains_key(other) ==> process_step(m, tenant, frame, source).1[other] == m[other],
{
    if frame.sap is Some {
        crate::replay_cache::lemma_replay_isolation(
            m,
            (tenant, source),
            frame.sap.unwrap().seq_counter,
            other,
        );
    }
}

} // verus!
