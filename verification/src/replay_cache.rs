//! Anti-replay cache (rule 4), sharded by (tenant, source) in a `DashMap`.
//!
//! - A frame whose Seq-Counter is at or below the last one seen for its
//!   (tenant, source) is rejected.
//! - The first frame of a new (tenant, source) registers it, unless the cache
//!   already holds its maximum of 100 000 entries.
//! - Entries not updated within the TTL (default 60 s) are dropped by cleanup;
//!   each entry carries the tick of its last update on the cache's clock.

use vstd::prelude::*;
use dashmap::DashMap;
use std::time::{Duration, Instant};

verus! {

/// Most entries the cache holds.
pub const REPLAY_CACHE_MAX_CAPACITY: usize = 100_000;

/// Default TTL of an entry, in seconds.
pub const REPLAY_CACHE_DEFAULT_TTL_SECS: u64 = 60;

/// Tenant identifier (callers may hash a string into it).
pub type TenantId = u64;

/// Source identifier (callers may hash a string or a public key into it).
pub type SourceId = u64;

/// Cache key: tenant and source.
#[derive(Debug, Clone, Copy, PartialEq, Eq, Hash, Structural)]
pub struct ReplayKey {
    pub tenant_id: TenantId,
    pub source_id: SourceId,
}

impl ReplayKey {
    /// The key as the pair of integers the cache is keyed by.
    pub open spec fn pair(self) -> (u64, u64) {
        (self.tenant_id, self.source_id)
    }

    pub fn new(tenant_id: TenantId, source_id: SourceId) -> (r: Self)
        ensures
            r == (ReplayKey { tenant_id, source_id }),
    {
        ReplayKey { tenant_id, source_id }
    }
}

/// Outcome of an anti-replay check.
#[derive(Debug, Clone, Copy, PartialEq, Eq, Structural)]
pub enum ReplayCheckResult {
    /// The Seq-Counter is above the last one seen (or the source is new).
    Allowed,
    /// The Seq-Counter is at or below the last one seen.
    Rejected,
    /// A new source, but the cache is full: the frame is refused.
    CacheFull,
}

#[verifier::external_type_specification]
#[verifier::external_body]
pub struct ExInstant(Instant);

#[verifier::external_type_specification]
#[verifier::external_body]
#[verifier::reject_recursive_types(K)]
#[verifier::reject_recursive_types(V)]
#[verifier::reject_recursive_types(S)]
pub struct ExDashMap<K, V, S>(DashMap<K, V, S>);

/// One cache entry: the last Seq-Counter seen, and when it was recorded, in
/// ticks (nanoseconds) of the cache's clock.
#[derive(Debug, Clone, Copy)]
pub struct ReplayEntry {
    last_seq: u16,
    stamp: u64,
}

/// `Instant::now()`. Nothing is claimed of the value.
#[verifier::external_body]
fn instant_now() -> (r: Instant) {
    Instant::now()
}

/// `Instant::elapsed`. Nothing is claimed: the answer depends on the clock.
#[verifier::external_body]
fn instant_elapsed(since: Instant) -> (r: Duration) {
    since.elapsed()
}

/// `Duration::as_nanos`. Nothing is claimed of the opaque duration.
#[verifier::external_body]
fn duration_nanos(d: Duration) -> (r: u128) {
    d.as_nanos()
}

/// `Duration::from_secs`. Nothing is claimed of the value.
#[verifier::external_body]
fn duration_from_secs(secs: u64) -> (r: Duration) {
    Duration::from_secs(secs)
}

/// Nanoseconds as ticks of a cache's clock, capped at `u64::MAX` (some 584
/// years).
fn ticks_of(nanos: u128) -> (r: u64)
    ensures
        r == if nanos > u64::MAX {
            u64::MAX as int
        } else {
            nanos as int
        },
{
    if nanos > u64::MAX as u128 {
        u64::MAX
    } else {
        nanos as u64
    }
}

/// An entry recorded at tick `stamp` is still fresh at tick `now` under a TTL
/// of `ttl` ticks: at most `ttl` ticks have passed.
pub open spec fn is_fresh_at(stamp: u64, now: u64, ttl: u64) -> bool {
    now <= stamp + ttl
}

/// An entry stays fresh from its stamp through the `ttl`-th tick after it
/// and has expired once more than `ttl` ticks have passed.
pub proof fn lemma_entry_lifetime(stamp: u64, ttl: u64, now: u64)
    ensures
        stamp <= now && now - stamp <= ttl ==> is_fresh_at(stamp, now, ttl),
        now - stamp > ttl ==> !is_fresh_at(stamp, now, ttl),
        is_fresh_at(stamp, stamp, ttl),
{
}

impl ReplayEntry {
    /// The entry as (last Seq-Counter, stamp).
    pub closed spec fn pair(self) -> (u16, u64) {
        (self.last_seq, self.stamp)
    }

    fn new(seq: u16, now: u64) -> (r: Self)
        ensures
            r.pair() == (seq, now),
    {
        ReplayEntry { last_seq: seq, stamp: now }
    }

    fn last_seq(&self) -> (r: u16)
        ensures
            r == self.pair().0,
    {
        self.last_seq
    }

    fn update_seq(&mut self, seq: u16, now: u64)
        ensures
            final(self).pair() == (seq, now),
    {
        self.last_seq = seq;
        self.stamp = now;
    }

    /// Not updated within `ttl` ticks before `now`.
    fn is_expired(&self, now: u64, ttl: u64) -> (r: bool)
        ensures
            r == !is_fresh_at(self.pair().1, now, ttl),
    {
        now > self.stamp && now - self.stamp > ttl
    }

    /// Updated within `ttl` ticks before `now`: the entries that cleanup keeps.
    fn is_fresh(&self, now: u64, ttl: u64) -> (r: bool)
        ensures
            r == is_fresh_at(self.pair().1, now, ttl),
    {
        !self.is_expired(now, ttl)
    }
}

/// The table with no entries.
pub open spec fn empty_table() -> Map<(u64, u64), u16> {
    Map::empty()
}

/// No entries, as (last Seq-Counter, stamp) pairs.
pub open spec fn no_entries() -> Map<(u64, u64), (u16, u64)> {
    Map::empty()
}

/// The last Seq-Counters of a table of (last Seq-Counter, stamp) pairs.
pub open spec fn seqs_of(t: Map<(u64, u64), (u16, u64)>) -> Map<(u64, u64), u16> {
    t.map_values(|p: (u16, u64)| p.0)
}

/// The stamps of a table of (last Seq-Counter, stamp) pairs.
pub open spec fn stamps_of(t: Map<(u64, u64), (u16, u64)>) -> Map<(u64, u64), u64> {
    t.map_values(|p: (u16, u64)| p.1)
}

/// The keys whose stamps are still fresh at tick `now` under a TTL of `ttl`.
pub open spec fn fresh_keys(stamps: Map<(u64, u64), u64>, now: u64, ttl: u64) -> Set<(u64, u64)> {
    Set::new(|k: (u64, u64)| stamps.contains_key(k) && is_fresh_at(stamps[k], now, ttl))
}

/// `n` is the number of `keys`, a finite set.
pub open spec fn counts_keys(keys: Set<(u64, u64)>, n: usize) -> bool {
    keys.finite() && n == keys.len()
}

/// The table of entries, keyed by (tenant, source).
type EntryTable = DashMap<(u64, u64), ReplayEntry>;

/// The (last Seq-Counter, stamp) of each entry a table holds, by key.
pub uninterp spec fn entry_table(m: EntryTable) -> Map<(u64, u64), (u16, u64)>;

/// `DashMap::new`: an empty map.
#[verifier::external_body]
fn table_new() -> (r: EntryTable)
    ensures
        entry_table(r) == no_entries(),
{
    DashMap::new()
}

/// `DashMap::get`, handing out a copy of the entry. Claimed: an entry comes
/// back exactly when the key is present, the one stored for it.
#[verifier::external_body]
fn table_get(m: &EntryTable, key: (u64, u64)) -> (r: Option<ReplayEntry>)
    ensures
        r is Some == entry_table(*m).contains_key(key),
        r matches Some(e) ==> e.pair() == entry_table(*m)[key],
{
    m.get(&key).map(|e| *e)
}

/// `DashMap::insert`. Claimed: the key now maps to the new entry, nothing
/// else changes, and the previous entry (if any) comes back.
#[verifier::external_body]
fn table_insert(m: &mut EntryTable, key: (u64, u64), value: ReplayEntry) -> (r: Option<
    ReplayEntry,
>)
    ensures
        entry_table(*final(m)) == entry_table(*old(m)).insert(key, value.pair()),
        r is Some == entry_table(*old(m)).contains_key(key),
        r matches Some(e) ==> e.pair() == entry_table(*old(m))[key],
{
    m.insert(key, value)
}

/// `DashMap::remove`, reporting whether an entry was there. Claimed: the key
/// is gone and nothing else changes.
#[verifier::external_body]
fn table_remove(m: &mut EntryTable, key: (u64, u64)) -> (r: bool)
    ensures
        entry_table(*final(m)) == entry_table(*old(m)).remove(key),
        r == entry_table(*old(m)).contains_key(key),
{
    m.remove(&key).is_some()
}

/// `DashMap::clear`. Claimed: the map is empty.
#[verifier::external_body]
fn table_clear(m: &mut EntryTable)
    ensures
        entry_table(*final(m)) == no_entries(),
{
    m.clear()
}

/// `DashMap::len`. Claimed: the number of keys; a `DashMap` holds finitely
/// many.
#[verifier::external_body]
fn table_len(m: &EntryTable) -> (r: usize)
    ensures
        counts_keys(entry_table(*m).dom(), r),
{
    m.len()
}

/// `DashMap::is_empty`. Claimed: true exactly when no key is present.
#[verifier::external_body]
fn table_is_empty(m: &EntryTable) -> (r: bool)
    ensures
        r == (entry_table(*m).dom() == Set::<(u64, u64)>::empty()),
{
    m.is_empty()
}

/// `DashMap::retain`, keeping the entries for which `ReplayEntry::is_fresh`
/// at `now` under `ttl` answers true. Claimed: exactly those entries stay,
/// unchanged (the verified `is_fresh` answers `is_fresh_at` of the stamp).
#[verifier::external_body]
fn table_retain_fresh(m: &mut EntryTable, now: u64, ttl: u64)
    ensures
        entry_table(*final(m)) == entry_table(*old(m)).restrict(
            fresh_keys(stamps_of(entry_table(*old(m))), now, ttl),
        ),
{
    m.retain(|_, e| e.is_fresh(now, ttl))
}

/// The outcome of checking `seq` for key `k` against the table `m`, and the
/// table afterwards:
/// - known key, `seq` above the last one: Allowed, `seq` recorded;
/// - known key, `seq` at or below the last one: Rejected, table unchanged;
/// - new key, table full: CacheFull, table unchanged;
/// - new key otherwise: Allowed, `seq` recorded.
pub open spec fn replay_step(m: Map<(u64, u64), u16>, k: (u64, u64), seq: u16) -> (
    ReplayCheckResult,
    Map<(u64, u64), u16>,
) {
    if m.contains_key(k) {
        if seq <= m[k] {
            (ReplayCheckResult::Rejected, m)
        } else {
            (ReplayCheckResult::Allowed, m.insert(k, seq))
        }
    } else if m.len() >= REPLAY_CACHE_MAX_CAPACITY {
        (ReplayCheckResult::CacheFull, m)
    } else {
        (ReplayCheckResult::Allowed, m.insert(k, seq))
    }
}

/// Anti-replay cache. Entries carry the tick of their last update on the
/// cache's own clock: nanoseconds since the cache was made.
#[derive(Debug)]
pub struct ReplayCache {
    entries: EntryTable,
    ttl: Duration,
    ttl_ticks: u64,
    base: Instant,
    clock: u64,
}

impl View for ReplayCache {
    type V = Map<(u64, u64), u16>;

    /// The last Seq-Counter seen per (tenant, source).
    closed spec fn view(&self) -> Map<(u64, u64), u16> {
        seqs_of(entry_table(self.entries))
    }
}

impl ReplayCache {
    /// The TTL the cache was made with.
    pub closed spec fn ttl_view(self) -> Duration {
        self.ttl
    }

    /// The TTL in ticks (nanoseconds, capped at `u64::MAX`).
    pub closed spec fn ttl_ticks_view(self) -> u64 {
        self.ttl_ticks
    }

    /// The tick of each entry's last update, per (tenant, source).
    pub closed spec fn stamps(self) -> Map<(u64, u64), u64> {
        stamps_of(entry_table(self.entries))
    }

    /// The latest tick the cache has read off its clock.
    pub closed spec fn latest_tick(self) -> u64 {
        self.clock
    }

    /// The stamps are kept for exactly the keys the view holds.
    pub proof fn lemma_stamps_domain(self)
        ensures
            self.stamps().dom() == self@.dom(),
    {
        assert(self.stamps().dom() =~= self@.dom());
    }

    /// Reads the clock: ticks since the cache was made, never below the
    /// latest tick read before.
    fn now_ticks(&mut self) -> (r: u64)
        ensures
            r >= old(self).clock,
            *final(self) == (ReplayCache { clock: r, ..*old(self) }),
    {
        let reading = ticks_of(duration_nanos(instant_elapsed(self.base)));
        let now = if reading > self.clock {
            reading
        } else {
            self.clock
        };
        self.clock = now;
        now
    }

    /// An empty cache with the default TTL of 60 seconds.
    pub fn new() -> (r: Self)
        ensures
            r@ == empty_table(),
            r.latest_tick() == 0,
    {
        Self::with_ttl(duration_from_secs(REPLAY_CACHE_DEFAULT_TTL_SECS))
    }

    /// An empty cache with the given TTL.
    pub fn with_ttl(ttl: Duration) -> (r: Self)
        ensures
            r@ == empty_table(),
            r.ttl_view() == ttl,
            r.latest_tick() == 0,
    {
        let entries = table_new();
        assert(seqs_of(entry_table(entries)) =~= empty_table());
        ReplayCache {
            entries,
            ttl,
            ttl_ticks: ticks_of(duration_nanos(ttl)),
            base: instant_now(),
            clock: 0,
        }
    }

    /// Checks `seq` for `key` at tick `now` and records it, stamped `now`,
    /// when allowed (see `replay_step`).
    pub fn check_and_update_at(&mut self, key: ReplayKey, seq: u16, now: u64) -> (r:
        ReplayCheckResult)
        ensures
            (r, final(self)@) == replay_step(old(self)@, key.pair(), seq),
            final(self).stamps() == (if r == ReplayCheckResult::Allowed {
                old(self).stamps().insert(key.pair(), now)
            } else {
                old(self).stamps()
            }),
            final(self).ttl_view() == old(self).ttl_view(),
            final(self).ttl_ticks_view() == old(self).ttl_ticks_view(),
            final(self).latest_tick() == old(self).latest_tick(),
    {
        let k = (key.tenant_id, key.source_id);
        let ghost t0 = entry_table(self.entries);
        if let Some(mut entry) = table_get(&self.entries, k) {
            let last_seq = entry.last_seq();
            if seq <= last_seq {
                return ReplayCheckResult::Rejected;
            }
            entry.update_seq(seq, now);
            let _ = table_insert(&mut self.entries, k, entry);
            assert(self@ =~= seqs_of(t0).insert(k, seq));
            assert(self.stamps() =~= stamps_of(t0).insert(k, now));
            return ReplayCheckResult::Allowed;
        }
        assert(seqs_of(t0).dom() =~= t0.dom());
        if table_len(&self.entries) >= REPLAY_CACHE_MAX_CAPACITY {
            return ReplayCheckResult::CacheFull;
        }
        match table_insert(&mut self.entries, k, ReplayEntry::new(seq, now)) {
            None => {
                assert(self@ =~= seqs_of(t0).insert(k, seq));
                assert(self.stamps() =~= stamps_of(t0).insert(k, now));
                ReplayCheckResult::Allowed
            },
            Some(_) => {
                // The key was just found absent.
                assert(false);
                ReplayCheckResult::Rejected
            },
        }
    }

    /// Checks `seq` for `key` and records it when allowed (see
    /// `replay_step`), stamped with a fresh reading of the cache's clock.
    pub fn check_and_update(&mut self, key: ReplayKey, seq: u16) -> (r: ReplayCheckResult)
        ensures
            (r, final(self)@) == replay_step(old(self)@, key.pair(), seq),
            final(self).latest_tick() >= old(self).latest_tick(),
            final(self).stamps() == (if r == ReplayCheckResult::Allowed {
                old(self).stamps().insert(key.pair(), final(self).latest_tick())
            } else {
                old(self).stamps()
            }),
            final(self).ttl_view() == old(self).ttl_view(),
            final(self).ttl_ticks_view() == old(self).ttl_ticks_view(),
    {
        let now = self.now_ticks();
        self.check_and_update_at(key, seq, now)
    }

    /// What `check_and_update` would answer, without recording anything.
    pub fn check_only(&self, key: ReplayKey, seq: u16) -> (r: ReplayCheckResult)
        ensures
            r == replay_step(self@, key.pair(), seq).0,
    {
        let k = (key.tenant_id, key.source_id);
        assert(self@.dom() =~= entry_table(self.entries).dom());
        if let Some(entry) = table_get(&self.entries, k) {
            if seq <= entry.last_seq() {
                return ReplayCheckResult::Rejected;
            }
            ReplayCheckResult::Allowed
        } else {
            if table_len(&self.entries) >= REPLAY_CACHE_MAX_CAPACITY {
                ReplayCheckResult::CacheFull
            } else {
                ReplayCheckResult::Allowed
            }
        }
    }

    /// The last Seq-Counter seen for `key`, if any.
    pub fn last_seq(&self, key: ReplayKey) -> (r: Option<u16>)
        ensures
            r == (if self@.contains_key(key.pair()) {
                Some(self@[key.pair()])
            } else {
                None
            }),
    {
        match table_get(&self.entries, (key.tenant_id, key.source_id)) {
            Some(e) => Some(e.last_seq()),
            None => None,
        }
    }

    /// Drops the entries not updated within the TTL before tick `now`, and
    /// returns how many were dropped.
    pub fn cleanup_expired_at(&mut self, now: u64) -> (r: usize)
        ensures
            final(self)@ == old(self)@.restrict(
                fresh_keys(old(self).stamps(), now, old(self).ttl_ticks_view()),
            ),
            final(self).stamps() == old(self).stamps().restrict(
                fresh_keys(old(self).stamps(), now, old(self).ttl_ticks_view()),
            ),
            r == old(self)@.len() - final(self)@.len(),
            final(self).ttl_view() == old(self).ttl_view(),
            final(self).ttl_ticks_view() == old(self).ttl_ticks_view(),
            final(self).latest_tick() == old(self).latest_tick(),
    {
        let ghost t0 = entry_table(self.entries);
        let ghost keep = fresh_keys(stamps_of(t0), now, self.ttl_ticks);
        let before = table_len(&self.entries);
        table_retain_fresh(&mut self.entries, now, self.ttl_ticks);
        let after = table_len(&self.entries);
        proof {
            let t1 = entry_table(self.entries);
            assert(seqs_of(t1) =~= seqs_of(t0).restrict(keep));
            assert(stamps_of(t1) =~= stamps_of(t0).restrict(keep));
            assert(t1.dom() =~= t0.dom().intersect(keep));
            vstd::set_lib::lemma_len_subset(t1.dom(), t0.dom());
            assert(seqs_of(t0).dom() =~= t0.dom());
            assert(seqs_of(t1).dom() =~= t1.dom());
        }
        before - after
    }

    /// Drops the entries not updated within the TTL and returns how many were
    /// dropped: `cleanup_expired_at` at a fresh reading of the cache's clock.
    pub fn cleanup_expired(&mut self) -> (r: usize)
        ensures
            exists|now: u64|
                {
                    &&& now >= old(self).latest_tick()
                    &&& final(self).latest_tick() == now
                    &&& final(self)@ == old(self)@.restrict(
                        #[trigger] fresh_keys(old(self).stamps(), now, old(self).ttl_ticks_view()),
                    )
                    &&& final(self).stamps() == old(self).stamps().restrict(
                        fresh_keys(old(self).stamps(), now, old(self).ttl_ticks_view()),
                    )
                },
            r == old(self)@.len() - final(self)@.len(),
            final(self).ttl_view() == old(self).ttl_view(),
            final(self).ttl_ticks_view() == old(self).ttl_ticks_view(),
    {
        let now = self.now_ticks();
        let ghost kept = fresh_keys(old(self).stamps(), now, old(self).ttl_ticks_view());
        let r = self.cleanup_expired_at(now);
        assert(self@ == old(self)@.restrict(kept));
        r
    }

    /// Removes the entry of `key`; true when there was one.
    pub fn remove(&mut self, key: ReplayKey) -> (r: bool)
        ensures
            final(self)@ == old(self)@.remove(key.pair()),
            final(self).stamps() == old(self).stamps().remove(key.pair()),
            r == old(self)@.contains_key(key.pair()),
            final(self).ttl_view() == old(self).ttl_view(),
            final(self).ttl_ticks_view() == old(self).ttl_ticks_view(),
            final(self).latest_tick() == old(self).latest_tick(),
    {
        let ghost t0 = entry_table(self.entries);
        let r = table_remove(&mut self.entries, (key.tenant_id, key.source_id));
        assert(self@ =~= seqs_of(t0).remove(key.pair()));
        assert(self.stamps() =~= stamps_of(t0).remove(key.pair()));
        r
    }

    /// Removes every entry.
    pub fn clear(&mut self)
        ensures
            final(self)@ == empty_table(),
            final(self).stamps().dom() == Set::<(u64, u64)>::empty(),
            final(self).ttl_view() == old(self).ttl_view(),
            final(self).ttl_ticks_view() == old(self).ttl_ticks_view(),
            final(self).latest_tick() == old(self).latest_tick(),
    {
        table_clear(&mut self.entries);
        assert(self@ =~= empty_table());
        assert(self.stamps().dom() =~= Set::<(u64, u64)>::empty());
    }

    /// Number of entries.
    pub fn len(&self) -> (r: usize)
        ensures
            r == self@.len(),
            self@.dom().finite(),
    {
        assert(self@.dom() =~= entry_table(self.entries).dom());
        table_len(&self.entries)
    }

    /// No entries.
    pub fn is_empty(&self) -> (r: bool)
        ensures
            r == (self@.dom() == Set::<(u64, u64)>::empty()),
    {
        assert(self@.dom() =~= entry_table(self.entries).dom());
        table_is_empty(&self.entries)
    }

    /// The TTL.
    pub fn ttl(&self) -> (r: Duration)
        ensures
            r == self.ttl_view(),
    {
        self.ttl
    }

    /// The maximum number of entries.
    pub fn max_capacity(&self) -> (r: usize)
        ensures
            r == REPLAY_CACHE_MAX_CAPACITY,
    {
        REPLAY_CACHE_MAX_CAPACITY
    }
}

impl Default for ReplayCache {
    /// An empty cache with the default TTL.
    fn default() -> (r: Self)
        ensures
            r@ == empty_table(),
            r.latest_tick() == 0,
    {
        Self::new()
    }
}

/// Anti-replay: once `seq` is allowed for a key, that key's last Seq-Counter
/// is `seq`, and any later check of a Seq-Counter at or below it is rejected
/// and changes nothing.
pub proof fn lemma_allowed_then_replay_rejected(
    m: Map<(u64, u64), u16>,
    k: (u64, u64),
    seq: u16,
    replayed: u16,
)
    requires
        replay_step(m, k, seq).0 == ReplayCheckResult::Allowed,
        replayed <= seq,
    ensures
        replay_step(m, k, seq).1.contains_key(k),
        replay_step(m, k, seq).1[k] == seq,
        replay_step(replay_step(m, k, seq).1, k, replayed) == (
            ReplayCheckResult::Rejected,
            replay_step(m, k, seq).1,
        ),
{
}

/// Isolation: a check for one (tenant, source) never changes the entry of
/// another.
pub proof fn lemma_replay_isolation(
    m: Map<(u64, u64), u16>,
    k: (u64, u64),
    seq: u16,
    other: (u64, u64),
)
    requires
        other != k,
    ensures
        replay_step(m, k, seq).1.contains_key(other) == m.contains_key(other),
        m.contains_key(other) ==> replay_step(m, k, seq).1[other] == m[other],
{
}

/// A refused frame (replay or full cache) leaves the cache as it was.
pub proof fn lemma_refusal_changes_nothing(m: Map<(u64, u64), u16>, k: (u64, u64), seq: u16)
    requires
        replay_step(m, k, seq).0 != ReplayCheckResult::Allowed,
    ensures
        replay_step(m, k, seq).1 == m,
{
}

} // verus!
