//! CATASTROPHIC hard override (rules 1-3): detection, an event bus that the
//! receiving side blocks on (no polling), and a hash-chained audit log.
//!
//! - Rule 1: Risk-Level CATASTROPHIC with Override-Flag HARD_OVERRIDE must be
//!   acted on first, event-driven.
//! - Rule 2: every trigger leaves an audit record chained by SHA-256.
//! - Rule 3: the rules are not negotiable.

use vstd::prelude::*;
use std::sync::mpsc::{
    channel, Iter, Receiver, RecvError, RecvTimeoutError, SendError, Sender, TryRecvError,
};
use std::sync::Arc;
use std::time::{Duration, SystemTime, SystemTimeError, UNIX_EPOCH};
use crate::buf::{append_bytes, bytes_equal, copy_range};
use crate::crypto::{sha256, sha256_digest};
use crate::pfp::{lemma_pfp_decode_encode, OverrideFlag, PfpHeader, RiskLevel};

verus! {

/// Capacity of the CATASTROPHIC event bus.
pub const EVENT_BUS_CAPACITY: usize = 1024;

/// Most audit entries kept in memory; older ones are rotated out.
pub const AUDIT_LOG_MAX_ENTRIES: usize = 10000;

#[verifier::external_type_specification]
#[verifier::external_body]
pub struct ExSystemTime(SystemTime);

#[verifier::external_type_specification]
#[verifier::external_body]
pub struct ExSystemTimeError(SystemTimeError);

#[verifier::external_type_specification]
#[verifier::external_body]
#[verifier::reject_recursive_types(T)]
pub struct ExSender<T>(Sender<T>);

#[verifier::external_type_specification]
#[verifier::external_body]
#[verifier::reject_recursive_types(T)]
pub struct ExReceiver<T>(Receiver<T>);

#[verifier::external_type_specification]
#[verifier::external_body]
#[verifier::reject_recursive_types(T)]
pub struct ExSendError<T>(SendError<T>);

#[verifier::external_type_specification]
#[verifier::external_body]
pub struct ExRecvError(RecvError);

#[verifier::external_type_specification]
#[verifier::external_body]
pub struct ExTryRecvError(TryRecvError);

#[verifier::external_type_specification]
#[verifier::external_body]
pub struct ExRecvTimeoutError(RecvTimeoutError);

#[verifier::external_type_specification]
#[verifier::external_body]
#[verifier::reject_recursive_types(T)]
pub struct ExIter<'a, T: 'a>(Iter<'a, T>);

/// `Clone` of `Sender`: another handle on the same channel. Nothing is
/// claimed of the opaque handle.
pub assume_specification<T>[ <Sender<T> as Clone>::clone ](s: &Sender<T>) -> Sender<T>;

/// `SystemTime::now()`. Nothing is claimed: it is the clock.
#[verifier::external_body]
fn system_now() -> (r: SystemTime) {
    SystemTime::now()
}

/// `SystemTime::duration_since(UNIX_EPOCH)`: the time since the Unix epoch,
/// or an error for a time before it. Nothing is claimed of the opaque values.
#[verifier::external_body]
fn duration_since_epoch(t: SystemTime) -> (r: Result<Duration, SystemTimeError>) {
    t.duration_since(UNIX_EPOCH)
}

/// `Duration::default()`: zero. Nothing is claimed of the opaque duration.
#[verifier::external_body]
fn zero_duration() -> (r: Duration) {
    Duration::default()
}

/// The time since the Unix epoch, a time before it read as zero.
fn since_unix_epoch(t: SystemTime) -> Duration {
    match duration_since_epoch(t) {
        Ok(d) => d,
        Err(_) => zero_duration(),
    }
}

/// `Duration::as_secs`. Nothing is claimed of the opaque duration.
#[verifier::external_body]
fn duration_secs(d: Duration) -> (r: u64) {
    d.as_secs()
}

/// `Duration::subsec_nanos`: documented to be below one second.
#[verifier::external_body]
fn duration_subsec_nanos(d: Duration) -> (r: u32)
    ensures
        r < 1_000_000_000,
{
    d.subsec_nanos()
}

/// `std::sync::mpsc::channel`: the two ends of a new unbounded channel.
/// Nothing is claimed of the opaque ends.
#[verifier::external_body]
fn open_channel() -> (r: (Sender<CatastrophicEvent>, Receiver<CatastrophicEvent>)) {
    channel()
}

/// `Sender::send`. Whether it succeeds depends on the receiver still being
/// alive; nothing is claimed.
#[verifier::external_body]
fn channel_send(s: &Sender<CatastrophicEvent>, event: CatastrophicEvent) -> (r: Result<
    (),
    SendError<CatastrophicEvent>,
>) {
    s.send(event)
}

/// `Receiver::recv`: blocks until an event arrives or every sender is gone.
/// Nothing is claimed: the outcome depends on other threads.
#[verifier::external_body]
fn channel_recv(r: &Receiver<CatastrophicEvent>) -> (out: Result<CatastrophicEvent, RecvError>) {
    r.recv()
}

/// `Receiver::try_recv`: an event if one is waiting. Nothing is claimed.
#[verifier::external_body]
fn channel_try_recv(r: &Receiver<CatastrophicEvent>) -> (out: Result<
    CatastrophicEvent,
    TryRecvError,
>) {
    r.try_recv()
}

/// `Receiver::recv_timeout`. Nothing is claimed.
#[verifier::external_body]
fn channel_recv_timeout(r: &Receiver<CatastrophicEvent>, timeout: Duration) -> (out: Result<
    CatastrophicEvent,
    RecvTimeoutError,
>) {
    r.recv_timeout(timeout)
}

/// `Receiver::iter`: a blocking iterator over the events. Nothing is
/// claimed.
#[verifier::external_body]
fn channel_iter<'a>(r: &'a Receiver<CatastrophicEvent>) -> (out: Iter<'a, CatastrophicEvent>) {
    r.iter()
}

// ─── Events ─────────────────────────────────────────────────

/// A CATASTROPHIC hard-override event.
#[derive(Debug, Clone)]
pub struct CatastrophicEvent {
    /// Trigger time, Unix seconds.
    pub timestamp: u64,
    /// Nanosecond part of the trigger time.
    pub timestamp_nanos: u32,
    /// The four raw PFP bytes.
    pub pfp_bytes: [u8; 4],
    /// Seq-Counter of the SAP, if any.
    pub seq_counter: Option<u16>,
    /// Sensor context supplied by the caller.
    pub sensor_context: Option<Vec<u8>>,
    /// Origin of the event ("tuck", "anaphase", "manual", ...).
    pub source: String,
}

/// The bytes an event's hash covers: timestamp (8, little-endian), nanos (4,
/// little-endian), the PFP bytes, the Seq-Counter (2, little-endian; two zero
/// bytes without one), the sensor context if any, and the UTF-8 source.
pub open spec fn event_bytes(e: CatastrophicEvent) -> Seq<u8> {
    vstd::bytes::spec_u64_to_le_bytes(e.timestamp) + vstd::bytes::spec_u32_to_le_bytes(
        e.timestamp_nanos,
    ) + e.pfp_bytes@ + match e.seq_counter {
        Some(seq) => vstd::bytes::spec_u16_to_le_bytes(seq),
        None => seq![0u8, 0u8],
    } + match e.sensor_context {
        Some(ctx) => ctx@,
        None => Seq::<u8>::empty(),
    } + vstd::utf8::encode_utf8(e.source@)
}

impl CatastrophicEvent {
    /// A new event stamped with the current time (see `from_clock`).
    pub fn new(
        pfp_bytes: [u8; 4],
        seq_counter: Option<u16>,
        sensor_context: Option<Vec<u8>>,
        source: &str,
    ) -> (r: Self)
        ensures
            r.pfp_bytes == pfp_bytes,
            r.seq_counter == seq_counter,
            r.sensor_context == sensor_context,
            r.source@ == source@,
            r.timestamp_nanos < 1_000_000_000,
    {
        let now = since_unix_epoch(system_now());
        let secs = duration_secs(now);
        let nanos = duration_subsec_nanos(now);
        Self::from_clock(pfp_bytes, seq_counter, sensor_context, source, secs, nanos)
    }

    /// An event stamped with a clock reading of `secs` seconds and `nanos`
    /// nanoseconds since the Unix epoch.
    pub fn from_clock(
        pfp_bytes: [u8; 4],
        seq_counter: Option<u16>,
        sensor_context: Option<Vec<u8>>,
        source: &str,
        secs: u64,
        nanos: u32,
    ) -> (r: Self)
        ensures
            r.timestamp == secs,
            r.timestamp_nanos == nanos,
            r.pfp_bytes == pfp_bytes,
            r.seq_counter == seq_counter,
            r.sensor_context == sensor_context,
            r.source@ == source@,
    {
        CatastrophicEvent {
            timestamp: secs,
            timestamp_nanos: nanos,
            pfp_bytes,
            seq_counter,
            sensor_context,
            source: source.to_owned(),
        }
    }

    /// `self` holds the same values as `other`.
    pub open spec fn same_as(self, other: CatastrophicEvent) -> bool {
        &&& self.timestamp == other.timestamp
        &&& self.timestamp_nanos == other.timestamp_nanos
        &&& self.pfp_bytes == other.pfp_bytes
        &&& self.seq_counter == other.seq_counter
        &&& match (self.sensor_context, other.sensor_context) {
            (Some(a), Some(b)) => a@ == b@,
            (None, None) => true,
            _ => false,
        }
        &&& self.source@ == other.source@
    }

    /// A copy holding the same values.
    fn duplicate(&self) -> (r: Self)
        ensures
            r.same_as(*self),
    {
        let sensor_context = match &self.sensor_context {
            Some(ctx) => {
                let c = copy_range(ctx.as_slice(), 0, ctx.len());
                assert(c@ =~= ctx@);
                Some(c)
            },
            None => None,
        };
        CatastrophicEvent {
            timestamp: self.timestamp,
            timestamp_nanos: self.timestamp_nanos,
            pfp_bytes: self.pfp_bytes,
            seq_counter: self.seq_counter,
            sensor_context,
            source: self.source.as_str().to_owned(),
        }
    }

    /// SHA-256 of `event_bytes`, the link of the event into the audit chain.
    pub fn hash(&self) -> (r: [u8; 32])
        ensures
            r@ == sha256(event_bytes(*self)),
    {
        let mut data = vstd::bytes::u64_to_le_bytes(self.timestamp);
        let nanos = vstd::bytes::u32_to_le_bytes(self.timestamp_nanos);
        append_bytes(&mut data, nanos.as_slice());
        append_bytes(&mut data, &self.pfp_bytes);
        match self.seq_counter {
            Some(seq) => {
                let seq_bytes = vstd::bytes::u16_to_le_bytes(seq);
                append_bytes(&mut data, seq_bytes.as_slice());
            },
            None => {
                let zeros: [u8; 2] = [0u8, 0u8];
                append_bytes(&mut data, &zeros);
                assert(zeros@ =~= seq![0u8, 0u8]);
            },
        }
        let ghost with_seq = data@;
        match &self.sensor_context {
            Some(ctx) => append_bytes(&mut data, ctx.as_slice()),
            None => {
                assert(data@ =~= with_seq + Seq::<u8>::empty());
            },
        }
        append_bytes(&mut data, self.source.as_str().as_bytes());
        assert(data@ =~= event_bytes(*self));
        sha256_digest(data.as_slice())
    }
}

// ─── Audit log ──────────────────────────────────────────────

/// One audit record.
#[derive(Debug, Clone)]
pub struct AuditEntry {
    /// Record number (increasing).
    pub sequence: u64,
    /// The event recorded.
    pub event: CatastrophicEvent,
    /// Hash of the previous record (zero for the first).
    pub prev_hash: [u8; 32],
    /// SHA-256 of the sequence (8 bytes, little-endian), the event hash and
    /// `prev_hash`.
    pub hash: [u8; 32],
}

/// The bytes a record's hash covers.
pub open spec fn entry_bytes(sequence: u64, event: CatastrophicEvent, prev_hash: Seq<u8>) -> Seq<
    u8,
> {
    vstd::bytes::spec_u64_to_le_bytes(sequence) + sha256(event_bytes(event)) + prev_hash
}

/// The hash the start of a chain links to: 32 zero bytes.
pub open spec fn zero_hash() -> Seq<u8> {
    Seq::new(32, |i: int| 0u8)
}

/// The hash of a record made of these parts.
fn entry_digest(sequence: u64, event: &CatastrophicEvent, prev_hash: &[u8; 32]) -> (r: [u8; 32])
    ensures
        r@ == sha256(entry_bytes(sequence, *event, prev_hash@)),
{
    let mut data = vstd::bytes::u64_to_le_bytes(sequence);
    let event_hash = event.hash();
    append_bytes(&mut data, &event_hash);
    append_bytes(&mut data, prev_hash);
    sha256_digest(data.as_slice())
}

impl AuditEntry {
    /// The stored hash is the hash of the record's parts.
    pub open spec fn hash_ok(self) -> bool {
        self.hash@ == sha256(entry_bytes(self.sequence, self.event, self.prev_hash@))
    }

    /// `self` holds the same values as `other`.
    pub open spec fn same_as(self, other: AuditEntry) -> bool {
        &&& self.sequence == other.sequence
        &&& self.event.same_as(other.event)
        &&& self.prev_hash == other.prev_hash
        &&& self.hash == other.hash
    }

    /// A copy holding the same values.
    fn duplicate(&self) -> (r: Self)
        ensures
            r.same_as(*self),
    {
        AuditEntry {
            sequence: self.sequence,
            event: self.event.duplicate(),
            prev_hash: self.prev_hash,
            hash: self.hash,
        }
    }

    /// A record of `event` numbered `sequence`, linked to `prev_hash`.
    pub fn new(sequence: u64, event: CatastrophicEvent, prev_hash: [u8; 32]) -> (r: Self)
        ensures
            r.sequence == sequence,
            r.event == event,
            r.prev_hash == prev_hash,
            r.hash_ok(),
    {
        let hash = entry_digest(sequence, &event, &prev_hash);
        AuditEntry { sequence, event, prev_hash, hash }
    }

    /// The stored hash matches the record's parts.
    pub fn verify_hash(&self) -> (r: bool)
        ensures
            r == self.hash_ok(),
    {
        let computed = entry_digest(self.sequence, &self.event, &self.prev_hash);
        bytes_equal(&computed, &self.hash)
    }
}

/// Every record is intact and each links to the one before it (the first
/// may link anywhere).
#[verifier::opaque]
pub open spec fn intact(entries: Seq<AuditEntry>) -> bool {
    &&& forall|i: int| 0 <= i < entries.len() ==> #[trigger] entries[i].hash_ok()
    &&& forall|i: int|
        0 < i < entries.len() ==> (#[trigger] entries[i]).prev_hash@ == entries[i - 1].hash@
}

/// Appending an intact record that links to the last one keeps a sequence
/// intact.
proof fn lemma_intact_push(entries: Seq<AuditEntry>, e: AuditEntry)
    requires
        intact(entries),
        e.hash_ok(),
        entries.len() > 0 ==> e.prev_hash@ == entries.last().hash@,
    ensures
        intact(entries.push(e)),
{
    reveal(intact);
    let es = entries.push(e);
    assert forall|i: int| 0 < i < es.len() implies (#[trigger] es[i]).prev_hash@ == es[i
        - 1].hash@ by {
        if i < entries.len() {
            assert(es[i] == entries[i]);
        }
    }
}

/// Dropping the oldest record keeps a sequence intact.
proof fn lemma_intact_drop_first(entries: Seq<AuditEntry>)
    requires
        intact(entries),
        entries.len() > 0,
    ensures
        intact(entries.drop_first()),
{
    reveal(intact);
    let es = entries.drop_first();
    assert forall|i: int| 0 <= i < es.len() implies #[trigger] es[i].hash_ok() by {
        assert(es[i] == entries[i + 1]);
    }
    assert forall|i: int| 0 < i < es.len() implies (#[trigger] es[i]).prev_hash@ == es[i
        - 1].hash@ by {
        assert(es[i] == entries[i + 1]);
        assert(es[i - 1] == entries[i]);
    }
}

/// Record numbers go up by one from each record to the next, and the last
/// record's number is one below `next`.
#[verifier::opaque]
pub open spec fn numbered(entries: Seq<AuditEntry>, next: u64) -> bool {
    &&& forall|i: int|
        0 < i < entries.len() ==> (#[trigger] entries[i]).sequence == entries[i - 1].sequence + 1
    &&& entries.len() > 0 ==> entries.last().sequence + 1 == next
}

/// Appending the record numbered `next` keeps the numbering.
proof fn lemma_numbered_push(entries: Seq<AuditEntry>, next: u64, e: AuditEntry)
    requires
        numbered(entries, next),
        e.sequence == next,
        next < u64::MAX,
    ensures
        numbered(entries.push(e), (next + 1) as u64),
{
    reveal(numbered);
    let es = entries.push(e);
    assert forall|i: int| 0 < i < es.len() implies (#[trigger] es[i]).sequence == es[i
        - 1].sequence + 1 by {
        if i < entries.len() {
            assert(es[i] == entries[i]);
        }
    }
}

/// Dropping the oldest record keeps the numbering.
proof fn lemma_numbered_drop_first(entries: Seq<AuditEntry>, next: u64)
    requires
        numbered(entries, next),
        entries.len() > 1,
    ensures
        numbered(entries.drop_first(), next),
{
    reveal(numbered);
    let es = entries.drop_first();
    assert forall|i: int| 0 < i < es.len() implies (#[trigger] es[i]).sequence == es[i
        - 1].sequence + 1 by {
        assert(es[i] == entries[i + 1]);
        assert(es[i - 1] == entries[i]);
    }
}

/// One operation on an audit log: `append` or `clear`.
#[derive(Debug, Clone, Copy, PartialEq, Eq, Structural)]
pub enum AuditOp {
    Append,
    Clear,
}

/// Appends since the last clear (or since the start) in a history.
pub open spec fn appends_since_clear(ops: Seq<AuditOp>) -> nat
    decreases ops.len(),
{
    if ops.len() == 0 {
        0
    } else if ops.last() is Clear {
        0
    } else {
        appends_since_clear(ops.drop_last()) + 1
    }
}

/// All appends in a history.
pub open spec fn appends(ops: Seq<AuditOp>) -> nat
    decreases ops.len(),
{
    if ops.len() == 0 {
        0
    } else if ops.last() is Clear {
        appends(ops.drop_last())
    } else {
        appends(ops.drop_last()) + 1
    }
}

/// The CATASTROPHIC audit log: a hash chain of the most recent
/// `AUDIT_LOG_MAX_ENTRIES` records.
#[derive(Debug)]
pub struct CatastrophicAuditLog {
    entries: Vec<AuditEntry>,
    next_sequence: u64,
    last_hash: [u8; 32],
    total_triggers: u64,
}

impl CatastrophicAuditLog {
    /// The records kept, oldest first.
    pub closed spec fn entries_view(self) -> Seq<AuditEntry> {
        self.entries@
    }

    /// The number the next record gets.
    pub closed spec fn next_sequence_view(self) -> u64 {
        self.next_sequence
    }

    /// The hash the next record links to.
    pub closed spec fn last_hash_view(self) -> Seq<u8> {
        self.last_hash@
    }

    /// Every trigger ever recorded, rotated-out ones included.
    pub closed spec fn total_view(self) -> u64 {
        self.total_triggers
    }

    /// What `append` (for `Append`) or `clear` (for `Clear`) makes of
    /// `before`, as far as record numbers and the trigger count go.
    pub open spec fn step(before: Self, op: AuditOp, after: Self) -> bool {
        match op {
            AuditOp::Append => {
                &&& after.next_sequence_view() == before.next_sequence_view() + 1
                &&& after.total_view() == before.total_view() + 1
                &&& after.entries_view().len() >= 1
                &&& after.entries_view().last().sequence == before.next_sequence_view()
            },
            AuditOp::Clear => {
                &&& after.next_sequence_view() == 0
                &&& after.total_view() == before.total_view()
                &&& after.entries_view().len() == 0
            },
        }
    }

    /// The log's invariant: at most `AUDIT_LOG_MAX_ENTRIES` records, each
    /// intact and linked to the one before, the next link being the last
    /// record's hash (zero when empty), numbered one after another up to the
    /// next number.
    pub open spec fn wf(self) -> bool {
        &&& self.entries_view().len() <= AUDIT_LOG_MAX_ENTRIES
        &&& self.next_sequence_view() <= self.total_view()
        &&& self.last_hash_view() == if self.entries_view().len() == 0 {
            zero_hash()
        } else {
            self.entries_view().last().hash@
        }
        &&& intact(self.entries_view())
        &&& numbered(self.entries_view(), self.next_sequence_view())
    }

    /// An empty log, linked to zero.
    pub fn new() -> (r: Self)
        ensures
            r.wf(),
            r.entries_view().len() == 0,
            r.next_sequence_view() == 0,
            r.total_view() == 0,
    {
        let r = CatastrophicAuditLog {
            entries: Vec::new(),
            next_sequence: 0,
            last_hash: [0u8; 32],
            total_triggers: 0,
        };
        assert(r.last_hash_view() =~= zero_hash());
        proof {
            reveal(intact);
            reveal(numbered);
        }
        r
    }

    /// Appends a record of `event`, linked to the previous one; beyond
    /// `AUDIT_LOG_MAX_ENTRIES` records the oldest is dropped. Returns the new
    /// record. Below capacity a valid chain stays valid.
    pub fn append(&mut self, event: CatastrophicEvent) -> (r: &AuditEntry)
        requires
            old(self).wf(),
            old(self).total_view() < u64::MAX,
        ensures
            final(self).wf(),
            final(self).total_view() == old(self).total_view() + 1,
            final(self).next_sequence_view() == old(self).next_sequence_view() + 1,
            final(self).entries_view().len() >= 1,
            final(self).entries_view().drop_last() == (if old(self).entries_view().len()
                < AUDIT_LOG_MAX_ENTRIES {
                old(self).entries_view()
            } else {
                old(self).entries_view().drop_first()
            }),
            final(self).entries_view().last().sequence == old(self).next_sequence_view(),
            final(self).entries_view().last().event == event,
            final(self).entries_view().last().prev_hash@ == old(self).last_hash_view(),
            *r == final(self).entries_view().last(),
            Self::step(*old(self), AuditOp::Append, *final(self)),
    {
        let ghost old_entries = self.entries@;
        let entry = AuditEntry::new(self.next_sequence, event, self.last_hash);
        proof {
            lemma_intact_push(old_entries, entry);
            lemma_numbered_push(old_entries, self.next_sequence, entry);
        }
        self.last_hash = entry.hash;
        self.next_sequence = self.next_sequence + 1;
        self.total_triggers = self.total_triggers + 1;
        self.entries.push(entry);
        let ghost pushed = self.entries@;
        if self.entries.len() > AUDIT_LOG_MAX_ENTRIES {
            self.entries.remove(0);
            proof {
                lemma_intact_drop_first(pushed);
                lemma_numbered_drop_first(pushed, self.next_sequence);
            }
            assert(self.entries@ =~= pushed.drop_first());
            assert(self.entries@.drop_last() =~= old_entries.drop_first());
        } else {
            assert(self.entries@.drop_last() =~= old_entries);
        }
        let n = self.entries.len();
        &self.entries[n - 1]
    }

    /// The records kept, oldest first.
    pub fn entries(&self) -> (r: &[AuditEntry])
        ensures
            r@ == self.entries_view(),
    {
        self.entries.as_slice()
    }

    /// The most recent record, if any.
    pub fn last(&self) -> (r: Option<&AuditEntry>)
        ensures
            match r {
                Some(e) => self.entries_view().len() > 0 && *e == self.entries_view().last(),
                None => self.entries_view().len() == 0,
            },
    {
        let n = self.entries.len();
        if n == 0 {
            None
        } else {
            Some(&self.entries[n - 1])
        }
    }

    /// Every trigger recorded, rotated-out and cleared ones included.
    pub fn total_triggers(&self) -> (r: u64)
        ensures
            r == self.total_view(),
    {
        self.total_triggers
    }

    /// Every record's hash matches its parts and every record links to the
    /// one before it. A well-formed log, rotated or not, always verifies.
    pub fn verify_chain(&self) -> (r: bool)
        ensures
            r == intact(self.entries_view()),
            self.wf() ==> r,
    {
        reveal(intact);
        let mut i: usize = 0;
        while i < self.entries.len()
            invariant
                i <= self.entries@.len(),
                forall|j: int| 0 <= j < i ==> #[trigger] self.entries@[j].hash_ok(),
                forall|j: int|
                    0 < j < i ==> (#[trigger] self.entries@[j]).prev_hash@ == self.entries@[j
                        - 1].hash@,
            decreases self.entries@.len() - i,
        {
            let entry = &self.entries[i];
            if !entry.verify_hash() {
                reveal(intact);
                return false;
            }
            if i > 0 && !bytes_equal(&entry.prev_hash, &self.entries[i - 1].hash) {
                reveal(intact);
                return false;
            }
            i = i + 1;
        }
        true
    }

    /// Empties the log and restarts the chain at zero; the trigger count is
    /// kept.
    pub fn clear(&mut self)
        ensures
            final(self).wf(),
            final(self).entries_view().len() == 0,
            final(self).next_sequence_view() == 0,
            final(self).total_view() == old(self).total_view(),
            Self::step(*old(self), AuditOp::Clear, *final(self)),
    {
        self.entries.clear();
        self.next_sequence = 0;
        self.last_hash = [0u8; 32];
        assert(self.last_hash@ =~= zero_hash());
        proof {
            reveal(intact);
            reveal(numbered);
        }
    }

    /// Records `event` as the newest trigger, as `append` does, unless the log
    /// has already counted `u64::MAX` triggers, in which case it stays as it
    /// is. True when the record was made.
    pub fn record_trigger(&mut self, event: CatastrophicEvent) -> (r: bool)
        requires
            old(self).wf(),
        ensures
            final(self).wf(),
            r == (old(self).total_view() < u64::MAX),
            r ==> Self::step(*old(self), AuditOp::Append, *final(self)),
            r ==> final(self).entries_view().last().event == event,
            r ==> final(self).entries_view().last().prev_hash@ == old(self).last_hash_view(),
            !r ==> *final(self) == *old(self),
    {
        if self.total_triggers < u64::MAX {
            self.append(event);
            true
        } else {
            false
        }
    }
}

impl Default for CatastrophicAuditLog {
    fn default() -> (r: Self)
        ensures
            r.wf(),
            r.entries_view().len() == 0,
            r.next_sequence_view() == 0,
            r.total_view() == 0,
    {
        Self::new()
    }
}

/// Record numbering over any history: from a fresh log, after the
/// operations `ops` (each step as `append` or `clear` makes it), the next
/// record number is the number of appends since the last clear, the trigger
/// count is the number of all appends, and a record just appended carries the
/// number of appends before it since the last clear.
pub proof fn lemma_numbering_over_history(ops: Seq<AuditOp>, logs: Seq<CatastrophicAuditLog>)
    requires
        logs.len() == ops.len() + 1,
        logs[0].next_sequence_view() == 0,
        logs[0].total_view() == 0,
        forall|i: int|
            0 <= i < ops.len() ==> #[trigger] CatastrophicAuditLog::step(
                logs[i],
                ops[i],
                logs[i + 1],
            ),
    ensures
        logs.last().next_sequence_view() == appends_since_clear(ops),
        logs.last().total_view() == appends(ops),
        ops.len() > 0 && ops.last() is Append ==> logs.last().entries_view().last().sequence + 1
            == appends_since_clear(ops),
    decreases ops.len(),
{
    if ops.len() > 0 {
        let n = ops.len() - 1;
        let ops0 = ops.drop_last();
        let logs0 = logs.drop_last();
        assert forall|i: int| 0 <= i < ops0.len() implies #[trigger] CatastrophicAuditLog::step(
            logs0[i],
            ops0[i],
            logs0[i + 1],
        ) by {
            assert(CatastrophicAuditLog::step(logs[i], ops[i], logs[i + 1]));
        }
        lemma_numbering_over_history(ops0, logs0);
        assert(CatastrophicAuditLog::step(logs[n], ops[n], logs[n + 1]));
        assert(logs0.last() == logs[n]);
    }
}

// ─── Event bus ──────────────────────────────────────────────

/// `Arc::clone`: another pointer to the same allocation, hence the same
/// value.
#[verifier::external_body]
fn share_arc<T>(a: &Arc<T>) -> (r: Arc<T>)
    ensures
        r == *a,
{
    Arc::clone(a)
}

/// `Arc::strong_count`: how many `Arc` pointers to the allocation exist now.
/// Claimed: at least the caller's own. Beyond that nothing: other holders may
/// clone or drop theirs at any time.
#[verifier::external_body]
fn arc_strong_count<T>(a: &Arc<T>) -> (r: usize)
    ensures
        r >= 1,
{
    Arc::strong_count(a)
}

/// Sending side of the CATASTROPHIC event bus.
#[derive(Debug, Clone)]
pub struct CatastrophicEventBus {
    sender: Sender<CatastrophicEvent>,
    /// Held by every bus handle and by the receiving end.
    holders: Arc<()>,
    /// Held by every bus handle only.
    buses: Arc<()>,
}

impl CatastrophicEventBus {
    /// A new bus and its receiving end.
    pub fn new() -> (r: (Self, CatastrophicEventReceiver)) {
        let (sender, receiver) = open_channel();
        let holders = Arc::new(());
        let receiver_token = share_arc(&holders);
        (
            CatastrophicEventBus { sender, holders, buses: Arc::new(()) },
            CatastrophicEventReceiver { receiver, _token: receiver_token },
        )
    }

    /// Sends an event; fails (handing the event back) when the receiving end
    /// is gone.
    pub fn send(&self, event: CatastrophicEvent) -> (r: Result<(), SendError<CatastrophicEvent>>) {
        channel_send(&self.sender, event)
    }

    /// Whether the receiving end still exists (see `receivers_remain`). The
    /// counts are read at one moment: a receiver dropped, or a bus handle
    /// cloned, by another thread meanwhile is not seen, so nothing is
    /// promised of the answer, which rests on other holders.
    pub fn has_receivers(&self) -> (r: bool) {
        let holders = arc_strong_count(&self.holders);
        let buses = arc_strong_count(&self.buses);
        receivers_remain(holders, buses)
    }
}

/// Whether a receiver remains, from the two pointer counts: every bus handle
/// holds one pointer to each of two tokens and the receiving end one more to
/// the first, so the first has more holders than the second exactly while the
/// receiver lives.
pub fn receivers_remain(holders: usize, buses: usize) -> (r: bool)
    ensures
        r == (holders > buses),
{
    holders > buses
}

impl Default for CatastrophicEventBus {
    /// A bus whose receiving end is dropped at once.
    fn default() -> Self {
        let (sender, _) = open_channel();
        CatastrophicEventBus { sender, holders: Arc::new(()), buses: Arc::new(()) }
    }
}

/// Receiving side of the event bus; `recv` blocks until an event comes.
#[derive(Debug)]
pub struct CatastrophicEventReceiver {
    receiver: Receiver<CatastrophicEvent>,
    /// Keeps the bus's holder count one above its handle count while alive.
    _token: Arc<()>,
}

impl CatastrophicEventReceiver {
    /// Blocks for the next event; an error once every sender is gone.
    pub fn recv(&self) -> (r: Result<CatastrophicEvent, RecvError>) {
        channel_recv(&self.receiver)
    }

    /// The next event if one is waiting.
    pub fn try_recv(&self) -> (r: Result<CatastrophicEvent, TryRecvError>) {
        channel_try_recv(&self.receiver)
    }

    /// Blocks for the next event at most `timeout`.
    pub fn recv_timeout(&self, timeout: Duration) -> (r: Result<
        CatastrophicEvent,
        RecvTimeoutError,
    >) {
        channel_recv_timeout(&self.receiver, timeout)
    }

    /// A blocking iterator over the events, ending when the bus closes.
    pub fn iter(&self) -> (r: Iter<'_, CatastrophicEvent>) {
        channel_iter(&self.receiver)
    }
}

// ─── Manager ────────────────────────────────────────────────

/// The audit log kept behind the manager's lock is well formed.
pub struct AuditLogValid;

impl vstd::rwlock::RwLockPredicate<CatastrophicAuditLog> for AuditLogValid {
    open spec fn inv(self, v: CatastrophicAuditLog) -> bool {
        v.wf()
    }
}

/// Rule 1 on raw PFP bytes: risk level (byte 2, bits 2-3) CATASTROPHIC and
/// override flag (byte 3, bit 1) set, as the decoded header reads them.
pub open spec fn catastrophic_override_bytes(pfp_bytes: Seq<u8>) -> bool {
    let h = PfpHeader::read(pfp_bytes);
    h.risk_level == RiskLevel::Catastrophic && h.override_flag == OverrideFlag::HardOverride
}

/// `copy` holds, record by record, the same values as `entries`.
pub open spec fn copies_of(copy: Seq<AuditEntry>, entries: Seq<AuditEntry>) -> bool {
    &&& copy.len() == entries.len()
    &&& forall|i: int| 0 <= i < copy.len() ==> #[trigger] copy[i].same_as(entries[i])
}

/// Detection on raw bytes agrees with the header they encode: on the bytes
/// `PfpHeader::encode` writes for `h`, it reports exactly `h`'s rule 1.
pub proof fn lemma_detection_on_encoded_header(h: PfpHeader, bytes: Seq<u8>)
    requires
        h.wire(bytes),
    ensures
        catastrophic_override_bytes(bytes) == (h.risk_level == RiskLevel::Catastrophic
            && h.override_flag == OverrideFlag::HardOverride),
{
    lemma_pfp_decode_encode(h, bytes);
}

/// Detection, event bus and audit log together. Clones share the audit log.
pub struct CatastrophicManager {
    event_bus: CatastrophicEventBus,
    audit_log: Arc<vstd::rwlock::RwLock<CatastrophicAuditLog, AuditLogValid>>,
}

impl CatastrophicManager {
    /// The shared audit log is guarded by `AuditLogValid`.
    pub closed spec fn wf(self) -> bool {
        self.audit_log.pred() == AuditLogValid
    }

    /// The sending side of the event bus.
    pub closed spec fn bus(self) -> CatastrophicEventBus {
        self.event_bus
    }

    /// `self` and `other` hold the same shared audit log.
    pub closed spec fn shares_log_with(self, other: CatastrophicManager) -> bool {
        self.audit_log == other.audit_log
    }

    /// A manager with an empty audit log, and the bus's receiving end.
    pub fn new() -> (r: (Self, CatastrophicEventReceiver))
        ensures
            r.0.wf(),
    {
        let (event_bus, receiver) = CatastrophicEventBus::new();
        let log = vstd::rwlock::RwLock::new(CatastrophicAuditLog::new(), Ghost(AuditLogValid));
        (CatastrophicManager { event_bus, audit_log: Arc::new(log) }, receiver)
    }

    /// Rule 1 on the raw PFP bytes (only detects; see `handle_frame`).
    pub fn is_catastrophic_override(pfp_bytes: &[u8; 4]) -> (r: bool)
        ensures
            r == catastrophic_override_bytes(pfp_bytes@),
    {
        let risk_level: u8 = (pfp_bytes[2] >> 2u8) & 0b11u8;
        let override_flag: u8 = (pfp_bytes[3] >> 1u8) & 0b1u8;
        proof {
            let b2 = pfp_bytes@[2];
            assert(((b2 >> 2u8) & 3u8) & 3u8 == (b2 >> 2u8) & 3u8 && (b2 >> 2u8) & 3u8 <= 3u8)
                by (bit_vector);
        }
        risk_level == 3 && override_flag == 1
    }

    /// Detects rule 1 and, when it holds, sends an event on the bus and
    /// appends the same event to the audit log. True when the override was
    /// triggered. The event carries `pfp_bytes`, `seq_counter`,
    /// `sensor_context` and `source` as given, and the bus gets a copy of the
    /// very event that the log records. (A log that has counted `u64::MAX`
    /// triggers takes no further record.)
    pub fn handle_frame(
        &self,
        pfp_bytes: &[u8; 4],
        seq_counter: Option<u16>,
        sensor_context: Option<Vec<u8>>,
        source: &str,
    ) -> (r: bool)
        requires
            self.wf(),
        ensures
            r == catastrophic_override_bytes(pfp_bytes@),
    {
        if !Self::is_catastrophic_override(pfp_bytes) {
            return false;
        }
        let ghost context = sensor_context;
        let event = CatastrophicEvent::new(*pfp_bytes, seq_counter, sensor_context, source);
        let published = event.duplicate();
        let _ = self.event_bus.send(published);
        let (mut log, handle) = self.audit_log.acquire_write();
        let recorded = log.record_trigger(event);
        proof {
            if recorded {
                let kept = log.entries_view().last().event;
                assert(kept.pfp_bytes == *pfp_bytes);
                assert(kept.seq_counter == seq_counter);
                assert(kept.sensor_context == context);
                assert(kept.source@ == source@);
                assert(kept.same_as(published));
            }
        }
        handle.release_write(log);
        true
    }

    /// A copy of the audit records kept: record by record the records of the
    /// shared log as it stood when read, a well-formed log.
    pub fn audit_entries(&self) -> (r: Vec<AuditEntry>)
        requires
            self.wf(),
        ensures
            r@.len() <= AUDIT_LOG_MAX_ENTRIES,
            exists|log: CatastrophicAuditLog| #[trigger] log.wf() && copies_of(r@, log.entries_view()),
    {
        let handle = self.audit_log.acquire_read();
        let log = handle.borrow();
        let entries = log.entries();
        let mut out: Vec<AuditEntry> = Vec::new();
        let mut i: usize = 0;
        while i < entries.len()
            invariant
                i <= entries@.len(),
                entries@.len() <= AUDIT_LOG_MAX_ENTRIES,
                out@.len() == i,
                forall|j: int| 0 <= j < i ==> #[trigger] out@[j].same_as(entries@[j]),
            decreases entries@.len() - i,
        {
            out.push(entries[i].duplicate());
            i = i + 1;
        }
        assert(log.wf() && copies_of(out@, log.entries_view()));
        handle.release_read();
        out
    }

    /// Every trigger recorded so far (by this manager and its clones).
    pub fn total_triggers(&self) -> (r: u64)
        requires
            self.wf(),
        ensures
            exists|log: CatastrophicAuditLog| #[trigger] log.wf() && r == log.total_view(),
    {
        let handle = self.audit_log.acquire_read();
        let log = handle.borrow();
        let total = log.total_triggers();
        assert(log.wf() && total == log.total_view());
        handle.release_read();
        total
    }

    /// Whether the shared audit chain verifies: it always does, the shared
    /// log being well formed.
    pub fn verify_audit_chain(&self) -> (r: bool)
        requires
            self.wf(),
        ensures
            r,
    {
        let handle = self.audit_log.acquire_read();
        let valid = handle.borrow().verify_chain();
        handle.release_read();
        valid
    }

    /// The sending side of the bus.
    pub fn event_bus(&self) -> (r: &CatastrophicEventBus)
        ensures
            *r == self.bus(),
    {
        &self.event_bus
    }
}

impl Clone for CatastrophicManager {
    /// Another handle on the same bus and the same audit log.
    fn clone(&self) -> (r: Self)
        ensures
            r.shares_log_with(*self),
            self.wf() ==> r.wf(),
    {
        CatastrophicManager { event_bus: self.event_bus.clone(), audit_log: share_arc(&self.audit_log) }
    }
}

} // verus!
