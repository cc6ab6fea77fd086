//! Key rotation state machine (rule 7).
//!
//! - Trigger: Seq-Counter >= 65534.
//! - KEY_ROTATION frame type 0x07, KEY_ROTATION_ACK frame type 0x08.
//! - ACK timeout 100 ms, at most 3 retries.
//! - Fail-closed: after the retries are spent no data frames are sent until a
//!   manual reset.

use vstd::prelude::*;
use crate::buf::{append_bytes, copy_range};

verus! {

/// Seq-Counter value from which on a rotation is due.
pub const ROTATION_THRESHOLD: u16 = 65534;

/// ACK timeout in milliseconds.
pub const ACK_TIMEOUT_MILLIS: u64 = 100;

/// Retries after the first KEY_ROTATION before failing closed.
pub const MAX_RETRIES: u8 = 3;

/// Length of the nonce that opens a KEY_ROTATION payload (AES-GCM nonce).
pub const NONCE_SIZE: usize = 12;

/// KEY_ROTATION payload: `[nonce (12 bytes)] + [new key, encrypted (variable)]`.
#[derive(Debug, Clone, PartialEq, Eq)]
pub struct KeyRotationPayload {
    /// AES-GCM nonce.
    pub nonce: [u8; NONCE_SIZE],
    /// New session key, encrypted under the master key.
    pub new_key_encrypted: Vec<u8>,
}

/// Errors of the rotation state machine and of payload decoding.
#[derive(Debug, Clone, Copy, PartialEq, Eq, Structural)]
pub enum RotationError {
    /// Fewer bytes than the nonce.
    PayloadTooShort,
    /// A rotation can only start from Idle.
    NotInIdleState,
    /// An ACK outside Pending.
    UnexpectedAck,
    /// A manual reset outside Failed.
    NotInFailedState,
    /// Completing a rotation outside Rotated.
    NotInRotatedState,
}

impl RotationError {
    /// Human-readable description of the error.
    pub fn to_string(&self) -> (r: String)
        ensures
            r@ == (match self {
                RotationError::PayloadTooShort => "KEY_ROTATION payload too short (need 12 bytes nonce)"@,
                RotationError::NotInIdleState => "cannot start rotation: not in Idle state"@,
                RotationError::UnexpectedAck => "unexpected ACK: not in Pending state"@,
                RotationError::NotInFailedState => "cannot manual reset: not in Failed state"@,
                RotationError::NotInRotatedState => "cannot complete rotation: not in Rotated state"@,
            }),
    {
        match self {
            RotationError::PayloadTooShort => "KEY_ROTATION payload too short (need 12 bytes nonce)".to_owned(),
            RotationError::NotInIdleState => "cannot start rotation: not in Idle state".to_owned(),
            RotationError::UnexpectedAck => "unexpected ACK: not in Pending state".to_owned(),
            RotationError::NotInFailedState => "cannot manual reset: not in Failed state".to_owned(),
            RotationError::NotInRotatedState => "cannot complete rotation: not in Rotated state".to_owned(),
        }
    }
}

impl KeyRotationPayload {
    /// The bytes `encode` produces: nonce, then the encrypted key.
    pub open spec fn wire(self) -> Seq<u8> {
        self.nonce@ + self.new_key_encrypted@
    }

    /// `self` carries the same bytes as `other`.
    pub open spec fn same_as(self, other: KeyRotationPayload) -> bool {
        &&& self.nonce == other.nonce
        &&& self.new_key_encrypted@ == other.new_key_encrypted@
    }

    pub fn new(nonce: [u8; NONCE_SIZE], new_key_encrypted: Vec<u8>) -> (r: Self)
        ensures
            r == (KeyRotationPayload { nonce, new_key_encrypted }),
    {
        KeyRotationPayload { nonce, new_key_encrypted }
    }

    /// Nonce followed by the encrypted key.
    pub fn encode(&self) -> (r: Vec<u8>)
        ensures
            r@ == self.wire(),
    {
        let mut buf: Vec<u8> = Vec::new();
        append_bytes(&mut buf, &self.nonce);
        append_bytes(&mut buf, self.new_key_encrypted.as_slice());
        buf
    }

    /// Splits a payload into nonce and encrypted key.
    pub fn decode(buf: &[u8]) -> (r: Result<Self, RotationError>)
        ensures
            buf@.len() < NONCE_SIZE ==> r == Err::<Self, RotationError>(
                RotationError::PayloadTooShort,
            ),
            buf@.len() >= NONCE_SIZE ==> (r matches Ok(p) && p.nonce@ == buf@.subrange(0, 12)
                && p.new_key_encrypted@ == buf@.subrange(12, buf@.len() as int)),
    {
        if buf.len() < NONCE_SIZE {
            return Err(RotationError::PayloadTooShort);
        }
        let mut nonce = [0u8; NONCE_SIZE];
        let mut i: usize = 0;
        while i < NONCE_SIZE
            invariant
                i <= NONCE_SIZE,
                NONCE_SIZE <= buf@.len(),
                nonce@.len() == NONCE_SIZE,
                forall|j: int| 0 <= j < i ==> nonce@[j] == buf@[j],
            decreases NONCE_SIZE - i,
        {
            nonce[i] = buf[i];
            i = i + 1;
        }
        assert(nonce@ =~= buf@.subrange(0, 12));
        let new_key_encrypted = copy_range(buf, NONCE_SIZE, buf.len() - NONCE_SIZE);
        Ok(KeyRotationPayload { nonce, new_key_encrypted })
    }

    /// A copy carrying the same bytes.
    fn duplicate(&self) -> (r: Self)
        ensures
            r.same_as(*self),
    {
        let key = copy_range(self.new_key_encrypted.as_slice(), 0, self.new_key_encrypted.len());
        assert(key@ =~= self.new_key_encrypted@);
        KeyRotationPayload { nonce: self.nonce, new_key_encrypted: key }
    }
}

/// Decoding an encoded payload gives its nonce and key back.
pub proof fn lemma_payload_roundtrip(p: KeyRotationPayload, bytes: Seq<u8>)
    requires
        bytes == p.wire(),
    ensures
        bytes.len() >= NONCE_SIZE,
        bytes.subrange(0, 12) == p.nonce@,
        bytes.subrange(12, bytes.len() as int) == p.new_key_encrypted@,
{
    assert(bytes.subrange(0, 12) =~= p.nonce@);
    assert(bytes.subrange(12, bytes.len() as int) =~= p.new_key_encrypted@);
}

/// Rotation state.
#[derive(Debug, Clone, Copy, PartialEq, Eq, Structural)]
pub enum RotationState {
    /// No rotation in progress.
    Idle,
    /// KEY_ROTATION sent, waiting for the ACK.
    Pending {
        /// Retries so far (0 = first send).
        retries: u8,
    },
    /// ACK received, new key in place.
    Rotated,
    /// Retries spent (fail-closed).
    Failed,
}

/// Key rotation state machine.
#[derive(Debug, Clone)]
pub struct KeyRotationStateMachine {
    state: RotationState,
    /// The payload being rotated in (kept for retries while Pending).
    pending_payload: Option<KeyRotationPayload>,
}

/// Outcome of an ACK timeout.
#[derive(Debug, Clone)]
pub enum TimeoutResult {
    /// Send the payload again.
    Retry(KeyRotationPayload),
    /// Retries spent: the machine failed closed.
    Failed,
    /// Not waiting for an ACK: nothing to do.
    Ignored,
}

impl KeyRotationStateMachine {
    /// The payload is kept exactly while a rotation is pending, and the retry
    /// count never passes the limit.
    pub closed spec fn wf(self) -> bool {
        &&& (self.pending_payload is Some) == (self.state is Pending)
        &&& (self.state matches RotationState::Pending { retries } ==> retries <= MAX_RETRIES)
    }

    /// The current state.
    pub closed spec fn view_state(self) -> RotationState {
        self.state
    }

    /// The payload kept for retries.
    pub closed spec fn view_payload(self) -> Option<KeyRotationPayload> {
        self.pending_payload
    }

    /// Retries so far while pending, otherwise 0.
    pub open spec fn retries_of(s: RotationState) -> u8 {
        match s {
            RotationState::Pending { retries } => retries,
            _ => 0,
        }
    }

    /// The state after an ACK timeout.
    pub open spec fn after_timeout(s: RotationState) -> RotationState {
        match s {
            RotationState::Pending { retries } => if retries < MAX_RETRIES {
                RotationState::Pending { retries: (retries + 1) as u8 }
            } else {
                RotationState::Failed
            },
            other => other,
        }
    }

    /// The state after a rotation is started (only from Idle).
    pub open spec fn after_start(s: RotationState) -> RotationState {
        if s == RotationState::Idle {
            RotationState::Pending { retries: 0 }
        } else {
            s
        }
    }

    /// The state after an ACK (only while pending).
    pub open spec fn after_ack(s: RotationState) -> RotationState {
        if s is Pending {
            RotationState::Rotated
        } else {
            s
        }
    }

    /// The state after completing a rotation (only from Rotated).
    pub open spec fn after_complete(s: RotationState) -> RotationState {
        if s == RotationState::Rotated {
            RotationState::Idle
        } else {
            s
        }
    }

    /// The state after a manual reset (only from Failed).
    pub open spec fn after_reset(s: RotationState) -> RotationState {
        if s == RotationState::Failed {
            RotationState::Idle
        } else {
            s
        }
    }

    /// An Idle machine.
    pub fn new() -> (r: Self)
        ensures
            r.wf(),
            r.view_state() == RotationState::Idle,
            r.view_payload() is None,
    {
        KeyRotationStateMachine { state: RotationState::Idle, pending_payload: None }
    }

    /// The current state.
    pub fn state(&self) -> (r: RotationState)
        ensures
            r == self.view_state(),
    {
        self.state
    }

    /// A rotation is due: Idle and the counter at or past the threshold.
    pub fn should_rotate(&self, seq_counter: u16) -> (r: bool)
        ensures
            r == (self.view_state() == RotationState::Idle && seq_counter >= ROTATION_THRESHOLD),
    {
        self.state == RotationState::Idle && seq_counter >= ROTATION_THRESHOLD
    }

    /// Starts a rotation from Idle and hands back the payload to send in a
    /// KEY_ROTATION frame; refused outside Idle, with the machine unchanged.
    pub fn start_rotation(&mut self, payload: KeyRotationPayload) -> (r: Result<
        &KeyRotationPayload,
        RotationError,
    >)
        requires
            old(self).wf(),
        ensures
            final(self).wf(),
            final(self).view_state() == Self::after_start(old(self).view_state()),
            old(self).view_state() != RotationState::Idle ==> r == Err::<
                &KeyRotationPayload,
                RotationError,
            >(RotationError::NotInIdleState) && final(self).view_state() == old(self).view_state() && final(self).view_payload() == old(self).view_payload(),
            old(self).view_state() == RotationState::Idle ==> (r matches Ok(p) && *p == payload
                && final(self).view_state() == (RotationState::Pending { retries: 0 })
                && final(self).view_payload() == Some(payload)),
    {
        if self.state != RotationState::Idle {
            return Err(RotationError::NotInIdleState);
        }
        *self = KeyRotationStateMachine {
            state: RotationState::Pending { retries: 0 },
            pending_payload: Some(payload),
        };
        match &self.pending_payload {
            Some(p) => Ok(p),
            None => Err(RotationError::NotInIdleState),
        }
    }

    /// An ACK while pending completes the rotation; refused otherwise, with
    /// the machine unchanged.
    pub fn handle_ack(&mut self) -> (r: Result<(), RotationError>)
        requires
            old(self).wf(),
        ensures
            final(self).wf(),
            final(self).view_state() == Self::after_ack(old(self).view_state()),
            old(self).view_state() is Pending ==> r is Ok && final(self).view_state()
                == RotationState::Rotated && final(self).view_payload() is None,
            !(old(self).view_state() is Pending) ==> r == Err::<(), RotationError>(
                RotationError::UnexpectedAck,
            ) && final(self).view_state() == old(self).view_state() && final(self).view_payload()
                == old(self).view_payload(),
    {
        match self.state {
            RotationState::Pending { .. } => {
                *self = KeyRotationStateMachine {
                    state: RotationState::Rotated,
                    pending_payload: None,
                };
                Ok(())
            },
            _ => Err(RotationError::UnexpectedAck),
        }
    }

    /// An ACK timeout while pending: below the retry limit, count a retry and
    /// hand back the payload to resend; at the limit, fail closed. Outside
    /// Pending the timeout is ignored.
    pub fn handle_timeout(&mut self) -> (r: TimeoutResult)
        requires
            old(self).wf(),
        ensures
            final(self).wf(),
            final(self).view_state() == Self::after_timeout(old(self).view_state()),
            old(self).view_state() matches RotationState::Pending { retries } ==> (if retries
                < MAX_RETRIES {
                &&& final(self).view_state() == (RotationState::Pending { retries: (retries + 1) as u8 })
                &&& final(self).view_payload() == old(self).view_payload()
                &&& r matches TimeoutResult::Retry(p) && p.same_as(old(self).view_payload().unwrap())
            } else {
                &&& final(self).view_state() == RotationState::Failed
                &&& final(self).view_payload() is None
                &&& r is Failed
            }),
            !(old(self).view_state() is Pending) ==> r is Ignored && final(self).view_state()
                == old(self).view_state() && final(self).view_payload() == old(self).view_payload(),
    {
        match self.state {
            RotationState::Pending { retries } => {
                if retries < MAX_RETRIES {
                    let resend = match &self.pending_payload {
                        Some(p) => p.duplicate(),
                        None => {
                            return TimeoutResult::Ignored;
                        },
                    };
                    self.state = RotationState::Pending { retries: retries + 1 };
                    TimeoutResult::Retry(resend)
                } else {
                    *self = KeyRotationStateMachine {
                        state: RotationState::Failed,
                        pending_payload: None,
                    };
                    TimeoutResult::Failed
                }
            },
            _ => TimeoutResult::Ignored,
        }
    }

    /// Data frames may be sent unless the machine failed closed.
    pub fn can_send_data(&self) -> (r: bool)
        ensures
            r == (self.view_state() != RotationState::Failed),
    {
        self.state != RotationState::Failed
    }

    /// A rotation is pending.
    pub fn is_rotation_pending(&self) -> (r: bool)
        ensures
            r == (self.view_state() is Pending),
    {
        match self.state {
            RotationState::Pending { .. } => true,
            _ => false,
        }
    }

    /// Retries so far while pending, otherwise 0.
    pub fn retry_count(&self) -> (r: u8)
        requires
            self.wf(),
        ensures
            r == Self::retries_of(self.view_state()),
            r <= MAX_RETRIES,
    {
        match self.state {
            RotationState::Pending { retries } => retries,
            _ => 0,
        }
    }

    /// Manual reset from Failed back to Idle; refused otherwise, with the
    /// machine unchanged.
    pub fn manual_reset(&mut self) -> (r: Result<(), RotationError>)
        requires
            old(self).wf(),
        ensures
            final(self).wf(),
            final(self).view_state() == Self::after_reset(old(self).view_state()),
            old(self).view_state() == RotationState::Failed ==> r is Ok && final(self).view_state()
                == RotationState::Idle && final(self).view_payload() is None,
            old(self).view_state() != RotationState::Failed ==> r == Err::<(), RotationError>(
                RotationError::NotInFailedState,
            ) && final(self).view_state() == old(self).view_state() && final(self).view_payload()
                == old(self).view_payload(),
    {
        match self.state {
            RotationState::Failed => {
                *self = KeyRotationStateMachine { state: RotationState::Idle, pending_payload: None };
                Ok(())
            },
            _ => Err(RotationError::NotInFailedState),
        }
    }

    /// Completes a rotation: Rotated back to Idle; refused otherwise, with the
    /// machine unchanged.
    pub fn complete_rotation(&mut self) -> (r: Result<(), RotationError>)
        requires
            old(self).wf(),
        ensures
            final(self).wf(),
            final(self).view_state() == Self::after_complete(old(self).view_state()),
            old(self).view_state() == RotationState::Rotated ==> r is Ok && final(self).view_state() == RotationState::Idle && final(self).view_payload() == old(self).view_payload(),
            old(self).view_state() != RotationState::Rotated ==> r == Err::<(), RotationError>(
                RotationError::NotInRotatedState,
            ) && final(self).view_state() == old(self).view_state() && final(self).view_payload()
                == old(self).view_payload(),
    {
        match self.state {
            RotationState::Rotated => {
                self.state = RotationState::Idle;
                Ok(())
            },
            _ => Err(RotationError::NotInRotatedState),
        }
    }
}

/// Fail-closed: after the first KEY_ROTATION, three ACK timeouts each count
/// one more retry while pending, and the fourth fails the machine closed.
pub proof fn lemma_fail_closed_after_retries()
    ensures
        ({
            let s1 = KeyRotationStateMachine::after_timeout(RotationState::Pending { retries: 0 });
            let s2 = KeyRotationStateMachine::after_timeout(s1);
            let s3 = KeyRotationStateMachine::after_timeout(s2);
            let s4 = KeyRotationStateMachine::after_timeout(s3);
            &&& s1 == RotationState::Pending { retries: 1 }
            &&& s2 == RotationState::Pending { retries: 2 }
            &&& s3 == RotationState::Pending { retries: 3 }
            &&& s4 == RotationState::Failed
        }),
{
}

/// Once failed closed, the machine stays failed under a timeout, an ACK, a
/// start or a completion; only a manual reset brings it back to Idle.
pub proof fn lemma_failed_is_sticky(s: RotationState)
    requires
        s == RotationState::Failed,
    ensures
        KeyRotationStateMachine::after_timeout(s) == RotationState::Failed,
        KeyRotationStateMachine::after_ack(s) == RotationState::Failed,
        KeyRotationStateMachine::after_start(s) == RotationState::Failed,
        KeyRotationStateMachine::after_complete(s) == RotationState::Failed,
        KeyRotationStateMachine::after_reset(s) == RotationState::Idle,
{
}

/// A rotation that is acknowledged and completed brings the machine from Idle
/// back to Idle.
pub proof fn lemma_rotation_cycle()
    ensures
        KeyRotationStateMachine::after_complete(
            KeyRotationStateMachine::after_ack(
                KeyRotationStateMachine::after_start(RotationState::Idle),
            ),
        ) == RotationState::Idle,
{
}

impl Default for KeyRotationStateMachine {
    /// An Idle machine.
    fn default() -> (r: Self)
        ensures
            r.wf(),
            r.view_state() == RotationState::Idle,
            r.view_payload() is None,
    {
        Self::new()
    }
}

} // verus!
