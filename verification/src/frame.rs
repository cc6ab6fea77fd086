//! BIND-19 frames (v2.0 protocol family extension).
//!
//! ```text
//! [ 8-byte BIND-19 header ] + [ PFP 4 bytes (optional) ] + [ SAP 28 bytes (optional) ] + [ payload ]
//! ```
//!
//! Flags (header byte 2): 0x01 FIN, 0x02 CON, 0x04 SEC, 0x08 PFP-PRESENT,
//! 0x10 SAP-PRESENT; 0x20-0x80 reserved.
//!
//! A frame without PFP/SAP is a v1.0 frame.

use vstd::prelude::*;
use crate::bits::{be32, be_u32, lemma_be32_unique, lemma_u32_join, lemma_presence_flags, lemma_u32_split};
use crate::buf::{append_bytes, copy_range};
use crate::config::BindConfig;
use crate::pfp::{lemma_pfp_decode_encode, rule6_risk, PfpHeader, RiskLevel, PFP_SIZE};
use crate::sap::{SapHeader, SAP_PROTOCOL_ID, SAP_SIZE};

verus! {

/// Fixed header length in bytes.
pub const HEADER_SIZE: usize = 8;

/// Largest payload (64 MiB), an out-of-memory guard.
pub const MAX_PAYLOAD_SIZE: usize = 0x0400_0000;

/// FIN: final fragment (v1.0).
pub const FLAG_FIN: u8 = 0x01;

/// CON: human-in-the-loop consensus required (v1.0).
pub const FLAG_CON: u8 = 0x02;

/// SEC: payload encrypted at the frame layer (v1.0).
pub const FLAG_SEC: u8 = 0x04;

/// PFP-PRESENT: a PFP follows the header (v2.0).
pub const FLAG_PFP_PRESENT: u8 = 0x08;

/// SAP-PRESENT: a SAP follows the header or the PFP (v2.0).
pub const FLAG_SAP_PRESENT: u8 = 0x10;

/// BIND-19 frame type.
#[derive(Debug, Clone, Copy, PartialEq, Eq, Structural)]
pub enum FrameType {
    /// 0x01: data frame (INTENT-7 payload).
    Data,
    /// 0x02: heartbeat (empty payload).
    Heartbeat,
    /// 0x03: control signal (CANCEL / SUSPEND / RESUME).
    Control,
    /// 0x04: high-frequency incremental vector.
    Vector,
    /// 0x05: transport negotiation.
    Handshake,
    /// 0x06: transport-level error.
    Error,
    /// 0x07: key rotation control frame (v2.0).
    KeyRotation,
    /// 0x08: key rotation acknowledgement (v2.0).
    KeyRotationAck,
    /// Any other type byte (standard extensions or private range).
    Unknown(u8),
}

impl FrameType {
    /// The type byte on the wire.
    pub open spec fn code(self) -> u8 {
        match self {
            FrameType::Data => 0x01,
            FrameType::Heartbeat => 0x02,
            FrameType::Control => 0x03,
            FrameType::Vector => 0x04,
            FrameType::Handshake => 0x05,
            FrameType::Error => 0x06,
            FrameType::KeyRotation => 0x07,
            FrameType::KeyRotationAck => 0x08,
            FrameType::Unknown(b) => b,
        }
    }

    /// The frame type a type byte denotes.
    pub open spec fn of_code(b: u8) -> FrameType {
        if b == 0x01 {
            FrameType::Data
        } else if b == 0x02 {
            FrameType::Heartbeat
        } else if b == 0x03 {
            FrameType::Control
        } else if b == 0x04 {
            FrameType::Vector
        } else if b == 0x05 {
            FrameType::Handshake
        } else if b == 0x06 {
            FrameType::Error
        } else if b == 0x07 {
            FrameType::KeyRotation
        } else if b == 0x08 {
            FrameType::KeyRotationAck
        } else {
            FrameType::Unknown(b)
        }
    }

    /// `Unknown` is only used for bytes that name no known type.
    pub open spec fn is_canonical(self) -> bool {
        match self {
            FrameType::Unknown(b) => !(0x01 <= b <= 0x08),
            _ => true,
        }
    }

    pub fn from_byte(b: u8) -> (r: Self)
        ensures
            r == Self::of_code(b),
    {
        match b {
            0x01 => FrameType::Data,
            0x02 => FrameType::Heartbeat,
            0x03 => FrameType::Control,
            0x04 => FrameType::Vector,
            0x05 => FrameType::Handshake,
            0x06 => FrameType::Error,
            0x07 => FrameType::KeyRotation,
            0x08 => FrameType::KeyRotationAck,
            other => FrameType::Unknown(other),
        }
    }

    pub fn to_byte(self) -> (r: u8)
        ensures
            r == self.code(),
    {
        match self {
            FrameType::Data => 0x01,
            FrameType::Heartbeat => 0x02,
            FrameType::Control => 0x03,
            FrameType::Vector => 0x04,
            FrameType::Handshake => 0x05,
            FrameType::Error => 0x06,
            FrameType::KeyRotation => 0x07,
            FrameType::KeyRotationAck => 0x08,
            FrameType::Unknown(b) => b,
        }
    }
}

/// Every type byte survives `from_byte` then `to_byte`; a canonical frame type
/// survives `to_byte` then `from_byte`.
pub proof fn lemma_frame_type_codes(b: u8, t: FrameType)
    ensures
        FrameType::of_code(b).code() == b,
        FrameType::of_code(b).is_canonical(),
        t.is_canonical() ==> FrameType::of_code(t.code()) == t,
{
}

/// Any 8 bytes are given back by encoding the header read from them.
pub proof fn lemma_header_encode_decode(bytes: Seq<u8>, out: Seq<u8>)
    requires
        bytes.len() == HEADER_SIZE,
        BindHeader::read(bytes).wire(out),
    ensures
        out == bytes,
{
    let h = BindHeader::read(bytes);
    lemma_frame_type_codes(bytes[0], h.frame_type);
    lemma_u32_join(bytes[4], bytes[5], bytes[6], bytes[7]);
    lemma_be32_unique(out[4], out[5], out[6], out[7], bytes[4], bytes[5], bytes[6], bytes[7]);
    assert(out =~= bytes);
}

/// The documented frame-type bytes: Data 0x01, Heartbeat 0x02, Control 0x03,
/// Vector 0x04, Handshake 0x05, Error 0x06, KeyRotation 0x07,
/// KeyRotationAck 0x08; any other byte is carried as it is.
pub proof fn lemma_documented_frame_type_codes(b: u8)
    ensures
        FrameType::Data.code() == 0x01 && FrameType::Heartbeat.code() == 0x02
            && FrameType::Control.code() == 0x03 && FrameType::Vector.code() == 0x04
            && FrameType::Handshake.code() == 0x05 && FrameType::Error.code() == 0x06
            && FrameType::KeyRotation.code() == 0x07 && FrameType::KeyRotationAck.code() == 0x08,
        FrameType::Unknown(b).code() == b,
{
}

/// Layout of the eight bytes `BindHeader::encode` writes: type byte, channel,
/// flags, sequence id, then the payload length most significant byte first.
pub proof fn lemma_header_encode_layout(h: BindHeader, b: Seq<u8>)
    requires
        h.wire(b),
    ensures
        b.len() == 8,
        b[0] == h.frame_type.code(),
        b[1] == h.channel_id,
        b[2] == h.flags,
        b[3] == h.sequence_id,
        b[4] as int * 0x1000000 + b[5] as int * 0x10000 + b[6] as int * 0x100 + b[7] as int
            == h.payload_length,
{
}

/// What `BindHeader::decode` reads out of eight bytes: the type from byte 0,
/// channel, flags and sequence id from bytes 1-3, and the payload length from
/// bytes 4-7, most significant byte first.
pub proof fn lemma_header_decode_layout(b: Seq<u8>)
    requires
        b.len() == 8,
    ensures
        BindHeader::read(b).frame_type.code() == b[0],
        BindHeader::read(b).channel_id == b[1],
        BindHeader::read(b).flags == b[2],
        BindHeader::read(b).sequence_id == b[3],
        BindHeader::read(b).payload_length == b[4] as int * 0x1000000 + b[5] as int * 0x10000
            + b[6] as int * 0x100 + b[7] as int,
{
    lemma_frame_type_codes(b[0], BindHeader::read(b).frame_type);
    lemma_u32_join(b[4], b[5], b[6], b[7]);
}

/// Fixed 8-byte BIND-19 header.
#[derive(Debug, Clone, PartialEq, Eq, Structural)]
pub struct BindHeader {
    pub frame_type: FrameType,
    pub channel_id: u8,
    pub flags: u8,
    pub sequence_id: u8,
    /// Length of the payload only (PFP/SAP not included).
    pub payload_length: u32,
}

impl BindHeader {
    /// The 8 wire bytes that `encode` produces.
    pub open spec fn wire(self, bytes: Seq<u8>) -> bool {
        &&& bytes.len() == HEADER_SIZE
        &&& bytes[0] == self.frame_type.code()
        &&& bytes[1] == self.channel_id
        &&& bytes[2] == self.flags
        &&& bytes[3] == self.sequence_id
        &&& be32(bytes[4], bytes[5], bytes[6], bytes[7]) == self.payload_length as int
    }

    /// The header that `decode` reads out of 8 bytes.
    pub open spec fn read(bytes: Seq<u8>) -> BindHeader {
        BindHeader {
            frame_type: FrameType::of_code(bytes[0]),
            channel_id: bytes[1],
            flags: bytes[2],
            sequence_id: bytes[3],
            payload_length: be32(bytes[4], bytes[5], bytes[6], bytes[7]) as u32,
        }
    }

    /// The PFP-present flag is set.
    pub open spec fn pfp_flag(self) -> bool {
        self.flags & FLAG_PFP_PRESENT != 0
    }

    /// The SAP-present flag is set.
    pub open spec fn sap_flag(self) -> bool {
        self.flags & FLAG_SAP_PRESENT != 0
    }

    /// Bytes of PFP and SAP that follow the header.
    pub open spec fn ext_len(self) -> int {
        (if self.pfp_flag() { PFP_SIZE as int } else { 0 }) + (if self.sap_flag() {
            SAP_SIZE as int
        } else {
            0
        })
    }

    pub fn new(
        frame_type: FrameType,
        channel_id: u8,
        flags: u8,
        sequence_id: u8,
        payload_length: u32,
    ) -> (r: Self)
        ensures
            r == (BindHeader { frame_type, channel_id, flags, sequence_id, payload_length }),
    {
        BindHeader { frame_type, channel_id, flags, sequence_id, payload_length }
    }

    /// Encodes the header (payload length big-endian).
    pub fn encode(&self) -> (r: [u8; HEADER_SIZE])
        ensures
            self.wire(r@),
    {
        let len = self.payload_length;
        proof {
            lemma_u32_split(len);
        }
        [
            self.frame_type.to_byte(),
            self.channel_id,
            self.flags,
            self.sequence_id,
            (len >> 24u32) as u8,
            ((len >> 16u32) & 0xFFu32) as u8,
            ((len >> 8u32) & 0xFFu32) as u8,
            (len & 0xFFu32) as u8,
        ]
    }

    /// Decodes 8 bytes.
    pub fn decode(buf: &[u8; HEADER_SIZE]) -> (r: Self)
        ensures
            r == Self::read(buf@),
    {
        BindHeader {
            frame_type: FrameType::from_byte(buf[0]),
            channel_id: buf[1],
            flags: buf[2],
            sequence_id: buf[3],
            payload_length: be_u32(buf[4], buf[5], buf[6], buf[7]),
        }
    }

    /// PFP-PRESENT is set.
    pub fn has_pfp(&self) -> (r: bool)
        ensures
            r == self.pfp_flag(),
    {
        self.flags & FLAG_PFP_PRESENT != 0
    }

    /// SAP-PRESENT is set.
    pub fn has_sap(&self) -> (r: bool)
        ensures
            r == self.sap_flag(),
    {
        self.flags & FLAG_SAP_PRESENT != 0
    }

    /// FIN is set.
    pub fn is_fin(&self) -> (r: bool)
        ensures
            r == (self.flags & FLAG_FIN != 0),
    {
        self.flags & FLAG_FIN != 0
    }

    /// CON is set.
    pub fn is_con(&self) -> (r: bool)
        ensures
            r == (self.flags & FLAG_CON != 0),
    {
        self.flags & FLAG_CON != 0
    }

    /// SEC is set.
    pub fn is_sec(&self) -> (r: bool)
        ensures
            r == (self.flags & FLAG_SEC != 0),
    {
        self.flags & FLAG_SEC != 0
    }

    /// Total length of the PFP and SAP layers that the flags announce.
    pub fn extension_length(&self) -> (r: usize)
        ensures
            r == self.ext_len(),
    {
        let mut len: usize = 0;
        if self.has_pfp() {
            len += PFP_SIZE;
        }
        if self.has_sap() {
            len += SAP_SIZE;
        }
        len
    }

    /// Header plus extension layers plus payload.
    pub fn total_frame_length(&self) -> (r: usize)
        requires
            HEADER_SIZE + PFP_SIZE + SAP_SIZE + self.payload_length <= usize::MAX,
        ensures
            r == HEADER_SIZE + self.ext_len() + self.payload_length,
    {
        HEADER_SIZE + self.extension_length() + self.payload_length as usize
    }
}

/// Errors of frame construction and decoding.
#[derive(Debug, Clone, Copy, PartialEq, Eq, Structural)]
pub enum FrameError {
    /// Fewer than 8 bytes.
    IncompleteHeader,
    /// Fewer bytes than the header announces.
    IncompleteFrame,
    /// Payload over the 64 MiB limit.
    BufferOverflow,
    /// A SAP cannot stand without a PFP.
    SapWithoutPfp,
    /// PFP magic is not 0xCF14.
    InvalidPfpMagic,
    /// SAP magic is not 0xCF14.
    InvalidSapMagic,
    /// SAP protocol id is not 0x01.
    InvalidSapProtocolId,
}

impl FrameError {
    /// Human-readable description of the error.
    pub fn to_string(&self) -> (r: String)
        ensures
            r@ == (match self {
                FrameError::IncompleteHeader => "incomplete BIND-19 header (need 8 bytes)"@,
                FrameError::IncompleteFrame => "incomplete BIND-19 frame"@,
                FrameError::BufferOverflow => "payload exceeds 64MB hard limit"@,
                FrameError::SapWithoutPfp => "SAP cannot exist without PFP"@,
                FrameError::InvalidPfpMagic => "invalid PFP family magic (expected 0xCF14)"@,
                FrameError::InvalidSapMagic => "invalid SAP family magic (expected 0xCF14)"@,
                FrameError::InvalidSapProtocolId => "invalid SAP protocol ID (expected 0x01)"@,
            }),
    {
        match self {
            FrameError::IncompleteHeader => "incomplete BIND-19 header (need 8 bytes)".to_owned(),
            FrameError::IncompleteFrame => "incomplete BIND-19 frame".to_owned(),
            FrameError::BufferOverflow => "payload exceeds 64MB hard limit".to_owned(),
            FrameError::SapWithoutPfp => "SAP cannot exist without PFP".to_owned(),
            FrameError::InvalidPfpMagic => "invalid PFP family magic (expected 0xCF14)".to_owned(),
            FrameError::InvalidSapMagic => "invalid SAP family magic (expected 0xCF14)".to_owned(),
            FrameError::InvalidSapProtocolId => "invalid SAP protocol ID (expected 0x01)".to_owned(),
        }
    }
}

/// Full BIND-19 frame with optional PFP and SAP layers.
#[derive(Debug, Clone, PartialEq, Eq)]
pub struct BindFrame {
    pub header: BindHeader,
    /// Physical feature layer (announced by FLAG_PFP_PRESENT).
    pub pfp: Option<PfpHeader>,
    /// Security attestation layer (announced by FLAG_SAP_PRESENT).
    pub sap: Option<SapHeader>,
    pub payload: Vec<u8>,
}

/// The error `BindFrame::decode` reports for `bytes`, if any, checked in this
/// order: short header; announced payload over the 64 MiB cap (whatever the
/// buffer holds); buffer shorter than announced; PFP magic; SAP magic; SAP
/// protocol id; and last, a SAP announced without a PFP, which is never
/// decoded.
pub open spec fn decode_error(bytes: Seq<u8>) -> Option<FrameError> {
    if bytes.len() < HEADER_SIZE {
        Some(FrameError::IncompleteHeader)
    } else {
        let h = BindHeader::read(bytes.subrange(0, 8));
        let sap_at = HEADER_SIZE + (if h.pfp_flag() { PFP_SIZE as int } else { 0 });
        if h.payload_length > MAX_PAYLOAD_SIZE {
            Some(FrameError::BufferOverflow)
        } else if bytes.len() < HEADER_SIZE + h.ext_len() + h.payload_length {
            Some(FrameError::IncompleteFrame)
        } else if h.pfp_flag() && !PfpHeader::has_magic(bytes.subrange(8, 12)) {
            Some(FrameError::InvalidPfpMagic)
        } else if h.sap_flag() && !SapHeader::has_magic(bytes.subrange(sap_at, sap_at + 28)) {
            Some(FrameError::InvalidSapMagic)
        } else if h.sap_flag() && bytes[sap_at + 2] != SAP_PROTOCOL_ID {
            Some(FrameError::InvalidSapProtocolId)
        } else if h.sap_flag() && !h.pfp_flag() {
            Some(FrameError::SapWithoutPfp)
        } else {
            None
        }
    }
}

impl BindFrame {
    /// Bytes taken by the PFP layer.
    pub open spec fn pfp_len(self) -> int {
        if self.pfp is Some { PFP_SIZE as int } else { 0 }
    }

    /// Bytes taken by the SAP layer.
    pub open spec fn sap_len(self) -> int {
        if self.sap is Some { SAP_SIZE as int } else { 0 }
    }

    /// `bytes` is what `encode` produces: header, then the PFP and SAP that
    /// are present, then the payload.
    pub open spec fn encoded_as(self, bytes: Seq<u8>) -> bool {
        let sap_at = HEADER_SIZE + self.pfp_len();
        let payload_at = sap_at + self.sap_len();
        &&& bytes.len() == payload_at + self.payload@.len()
        &&& self.header.wire(bytes.subrange(0, 8))
        &&& (self.pfp matches Some(p) ==> p.wire(bytes.subrange(8, 12)))
        &&& (self.sap matches Some(s) ==> s.wire(bytes.subrange(sap_at, sap_at + 28)))
        &&& bytes.subrange(payload_at, bytes.len() as int) == self.payload@
    }

    /// `self` is what `decode` reads out of `bytes` (when no error is due).
    pub open spec fn decoded_from(self, bytes: Seq<u8>) -> bool {
        let h = BindHeader::read(bytes.subrange(0, 8));
        let sap_at = HEADER_SIZE + (if h.pfp_flag() { PFP_SIZE as int } else { 0 });
        let payload_at = HEADER_SIZE + h.ext_len();
        &&& self.header == h
        &&& self.pfp == (if h.pfp_flag() {
            Some(PfpHeader::read(bytes.subrange(8, 12)))
        } else {
            None
        })
        &&& (h.sap_flag() ==> (self.sap matches Some(s) && s.reads(
            bytes.subrange(sap_at, sap_at + 28),
        )))
        &&& (!h.sap_flag() ==> self.sap is None)
        &&& self.payload@ == bytes.subrange(payload_at, payload_at + h.payload_length)
    }

    /// A frame as `new` builds it: the flags announce exactly the layers
    /// present, a SAP only with a PFP, the length field is the payload length,
    /// the payload is within bounds, the reserved bits of PFP and SAP are
    /// clear and the frame type is canonical.
    pub open spec fn well_formed(self) -> bool {
        &&& self.header.pfp_flag() == (self.pfp is Some)
        &&& self.header.sap_flag() == (self.sap is Some)
        &&& (self.sap is Some ==> self.pfp is Some)
        &&& self.header.payload_length == self.payload@.len()
        &&& self.payload@.len() <= MAX_PAYLOAD_SIZE
        &&& self.header.frame_type.is_canonical()
        &&& (self.pfp matches Some(p) ==> p.reserved == 0)
        &&& (self.sap matches Some(s) ==> s.sap_version < 16)
    }

    /// A v2.0 frame with optional PFP and SAP; the flags announce the layers
    /// present and the length field is set from the payload.
    pub fn new(
        frame_type: FrameType,
        channel_id: u8,
        sequence_id: u8,
        pfp: Option<PfpHeader>,
        sap: Option<SapHeader>,
        payload: Vec<u8>,
    ) -> (r: Result<Self, FrameError>)
        ensures
            payload@.len() > MAX_PAYLOAD_SIZE ==> r == Err::<Self, FrameError>(
                FrameError::BufferOverflow,
            ),
            payload@.len() <= MAX_PAYLOAD_SIZE && sap is Some && pfp is None ==> r == Err::<
                Self,
                FrameError,
            >(FrameError::SapWithoutPfp),
            payload@.len() <= MAX_PAYLOAD_SIZE && !(sap is Some && pfp is None) ==> (r matches Ok(
                f,
            ) && f.header == (BindHeader {
                frame_type,
                channel_id,
                flags: ((if pfp is Some { FLAG_PFP_PRESENT as int } else { 0 }) + (if sap is Some {
                    FLAG_SAP_PRESENT as int
                } else {
                    0
                })) as u8,
                sequence_id,
                payload_length: payload@.len() as u32,
            }) && f.pfp == pfp && f.sap == sap && f.payload@ == payload@),
    {
        if payload.len() > MAX_PAYLOAD_SIZE {
            return Err(FrameError::BufferOverflow);
        }
        if sap.is_some() && pfp.is_none() {
            return Err(FrameError::SapWithoutPfp);
        }
        let mut flags: u8 = 0;
        if pfp.is_some() {
            flags = flags | FLAG_PFP_PRESENT;
        }
        if sap.is_some() {
            flags = flags | FLAG_SAP_PRESENT;
        }
        proof {
            lemma_presence_flags(pfp is Some, sap is Some);
        }
        let header = BindHeader::new(frame_type, channel_id, flags, sequence_id, payload.len() as u32);
        Ok(BindFrame { header, pfp, sap, payload })
    }

    /// A v1.0 frame (no PFP, no SAP).
    pub fn new_v1(frame_type: FrameType, channel_id: u8, sequence_id: u8, payload: Vec<u8>) -> (r:
        Result<Self, FrameError>)
        ensures
            payload@.len() > MAX_PAYLOAD_SIZE ==> r == Err::<Self, FrameError>(
                FrameError::BufferOverflow,
            ),
            payload@.len() <= MAX_PAYLOAD_SIZE ==> (r matches Ok(f) && f.header == (BindHeader {
                frame_type,
                channel_id,
                flags: 0,
                sequence_id,
                payload_length: payload@.len() as u32,
            }) && f.pfp is None && f.sap is None && f.payload@ == payload@),
    {
        Self::new(frame_type, channel_id, sequence_id, None, None, payload)
    }

    /// Encodes header, PFP (if present), SAP (if present) and payload.
    pub fn encode(&self) -> (r: Vec<u8>)
        ensures
            self.encoded_as(r@),
    {
        let mut buf: Vec<u8> = Vec::new();
        let header_bytes = self.header.encode();
        append_bytes(&mut buf, &header_bytes);
        assert(buf@ =~= header_bytes@);
        if let Some(pfp) = &self.pfp {
            let pfp_bytes = pfp.encode();
            append_bytes(&mut buf, &pfp_bytes);
            assert(buf@.subrange(8, 12) =~= pfp_bytes@);
        }
        let ghost after_pfp = buf@;
        assert(after_pfp.subrange(0, 8) =~= header_bytes@);
        if let Some(sap) = &self.sap {
            let sap_bytes = sap.encode();
            append_bytes(&mut buf, &sap_bytes);
            assert(buf@.subrange(after_pfp.len() as int, after_pfp.len() as int + 28) =~= sap_bytes@);
        }
        let ghost after_sap = buf@;
        append_bytes(&mut buf, self.payload.as_slice());
        proof {
            let sap_at = HEADER_SIZE + self.pfp_len();
            let payload_at = sap_at + self.sap_len();
            assert(after_pfp.len() == sap_at);
            assert(after_sap.len() == payload_at);
            assert(buf@.subrange(0, 8) =~= after_pfp.subrange(0, 8));
            assert(buf@.subrange(payload_at, buf@.len() as int) =~= self.payload@);
            if self.pfp is Some {
                assert(buf@.subrange(8, 12) =~= after_pfp.subrange(8, 12));
                assert(after_sap.subrange(8, 12) =~= after_pfp.subrange(8, 12));
            }
            if self.sap is Some {
                assert(buf@.subrange(sap_at, sap_at + 28) =~= after_sap.subrange(sap_at, sap_at + 28));
            }
        }
        buf
    }

    /// Decodes a full frame, checking length, payload bound and the magic and
    /// protocol id of the layers present.
    pub fn decode(buf: &[u8]) -> (r: Result<Self, FrameError>)
        ensures
            match r {
                Ok(f) => decode_error(buf@) is None && f.decoded_from(buf@),
                Err(e) => decode_error(buf@) == Some(e),
            },
    {
        if buf.len() < HEADER_SIZE {
            return Err(FrameError::IncompleteHeader);
        }
        let header_bytes: [u8; HEADER_SIZE] = [
            buf[0],
            buf[1],
            buf[2],
            buf[3],
            buf[4],
            buf[5],
            buf[6],
            buf[7],
        ];
        assert(header_bytes@ =~= buf@.subrange(0, 8));
        let header = BindHeader::decode(&header_bytes);
        let ext_len = header.extension_length();
        if header.payload_length as u64 > MAX_PAYLOAD_SIZE as u64 {
            return Err(FrameError::BufferOverflow);
        }
        let total_needed: u64 = HEADER_SIZE as u64 + ext_len as u64 + header.payload_length as u64;
        if (buf.len() as u64) < total_needed {
            return Err(FrameError::IncompleteFrame);
        }
        let mut offset: usize = HEADER_SIZE;
        let pfp = if header.has_pfp() {
            let pfp_bytes: [u8; PFP_SIZE] = [
                buf[offset],
                buf[offset + 1],
                buf[offset + 2],
                buf[offset + 3],
            ];
            assert(pfp_bytes@ =~= buf@.subrange(8, 12));
            if !PfpHeader::verify_magic(&pfp_bytes) {
                return Err(FrameError::InvalidPfpMagic);
            }
            offset += PFP_SIZE;
            Some(PfpHeader::decode(&pfp_bytes))
        } else {
            None
        };
        let sap = if header.has_sap() {
            let mut sap_bytes = [0u8; SAP_SIZE];
            let mut i: usize = 0;
            while i < SAP_SIZE
                invariant
                    i <= SAP_SIZE,
                    sap_bytes@.len() == SAP_SIZE,
                    offset + SAP_SIZE <= buf.len(),
                    forall|j: int| 0 <= j < i ==> sap_bytes@[j] == buf@[offset + j],
                decreases SAP_SIZE - i,
            {
                sap_bytes[i] = buf[offset + i];
                i = i + 1;
            }
            assert(sap_bytes@ =~= buf@.subrange(offset as int, offset + 28));
            if !SapHeader::verify_magic(&sap_bytes) {
                return Err(FrameError::InvalidSapMagic);
            }
            if !SapHeader::verify_protocol_id(&sap_bytes) {
                return Err(FrameError::InvalidSapProtocolId);
            }
            offset += SAP_SIZE;
            Some(SapHeader::decode(&sap_bytes))
        } else {
            None
        };
        if sap.is_some() && pfp.is_none() {
            return Err(FrameError::SapWithoutPfp);
        }
        let payload = copy_range(buf, offset, header.payload_length as usize);
        Ok(BindFrame { header, pfp, sap, payload })
    }

    /// No PFP and no SAP (a v1.0 frame).
    pub fn is_v1_compatible(&self) -> (r: bool)
        ensures
            r == (self.pfp is None && self.sap is None),
    {
        self.pfp.is_none() && self.sap.is_none()
    }

    /// The effective risk level under `config`: none without a PFP; rule 6
    /// applied in production mode, the declared level in debug mode.
    pub fn effective_risk_level_with_config(&self, config: &BindConfig) -> (r: Option<RiskLevel>)
        ensures
            r == (match self.pfp {
                None => None,
                Some(p) => Some(
                    if config.debug_mode {
                        p.risk_level
                    } else {
                        rule6_risk(p.risk_level, p.replay_enable)
                    },
                ),
            }),
    {
        match &self.pfp {
            None => None,
            Some(pfp) => {
                if config.rule6_enabled() {
                    Some(pfp.effective_risk_level())
                } else {
                    Some(pfp.risk_level)
                }
            },
        }
    }

    /// Rule 1 on the PFP; false without a PFP. Debug mode does not affect it.
    pub fn is_catastrophic_override(&self) -> (r: bool)
        ensures
            r == (match self.pfp {
                Some(p) => p.risk_level == RiskLevel::Catastrophic && p.override_flag
                    == crate::pfp::OverrideFlag::HardOverride,
                None => false,
            }),
    {
        match &self.pfp {
            Some(pfp) => pfp.is_catastrophic_override(),
            None => false,
        }
    }

    /// Replay-Enable is 0 (the rule 6 trigger); false without a PFP.
    pub fn is_replay_disabled(&self) -> (r: bool)
        ensures
            r == (match self.pfp {
                Some(p) => !p.replay_enable,
                None => false,
            }),
    {
        match &self.pfp {
            Some(pfp) => !pfp.replay_enable,
            None => false,
        }
    }
}

/// Decoding the encoding of a well-formed frame reports no error and reads
/// the frame back.
pub proof fn lemma_frame_decode_encode(f: BindFrame, bytes: Seq<u8>)
    requires
        f.well_formed(),
        f.encoded_as(bytes),
    ensures
        decode_error(bytes) is None,
        f.decoded_from(bytes),
{
    let hb = bytes.subrange(0, 8);
    lemma_frame_type_codes(hb[0], f.header.frame_type);
    assert(BindHeader::read(hb) == f.header);
    let sap_at = HEADER_SIZE + f.pfp_len();
    if let Some(p) = f.pfp {
        lemma_pfp_decode_encode(p, bytes.subrange(8, 12));
    }
    if let Some(s) = f.sap {
        let sb = bytes.subrange(sap_at, sap_at + 28);
        assert(s.reads(sb));
        assert(bytes[sap_at + 2] == sb[2]);
    }
}

/// The frame that `decode` reads from the encoding of a well-formed frame is
/// that frame: same header, PFP and SAP, same payload bytes.
pub proof fn lemma_frame_roundtrip(f: BindFrame, bytes: Seq<u8>, g: BindFrame)
    requires
        f.well_formed(),
        f.encoded_as(bytes),
        g.decoded_from(bytes),
    ensures
        decode_error(bytes) is None,
        g.header == f.header,
        g.pfp == f.pfp,
        g.sap == f.sap,
        g.payload@ == f.payload@,
{
    lemma_frame_decode_encode(f, bytes);
    if let Some(s) = f.sap {
        let gs = g.sap.unwrap();
        assert(gs.pah_hash =~= s.pah_hash);
        assert(gs.pah_signature =~= s.pah_signature);
    }
}

} // verus!
