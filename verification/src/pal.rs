//! Physical Anchor Layer (PAL) — 24-byte fixed-offset header.
//!
//! Layout (network byte order):
//! ```text
//! Byte 0:     bit 0-1 Modality | bit 2-3 Risk-Level | bit 4-5 Body-Stance | bit 6-7 Proximity-Edge
//! Byte 1:     bit 0 Output-Dest | bit 1 Override-Flag | bit 2-5 PAL-Version | bit 6 Replay-Enable
//!             | bit 7 Reserved (0)
//! Byte 2-15:  Physical-Context-Hash (112 bits)
//! Byte 16-23: PAH-Signature (64 bits)
//! ```

use vstd::prelude::*;
use crate::bits::{
    lemma_edge_fields,
    byte_of_pairs, field, lemma_and3, lemma_byte_from_pairs, lemma_low_pair, lemma_pack_pairs,
    lemma_pair_idempotent, lemma_pal_control_byte, lemma_pal_control_tests,
    lemma_pal_control_unique,
};

verus! {

/// PAL length in bytes.
pub const PAL_SIZE: usize = 24;

/// Physical-Context-Hash length in bytes (112 bits).
pub const PAH_SIZE: usize = 14;

/// PAH-Signature length in bytes (64 bits).
pub const SIG_SIZE: usize = 8;

/// Current PAL version (v2.0 = 0001).
pub const PAL_VERSION: u8 = 0b0001;

/// Operating modality (control bits 0-1).
#[derive(Debug, Clone, Copy, PartialEq, Eq, Structural)]
pub enum Modality {
    Cognitive,
    Render,
    Executive,
    SensorFeed,
}

impl Modality {
    /// The 2-bit code of the variant.
    pub open spec fn code(self) -> u8 {
        match self {
            Modality::Cognitive => 0,
            Modality::Render => 1,
            Modality::Executive => 2,
            Modality::SensorFeed => 3,
        }
    }

    /// The variant selected by the low two bits of `bits`.
    pub open spec fn of_code(bits: u8) -> Modality {
        let b = bits & 3;
        if b == 0 {
            Modality::Cognitive
        } else if b == 1 {
            Modality::Render
        } else if b == 2 {
            Modality::Executive
        } else {
            Modality::SensorFeed
        }
    }

    pub fn from_bits(bits: u8) -> (r: Self)
        ensures
            r == Self::of_code(bits),
    {
        match bits & 0b11 {
            0 => Modality::Cognitive,
            1 => Modality::Render,
            2 => Modality::Executive,
            _ => Modality::SensorFeed,
        }
    }

    pub fn to_bits(self) -> (r: u8)
        ensures
            r == self.code(),
            r < 4,
    {
        match self {
            Modality::Cognitive => 0,
            Modality::Render => 1,
            Modality::Executive => 2,
            Modality::SensorFeed => 3,
        }
    }
}

/// Risk level (control bits 2-3).
#[derive(Debug, Clone, Copy, PartialEq, Eq, PartialOrd, Ord, Structural)]
pub enum RiskLevel {
    Low,
    Medium,
    Critical,
    Catastrophic,
}

impl RiskLevel {
    /// The 2-bit code of the variant.
    pub open spec fn code(self) -> u8 {
        match self {
            RiskLevel::Low => 0,
            RiskLevel::Medium => 1,
            RiskLevel::Critical => 2,
            RiskLevel::Catastrophic => 3,
        }
    }

    /// The variant selected by the low two bits of `bits`.
    pub open spec fn of_code(bits: u8) -> RiskLevel {
        let b = bits & 3;
        if b == 0 {
            RiskLevel::Low
        } else if b == 1 {
            RiskLevel::Medium
        } else if b == 2 {
            RiskLevel::Critical
        } else {
            RiskLevel::Catastrophic
        }
    }

    pub fn from_bits(bits: u8) -> (r: Self)
        ensures
            r == Self::of_code(bits),
    {
        match bits & 0b11 {
            0 => RiskLevel::Low,
            1 => RiskLevel::Medium,
            2 => RiskLevel::Critical,
            _ => RiskLevel::Catastrophic,
        }
    }

    pub fn to_bits(self) -> (r: u8)
        ensures
            r == self.code(),
            r < 4,
    {
        match self {
            RiskLevel::Low => 0,
            RiskLevel::Medium => 1,
            RiskLevel::Critical => 2,
            RiskLevel::Catastrophic => 3,
        }
    }
}

/// Body stance (control bits 4-5).
#[derive(Debug, Clone, Copy, PartialEq, Eq, Structural)]
pub enum BodyStance {
    Seated,
    Standing,
    Moving,
    Unknown,
}

impl BodyStance {
    /// The 2-bit code of the variant.
    pub open spec fn code(self) -> u8 {
        match self {
            BodyStance::Seated => 0,
            BodyStance::Standing => 1,
            BodyStance::Moving => 2,
            BodyStance::Unknown => 3,
        }
    }

    /// The variant selected by the low two bits of `bits`.
    pub open spec fn of_code(bits: u8) -> BodyStance {
        let b = bits & 3;
        if b == 0 {
            BodyStance::Seated
        } else if b == 1 {
            BodyStance::Standing
        } else if b == 2 {
            BodyStance::Moving
        } else {
            BodyStance::Unknown
        }
    }

    pub fn from_bits(bits: u8) -> (r: Self)
        ensures
            r == Self::of_code(bits),
    {
        match bits & 0b11 {
            0 => BodyStance::Seated,
            1 => BodyStance::Standing,
            2 => BodyStance::Moving,
            _ => BodyStance::Unknown,
        }
    }

    pub fn to_bits(self) -> (r: u8)
        ensures
            r == self.code(),
            r < 4,
    {
        match self {
            BodyStance::Seated => 0,
            BodyStance::Standing => 1,
            BodyStance::Moving => 2,
            BodyStance::Unknown => 3,
        }
    }
}

/// Proximity to a hazardous edge (control bits 6-7).
#[derive(Debug, Clone, Copy, PartialEq, Eq, Structural)]
pub enum ProximityEdge {
    Safe,
    Warning,
    Danger,
    CriticalEdge,
}

impl ProximityEdge {
    /// The 2-bit code of the variant.
    pub open spec fn code(self) -> u8 {
        match self {
            ProximityEdge::Safe => 0,
            ProximityEdge::Warning => 1,
            ProximityEdge::Danger => 2,
            ProximityEdge::CriticalEdge => 3,
        }
    }

    /// The variant selected by the low two bits of `bits`.
    pub open spec fn of_code(bits: u8) -> ProximityEdge {
        let b = bits & 3;
        if b == 0 {
            ProximityEdge::Safe
        } else if b == 1 {
            ProximityEdge::Warning
        } else if b == 2 {
            ProximityEdge::Danger
        } else {
            ProximityEdge::CriticalEdge
        }
    }

    pub fn from_bits(bits: u8) -> (r: Self)
        ensures
            r == Self::of_code(bits),
    {
        match bits & 0b11 {
            0 => ProximityEdge::Safe,
            1 => ProximityEdge::Warning,
            2 => ProximityEdge::Danger,
            _ => ProximityEdge::CriticalEdge,
        }
    }

    pub fn to_bits(self) -> (r: u8)
        ensures
            r == self.code(),
            r < 4,
    {
        match self {
            ProximityEdge::Safe => 0,
            ProximityEdge::Warning => 1,
            ProximityEdge::Danger => 2,
            ProximityEdge::CriticalEdge => 3,
        }
    }
}

/// Output destination (control bit 8).
#[derive(Debug, Clone, Copy, PartialEq, Eq, Structural)]
pub enum OutputDest {
    Internal,
    External,
}

impl OutputDest {
    pub fn from_bit(bit: bool) -> (r: Self)
        ensures
            r == (if bit { OutputDest::External } else { OutputDest::Internal }),
    {
        if bit {
            OutputDest::External
        } else {
            OutputDest::Internal
        }
    }

    pub fn to_bit(self) -> (r: bool)
        ensures
            r == (self == OutputDest::External),
    {
        self == OutputDest::External
    }
}

/// Hard-override flag (control bit 9).
#[derive(Debug, Clone, Copy, PartialEq, Eq, Structural)]
pub enum OverrideFlag {
    Normal,
    HardOverride,
}

impl OverrideFlag {
    pub fn from_bit(bit: bool) -> (r: Self)
        ensures
            r == (if bit { OverrideFlag::HardOverride } else { OverrideFlag::Normal }),
    {
        if bit {
            OverrideFlag::HardOverride
        } else {
            OverrideFlag::Normal
        }
    }

    pub fn to_bit(self) -> (r: bool)
        ensures
            r == (self == OverrideFlag::HardOverride),
    {
        self == OverrideFlag::HardOverride
    }
}


/// PAL header.
#[derive(Debug, Clone, PartialEq, Eq)]
pub struct PalHeader {
    pub modality: Modality,
    pub risk_level: RiskLevel,
    pub body_stance: BodyStance,
    pub proximity_edge: ProximityEdge,
    pub output_dest: OutputDest,
    pub override_flag: OverrideFlag,
    pub pal_version: u8,
    pub replay_enable: bool,
    /// Reserved bit 15; zero on encode, a set bit read from the wire calls for
    /// version negotiation.
    pub reserved: bool,
    /// Physical-Context-Hash (SHA-256 truncated to its high 112 bits).
    pub physical_context_hash: [u8; PAH_SIZE],
    /// PAH-Signature (first 64 bits of SHA-256 of the full signature).
    pub pah_signature: [u8; SIG_SIZE],
}

/// `b` is byte 1 of a PAL carrying these flags, version and reserved bit.
pub open spec fn pal_control_byte(
    b: u8,
    dest: bool,
    over: bool,
    version: u8,
    replay: bool,
    reserved: bool,
) -> bool {
    &&& (field(b, 0, 1) == 1) == dest
    &&& (field(b, 1, 1) == 1) == over
    &&& field(b, 2, 15) == version
    &&& (field(b, 6, 1) == 1) == replay
    &&& (field(b, 7, 1) == 1) == reserved
}

impl PalHeader {
    /// The 24 wire bytes that `encode` produces.
    pub open spec fn wire(self, bytes: Seq<u8>) -> bool {
        &&& bytes.len() == PAL_SIZE
        &&& byte_of_pairs(
            bytes[0],
            self.modality.code(),
            self.risk_level.code(),
            self.body_stance.code(),
            self.proximity_edge.code(),
        )
        &&& pal_control_byte(
            bytes[1],
            self.output_dest == OutputDest::External,
            self.override_flag == OverrideFlag::HardOverride,
            self.pal_version & 15,
            self.replay_enable,
            false,
        )
        &&& bytes.subrange(2, 16) == self.physical_context_hash@
        &&& bytes.subrange(16, 24) == self.pah_signature@
    }

    /// `self` is the header that `decode` reads out of 24 bytes: every field,
    /// hash and signature included.
    pub open spec fn reads(self, bytes: Seq<u8>) -> bool {
        &&& self.modality == Modality::of_code(field(bytes[0], 0, 3))
        &&& self.risk_level == RiskLevel::of_code(field(bytes[0], 2, 3))
        &&& self.body_stance == BodyStance::of_code(field(bytes[0], 4, 3))
        &&& self.proximity_edge == ProximityEdge::of_code(field(bytes[0], 6, 3))
        &&& self.output_dest == if field(bytes[1], 0, 1) == 1 {
            OutputDest::External
        } else {
            OutputDest::Internal
        }
        &&& self.override_flag == if field(bytes[1], 1, 1) == 1 {
            OverrideFlag::HardOverride
        } else {
            OverrideFlag::Normal
        }
        &&& self.pal_version == field(bytes[1], 2, 15)
        &&& self.replay_enable == (field(bytes[1], 6, 1) == 1)
        &&& self.reserved == (field(bytes[1], 7, 1) == 1)
        &&& self.physical_context_hash@ == bytes.subrange(2, 16)
        &&& self.pah_signature@ == bytes.subrange(16, 24)
    }

    /// A new v2.0 header; the reserved bit is clear.
    pub fn new(
        modality: Modality,
        risk_level: RiskLevel,
        body_stance: BodyStance,
        proximity_edge: ProximityEdge,
        output_dest: OutputDest,
        override_flag: OverrideFlag,
        replay_enable: bool,
        physical_context_hash: [u8; PAH_SIZE],
        pah_signature: [u8; SIG_SIZE],
    ) -> (r: Self)
        ensures
            r == (PalHeader {
                modality,
                risk_level,
                body_stance,
                proximity_edge,
                output_dest,
                override_flag,
                pal_version: PAL_VERSION,
                replay_enable,
                reserved: false,
                physical_context_hash,
                pah_signature,
            }),
    {
        PalHeader {
            modality,
            risk_level,
            body_stance,
            proximity_edge,
            output_dest,
            override_flag,
            pal_version: PAL_VERSION,
            replay_enable,
            reserved: false,
            physical_context_hash,
            pah_signature,
        }
    }

    /// Encodes the header; the reserved bit is written as zero and only the
    /// low four bits of the version are kept.
    pub fn encode(&self) -> (r: [u8; PAL_SIZE])
        ensures
            self.wire(r@),
    {
        let mut buf = [0u8; PAL_SIZE];
        let m = self.modality.to_bits();
        let rl = self.risk_level.to_bits();
        let s = self.body_stance.to_bits();
        let e = self.proximity_edge.to_bits();
        let byte0: u8 = (m & 0b11) | ((rl & 0b11) << 2) | ((s & 0b11) << 4) | ((e & 0b11) << 6);
        buf[0] = byte0;
        let mut byte1: u8 = 0;
        if self.output_dest.to_bit() {
            byte1 = byte1 | 1;
        }
        if self.override_flag.to_bit() {
            byte1 = byte1 | 2;
        }
        byte1 = byte1 | ((self.pal_version & 0b1111) << 2);
        if self.replay_enable {
            byte1 = byte1 | 64;
        }
        buf[1] = byte1;
        proof {
            lemma_pack_pairs(m, rl, s, e);
            lemma_pair_idempotent(byte0);
            lemma_pal_control_byte(
                self.output_dest == OutputDest::External,
                self.override_flag == OverrideFlag::HardOverride,
                self.pal_version,
                self.replay_enable,
            );
        }
        let mut i: usize = 0;
        while i < PAH_SIZE
            invariant
                i <= PAH_SIZE,
                buf@.len() == PAL_SIZE,
                byte_of_pairs(
                    buf@[0],
                    self.modality.code(),
                    self.risk_level.code(),
                    self.body_stance.code(),
                    self.proximity_edge.code(),
                ),
                buf@[1] == byte1,
                forall|j: int| 0 <= j < i ==> buf@[2 + j] == self.physical_context_hash@[j],
            decreases PAH_SIZE - i,
        {
            buf[2 + i] = self.physical_context_hash[i];
            i = i + 1;
        }
        let mut k: usize = 0;
        while k < SIG_SIZE
            invariant
                k <= SIG_SIZE,
                buf@.len() == PAL_SIZE,
                byte_of_pairs(
                    buf@[0],
                    self.modality.code(),
                    self.risk_level.code(),
                    self.body_stance.code(),
                    self.proximity_edge.code(),
                ),
                buf@[1] == byte1,
                forall|j: int| 0 <= j < PAH_SIZE ==> buf@[2 + j] == self.physical_context_hash@[j],
                forall|j: int| 0 <= j < k ==> buf@[16 + j] == self.pah_signature@[j],
            decreases SIG_SIZE - k,
        {
            buf[2 + PAH_SIZE + k] = self.pah_signature[k];
            k = k + 1;
        }
        assert(buf@.subrange(2, 16) =~= self.physical_context_hash@);
        assert(buf@.subrange(16, 24) =~= self.pah_signature@);
        buf
    }

    /// Decodes 24 bytes (fixed offsets, no allocation).
    pub fn decode(buf: &[u8; PAL_SIZE]) -> (r: Self)
        ensures
            r.reads(buf@),
    {
        let byte0 = buf[0];
        let byte1 = buf[1];
        let modality = Modality::from_bits(byte0 & 0b11);
        let risk_level = RiskLevel::from_bits((byte0 >> 2) & 0b11);
        let body_stance = BodyStance::from_bits((byte0 >> 4) & 0b11);
        let proximity_edge = ProximityEdge::from_bits((byte0 >> 6) & 0b11);
        let output_dest = OutputDest::from_bit((byte1 & 1) != 0);
        let override_flag = OverrideFlag::from_bit((byte1 & 2) != 0);
        let pal_version = (byte1 >> 2) & 0b1111;
        let replay_enable = (byte1 & 64) != 0;
        let reserved = (byte1 & 128) != 0;
        proof {
            lemma_pair_idempotent(byte0);
            lemma_pal_control_tests(byte1);
        }
        let mut physical_context_hash = [0u8; PAH_SIZE];
        let mut i: usize = 0;
        while i < PAH_SIZE
            invariant
                i <= PAH_SIZE,
                buf@.len() == PAL_SIZE,
                physical_context_hash@.len() == PAH_SIZE,
                forall|j: int| 0 <= j < i ==> physical_context_hash@[j] == buf@[2 + j],
            decreases PAH_SIZE - i,
        {
            physical_context_hash[i] = buf[2 + i];
            i = i + 1;
        }
        let mut pah_signature = [0u8; SIG_SIZE];
        let mut k: usize = 0;
        while k < SIG_SIZE
            invariant
                k <= SIG_SIZE,
                buf@.len() == PAL_SIZE,
                pah_signature@.len() == SIG_SIZE,
                forall|j: int| 0 <= j < k ==> pah_signature@[j] == buf@[2 + PAH_SIZE + j],
            decreases SIG_SIZE - k,
        {
            pah_signature[k] = buf[2 + PAH_SIZE + k];
            k = k + 1;
        }
        assert(physical_context_hash@ =~= buf@.subrange(2, 16));
        assert(pah_signature@ =~= buf@.subrange(16, 24));
        PalHeader {
            modality,
            risk_level,
            body_stance,
            proximity_edge,
            output_dest,
            override_flag,
            pal_version,
            replay_enable,
            reserved,
            physical_context_hash,
            pah_signature,
        }
    }

    /// Rule 1: Catastrophic risk together with the hard-override flag.
    pub fn is_catastrophic_override(&self) -> (r: bool)
        ensures
            r == (self.risk_level == RiskLevel::Catastrophic && self.override_flag
                == OverrideFlag::HardOverride),
    {
        self.risk_level == RiskLevel::Catastrophic && self.override_flag
            == OverrideFlag::HardOverride
    }

    /// Rule 6: with replay protection off the effective risk is Medium.
    pub fn effective_risk_level(&self) -> (r: RiskLevel)
        ensures
            r == (if !self.replay_enable { RiskLevel::Medium } else { self.risk_level }),
    {
        if !self.replay_enable {
            RiskLevel::Medium
        } else {
            self.risk_level
        }
    }

    /// The reserved bit is set (version negotiation needed).
    pub fn has_unknown_reserved(&self) -> (r: bool)
        ensures
            r == self.reserved,
    {
        self.reserved
    }

    /// The version field equals the current PAL version.
    pub fn is_version_current(&self) -> (r: bool)
        ensures
            r == (self.pal_version == PAL_VERSION),
    {
        self.pal_version == PAL_VERSION
    }

}

impl Default for PalHeader {
    /// Cognitive / Low / Unknown / Safe / Internal / Normal, replay protection
    /// on, zero hash and signature.
    fn default() -> (r: Self)
        ensures
            r.modality == Modality::Cognitive,
            r.risk_level == RiskLevel::Low,
            r.body_stance == BodyStance::Unknown,
            r.proximity_edge == ProximityEdge::Safe,
            r.output_dest == OutputDest::Internal,
            r.override_flag == OverrideFlag::Normal,
            r.pal_version == PAL_VERSION,
            r.replay_enable,
            !r.reserved,
            r.physical_context_hash@ == Seq::new(PAH_SIZE as nat, |i: int| 0u8),
            r.pah_signature@ == Seq::new(SIG_SIZE as nat, |i: int| 0u8),
    {
        let h = [0u8; PAH_SIZE];
        let s = [0u8; SIG_SIZE];
        assert(h@ =~= Seq::new(PAH_SIZE as nat, |i: int| 0u8));
        assert(s@ =~= Seq::new(SIG_SIZE as nat, |i: int| 0u8));
        Self::new(
            Modality::Cognitive,
            RiskLevel::Low,
            BodyStance::Unknown,
            ProximityEdge::Safe,
            OutputDest::Internal,
            OverrideFlag::Normal,
            true,
            h,
            s,
        )
    }
}

/// Decoding an encoded PAL gives the header back, with the reserved bit
/// cleared and the version cut to four bits.
pub proof fn lemma_pal_decode_encode(h: PalHeader, bytes: Seq<u8>, d: PalHeader)
    requires
        h.wire(bytes),
        d.reads(bytes),
    ensures
        d == (PalHeader { pal_version: h.pal_version & 15, reserved: false, ..h }),
{
    lemma_low_pair(h.modality.code());
    lemma_low_pair(h.risk_level.code());
    lemma_low_pair(h.body_stance.code());
    lemma_low_pair(h.proximity_edge.code());
    assert(d.physical_context_hash =~= h.physical_context_hash);
    assert(d.pah_signature =~= h.pah_signature);
}

/// Encoding a decoded PAL gives the bytes back when the reserved bit is clear.
pub proof fn lemma_pal_encode_decode(bytes: Seq<u8>, h: PalHeader, out: Seq<u8>)
    requires
        bytes.len() == PAL_SIZE,
        field(bytes[1], 7, 1) == 0,
        h.reads(bytes),
        h.wire(out),
    ensures
        out == bytes,
{
    lemma_pair_idempotent(bytes[0]);
    lemma_pair_idempotent(out[0]);
    lemma_and3(field(bytes[0], 0, 3));
    lemma_and3(field(bytes[0], 2, 3));
    lemma_and3(field(bytes[0], 4, 3));
    lemma_and3(field(bytes[0], 6, 3));
    lemma_byte_from_pairs(out[0], bytes[0]);
    lemma_pal_control_tests(bytes[1]);
    lemma_pal_control_unique(out[1], bytes[1]);
    assert forall|j: int| 0 <= j < PAL_SIZE implies out[j] == bytes[j] by {
        if 2 <= j < 16 {
            assert(out.subrange(2, 16)[j - 2] == bytes.subrange(2, 16)[j - 2]);
        } else if 16 <= j < 24 {
            assert(out.subrange(16, 24)[j - 16] == bytes.subrange(16, 24)[j - 16]);
        }
    }
    assert(out =~= bytes);
}

/// Layout of the 24 bytes `encode` writes: byte 0 with Modality in bits 0-1,
/// Risk-Level in bits 2-3, Body-Stance in bits 4-5, Proximity-Edge in bits
/// 6-7; byte 1 with Output-Dest (External) in bit 0, Override-Flag
/// (HardOverride) in bit 1, the version's low four bits in bits 2-5,
/// Replay-Enable in bit 6 and bit 7 clear; bytes 2-15 the physical context
/// hash and bytes 16-23 the signature.
pub proof fn lemma_pal_encode_layout(h: PalHeader, b: Seq<u8>)
    requires
        h.wire(b),
    ensures
        b.len() == 24,
        b[0] & 3u8 == h.modality.code(),
        (b[0] >> 2u8) & 3u8 == h.risk_level.code(),
        (b[0] >> 4u8) & 3u8 == h.body_stance.code(),
        (b[0] >> 6u8) & 3u8 == h.proximity_edge.code(),
        (b[1] & 1u8 == 1) == (h.output_dest == OutputDest::External),
        ((b[1] >> 1u8) & 1u8 == 1) == (h.override_flag == OverrideFlag::HardOverride),
        (b[1] >> 2u8) & 15u8 == h.pal_version % 16,
        ((b[1] >> 6u8) & 1u8 == 1) == h.replay_enable,
        b[1] >> 7u8 == 0,
        forall|i: int| 0 <= i < 14 ==> b[2 + i] == h.physical_context_hash[i],
        forall|i: int| 0 <= i < 8 ==> b[16 + i] == h.pah_signature[i],
{
    lemma_edge_fields(b[0]);
    lemma_edge_fields(b[1]);
    let v = h.pal_version;
    assert(v & 15u8 == v % 16) by (bit_vector);
    assert forall|i: int| 0 <= i < 14 implies b[2 + i] == h.physical_context_hash[i] by {
        assert(b.subrange(2, 16)[i] == b[2 + i]);
    }
    assert forall|i: int| 0 <= i < 8 implies b[16 + i] == h.pah_signature[i] by {
        assert(b.subrange(16, 24)[i] == b[16 + i]);
    }
}

/// What `decode` reads out of 24 bytes: the four 2-bit fields of byte 0 at
/// bits 0-1, 2-3, 4-5, 6-7; from byte 1 Output-Dest at bit 0, Override-Flag
/// at bit 1, the version at bits 2-5, Replay-Enable at bit 6, the reserved
/// bit 7; the hash from bytes 2-15 and the signature from bytes 16-23.
pub proof fn lemma_pal_decode_layout(b: Seq<u8>, d: PalHeader)
    requires
        b.len() == 24,
        d.reads(b),
    ensures
        d.modality.code() == b[0] & 3u8,
        d.risk_level.code() == (b[0] >> 2u8) & 3u8,
        d.body_stance.code() == (b[0] >> 4u8) & 3u8,
        d.proximity_edge.code() == (b[0] >> 6u8) & 3u8,
        (d.output_dest == OutputDest::External) == (b[1] & 1u8 == 1),
        (d.override_flag == OverrideFlag::HardOverride) == ((b[1] >> 1u8) & 1u8 == 1),
        d.pal_version == (b[1] >> 2u8) & 15u8,
        d.replay_enable == ((b[1] >> 6u8) & 1u8 == 1),
        d.reserved == (b[1] >> 7u8 == 1),
        forall|i: int| 0 <= i < 14 ==> d.physical_context_hash[i] == b[2 + i],
        forall|i: int| 0 <= i < 8 ==> d.pah_signature[i] == b[16 + i],
{
    lemma_edge_fields(b[0]);
    lemma_edge_fields(b[1]);
    let x = b[0];
    lemma_and3(x >> 0u8);
    lemma_and3(x >> 2u8);
    lemma_and3(x >> 4u8);
    lemma_and3(x >> 6u8);
    lemma_low_pair(field(x, 0, 3));
    lemma_low_pair(field(x, 2, 3));
    lemma_low_pair(field(x, 4, 3));
    lemma_low_pair(field(x, 6, 3));
    assert forall|i: int| 0 <= i < 14 implies d.physical_context_hash[i] == b[2 + i] by {
        assert(b.subrange(2, 16)[i] == b[2 + i]);
    }
    assert forall|i: int| 0 <= i < 8 implies d.pah_signature[i] == b[16 + i] by {
        assert(b.subrange(16, 24)[i] == b[16 + i]);
    }
}

} // verus!
