//! PFP-xCF14 — Physical Feature Protocol (frozen layer), 4 bytes.
//!
//! Layout (network byte order):
//! ```text
//! Byte 0-1: Family-Magic = 0xCF14
//! Byte 2:   bit 0-1 Modality | bit 2-3 Risk-Level | bit 4-5 Body-Stance | bit 6-7 Proximity-Edge
//! Byte 3:   bit 0 Output-Dest | bit 1 Override-Flag | bit 2 Replay-Enable | bit 3-7 Reserved (0)
//! ```

use vstd::prelude::*;
use crate::bits::{
    lemma_edge_fields,
    be_u16, byte_of_pairs, field, lemma_byte_from_pairs, lemma_control_byte_unique, lemma_flag_byte,
    lemma_and3, lemma_flag_tests, lemma_low_pair, lemma_pack_pairs, lemma_pair_idempotent, lemma_u16_be,
};

verus! {

/// PFP length in bytes.
pub const PFP_SIZE: usize = 4;

/// CI-144 family magic (big-endian on the wire).
pub const FAMILY_MAGIC: u16 = 0xCF14;

/// PFP sub-protocol identifier.
pub const PFP_PROTOCOL_ID: u8 = 0x00;

/// PFP version (implied by the magic).
pub const PFP_VERSION: u8 = 0x01;

/// Operating modality (byte 2, bits 0-1).
#[derive(Debug, Clone, Copy, PartialEq, Eq, Structural)]
pub enum Modality {
    Cognitive,
    Render,
    Executive,
    SensorFeed,
}

impl Modality {
    /// The 2-bit code of the variant.
    pub open spec fn code(self) -> u8 {
        match self {
            Modality::Cognitive => 0,
            Modality::Render => 1,
            Modality::Executive => 2,
            Modality::SensorFeed => 3,
        }
    }

    /// The variant selected by the low two bits of `bits`.
    pub open spec fn of_code(bits: u8) -> Modality {
        let b = bits & 3;
        if b == 0 {
            Modality::Cognitive
        } else if b == 1 {
            Modality::Render
        } else if b == 2 {
            Modality::Executive
        } else {
            Modality::SensorFeed
        }
    }

    pub fn from_bits(bits: u8) -> (r: Self)
        ensures
            r == Self::of_code(bits),
    {
        match bits & 0b11 {
            0 => Modality::Cognitive,
            1 => Modality::Render,
            2 => Modality::Executive,
            _ => Modality::SensorFeed,
        }
    }

    pub fn to_bits(self) -> (r: u8)
        ensures
            r == self.code(),
            r < 4,
    {
        match self {
            Modality::Cognitive => 0,
            Modality::Render => 1,
            Modality::Executive => 2,
            Modality::SensorFeed => 3,
        }
    }
}

/// Risk level (byte 2, bits 2-3).
#[derive(Debug, Clone, Copy, PartialEq, Eq, PartialOrd, Ord, Structural)]
pub enum RiskLevel {
    Low,
    Medium,
    Critical,
    Catastrophic,
}

impl RiskLevel {
    /// The 2-bit code of the variant.
    pub open spec fn code(self) -> u8 {
        match self {
            RiskLevel::Low => 0,
            RiskLevel::Medium => 1,
            RiskLevel::Critical => 2,
            RiskLevel::Catastrophic => 3,
        }
    }

    /// The variant selected by the low two bits of `bits`.
    pub open spec fn of_code(bits: u8) -> RiskLevel {
        let b = bits & 3;
        if b == 0 {
            RiskLevel::Low
        } else if b == 1 {
            RiskLevel::Medium
        } else if b == 2 {
            RiskLevel::Critical
        } else {
            RiskLevel::Catastrophic
        }
    }

    pub fn from_bits(bits: u8) -> (r: Self)
        ensures
            r == Self::of_code(bits),
    {
        match bits & 0b11 {
            0 => RiskLevel::Low,
            1 => RiskLevel::Medium,
            2 => RiskLevel::Critical,
            _ => RiskLevel::Catastrophic,
        }
    }

    pub fn to_bits(self) -> (r: u8)
        ensures
            r == self.code(),
            r < 4,
    {
        match self {
            RiskLevel::Low => 0,
            RiskLevel::Medium => 1,
            RiskLevel::Critical => 2,
            RiskLevel::Catastrophic => 3,
        }
    }
}

/// Body stance (byte 2, bits 4-5).
#[derive(Debug, Clone, Copy, PartialEq, Eq, Structural)]
pub enum BodyStance {
    Seated,
    Standing,
    Moving,
    Unknown,
}

impl BodyStance {
    /// The 2-bit code of the variant.
    pub open spec fn code(self) -> u8 {
        match self {
            BodyStance::Seated => 0,
            BodyStance::Standing => 1,
            BodyStance::Moving => 2,
            BodyStance::Unknown => 3,
        }
    }

    /// The variant selected by the low two bits of `bits`.
    pub open spec fn of_code(bits: u8) -> BodyStance {
        let b = bits & 3;
        if b == 0 {
            BodyStance::Seated
        } else if b == 1 {
            BodyStance::Standing
        } else if b == 2 {
            BodyStance::Moving
        } else {
            BodyStance::Unknown
        }
    }

    pub fn from_bits(bits: u8) -> (r: Self)
        ensures
            r == Self::of_code(bits),
    {
        match bits & 0b11 {
            0 => BodyStance::Seated,
            1 => BodyStance::Standing,
            2 => BodyStance::Moving,
            _ => BodyStance::Unknown,
        }
    }

    pub fn to_bits(self) -> (r: u8)
        ensures
            r == self.code(),
            r < 4,
    {
        match self {
            BodyStance::Seated => 0,
            BodyStance::Standing => 1,
            BodyStance::Moving => 2,
            BodyStance::Unknown => 3,
        }
    }
}

/// Proximity to a hazardous edge (byte 2, bits 6-7).
#[derive(Debug, Clone, Copy, PartialEq, Eq, Structural)]
pub enum ProximityEdge {
    Safe,
    Warning,
    Danger,
    CriticalEdge,
}

impl ProximityEdge {
    /// The 2-bit code of the variant.
    pub open spec fn code(self) -> u8 {
        match self {
            ProximityEdge::Safe => 0,
            ProximityEdge::Warning => 1,
            ProximityEdge::Danger => 2,
            ProximityEdge::CriticalEdge => 3,
        }
    }

    /// The variant selected by the low two bits of `bits`.
    pub open spec fn of_code(bits: u8) -> ProximityEdge {
        let b = bits & 3;
        if b == 0 {
            ProximityEdge::Safe
        } else if b == 1 {
            ProximityEdge::Warning
        } else if b == 2 {
            ProximityEdge::Danger
        } else {
            ProximityEdge::CriticalEdge
        }
    }

    pub fn from_bits(bits: u8) -> (r: Self)
        ensures
            r == Self::of_code(bits),
    {
        match bits & 0b11 {
            0 => ProximityEdge::Safe,
            1 => ProximityEdge::Warning,
            2 => ProximityEdge::Danger,
            _ => ProximityEdge::CriticalEdge,
        }
    }

    pub fn to_bits(self) -> (r: u8)
        ensures
            r == self.code(),
            r < 4,
    {
        match self {
            ProximityEdge::Safe => 0,
            ProximityEdge::Warning => 1,
            ProximityEdge::Danger => 2,
            ProximityEdge::CriticalEdge => 3,
        }
    }
}

/// Output destination (byte 3, bit 0).
#[derive(Debug, Clone, Copy, PartialEq, Eq, Structural)]
pub enum OutputDest {
    Internal,
    External,
}

impl OutputDest {
    pub fn from_bit(bit: bool) -> (r: Self)
        ensures
            r == (if bit { OutputDest::External } else { OutputDest::Internal }),
    {
        if bit {
            OutputDest::External
        } else {
            OutputDest::Internal
        }
    }

    pub fn to_bit(self) -> (r: bool)
        ensures
            r == (self == OutputDest::External),
    {
        self == OutputDest::External
    }
}

/// Hard-override flag (byte 3, bit 1).
#[derive(Debug, Clone, Copy, PartialEq, Eq, Structural)]
pub enum OverrideFlag {
    Normal,
    HardOverride,
}

impl OverrideFlag {
    pub fn from_bit(bit: bool) -> (r: Self)
        ensures
            r == (if bit { OverrideFlag::HardOverride } else { OverrideFlag::Normal }),
    {
        if bit {
            OverrideFlag::HardOverride
        } else {
            OverrideFlag::Normal
        }
    }

    pub fn to_bit(self) -> (r: bool)
        ensures
            r == (self == OverrideFlag::HardOverride),
    {
        self == OverrideFlag::HardOverride
    }
}

/// The risk level that decisions use: Medium whenever replay protection is
/// off (rule 6), the declared level otherwise.
pub open spec fn rule6_risk(risk_level: RiskLevel, replay_enable: bool) -> RiskLevel {
    if !replay_enable {
        RiskLevel::Medium
    } else {
        risk_level
    }
}

/// PFP-xCF14 header.
#[derive(Debug, Clone, PartialEq, Eq, Structural)]
pub struct PfpHeader {
    pub modality: Modality,
    pub risk_level: RiskLevel,
    pub body_stance: BodyStance,
    pub proximity_edge: ProximityEdge,
    pub output_dest: OutputDest,
    pub override_flag: OverrideFlag,
    pub replay_enable: bool,
    /// Reserved bits 3-7 of byte 3; zero on encode, a nonzero value read from
    /// the wire calls for version negotiation.
    pub reserved: u8,
}

/// `b` is byte 3 of a PFP carrying these flags and reserved value.
pub open spec fn pfp_control_byte(b: u8, dest: bool, over: bool, replay: bool, reserved: u8) -> bool {
    &&& (field(b, 0, 1) == 1) == dest
    &&& (field(b, 1, 1) == 1) == over
    &&& (field(b, 2, 1) == 1) == replay
    &&& field(b, 3, 31) == reserved
}

impl PfpHeader {
    /// The four wire bytes that `encode` produces.
    pub open spec fn wire(self, bytes: Seq<u8>) -> bool {
        &&& bytes.len() == PFP_SIZE
        &&& bytes[0] == 0xCF
        &&& bytes[1] == 0x14
        &&& byte_of_pairs(
            bytes[2],
            self.modality.code(),
            self.risk_level.code(),
            self.body_stance.code(),
            self.proximity_edge.code(),
        )
        &&& pfp_control_byte(
            bytes[3],
            self.output_dest == OutputDest::External,
            self.override_flag == OverrideFlag::HardOverride,
            self.replay_enable,
            0,
        )
    }

    /// The header that `decode` reads out of four bytes.
    pub open spec fn read(bytes: Seq<u8>) -> PfpHeader {
        PfpHeader {
            modality: Modality::of_code(field(bytes[2], 0, 3)),
            risk_level: RiskLevel::of_code(field(bytes[2], 2, 3)),
            body_stance: BodyStance::of_code(field(bytes[2], 4, 3)),
            proximity_edge: ProximityEdge::of_code(field(bytes[2], 6, 3)),
            output_dest: if field(bytes[3], 0, 1) == 1 {
                OutputDest::External
            } else {
                OutputDest::Internal
            },
            override_flag: if field(bytes[3], 1, 1) == 1 {
                OverrideFlag::HardOverride
            } else {
                OverrideFlag::Normal
            },
            replay_enable: field(bytes[3], 2, 1) == 1,
            reserved: field(bytes[3], 3, 31),
        }
    }

    /// Bytes 0-1 carry the family magic 0xCF14.
    pub open spec fn has_magic(bytes: Seq<u8>) -> bool {
        bytes[0] as int * 256 + bytes[1] as int == FAMILY_MAGIC as int
    }

    /// A new header; the reserved bits are zero.
    pub fn new(
        modality: Modality,
        risk_level: RiskLevel,
        body_stance: BodyStance,
        proximity_edge: ProximityEdge,
        output_dest: OutputDest,
        override_flag: OverrideFlag,
        replay_enable: bool,
    ) -> (r: Self)
        ensures
            r == (PfpHeader {
                modality,
                risk_level,
                body_stance,
                proximity_edge,
                output_dest,
                override_flag,
                replay_enable,
                reserved: 0,
            }),
    {
        PfpHeader {
            modality,
            risk_level,
            body_stance,
            proximity_edge,
            output_dest,
            override_flag,
            replay_enable,
            reserved: 0,
        }
    }

    /// Encodes the header; the reserved bits are written as zero.
    pub fn encode(&self) -> (r: [u8; PFP_SIZE])
        ensures
            self.wire(r@),
    {
        let m = self.modality.to_bits();
        let rl = self.risk_level.to_bits();
        let s = self.body_stance.to_bits();
        let e = self.proximity_edge.to_bits();
        let byte2: u8 = (m & 0b11) | ((rl & 0b11) << 2) | ((s & 0b11) << 4) | ((e & 0b11) << 6);
        let mut byte3: u8 = 0;
        if self.output_dest.to_bit() {
            byte3 = byte3 | 1;
        }
        if self.override_flag.to_bit() {
            byte3 = byte3 | 2;
        }
        if self.replay_enable {
            byte3 = byte3 | 4;
        }
        proof {
            lemma_pack_pairs(m, rl, s, e);
            lemma_pair_idempotent(byte2);
            lemma_flag_byte(
                self.output_dest == OutputDest::External,
                self.override_flag == OverrideFlag::HardOverride,
                self.replay_enable,
            );
            lemma_u16_be(FAMILY_MAGIC, 0, 0);
        }
        let buf: [u8; PFP_SIZE] = [(FAMILY_MAGIC >> 8u16) as u8, (FAMILY_MAGIC & 0xFFu16) as u8, byte2, byte3];
        buf
    }

    /// Decodes four bytes (the caller checks the magic first).
    pub fn decode(buf: &[u8; PFP_SIZE]) -> (r: Self)
        ensures
            r == Self::read(buf@),
    {
        let byte2 = buf[2];
        let byte3 = buf[3];
        let modality = Modality::from_bits(byte2 & 0b11);
        let risk_level = RiskLevel::from_bits((byte2 >> 2) & 0b11);
        let body_stance = BodyStance::from_bits((byte2 >> 4) & 0b11);
        let proximity_edge = ProximityEdge::from_bits((byte2 >> 6) & 0b11);
        let output_dest = OutputDest::from_bit((byte3 & 1) != 0);
        let override_flag = OverrideFlag::from_bit((byte3 & 2) != 0);
        let replay_enable = (byte3 & 4) != 0;
        let reserved = (byte3 >> 3) & 0b11111;
        proof {
            lemma_pair_idempotent(byte2);
            lemma_flag_tests(byte3);
        }
        PfpHeader {
            modality,
            risk_level,
            body_stance,
            proximity_edge,
            output_dest,
            override_flag,
            replay_enable,
            reserved,
        }
    }

    /// Bytes 0-1 equal the family magic 0xCF14 (big-endian).
    pub fn verify_magic(buf: &[u8; PFP_SIZE]) -> (r: bool)
        ensures
            r == Self::has_magic(buf@),
    {
        be_u16(buf[0], buf[1]) == FAMILY_MAGIC
    }

    /// Rule 1: Catastrophic risk together with the hard-override flag.
    pub fn is_catastrophic_override(&self) -> (r: bool)
        ensures
            r == (self.risk_level == RiskLevel::Catastrophic && self.override_flag
                == OverrideFlag::HardOverride),
    {
        self.risk_level == RiskLevel::Catastrophic && self.override_flag
            == OverrideFlag::HardOverride
    }

    /// Rule 6: with replay protection off the effective risk is Medium.
    pub fn effective_risk_level(&self) -> (r: RiskLevel)
        ensures
            r == rule6_risk(self.risk_level, self.replay_enable),
    {
        if !self.replay_enable {
            RiskLevel::Medium
        } else {
            self.risk_level
        }
    }

    /// The reserved bits are not all zero (version negotiation needed).
    pub fn has_unknown_reserved(&self) -> (r: bool)
        ensures
            r == (self.reserved != 0),
    {
        self.reserved != 0
    }

}

impl Default for PfpHeader {
    /// Cognitive / Low / Unknown / Safe / Internal / Normal, replay protection on.
    fn default() -> (r: Self)
        ensures
            r == (PfpHeader {
                modality: Modality::Cognitive,
                risk_level: RiskLevel::Low,
                body_stance: BodyStance::Unknown,
                proximity_edge: ProximityEdge::Safe,
                output_dest: OutputDest::Internal,
                override_flag: OverrideFlag::Normal,
                replay_enable: true,
                reserved: 0,
            }),
    {
        Self::new(
            Modality::Cognitive,
            RiskLevel::Low,
            BodyStance::Unknown,
            ProximityEdge::Safe,
            OutputDest::Internal,
            OverrideFlag::Normal,
            true,
        )
    }
}

/// Decoding an encoded header gives the header back, reserved bits cleared.
pub proof fn lemma_pfp_decode_encode(h: PfpHeader, bytes: Seq<u8>)
    requires
        h.wire(bytes),
    ensures
        PfpHeader::read(bytes) == (PfpHeader { reserved: 0, ..h }),
        PfpHeader::has_magic(bytes),
{
    lemma_codes_roundtrip(h);
}

/// Encoding a decoded header gives the bytes back when the magic is right and
/// the reserved bits are zero.
pub proof fn lemma_pfp_encode_decode(bytes: Seq<u8>, out: Seq<u8>)
    requires
        bytes.len() == PFP_SIZE,
        bytes[0] == 0xCF,
        bytes[1] == 0x14,
        field(bytes[3], 3, 31) == 0,
        PfpHeader::read(bytes).wire(out),
    ensures
        out == bytes,
{
    let h = PfpHeader::read(bytes);
    lemma_pair_idempotent(bytes[2]);
    lemma_of_code_code(bytes[2]);
    lemma_pair_idempotent(out[2]);
    lemma_byte_from_pairs(out[2], bytes[2]);
    lemma_flag_tests(bytes[3]);
    lemma_flag_tests(out[3]);
    lemma_control_byte_unique(out[3], bytes[3]);
    assert(out =~= bytes);
}

/// The code of the variant selected by each 2-bit field of `b` is that field.
pub proof fn lemma_of_code_code(b: u8)
    ensures
        Modality::of_code(field(b, 0, 3)).code() == field(b, 0, 3),
        RiskLevel::of_code(field(b, 2, 3)).code() == field(b, 2, 3),
        BodyStance::of_code(field(b, 4, 3)).code() == field(b, 4, 3),
        ProximityEdge::of_code(field(b, 6, 3)).code() == field(b, 6, 3),
{
    lemma_pair_idempotent(b);
    lemma_and3(field(b, 0, 3));
    lemma_and3(field(b, 2, 3));
    lemma_and3(field(b, 4, 3));
    lemma_and3(field(b, 6, 3));
}

/// Every variant survives its code.
pub proof fn lemma_codes_roundtrip(h: PfpHeader)
    ensures
        Modality::of_code(h.modality.code()) == h.modality,
        RiskLevel::of_code(h.risk_level.code()) == h.risk_level,
        BodyStance::of_code(h.body_stance.code()) == h.body_stance,
        ProximityEdge::of_code(h.proximity_edge.code()) == h.proximity_edge,
{
    lemma_low_pair(h.modality.code());
    lemma_low_pair(h.risk_level.code());
    lemma_low_pair(h.body_stance.code());
    lemma_low_pair(h.proximity_edge.code());
}

/// The documented codes: Modality Cognitive 0, Render 1, Executive 2,
/// SensorFeed 3; Risk-Level Low 0, Medium 1, Critical 2, Catastrophic 3;
/// Body-Stance Seated 0, Standing 1, Moving 2, Unknown 3; Proximity-Edge Safe
/// 0, Warning 1, Danger 2, CriticalEdge 3.
pub proof fn lemma_documented_codes()
    ensures
        Modality::Cognitive.code() == 0 && Modality::Render.code() == 1
            && Modality::Executive.code() == 2 && Modality::SensorFeed.code() == 3,
        RiskLevel::Low.code() == 0 && RiskLevel::Medium.code() == 1 && RiskLevel::Critical.code()
            == 2 && RiskLevel::Catastrophic.code() == 3,
        BodyStance::Seated.code() == 0 && BodyStance::Standing.code() == 1
            && BodyStance::Moving.code() == 2 && BodyStance::Unknown.code() == 3,
        ProximityEdge::Safe.code() == 0 && ProximityEdge::Warning.code() == 1
            && ProximityEdge::Danger.code() == 2 && ProximityEdge::CriticalEdge.code() == 3,
{
}

/// Layout of the four bytes `encode` writes: the magic 0xCF 0x14; byte 2
/// with Modality in bits 0-1, Risk-Level in bits 2-3, Body-Stance in bits 4-5
/// and Proximity-Edge in bits 6-7; byte 3 with Output-Dest (External) in bit
/// 0, Override-Flag (HardOverride) in bit 1, Replay-Enable in bit 2 and bits
/// 3-7 clear.
pub proof fn lemma_pfp_encode_layout(h: PfpHeader, b: Seq<u8>)
    requires
        h.wire(b),
    ensures
        b.len() == 4,
        b[0] == 0xCF && b[1] == 0x14,
        b[2] & 3u8 == h.modality.code(),
        (b[2] >> 2u8) & 3u8 == h.risk_level.code(),
        (b[2] >> 4u8) & 3u8 == h.body_stance.code(),
        (b[2] >> 6u8) & 3u8 == h.proximity_edge.code(),
        (b[3] & 1u8 == 1) == (h.output_dest == OutputDest::External),
        ((b[3] >> 1u8) & 1u8 == 1) == (h.override_flag == OverrideFlag::HardOverride),
        ((b[3] >> 2u8) & 1u8 == 1) == h.replay_enable,
        b[3] >> 3u8 == 0,
{
    lemma_edge_fields(b[2]);
    lemma_edge_fields(b[3]);
}

/// What `decode` reads out of four bytes: Modality from bits 0-1 of byte 2,
/// Risk-Level from bits 2-3, Body-Stance from bits 4-5, Proximity-Edge from
/// bits 6-7; Output-Dest from bit 0 of byte 3, Override-Flag from bit 1,
/// Replay-Enable from bit 2 and the reserved value from bits 3-7.
pub proof fn lemma_pfp_decode_layout(b: Seq<u8>)
    requires
        b.len() == 4,
    ensures
        PfpHeader::read(b).modality.code() == b[2] & 3u8,
        PfpHeader::read(b).risk_level.code() == (b[2] >> 2u8) & 3u8,
        PfpHeader::read(b).body_stance.code() == (b[2] >> 4u8) & 3u8,
        PfpHeader::read(b).proximity_edge.code() == (b[2] >> 6u8) & 3u8,
        (PfpHeader::read(b).output_dest == OutputDest::External) == (b[3] & 1u8 == 1),
        (PfpHeader::read(b).override_flag == OverrideFlag::HardOverride) == ((b[3] >> 1u8) & 1u8
            == 1),
        PfpHeader::read(b).replay_enable == ((b[3] >> 2u8) & 1u8 == 1),
        PfpHeader::read(b).reserved == b[3] >> 3u8,
{
    lemma_of_code_code(b[2]);
    lemma_edge_fields(b[2]);
    lemma_edge_fields(b[3]);
}

/// Rule 6: with Replay-Enable 0 the effective risk level is Medium whatever
/// the declared level; with Replay-Enable 1 it is the declared level.
pub proof fn lemma_rule6_forces_medium(r: RiskLevel)
    ensures
        rule6_risk(r, false) == RiskLevel::Medium,
        rule6_risk(r, true) == r,
{
}

} // verus!
