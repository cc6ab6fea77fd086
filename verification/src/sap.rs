//! SAP-xCF14 — Security Attestation Protocol (evolution layer), 28 bytes.
//!
//! Layout (network byte order):
//! ```text
//! Byte 0-1:   Family-Magic = 0xCF14
//! Byte 2:     Protocol-ID = 0x01
//! Byte 3:     bit 0-3 SAP-Version | bit 4-7 Reserved (0)
//! Byte 4-5:   Seq-Counter (big-endian)
//! Byte 6-19:  PAH-Hash (112 bits)
//! Byte 20-27: PAH-Signature (64 bits)
//! ```

use vstd::prelude::*;
use crate::bits::{be_u16, lemma_low_nibble, lemma_u16_be};
use crate::pfp::FAMILY_MAGIC;

verus! {

/// SAP length in bytes.
pub const SAP_SIZE: usize = 28;

/// SAP sub-protocol identifier.
pub const SAP_PROTOCOL_ID: u8 = 0x01;

/// Current SAP version (v1 = 0001).
pub const SAP_VERSION: u8 = 0b0001;

/// PAH-Hash length in bytes (112 bits).
pub const PAH_SIZE: usize = 14;

/// PAH-Signature length in bytes (64 bits).
pub const SIG_SIZE: usize = 8;

/// Seq-Counter value from which on a key rotation is due.
pub const SEQ_ROTATION_THRESHOLD: u16 = 65534;

/// SAP-xCF14 header.
#[derive(Debug, Clone, PartialEq, Eq)]
pub struct SapHeader {
    pub sap_version: u8,
    /// Seq-Counter (anti-replay).
    pub seq_counter: u16,
    /// PAH-Hash (SHA-256 truncated to its high 112 bits).
    pub pah_hash: [u8; PAH_SIZE],
    /// PAH-Signature (first-layer fast check).
    pub pah_signature: [u8; SIG_SIZE],
}

impl SapHeader {
    /// The 28 wire bytes that `encode` produces.
    pub open spec fn wire(self, bytes: Seq<u8>) -> bool {
        &&& bytes.len() == SAP_SIZE
        &&& bytes[0] == 0xCF
        &&& bytes[1] == 0x14
        &&& bytes[2] == SAP_PROTOCOL_ID
        &&& bytes[3] == self.sap_version % 16
        &&& bytes[4] as int * 256 + bytes[5] as int == self.seq_counter as int
        &&& bytes.subrange(6, 20) == self.pah_hash@
        &&& bytes.subrange(20, 28) == self.pah_signature@
    }

    /// What `decode` reads out of 28 bytes.
    pub open spec fn reads(self, bytes: Seq<u8>) -> bool {
        &&& self.sap_version == bytes[3] % 16
        &&& self.seq_counter as int == bytes[4] as int * 256 + bytes[5] as int
        &&& self.pah_hash@ == bytes.subrange(6, 20)
        &&& self.pah_signature@ == bytes.subrange(20, 28)
    }

    /// Bytes 0-1 carry the family magic 0xCF14.
    pub open spec fn has_magic(bytes: Seq<u8>) -> bool {
        bytes[0] as int * 256 + bytes[1] as int == FAMILY_MAGIC as int
    }

    /// A new v1 header.
    pub fn new(seq_counter: u16, pah_hash: [u8; PAH_SIZE], pah_signature: [u8; SIG_SIZE]) -> (r:
        Self)
        ensures
            r == (SapHeader { sap_version: SAP_VERSION, seq_counter, pah_hash, pah_signature }),
    {
        SapHeader { sap_version: SAP_VERSION, seq_counter, pah_hash, pah_signature }
    }

    /// Encodes the header; only the low four bits of the version are kept and
    /// the reserved nibble is zero.
    pub fn encode(&self) -> (r: [u8; SAP_SIZE])
        ensures
            self.wire(r@),
    {
        let mut buf = [0u8; SAP_SIZE];
        proof {
            lemma_u16_be(FAMILY_MAGIC, 0, 0);
            lemma_u16_be(self.seq_counter, 0, 0);
            lemma_low_nibble(self.sap_version);
        }
        buf[0] = (FAMILY_MAGIC >> 8u16) as u8;
        buf[1] = (FAMILY_MAGIC & 0xFFu16) as u8;
        buf[2] = SAP_PROTOCOL_ID;
        buf[3] = self.sap_version & 0b1111;
        buf[4] = (self.seq_counter >> 8u16) as u8;
        buf[5] = (self.seq_counter & 0xFFu16) as u8;
        let mut i: usize = 0;
        while i < PAH_SIZE
            invariant
                i <= PAH_SIZE,
                buf@.len() == SAP_SIZE,
                buf@[0] == 0xCF,
                buf@[1] == 0x14,
                buf@[2] == SAP_PROTOCOL_ID,
                buf@[3] == self.sap_version % 16,
                buf@[4] as int * 256 + buf@[5] as int == self.seq_counter as int,
                forall|j: int| 0 <= j < i ==> buf@[6 + j] == self.pah_hash@[j],
            decreases PAH_SIZE - i,
        {
            buf[6 + i] = self.pah_hash[i];
            i = i + 1;
        }
        let mut k: usize = 0;
        while k < SIG_SIZE
            invariant
                k <= SIG_SIZE,
                buf@.len() == SAP_SIZE,
                buf@[0] == 0xCF,
                buf@[1] == 0x14,
                buf@[2] == SAP_PROTOCOL_ID,
                buf@[3] == self.sap_version % 16,
                buf@[4] as int * 256 + buf@[5] as int == self.seq_counter as int,
                forall|j: int| 0 <= j < PAH_SIZE ==> buf@[6 + j] == self.pah_hash@[j],
                forall|j: int| 0 <= j < k ==> buf@[20 + j] == self.pah_signature@[j],
            decreases SIG_SIZE - k,
        {
            buf[6 + PAH_SIZE + k] = self.pah_signature[k];
            k = k + 1;
        }
        assert(buf@.subrange(6, 20) =~= self.pah_hash@);
        assert(buf@.subrange(20, 28) =~= self.pah_signature@);
        buf
    }

    /// Decodes 28 bytes (the caller checks magic and protocol id first).
    pub fn decode(buf: &[u8; SAP_SIZE]) -> (r: Self)
        ensures
            r.reads(buf@),
    {
        proof {
            lemma_low_nibble(buf@[3]);
        }
        let sap_version = buf[3] & 0b1111;
        let seq_counter = be_u16(buf[4], buf[5]);
        let mut pah_hash = [0u8; PAH_SIZE];
        let mut i: usize = 0;
        while i < PAH_SIZE
            invariant
                i <= PAH_SIZE,
                buf@.len() == SAP_SIZE,
                pah_hash@.len() == PAH_SIZE,
                forall|j: int| 0 <= j < i ==> pah_hash@[j] == buf@[6 + j],
            decreases PAH_SIZE - i,
        {
            pah_hash[i] = buf[6 + i];
            i = i + 1;
        }
        let mut pah_signature = [0u8; SIG_SIZE];
        let mut k: usize = 0;
        while k < SIG_SIZE
            invariant
                k <= SIG_SIZE,
                buf@.len() == SAP_SIZE,
                pah_signature@.len() == SIG_SIZE,
                forall|j: int| 0 <= j < k ==> pah_signature@[j] == buf@[6 + PAH_SIZE + j],
            decreases SIG_SIZE - k,
        {
            pah_signature[k] = buf[6 + PAH_SIZE + k];
            k = k + 1;
        }
        assert(pah_hash@ =~= buf@.subrange(6, 20));
        assert(pah_signature@ =~= buf@.subrange(20, 28));
        SapHeader { sap_version, seq_counter, pah_hash, pah_signature }
    }

    /// Bytes 0-1 equal the family magic 0xCF14 (big-endian).
    pub fn verify_magic(buf: &[u8; SAP_SIZE]) -> (r: bool)
        ensures
            r == Self::has_magic(buf@),
    {
        be_u16(buf[0], buf[1]) == FAMILY_MAGIC
    }

    /// Byte 2 is the SAP protocol id.
    pub fn verify_protocol_id(buf: &[u8; SAP_SIZE]) -> (r: bool)
        ensures
            r == (buf@[2] == SAP_PROTOCOL_ID),
    {
        buf[2] == SAP_PROTOCOL_ID
    }

    /// The version field equals the current SAP version.
    pub fn is_version_current(&self) -> (r: bool)
        ensures
            r == (self.sap_version == SAP_VERSION),
    {
        self.sap_version == SAP_VERSION
    }

    /// The Seq-Counter has reached the rotation threshold.
    pub fn needs_key_rotation(&self) -> (r: bool)
        ensures
            r == (self.seq_counter >= SEQ_ROTATION_THRESHOLD),
    {
        self.seq_counter >= SEQ_ROTATION_THRESHOLD
    }

    /// Advances the Seq-Counter by one, wrapping from 65535 to 0, and returns
    /// the new value.
    pub fn increment_seq(&mut self) -> (r: u16)
        ensures
            r as int == (old(self).seq_counter as int + 1) % 0x10000,
            *final(self) == (SapHeader { seq_counter: r, ..*old(self) }),
    {
        self.seq_counter = self.seq_counter.wrapping_add(1);
        self.seq_counter
    }

}

impl Default for SapHeader {
    /// Sequence 0, zero hash and signature, current version.
    fn default() -> (r: Self)
        ensures
            r.sap_version == SAP_VERSION,
            r.seq_counter == 0,
            r.pah_hash@ == Seq::new(PAH_SIZE as nat, |i: int| 0u8),
            r.pah_signature@ == Seq::new(SIG_SIZE as nat, |i: int| 0u8),
    {
        let h = [0u8; PAH_SIZE];
        let s = [0u8; SIG_SIZE];
        assert(h@ =~= Seq::new(PAH_SIZE as nat, |i: int| 0u8));
        assert(s@ =~= Seq::new(SIG_SIZE as nat, |i: int| 0u8));
        Self::new(0, h, s)
    }
}

/// Decoding an encoded SAP gives the header back, with the version cut to
/// four bits.
pub proof fn lemma_sap_decode_encode(h: SapHeader, bytes: Seq<u8>, d: SapHeader)
    requires
        h.wire(bytes),
        d.reads(bytes),
    ensures
        d.sap_version == h.sap_version % 16,
        d.seq_counter == h.seq_counter,
        d.pah_hash == h.pah_hash,
        d.pah_signature == h.pah_signature,
        SapHeader::has_magic(bytes),
        bytes[2] == SAP_PROTOCOL_ID,
{
    assert(d.pah_hash@ =~= h.pah_hash@);
    assert(d.pah_signature@ =~= h.pah_signature@);
    assert(d.pah_hash =~= h.pah_hash);
    assert(d.pah_signature =~= h.pah_signature);
}

/// Encoding a decoded SAP gives the bytes back when magic and protocol id are
/// right and the reserved nibble is zero.
pub proof fn lemma_sap_encode_decode(bytes: Seq<u8>, d: SapHeader, out: Seq<u8>)
    requires
        bytes.len() == SAP_SIZE,
        bytes[0] == 0xCF,
        bytes[1] == 0x14,
        bytes[2] == SAP_PROTOCOL_ID,
        bytes[3] < 16,
        d.reads(bytes),
        d.wire(out),
    ensures
        out == bytes,
{
    assert(out[4] == bytes[4] && out[5] == bytes[5]);
    assert forall|j: int| 0 <= j < SAP_SIZE implies out[j] == bytes[j] by {
        if 6 <= j < 20 {
            assert(out.subrange(6, 20)[j - 6] == bytes.subrange(6, 20)[j - 6]);
        } else if 20 <= j < 28 {
            assert(out.subrange(20, 28)[j - 20] == bytes.subrange(20, 28)[j - 20]);
        }
    }
    assert(out =~= bytes);
}

/// Where `SapHeader::encode` puts each field: family magic 0xCF14 in bytes
/// 0-1, protocol id 0x01 in byte 2, the version in the low nibble of byte 3
/// with the reserved high nibble zero, the Seq-Counter in bytes 4-5 most
/// significant byte first, the PAH-Hash in bytes 6-19 and the PAH-Signature
/// in bytes 20-27.
pub proof fn lemma_sap_encode_layout(h: SapHeader, b: Seq<u8>)
    requires
        h.wire(b),
    ensures
        b.len() == 28,
        b[0] == 0xCF && b[1] == 0x14,
        b[2] == 0x01,
        b[3] & 15u8 == h.sap_version & 15u8,
        b[3] >> 4u8 == 0,
        b[4] as int == h.seq_counter as int / 256,
        b[5] as int == h.seq_counter as int % 256,
        forall|j: int| 0 <= j < 14 ==> #[trigger] b[6 + j] == h.pah_hash@[j],
        forall|j: int| 0 <= j < 8 ==> #[trigger] b[20 + j] == h.pah_signature@[j],
{
    let v = h.sap_version;
    let x = b[3];
    assert(x == v % 16 ==> x & 15u8 == v & 15u8 && x >> 4u8 == 0) by (bit_vector);
    assert forall|j: int| 0 <= j < 14 implies #[trigger] b[6 + j] == h.pah_hash@[j] by {
        assert(b.subrange(6, 20)[j] == b[6 + j]);
    }
    assert forall|j: int| 0 <= j < 8 implies #[trigger] b[20 + j] == h.pah_signature@[j] by {
        assert(b.subrange(20, 28)[j] == b[20 + j]);
    }
}

/// What `SapHeader::decode` reads out of 28 bytes: the version from the low
/// nibble of byte 3, the Seq-Counter from bytes 4-5 most significant byte
/// first, the PAH-Hash from bytes 6-19 and the PAH-Signature from bytes 20-27.
pub proof fn lemma_sap_decode_layout(b: Seq<u8>, d: SapHeader)
    requires
        b.len() == 28,
        d.reads(b),
    ensures
        d.sap_version == b[3] & 15u8,
        d.seq_counter as int == b[4] as int * 256 + b[5] as int,
        forall|j: int| 0 <= j < 14 ==> #[trigger] d.pah_hash@[j] == b[6 + j],
        forall|j: int| 0 <= j < 8 ==> #[trigger] d.pah_signature@[j] == b[20 + j],
{
    lemma_low_nibble(b[3]);
    assert forall|j: int| 0 <= j < 14 implies #[trigger] d.pah_hash@[j] == b[6 + j] by {
        assert(b.subrange(6, 20)[j] == b[6 + j]);
    }
    assert forall|j: int| 0 <= j < 8 implies #[trigger] d.pah_signature@[j] == b[20 + j] by {
        assert(b.subrange(20, 28)[j] == b[20 + j]);
    }
}

} // verus!
