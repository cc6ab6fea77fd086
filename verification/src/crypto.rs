//! PAH first-layer 64-bit signature check (Ed25519 in software) and the
//! SHA-256 truncations of the PAH layer.
//!
//! - First layer (fast, hard real-time): the first 64 bits (MSB first) of
//!   SHA-256 of the full Ed25519 signature, carried in the SAP.
//! - Second layer (full, asynchronous): the 512-bit Ed25519 signature in the
//!   INTENT-7 payload extension.

use vstd::prelude::*;
use ed25519_dalek::{Signature, Signer, SigningKey, Verifier, VerifyingKey};
use rand::rngs::OsRng;
use sha2::{Digest, Sha256};
use crate::buf::bytes_equal;

verus! {

/// Truncated signature length in bytes (64 bits).
pub const TRUNCATED_SIG_SIZE: usize = 8;

/// Full Ed25519 signature length in bytes.
pub const FULL_SIG_SIZE: usize = 64;

/// PAH-Hash length in bytes (112 bits).
pub const PAH_HASH_SIZE: usize = 14;

/// SHA-256 of `data` (the `sha2` crate's `Sha256` digest).
pub uninterp spec fn sha256(data: Seq<u8>) -> Seq<u8>;

/// The Ed25519 public key (compressed, 32 bytes) that `ed25519-dalek`
/// derives from a 32-byte secret seed.
pub uninterp spec fn ed25519_public_key(seed: Seq<u8>) -> Seq<u8>;

/// The Ed25519 signature (64 bytes) that `ed25519-dalek` makes of `message`
/// with the key of a 32-byte secret seed.
pub uninterp spec fn ed25519_signature(seed: Seq<u8>, message: Seq<u8>) -> Seq<u8>;

/// `ed25519-dalek` accepts `signature` on `message` under `public_key`.
pub uninterp spec fn ed25519_accepts(public_key: Seq<u8>, message: Seq<u8>, signature: Seq<u8>) -> bool;

/// `sha2::Sha256::digest`: the 32-byte SHA-256 digest of `data`. The
/// contract names the result; it claims only that equal inputs give equal
/// digests.
#[verifier::external_body]
pub(crate) fn sha256_digest(data: &[u8]) -> (r: [u8; 32])
    ensures
        r@ == sha256(data@),
{
    Sha256::digest(data).into()
}

/// `SigningKey::from_bytes(seed).verifying_key()`: the public key of a
/// secret seed, as its 32 compressed bytes. Claimed: the result is the named
/// function of the seed.
#[verifier::external_body]
fn derive_public_key(seed: &[u8; 32]) -> (r: [u8; 32])
    ensures
        r@ == ed25519_public_key(seed@),
{
    SigningKey::from_bytes(seed).verifying_key().to_bytes()
}

/// `Signer::sign` of `SigningKey`: the Ed25519 signature of `message` under
/// the key of `seed`. Claimed: the result is the named function of seed and
/// message (Ed25519 signing is deterministic), and `Verifier::verify` of the
/// matching public key accepts it (every honestly made Ed25519 signature
/// verifies).
#[verifier::external_body]
fn ed25519_sign(seed: &[u8; 32], message: &[u8]) -> (r: [u8; 64])
    ensures
        r@ == ed25519_signature(seed@, message@),
        ed25519_accepts(ed25519_public_key(seed@), message@, r@),
{
    SigningKey::from_bytes(seed).sign(message).to_bytes()
}

/// `Verifier::verify` of `VerifyingKey` on `message` and `signature`, with a
/// public key that `VerifyingKey::from_bytes` refuses counted as rejection.
/// Claimed: the result is the named function of key, message and signature.
#[verifier::external_body]
fn ed25519_verify(public_key: &[u8; 32], message: &[u8], signature: &[u8; 64]) -> (r: bool)
    ensures
        r == ed25519_accepts(public_key@, message@, signature@),
{
    match VerifyingKey::from_bytes(public_key) {
        Ok(key) => key.verify(message, &Signature::from_bytes(signature)).is_ok(),
        Err(_) => false,
    }
}

/// `SigningKey::generate(&mut OsRng)`: a fresh secret seed from the operating
/// system's random source. Nothing is claimed of the bytes.
#[verifier::external_body]
fn random_seed() -> (r: [u8; 32]) {
    SigningKey::generate(&mut OsRng).to_bytes()
}

/// Ed25519 key pair, held as its secret seed and its public key.
#[derive(Clone)]
pub struct KeyPair {
    seed: [u8; 32],
    public_key: [u8; 32],
}

impl KeyPair {
    /// The secret seed.
    pub closed spec fn seed_view(self) -> Seq<u8> {
        self.seed@
    }

    /// The public key.
    pub closed spec fn public_view(self) -> Seq<u8> {
        self.public_key@
    }

    /// The public key is the one the seed determines.
    pub open spec fn wf(self) -> bool {
        self.public_view() == ed25519_public_key(self.seed_view())
    }

    /// A key pair from a fresh random seed.
    pub fn generate() -> (r: Self)
        ensures
            r.wf(),
    {
        let seed = random_seed();
        Self::from_seed(&seed)
    }

    /// The key pair of a 32-byte secret seed.
    pub fn from_seed(seed: &[u8; 32]) -> (r: Self)
        ensures
            r.wf(),
            r.seed_view() == seed@,
    {
        let public_key = derive_public_key(seed);
        KeyPair { seed: *seed, public_key }
    }

    /// The public (verifying) key, 32 bytes.
    pub fn public_key(&self) -> (r: [u8; 32])
        ensures
            r@ == self.public_view(),
    {
        self.public_key
    }

    /// The secret seed, 32 bytes.
    pub fn seed(&self) -> (r: [u8; 32])
        ensures
            r@ == self.seed_view(),
    {
        self.seed
    }
}

/// Full Ed25519 signature (64 bytes) of `message`.
pub fn sign(keypair: &KeyPair, message: &[u8]) -> (r: [u8; FULL_SIG_SIZE])
    ensures
        r@ == ed25519_signature(keypair.seed_view(), message@),
        ed25519_accepts(ed25519_public_key(keypair.seed_view()), message@, r@),
{
    ed25519_sign(&keypair.seed, message)
}

/// The 64-bit truncated signature of `message`: the first 8 bytes of
/// SHA-256 of the full signature.
pub fn sign_truncated(keypair: &KeyPair, message: &[u8]) -> (r: [u8; TRUNCATED_SIG_SIZE])
    ensures
        r@ == sha256(ed25519_signature(keypair.seed_view(), message@)).subrange(0, 8),
{
    let full_sig = sign(keypair, message);
    truncate_signature(&full_sig)
}

/// Full Ed25519 verification.
pub fn verify(public_key: &[u8; 32], message: &[u8], signature: &[u8; FULL_SIG_SIZE]) -> (r: bool)
    ensures
        r == ed25519_accepts(public_key@, message@, signature@),
{
    ed25519_verify(public_key, message, signature)
}

/// A truncated signature alone cannot be verified (the full signature is
/// needed), so this check always answers false.
pub fn verify_truncated(
    public_key: &[u8; 32],
    message: &[u8],
    truncated_sig: &[u8; TRUNCATED_SIG_SIZE],
) -> (r: bool)
    ensures
        !r,
{
    false
}

/// The first 8 bytes (most significant first) of SHA-256 of the full
/// signature.
pub fn truncate_signature(full_signature: &[u8; FULL_SIG_SIZE]) -> (r: [u8; TRUNCATED_SIG_SIZE])
    ensures
        r@ == sha256(full_signature@).subrange(0, 8),
{
    let hash = sha256_digest(full_signature);
    let truncated: [u8; TRUNCATED_SIG_SIZE] = [
        hash[0],
        hash[1],
        hash[2],
        hash[3],
        hash[4],
        hash[5],
        hash[6],
        hash[7],
    ];
    assert(truncated@ =~= hash@.subrange(0, 8));
    truncated
}

/// First-layer fast rejection: the truncation of the full signature equals
/// the truncated signature carried in the SAP.
pub fn verify_truncated_match(
    full_signature: &[u8; FULL_SIG_SIZE],
    expected_truncated: &[u8; TRUNCATED_SIG_SIZE],
) -> (r: bool)
    ensures
        r == (sha256(full_signature@).subrange(0, 8) == expected_truncated@),
{
    let actual = truncate_signature(full_signature);
    bytes_equal(&actual, expected_truncated)
}

/// PAH-Hash: the first 14 bytes (high 112 bits) of SHA-256 of the physical
/// context.
pub fn compute_pah_hash(physical_context: &[u8]) -> (r: [u8; PAH_HASH_SIZE])
    ensures
        r@ == sha256(physical_context@).subrange(0, 14),
{
    let hash = sha256_digest(physical_context);
    let mut pah = [0u8; PAH_HASH_SIZE];
    let mut i: usize = 0;
    while i < PAH_HASH_SIZE
        invariant
            i <= PAH_HASH_SIZE,
            hash@.len() == 32,
            pah@.len() == PAH_HASH_SIZE,
            forall|j: int| 0 <= j < i ==> pah@[j] == hash@[j],
        decreases PAH_HASH_SIZE - i,
    {
        pah[i] = hash[i];
        i = i + 1;
    }
    assert(pah@ =~= hash@.subrange(0, 14));
    pah
}

} // verus!
