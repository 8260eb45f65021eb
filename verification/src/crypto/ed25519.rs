//! Pure Ed25519 through the `ed25519-dalek` crate: the message is signed
//! directly, with no prehash.

use ed25519_dalek::Signer;
use vstd::prelude::*;

verus! {

/// Length in bytes of an Ed25519 seed.
pub const SEED_LEN: usize = 32;

/// Length in bytes of an Ed25519 public key.
pub const PUBLIC_KEY_LEN: usize = 32;

/// Length in bytes of an Ed25519 signature.
pub const SIGNATURE_LEN: usize = 64;

/// The public key derived from a 32-byte seed.
pub uninterp spec fn ed25519_public_point(seed: Seq<u8>) -> Seq<u8>;

/// The Ed25519 signature of a message under a 32-byte seed.
pub uninterp spec fn ed25519_signature(seed: Seq<u8>, msg: Seq<u8>) -> Seq<u8>;

/// Whether a 32-byte string is the encoding of a point of the curve.
pub uninterp spec fn ed25519_point_ok(point: Seq<u8>) -> bool;

/// Whether `point` is an Ed25519 public key in its standard encoding: 32
/// bytes that decode to a point of the curve.
pub open spec fn point_ok(point: Seq<u8>) -> bool {
    point.len() == PUBLIC_KEY_LEN && ed25519_point_ok(point)
}

/// Whether `sig` is an Ed25519 signature in its standard encoding: any 64
/// bytes are read as one.
pub open spec fn signature_ok(sig: Seq<u8>) -> bool {
    sig.len() == SIGNATURE_LEN
}

/// Whether `seed` is an Ed25519 private key: any 32 bytes are.
pub open spec fn seed_ok(seed: Seq<u8>) -> bool {
    seed.len() == SEED_LEN
}

/// `ed25519_dalek::SigningKey::generate`: a fresh key drawn from `rng`, as
/// its 32-byte seed.
#[verifier::external_body]
fn ed25519_random<R: rand_core::CryptoRngCore>(rng: &mut R) -> (seed: Vec<u8>)
    ensures
        seed@.len() == SEED_LEN,
{
    ed25519_dalek::SigningKey::generate(rng).to_bytes().to_vec()
}

/// `ed25519_dalek::VerifyingKey::from_bytes` on 32 bytes: tells whether
/// they decode to a point of the curve.
#[verifier::external_body]
fn ed25519_check_point(point: &[u8]) -> (ok: bool)
    requires
        point@.len() == PUBLIC_KEY_LEN,
    ensures
        ok == ed25519_point_ok(point@),
{
    ed25519_dalek::VerifyingKey::from_bytes(point.try_into().unwrap()).is_ok()
}

/// `ed25519_dalek::SigningKey::verifying_key`, as the standard 32-byte
/// encoding of the public key, which decodes to the key again.
#[verifier::external_body]
fn ed25519_public(seed: &[u8]) -> (point: Vec<u8>)
    requires
        seed@.len() == SEED_LEN,
    ensures
        point@ == ed25519_public_point(seed@),
        point@.len() == PUBLIC_KEY_LEN,
        ed25519_point_ok(point@),
{
    let key = ed25519_dalek::SigningKey::from_bytes(seed.try_into().unwrap());
    key.verifying_key().to_bytes().to_vec()
}

/// `Signer::try_sign` of `ed25519_dalek::SigningKey`: the signature of
/// `msg`, as the standard 64-byte encoding. The call cannot fail.
#[verifier::external_body]
fn ed25519_sign(seed: &[u8], msg: &[u8]) -> (sig: Vec<u8>)
    requires
        seed@.len() == SEED_LEN,
    ensures
        sig@ == ed25519_signature(seed@, msg@),
        sig@.len() == SIGNATURE_LEN,
{
    let key = ed25519_dalek::SigningKey::from_bytes(seed.try_into().unwrap());
    key.sign(msg).to_bytes().to_vec()
}

/// Tells whether `seed` is an Ed25519 private key.
pub fn check_seed(seed: &[u8]) -> (ok: bool)
    ensures
        ok == seed_ok(seed@),
{
    seed.len() == SEED_LEN
}

/// Tells whether `point` is an Ed25519 public key in its standard encoding.
pub fn check_point(point: &[u8]) -> (ok: bool)
    ensures
        ok == point_ok(point@),
{
    if point.len() != PUBLIC_KEY_LEN {
        return false;
    }
    ed25519_check_point(point)
}

/// Tells whether `sig` is an Ed25519 signature in its standard encoding.
pub fn check_signature(sig: &[u8]) -> (ok: bool)
    ensures
        ok == signature_ok(sig@),
{
    sig.len() == SIGNATURE_LEN
}

/// Draws a fresh seed from `rng`.
pub fn random_seed<R: rand_core::CryptoRngCore>(rng: &mut R) -> (seed: Vec<u8>)
    ensures
        seed_ok(seed@),
{
    ed25519_random(rng)
}

/// The public key of a seed.
pub fn public_key(seed: &[u8]) -> (point: Vec<u8>)
    requires
        seed_ok(seed@),
    ensures
        point@ == ed25519_public_point(seed@),
        point_ok(point@),
{
    ed25519_public(seed)
}

/// Signs `msg` itself, with no prehash.
pub fn sign(seed: &[u8], msg: &[u8]) -> (sig: Vec<u8>)
    requires
        seed_ok(seed@),
    ensures
        sig@ == ed25519_signature(seed@, msg@),
        sig@.len() == SIGNATURE_LEN,
{
    ed25519_sign(seed, msg)
}

} // verus!
