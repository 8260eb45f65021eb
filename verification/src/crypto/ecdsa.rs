//! ECDSA over secp256k1 and NIST P-256, signing the Blake2b-256 digest of the
//! message. The curve arithmetic and the hash are done by the `k256`, `p256`
//! and `blake2` crates; this module states what the library relies on and
//! fixes the order in which they are applied.

use crate::crypto::big_endian;
use k256::ecdsa::signature::hazmat::PrehashSigner;
use vstd::prelude::*;
use vstd::slice::slice_to_vec;
use zeroize::Zeroize;

verus! {

/// Length in bytes of a serialized scalar of either curve.
pub const SCALAR_LEN: usize = 32;

/// Length in bytes of a SEC1 compressed point of either curve.
pub const SEC1_COMPRESSED_LEN: usize = 33;

/// Length in bytes of a fixed-size `r || s` signature of either curve.
pub const SIGNATURE_LEN: usize = 64;

/// Length in bytes of a Blake2b-256 digest.
pub const DIGEST_LEN: usize = 32;

/// The two curves the signer supports.
#[derive(Clone, Copy, Debug, PartialEq, Eq, Structural)]
pub enum Curve {
    Secp256k1,
    NistP256,
}

/// The Blake2b-256 digest of a byte string.
pub uninterp spec fn blake2b_256_digest(msg: Seq<u8>) -> Seq<u8>;

/// The order of the group of secp256k1.
pub open spec fn secp256k1_order() -> nat {
    0xffffffff_ffffffff_ffffffff_fffffffe_baaedce6_af48a03b_bfd25e8c_d0364141nat
}

/// The order of the group of NIST P-256.
pub open spec fn p256_order() -> nat {
    0xffffffff_00000000_ffffffff_ffffffff_bce6faad_a7179e84_f3b9cac2_fc632551nat
}

/// Whether a big-endian string is a usable secp256k1 private scalar: not
/// zero and below the order of the group.
pub open spec fn secp256k1_scalar_ok(scalar: Seq<u8>) -> bool {
    0 < big_endian(scalar) < secp256k1_order()
}

/// The SEC1 compressed public point of a secp256k1 private scalar.
pub uninterp spec fn secp256k1_public_point(scalar: Seq<u8>) -> Seq<u8>;

/// The deterministic secp256k1 signature over a prehashed message, if the
/// curve arithmetic yields one.
pub uninterp spec fn secp256k1_signature(scalar: Seq<u8>, prehash: Seq<u8>) -> Option<Seq<u8>>;

/// Whether a big-endian string is a usable P-256 private scalar: not zero
/// and below the order of the group.
pub open spec fn p256_scalar_ok(scalar: Seq<u8>) -> bool {
    0 < big_endian(scalar) < p256_order()
}

/// The SEC1 compressed public point of a P-256 private scalar.
pub uninterp spec fn p256_public_point(scalar: Seq<u8>) -> Seq<u8>;

/// The deterministic P-256 signature over a prehashed message, if the curve
/// arithmetic yields one.
pub uninterp spec fn p256_signature(scalar: Seq<u8>, prehash: Seq<u8>) -> Option<Seq<u8>>;

/// Whether a 33-byte string decodes to a secp256k1 public key.
pub uninterp spec fn secp256k1_point_ok(point: Seq<u8>) -> bool;

/// Whether a 64-byte string is `r || s` of a secp256k1 signature: both in
/// range and not zero.
pub uninterp spec fn secp256k1_signature_ok(sig: Seq<u8>) -> bool;

/// Whether a 33-byte string decodes to a P-256 public key.
pub uninterp spec fn p256_point_ok(point: Seq<u8>) -> bool;

/// Whether a 64-byte string is `r || s` of a P-256 signature: both in range
/// and not zero.
pub uninterp spec fn p256_signature_ok(sig: Seq<u8>) -> bool;

/// Whether `point` is a public key of `curve` in its canonical encoding,
/// SEC1 compressed: 33 bytes, of which the first is 2 or 3, that the
/// curve's implementation accepts.
pub open spec fn point_ok(curve: Curve, point: Seq<u8>) -> bool {
    point.len() == SEC1_COMPRESSED_LEN && (point[0] == 2 || point[0] == 3) && match curve {
        Curve::Secp256k1 => secp256k1_point_ok(point),
        Curve::NistP256 => p256_point_ok(point),
    }
}

/// Whether `sig` is a signature of `curve` in its canonical encoding: 64
/// bytes that the curve's implementation accepts.
pub open spec fn signature_ok(curve: Curve, sig: Seq<u8>) -> bool {
    sig.len() == SIGNATURE_LEN && match curve {
        Curve::Secp256k1 => secp256k1_signature_ok(sig),
        Curve::NistP256 => p256_signature_ok(sig),
    }
}

/// Whether `scalar` is a private key of `curve`: 32 bytes that the curve's
/// implementation accepts.
pub open spec fn scalar_ok(curve: Curve, scalar: Seq<u8>) -> bool {
    scalar.len() == SCALAR_LEN && match curve {
        Curve::Secp256k1 => secp256k1_scalar_ok(scalar),
        Curve::NistP256 => p256_scalar_ok(scalar),
    }
}

/// The SEC1 compressed public key that belongs to `scalar` on `curve`.
pub open spec fn public_point(curve: Curve, scalar: Seq<u8>) -> Seq<u8> {
    match curve {
        Curve::Secp256k1 => secp256k1_public_point(scalar),
        Curve::NistP256 => p256_public_point(scalar),
    }
}

/// The signature of `msg` under `scalar` on `curve`: the message is hashed
/// with Blake2b-256 and the digest is signed.
pub open spec fn signature_of(curve: Curve, scalar: Seq<u8>, msg: Seq<u8>) -> Option<Seq<u8>> {
    match curve {
        Curve::Secp256k1 => secp256k1_signature(scalar, blake2b_256_digest(msg)),
        Curve::NistP256 => p256_signature(scalar, blake2b_256_digest(msg)),
    }
}

/// `Digest::digest` of `blake2::Blake2b<U32>`: the 32-byte Blake2b digest of
/// `msg`.
#[verifier::external_body]
fn blake2b_256(msg: &[u8]) -> (digest: Vec<u8>)
    ensures
        digest@ == blake2b_256_digest(msg@),
        digest@.len() == DIGEST_LEN,
{
    <blake2::Blake2b<blake2::digest::consts::U32> as blake2::Digest>::digest(msg).to_vec()
}

/// `k256::ecdsa::SigningKey::from_slice` on 32 bytes: tells whether the
/// scalar is accepted as a signing key, which it is where it is not zero
/// and below the order of the group.
#[verifier::external_body]
fn secp256k1_check_scalar(scalar: &[u8]) -> (ok: bool)
    requires
        scalar@.len() == SCALAR_LEN,
    ensures
        ok == secp256k1_scalar_ok(scalar@),
{
    k256::ecdsa::SigningKey::from_slice(scalar).is_ok()
}

/// `k256::ecdsa::SigningKey::random`: a fresh signing key drawn from `rng`,
/// as its 32-byte scalar. Whatever the generator yields, the scalar is one
/// that `from_slice` accepts.
#[verifier::external_body]
fn secp256k1_random<R: rand_core::CryptoRngCore>(rng: &mut R) -> (scalar: Vec<u8>)
    ensures
        scalar@.len() == SCALAR_LEN,
        secp256k1_scalar_ok(scalar@),
{
    k256::ecdsa::SigningKey::random(rng).to_bytes().to_vec()
}

/// `k256::ecdsa::VerifyingKey::from_sec1_bytes` on 33 bytes: tells whether
/// they decode to a public key.
#[verifier::external_body]
fn secp256k1_check_point(point: &[u8]) -> (ok: bool)
    requires
        point@.len() == SEC1_COMPRESSED_LEN,
    ensures
        ok == secp256k1_point_ok(point@),
{
    k256::ecdsa::VerifyingKey::from_sec1_bytes(point).is_ok()
}

/// `k256::ecdsa::Signature::from_slice` on 64 bytes: tells whether they
/// decode to a signature.
#[verifier::external_body]
fn secp256k1_check_signature(sig: &[u8]) -> (ok: bool)
    requires
        sig@.len() == SIGNATURE_LEN,
    ensures
        ok == secp256k1_signature_ok(sig@),
{
    k256::ecdsa::Signature::from_slice(sig).is_ok()
}

/// `p256::ecdsa::VerifyingKey::from_sec1_bytes` on 33 bytes: tells whether
/// they decode to a public key.
#[verifier::external_body]
fn p256_check_point(point: &[u8]) -> (ok: bool)
    requires
        point@.len() == SEC1_COMPRESSED_LEN,
    ensures
        ok == p256_point_ok(point@),
{
    p256::ecdsa::VerifyingKey::from_sec1_bytes(point).is_ok()
}

/// `p256::ecdsa::Signature::from_slice` on 64 bytes: tells whether they
/// decode to a signature.
#[verifier::external_body]
fn p256_check_signature(sig: &[u8]) -> (ok: bool)
    requires
        sig@.len() == SIGNATURE_LEN,
    ensures
        ok == p256_signature_ok(sig@),
{
    p256::ecdsa::Signature::from_slice(sig).is_ok()
}

/// `k256::ecdsa::SigningKey::verifying_key`, encoded with
/// `to_encoded_point(true)`: the 33-byte SEC1 compressed public key, whose
/// first byte is 2 or 3 and which decodes to the key again.
#[verifier::external_body]
fn secp256k1_public(scalar: &[u8]) -> (point: Vec<u8>)
    requires
        scalar@.len() == SCALAR_LEN,
        secp256k1_scalar_ok(scalar@),
    ensures
        point@ == secp256k1_public_point(scalar@),
        point@.len() == SEC1_COMPRESSED_LEN,
        point@[0] == 2 || point@[0] == 3,
        secp256k1_point_ok(point@),
{
    let key = k256::ecdsa::SigningKey::from_slice(scalar).unwrap();
    key.verifying_key().to_encoded_point(true).as_bytes().to_vec()
}

/// `PrehashSigner::sign_prehash` of `k256::ecdsa::SigningKey`: the RFC 6979
/// deterministic signature over `prehash`, as 64 bytes `r || s`, which
/// decode to the signature again.
#[verifier::external_body]
fn secp256k1_sign_prehash(scalar: &[u8], prehash: &[u8]) -> (sig: Option<Vec<u8>>)
    requires
        scalar@.len() == SCALAR_LEN,
        secp256k1_scalar_ok(scalar@),
    ensures
        sig is Some <==> secp256k1_signature(scalar@, prehash@) is Some,
        sig matches Some(bytes) ==> secp256k1_signature(scalar@, prehash@) == Some(bytes@)
            && bytes@.len() == SIGNATURE_LEN && secp256k1_signature_ok(bytes@),
{
    let key = k256::ecdsa::SigningKey::from_slice(scalar).unwrap();
    let sig: k256::ecdsa::Signature = key.sign_prehash(prehash).ok()?;
    Some(sig.to_vec())
}

/// `p256::ecdsa::SigningKey::from_slice` on 32 bytes: tells whether the
/// scalar is accepted as a signing key, which it is where it is not zero
/// and below the order of the group.
#[verifier::external_body]
fn p256_check_scalar(scalar: &[u8]) -> (ok: bool)
    requires
        scalar@.len() == SCALAR_LEN,
    ensures
        ok == p256_scalar_ok(scalar@),
{
    p256::ecdsa::SigningKey::from_slice(scalar).is_ok()
}

/// `p256::ecdsa::SigningKey::random`: a fresh signing key drawn from `rng`,
/// as its 32-byte scalar. Whatever the generator yields, the scalar is one
/// that `from_slice` accepts.
#[verifier::external_body]
fn p256_random<R: rand_core::CryptoRngCore>(rng: &mut R) -> (scalar: Vec<u8>)
    ensures
        scalar@.len() == SCALAR_LEN,
        p256_scalar_ok(scalar@),
{
    p256::ecdsa::SigningKey::random(rng).to_bytes().to_vec()
}

/// `p256::ecdsa::SigningKey::verifying_key`, encoded with
/// `to_encoded_point(true)`: the 33-byte SEC1 compressed public key, whose
/// first byte is 2 or 3 and which decodes to the key again.
#[verifier::external_body]
fn p256_public(scalar: &[u8]) -> (point: Vec<u8>)
    requires
        scalar@.len() == SCALAR_LEN,
        p256_scalar_ok(scalar@),
    ensures
        point@ == p256_public_point(scalar@),
        point@.len() == SEC1_COMPRESSED_LEN,
        point@[0] == 2 || point@[0] == 3,
        p256_point_ok(point@),
{
    let key = p256::ecdsa::SigningKey::from_slice(scalar).unwrap();
    key.verifying_key().to_encoded_point(true).as_bytes().to_vec()
}

/// `PrehashSigner::sign_prehash` of `p256::ecdsa::SigningKey`: the RFC 6979
/// deterministic signature over `prehash`, as 64 bytes `r || s`, which
/// decode to the signature again.
#[verifier::external_body]
fn p256_sign_prehash(scalar: &[u8], prehash: &[u8]) -> (sig: Option<Vec<u8>>)
    requires
        scalar@.len() == SCALAR_LEN,
        p256_scalar_ok(scalar@),
    ensures
        sig is Some <==> p256_signature(scalar@, prehash@) is Some,
        sig matches Some(bytes) ==> p256_signature(scalar@, prehash@) == Some(bytes@)
            && bytes@.len() == SIGNATURE_LEN && p256_signature_ok(bytes@),
{
    let key = p256::ecdsa::SigningKey::from_slice(scalar).unwrap();
    let sig: p256::ecdsa::Signature = key.sign_prehash(prehash).ok()?;
    Some(sig.to_vec())
}

/// Tells whether `scalar` is a private key of `curve`.
pub fn check_scalar(curve: Curve, scalar: &[u8]) -> (ok: bool)
    ensures
        ok == scalar_ok(curve, scalar@),
{
    if scalar.len() != SCALAR_LEN {
        return false;
    }
    match curve {
        Curve::Secp256k1 => secp256k1_check_scalar(scalar),
        Curve::NistP256 => p256_check_scalar(scalar),
    }
}

/// Tells whether `point` is a public key of `curve` in its canonical
/// encoding.
pub fn check_point(curve: Curve, point: &[u8]) -> (ok: bool)
    ensures
        ok == point_ok(curve, point@),
{
    if point.len() != SEC1_COMPRESSED_LEN {
        return false;
    }
    if point[0] != 2 && point[0] != 3 {
        return false;
    }
    match curve {
        Curve::Secp256k1 => secp256k1_check_point(point),
        Curve::NistP256 => p256_check_point(point),
    }
}

/// Tells whether `sig` is a signature of `curve` in its canonical encoding.
pub fn check_signature(curve: Curve, sig: &[u8]) -> (ok: bool)
    ensures
        ok == signature_ok(curve, sig@),
{
    if sig.len() != SIGNATURE_LEN {
        return false;
    }
    match curve {
        Curve::Secp256k1 => secp256k1_check_signature(sig),
        Curve::NistP256 => p256_check_signature(sig),
    }
}

/// Draws a fresh private key of `curve` from `rng`.
pub fn random_scalar<R: rand_core::CryptoRngCore>(curve: Curve, rng: &mut R) -> (scalar: Vec<u8>)
    ensures
        scalar_ok(curve, scalar@),
{
    match curve {
        Curve::Secp256k1 => secp256k1_random(rng),
        Curve::NistP256 => p256_random(rng),
    }
}

/// The SEC1 compressed public key of a private key.
pub fn public_key(curve: Curve, scalar: &[u8]) -> (point: Vec<u8>)
    requires
        scalar_ok(curve, scalar@),
    ensures
        point@ == public_point(curve, scalar@),
        point_ok(curve, point@),
{
    match curve {
        Curve::Secp256k1 => secp256k1_public(scalar),
        Curve::NistP256 => p256_public(scalar),
    }
}

/// Signs `msg`: hashes it with Blake2b-256 and signs the digest. `None`
/// when the curve implementation reports a failure.
pub fn try_sign(curve: Curve, scalar: &[u8], msg: &[u8]) -> (sig: Option<Vec<u8>>)
    requires
        scalar_ok(curve, scalar@),
    ensures
        sig is Some <==> signature_of(curve, scalar@, msg@) is Some,
        sig matches Some(bytes) ==> signature_of(curve, scalar@, msg@) == Some(bytes@)
            && signature_ok(curve, bytes@),
{
    let digest = blake2b_256(msg);
    match curve {
        Curve::Secp256k1 => secp256k1_sign_prehash(scalar, digest.as_slice()),
        Curve::NistP256 => p256_sign_prehash(scalar, digest.as_slice()),
    }
}

/// A public key of one of the two curves, SEC1 compressed.
#[derive(Debug)]
pub struct VerifyingKey {
    pub curve: Curve,
    pub point: Vec<u8>,
}

impl View for VerifyingKey {
    type V = (Curve, Seq<u8>);

    open spec fn view(&self) -> (Curve, Seq<u8>) {
        (self.curve, self.point@)
    }
}

/// A signature of one of the two curves, as `r || s`.
#[derive(Debug)]
pub struct Signature {
    pub curve: Curve,
    pub bytes: Vec<u8>,
}

impl View for Signature {
    type V = (Curve, Seq<u8>);

    open spec fn view(&self) -> (Curve, Seq<u8>) {
        (self.curve, self.bytes@)
    }
}

/// A private key of one of the two curves. The scalar is overwritten when
/// the key is dropped.
pub struct SigningKey {
    curve: Curve,
    scalar: Vec<u8>,
}

impl View for SigningKey {
    type V = (Curve, Seq<u8>);

    closed spec fn view(&self) -> (Curve, Seq<u8>) {
        (self.curve, self.scalar@)
    }
}

impl Drop for SigningKey {
    /// `Zeroize::zeroize` on the scalar, before the memory is released.
    #[verifier::external_body]
    fn drop(&mut self)
        opens_invariants none
        no_unwind
    {
        self.scalar.zeroize();
    }
}

impl SigningKey {
    #[verifier::type_invariant]
    spec fn well_formed(self) -> bool {
        scalar_ok(self.curve, self.scalar@)
    }

    /// Makes a key from its scalar; `None` exactly when the curve does not
    /// accept the scalar.
    pub fn from_bytes(curve: Curve, scalar: &[u8]) -> (r: Option<SigningKey>)
        ensures
            r is Some <==> scalar_ok(curve, scalar@),
            r matches Some(key) ==> key@ == (curve, scalar@),
    {
        if check_scalar(curve, scalar) {
            Some(SigningKey { curve, scalar: slice_to_vec(scalar) })
        } else {
            None
        }
    }

    /// Draws a fresh key of `curve` from `rng`.
    pub fn random<R: rand_core::CryptoRngCore>(curve: Curve, rng: &mut R) -> (key: SigningKey)
        ensures
            key@.0 == curve,
            scalar_ok(curve, key@.1),
    {
        SigningKey { curve, scalar: random_scalar(curve, rng) }
    }

    /// The curve of the key.
    pub fn curve(&self) -> (curve: Curve)
        ensures
            curve == self@.0,
    {
        self.curve
    }

    /// The scalar, big-endian, which the curve accepts.
    pub fn to_bytes(&self) -> (scalar: Vec<u8>)
        ensures
            scalar@ == self@.1,
            scalar_ok(self@.0, self@.1),
    {
        proof {
            use_type_invariant(self);
        }
        slice_to_vec(self.scalar.as_slice())
    }

    /// The public key that belongs to the key.
    pub fn public_key(&self) -> (public: VerifyingKey)
        ensures
            public@ == (self@.0, public_point(self@.0, self@.1)),
            public@.1.len() == SEC1_COMPRESSED_LEN,
    {
        proof {
            use_type_invariant(self);
        }
        VerifyingKey { curve: self.curve, point: public_key(self.curve, self.scalar.as_slice()) }
    }

    /// Signs the Blake2b-256 digest of `msg`; `None` when the curve
    /// implementation reports a failure.
    pub fn try_sign(&self, msg: &[u8]) -> (r: Option<Signature>)
        ensures
            r is Some <==> signature_of(self@.0, self@.1, msg@) is Some,
            r matches Some(sig) ==> sig@.0 == self@.0 && signature_of(self@.0, self@.1, msg@)
                == Some(sig@.1) && sig@.1.len() == SIGNATURE_LEN,
    {
        proof {
            use_type_invariant(self);
        }
        match try_sign(self.curve, self.scalar.as_slice(), msg) {
            Some(bytes) => Some(Signature { curve: self.curve, bytes }),
            None => None,
        }
    }
}

} // verus!
