//! BLS12-381 signatures in the minimal-public-key setting (public keys in
//! G1, signatures in G2) through the `blst` crate, with the message
//! augmentation scheme: every message is prefixed with the signer's
//! compressed public key before it is hashed to the curve.

use crate::crypto::big_endian;
use vstd::prelude::*;

verus! {

/// Length in bytes of a serialized secret scalar.
pub const SECRET_LEN: usize = 32;

/// Length in bytes of the input key material that key generation consumes.
pub const IKM_LEN: usize = 32;

/// Length in bytes of a compressed G1 public key.
pub const PUBLIC_KEY_LEN: usize = 48;

/// Length in bytes of a compressed G2 signature.
pub const SIGNATURE_LEN: usize = 96;

/// The code `blst` reports for input it cannot decode.
pub const BAD_ENCODING: u8 = 1;

/// The domain-separation tag, `BLS_SIG_BLS12381G2_XMD:SHA-256_SSWU_RO_AUG_`
/// in ASCII.
pub open spec fn dst_spec() -> Seq<u8> {
    seq![
        66u8, 76, 83, 95, 83, 73, 71, 95, 66, 76, 83, 49, 50, 51, 56, 49, 71, 50, 95, 88, 77, 68,
        58, 83, 72, 65, 45, 50, 53, 54, 95, 83, 83, 87, 85, 95, 82, 79, 95, 65, 85, 71, 95,
    ]
}

/// The order of the groups of BLS12-381.
pub open spec fn group_order() -> nat {
    0x73eda753_299d7d48_3339d808_09a1d805_53bda402_fffe5bfe_ffffffff_00000001nat
}

/// Whether a byte string is a usable secret scalar: 32 bytes that hold,
/// big-endian, a number that is not zero and below the order of the groups.
pub open spec fn bls_secret_ok(secret: Seq<u8>) -> bool {
    secret.len() == SECRET_LEN && 0 < big_endian(secret) < group_order()
}

/// The secret scalar that key generation derives from key material and a
/// key-info string.
pub uninterp spec fn bls_derived_secret(ikm: Seq<u8>, info: Seq<u8>) -> Seq<u8>;

/// The compressed G1 public key of a secret scalar.
pub uninterp spec fn bls_public_point(secret: Seq<u8>) -> Seq<u8>;

/// The compressed G2 signature of `msg` under `secret`, hashed to the curve
/// with tag `dst` after prefixing `aug`.
pub uninterp spec fn bls_signature(secret: Seq<u8>, msg: Seq<u8>, dst: Seq<u8>, aug: Seq<u8>) -> Seq<
    u8,
>;

/// Whether a byte string is the compressed encoding of a point of G1.
pub uninterp spec fn bls_public_ok(point: Seq<u8>) -> bool;

/// Whether a byte string is the compressed encoding of a point of G2.
pub uninterp spec fn bls_signature_ok(sig: Seq<u8>) -> bool;

/// Whether `point` is a BLS public key in its canonical encoding: 48 bytes
/// that decompress to a point of G1.
pub open spec fn point_ok(point: Seq<u8>) -> bool {
    point.len() == PUBLIC_KEY_LEN && bls_public_ok(point)
}

/// Whether `sig` is a BLS signature in its canonical encoding: 96 bytes that
/// decompress to a point of G2.
pub open spec fn signature_ok(sig: Seq<u8>) -> bool {
    sig.len() == SIGNATURE_LEN && bls_signature_ok(sig)
}

/// Whether `secret` is a BLS private key.
pub open spec fn secret_ok(secret: Seq<u8>) -> bool {
    secret.len() == SECRET_LEN && bls_secret_ok(secret)
}

/// Whether `secret` is what key generation derives from some 32 bytes of
/// key material and an empty key-info string.
pub open spec fn derived(secret: Seq<u8>) -> bool {
    exists|ikm: Seq<u8>|
        ikm.len() == IKM_LEN && secret == #[trigger] bls_derived_secret(ikm, Seq::<u8>::empty())
}

/// The signature of `msg` under `secret` in the augmented scheme.
pub open spec fn signature_of(secret: Seq<u8>, msg: Seq<u8>) -> Seq<u8> {
    bls_signature(secret, msg, dst_spec(), bls_public_point(secret))
}

/// `blst::min_pk::SecretKey::from_bytes`: tells whether the bytes decode to
/// a secret key, which 32 bytes do that hold a number that is not zero and
/// below the order of the groups; the code reported otherwise is that of a
/// bad encoding.
#[verifier::external_body]
fn bls_check_secret(secret: &[u8]) -> (r: Result<(), u8>)
    ensures
        r is Ok <==> bls_secret_ok(secret@),
        r is Ok ==> secret@.len() == SECRET_LEN,
        r matches Err(code) ==> code == BAD_ENCODING,
{
    match blst::min_pk::SecretKey::from_bytes(secret) {
        Ok(_) => Ok(()),
        Err(e) => Err(e as u8),
    }
}

/// `RngCore::fill_bytes` on a fresh buffer of `len` bytes.
#[verifier::external_body]
fn random_bytes<R: rand_core::CryptoRngCore>(rng: &mut R, len: usize) -> (bytes: Vec<u8>)
    ensures
        bytes@.len() == len,
{
    let mut bytes = vec![0u8; len];
    rng.fill_bytes(&mut bytes);
    bytes
}

/// `blst::min_pk::SecretKey::key_gen`, serialized with `to_bytes`: fails on
/// key material shorter than 32 bytes and on nothing else. What it derives
/// is reduced below the group order and is not zero, so it decodes to a
/// secret key.
#[verifier::external_body]
fn bls_key_gen(ikm: &[u8], info: &[u8]) -> (r: Result<Vec<u8>, u8>)
    ensures
        r is Ok <==> ikm@.len() >= IKM_LEN,
        r matches Ok(secret) ==> secret@ == bls_derived_secret(ikm@, info@) && secret@.len()
            == SECRET_LEN && bls_secret_ok(secret@),
        r matches Err(code) ==> code == BAD_ENCODING,
{
    match blst::min_pk::SecretKey::key_gen(ikm, info) {
        Ok(key) => Ok(key.to_bytes().to_vec()),
        Err(e) => Err(e as u8),
    }
}

/// `blst::min_pk::PublicKey::uncompress`: tells whether the bytes
/// decompress to a public key, which only 48 bytes do; the error is the code
/// that `blst` reports.
#[verifier::external_body]
fn bls_check_public(point: &[u8]) -> (r: Result<(), u8>)
    ensures
        r is Ok <==> bls_public_ok(point@),
        r is Ok ==> point@.len() == PUBLIC_KEY_LEN,
{
    match blst::min_pk::PublicKey::uncompress(point) {
        Ok(_) => Ok(()),
        Err(e) => Err(e as u8),
    }
}

/// `blst::min_pk::Signature::uncompress`: tells whether the bytes decompress
/// to a signature, which only 96 bytes do; the error is the code that `blst`
/// reports.
#[verifier::external_body]
fn bls_check_signature(sig: &[u8]) -> (r: Result<(), u8>)
    ensures
        r is Ok <==> bls_signature_ok(sig@),
        r is Ok ==> sig@.len() == SIGNATURE_LEN,
{
    match blst::min_pk::Signature::uncompress(sig) {
        Ok(_) => Ok(()),
        Err(e) => Err(e as u8),
    }
}

/// `blst::min_pk::SecretKey::sk_to_pk`, compressed with `to_bytes`: the
/// 48-byte public key, which decompresses to the key again.
#[verifier::external_body]
fn bls_public(secret: &[u8]) -> (point: Vec<u8>)
    requires
        bls_secret_ok(secret@),
    ensures
        point@ == bls_public_point(secret@),
        point@.len() == PUBLIC_KEY_LEN,
        bls_public_ok(point@),
{
    let key = blst::min_pk::SecretKey::from_bytes(secret).unwrap();
    key.sk_to_pk().to_bytes().to_vec()
}

/// `blst::min_pk::SecretKey::sign`, compressed with `to_bytes`: the 96-byte
/// signature, which decompresses to the signature again.
#[verifier::external_body]
fn bls_sign(secret: &[u8], msg: &[u8], dst: &[u8], aug: &[u8]) -> (sig: Vec<u8>)
    requires
        bls_secret_ok(secret@),
    ensures
        sig@ == bls_signature(secret@, msg@, dst@, aug@),
        sig@.len() == SIGNATURE_LEN,
        bls_signature_ok(sig@),
{
    let key = blst::min_pk::SecretKey::from_bytes(secret).unwrap();
    key.sign(msg, dst, aug).to_bytes().to_vec()
}

/// The domain-separation tag as bytes.
pub fn dst() -> (tag: Vec<u8>)
    ensures
        tag@ == dst_spec(),
{
    let tag: [u8; 43] = [
        66, 76, 83, 95, 83, 73, 71, 95, 66, 76, 83, 49, 50, 51, 56, 49, 71, 50, 95, 88, 77, 68, 58,
        83, 72, 65, 45, 50, 53, 54, 95, 83, 83, 87, 85, 95, 82, 79, 95, 65, 85, 71, 95,
    ];
    let mut out: Vec<u8> = Vec::new();
    let mut i: usize = 0;
    while i < 43
        invariant
            i <= 43,
            out@.len() == i,
            tag@ == dst_spec(),
            forall|j: int| 0 <= j < i ==> out@[j] == tag@[j],
        decreases 43 - i,
    {
        out.push(tag[i]);
        i += 1;
    }
    assert(out@ =~= dst_spec());
    out
}

/// Tells whether `secret` is a BLS private key; the error is the code that
/// `blst` reports.
pub fn check_secret(secret: &[u8]) -> (r: Result<(), u8>)
    ensures
        r is Ok <==> secret_ok(secret@),
        r matches Err(code) ==> code == BAD_ENCODING,
{
    bls_check_secret(secret)
}

/// Tells whether `point` is a BLS public key in its canonical encoding; the
/// error is the code that `blst` reports.
pub fn check_point(point: &[u8]) -> (r: Result<(), u8>)
    ensures
        r is Ok <==> point_ok(point@),
{
    bls_check_public(point)
}

/// Tells whether `sig` is a BLS signature in its canonical encoding; the
/// error is the code that `blst` reports.
pub fn check_signature(sig: &[u8]) -> (r: Result<(), u8>)
    ensures
        r is Ok <==> signature_ok(sig@),
{
    bls_check_signature(sig)
}

/// Draws 32 bytes of key material from `rng` and derives a secret scalar
/// from them with an empty key-info string. The derivation cannot fail on
/// key material of that length, and what it derives is a private key.
pub fn random_secret<R: rand_core::CryptoRngCore>(rng: &mut R) -> (r: Result<Vec<u8>, u8>)
    ensures
        r matches Ok(secret) ==> secret_ok(secret@) && derived(secret@),
        r is Ok,
{
    let ikm = random_bytes(rng, IKM_LEN);
    let info: Vec<u8> = Vec::new();
    let r = bls_key_gen(ikm.as_slice(), info.as_slice());
    proof {
        if r is Ok {
            assert(info@ =~= Seq::<u8>::empty());
            assert(r->Ok_0@ == bls_derived_secret(ikm@, Seq::<u8>::empty()));
        }
    }
    r
}

/// The compressed public key of a secret scalar.
pub fn public_key(secret: &[u8]) -> (point: Vec<u8>)
    requires
        secret_ok(secret@),
    ensures
        point@ == bls_public_point(secret@),
        point_ok(point@),
{
    bls_public(secret)
}

/// Signs `msg` under the domain-separation tag, augmented with the signer's
/// compressed public key.
pub fn sign(secret: &[u8], msg: &[u8]) -> (sig: Vec<u8>)
    requires
        secret_ok(secret@),
    ensures
        sig@ == signature_of(secret@, msg@),
        signature_ok(sig@),
{
    let aug = bls_public(secret);
    let tag = dst();
    bls_sign(secret, msg, tag.as_slice(), aug.as_slice())
}

} // verus!
