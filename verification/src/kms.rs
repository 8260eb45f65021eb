//! Attested decryption with a key-management service. The service releases
//! a plaintext only to an enclave that proves what it runs: the enclave
//! binds the public half of an RSA key into an attestation document, sends
//! the document along with the ciphertext, and gets the plaintext back
//! wrapped under that key, inside a CMS envelope.
//!
//! This module holds the steps that decide and compute. Asking the secure
//! module for the document and calling the service lie between them and are
//! the caller's part.

use crate::kms::envelope::{wrapped_key, wrapped_key_of, EnvelopeError};
use crate::nsm::{key_attestation, AttestationRequest};
use rsa::pkcs8::{DecodePrivateKey, EncodePublicKey};
use vstd::prelude::*;
use vstd::slice::slice_to_vec;
use zeroize::Zeroize;

pub mod envelope;

verus! {

/// How the service is to wrap the plaintext for the recipient.
#[derive(Clone, Copy, Debug, PartialEq, Eq, Structural)]
pub enum KeyEncryptionAlgorithm {
    /// RSAES-OAEP with SHA-256.
    RsaesOaepSha256,
}

/// Whom the service is to wrap the plaintext for.
#[derive(Debug)]
pub struct Recipient {
    pub key_encryption_algorithm: KeyEncryptionAlgorithm,
    pub attestation_document: Vec<u8>,
}

/// A call of the service's decryption.
#[derive(Debug)]
pub struct DecryptCall {
    pub ciphertext_blob: Vec<u8>,
    pub recipient: Recipient,
}

/// Why an attested decryption failed.
#[derive(Debug)]
pub enum Error {
    /// The public key could not be encoded.
    Spki,
    /// The secure module gave no attestation document; the text is its.
    Attestation(String),
    /// The service refused or failed; the text is its.
    Kms(String),
    /// The service's answer is no envelope that holds a wrapped key.
    Envelope(EnvelopeError),
    /// The wrapped key could not be unwrapped; the text says why.
    Unwrap(String),
}

/// The RSA key that attested decryption binds, held as the PKCS#8 DER
/// encoding of the private key. The bytes are overwritten when the key is
/// dropped.
#[derive(Clone)]
pub struct ClientKey {
    der: Vec<u8>,
}

impl View for ClientKey {
    type V = Seq<u8>;

    closed spec fn view(&self) -> Seq<u8> {
        self.der@
    }
}

impl Drop for ClientKey {
    /// `Zeroize::zeroize` on the encoding, before the memory is released.
    #[verifier::external_body]
    fn drop(&mut self)
        opens_invariants none
        no_unwind
    {
        self.der.zeroize();
    }
}

impl ClientKey {
    /// The key with the given PKCS#8 DER encoding.
    pub fn from_der(der: Vec<u8>) -> (key: ClientKey)
        ensures
            key@ == der@,
    {
        ClientKey { der }
    }
}

/// The DER encoding of the SubjectPublicKeyInfo of the public half of the
/// RSA key with the given PKCS#8 DER encoding, if the bytes are such a key.
pub uninterp spec fn spki_der(key_der: Seq<u8>) -> Option<Seq<u8>>;

/// What unwrapping `wrapped` with RSAES-OAEP and SHA-256 under the RSA key
/// with the given PKCS#8 DER encoding gives: the plaintext, or the text of
/// the error.
pub uninterp spec fn oaep_sha256_opened(key_der: Seq<u8>, wrapped: Seq<u8>) -> Result<
    Seq<u8>,
    Seq<char>,
>;

/// What the last step comes to under a key: the plaintext that unwrapping
/// gives, or an unwrapping error that carries the reason.
pub open spec fn unwrapped_with(key_der: Seq<u8>, wrapped: Seq<u8>, r: Result<Vec<u8>, Error>) -> bool {
    match oaep_sha256_opened(key_der, wrapped) {
        Ok(plaintext) => r matches Ok(bytes) && bytes@ == plaintext,
        Err(text) => r matches Err(Error::Unwrap(reason)) && reason@ == text,
    }
}

/// `DecodePrivateKey::from_pkcs8_der` of `rsa::RsaPrivateKey`, then
/// `EncodePublicKey::to_public_key_der` of its public half: the DER
/// encoding of the SubjectPublicKeyInfo, or nothing where the bytes are no
/// key or encoding fails.
#[verifier::external_body]
fn public_key_der(key_der: &[u8]) -> (r: Option<Vec<u8>>)
    ensures
        spki_der(key_der@) == match r {
            Some(der) => Some(der@),
            None => None,
        },
{
    let key = rsa::RsaPrivateKey::from_pkcs8_der(key_der).ok()?;
    key.to_public_key().to_public_key_der().ok().map(|der| der.into_vec())
}

/// `DecodePrivateKey::from_pkcs8_der` of `rsa::RsaPrivateKey`, then
/// `RsaPrivateKey::decrypt` with `Oaep::new::<Sha256>()`: the plaintext of
/// `wrapped`, or the text of the error.
#[verifier::external_body]
fn oaep_sha256_decrypt(key_der: &[u8], wrapped: &[u8]) -> (r: Result<Vec<u8>, String>)
    ensures
        oaep_sha256_opened(key_der@, wrapped@) == match r {
            Ok(plaintext) => Ok::<Seq<u8>, Seq<char>>(plaintext@),
            Err(text) => Err(text@),
        },
{
    let key = rsa::RsaPrivateKey::from_pkcs8_der(key_der).map_err(|e| e.to_string())?;
    key.decrypt(rsa::Oaep::new::<sha2::Sha256>(), wrapped).map_err(|e| e.to_string())
}

/// The first step: the request for an attestation document that binds the
/// public half of `key`, as the DER encoding of its SubjectPublicKeyInfo.
/// User data and nonce are not used. A key whose public half cannot be
/// encoded gives no request.
pub fn attestation_request(key: &ClientKey) -> (r: Result<AttestationRequest, Error>)
    ensures
        match spki_der(key@) {
            Some(der) => r matches Ok(request) && request.user_data is None && request.nonce
                is None && (request.public_key matches Some(public) && public@ == der),
            None => r matches Err(Error::Spki),
        },
{
    match public_key_der(key.der.as_slice()) {
        Some(der) => Ok(key_attestation(der)),
        None => Err(Error::Spki),
    }
}

/// The second step: the call of the service, once the secure module has
/// answered. Without a document there is no call.
pub fn decrypt_call(ciphertext: &[u8], attested: Result<Vec<u8>, String>) -> (r: Result<
    DecryptCall,
    Error,
>)
    ensures
        match attested {
            Ok(document) => r matches Ok(call) && call.ciphertext_blob@ == ciphertext@
                && call.recipient.key_encryption_algorithm
                == KeyEncryptionAlgorithm::RsaesOaepSha256
                && call.recipient.attestation_document@ == document@,
            Err(text) => r matches Err(Error::Attestation(t)) && t@ == text@,
        },
{
    match attested {
        Ok(document) => Ok(
            DecryptCall {
                ciphertext_blob: slice_to_vec(ciphertext),
                recipient: Recipient {
                    key_encryption_algorithm: KeyEncryptionAlgorithm::RsaesOaepSha256,
                    attestation_document: document,
                },
            },
        ),
        Err(text) => Err(Error::Attestation(text)),
    }
}

/// The third step: the wrapped key in what the service answered.
pub fn answered(answer: Result<Vec<u8>, String>) -> (r: Result<Vec<u8>, Error>)
    ensures
        match answer {
            Ok(envelope) => match wrapped_key_of(envelope@) {
                Ok(key) => r matches Ok(found) && found@ == key,
                Err(e) => r matches Err(Error::Envelope(x)) && x == e,
            },
            Err(text) => r matches Err(Error::Kms(t)) && t@ == text@,
        },
{
    match answer {
        Ok(envelope) => match wrapped_key(envelope.as_slice()) {
            Ok(key) => Ok(key),
            Err(e) => Err(Error::Envelope(e)),
        },
        Err(text) => Err(Error::Kms(text)),
    }
}

/// What the last step comes to, given what unwrapping gave: the plaintext,
/// or an unwrapping error that carries the reason.
pub fn unwrapped(outcome: Result<Vec<u8>, String>) -> (r: Result<Vec<u8>, Error>)
    ensures
        match outcome {
            Ok(plaintext) => r matches Ok(bytes) && bytes@ == plaintext@,
            Err(text) => r matches Err(Error::Unwrap(t)) && t@ == text@,
        },
{
    match outcome {
        Ok(plaintext) => Ok(plaintext),
        Err(text) => Err(Error::Unwrap(text)),
    }
}

/// The last step: unwraps the wrapped key with the private half of `key`.
/// What comes out is the plaintext that was asked for.
pub fn unwrap(key: &ClientKey, wrapped: &[u8]) -> (r: Result<Vec<u8>, Error>)
    ensures
        unwrapped_with(key@, wrapped@, r),
{
    unwrapped(oaep_sha256_decrypt(key.der.as_slice(), wrapped))
}

/// The third and the last step together: from what the service answered to
/// the plaintext. The service's failure and an answer that is no envelope
/// are passed on; else the key that the envelope wraps is unwrapped.
pub fn open(key: &ClientKey, answer: Result<Vec<u8>, String>) -> (r: Result<Vec<u8>, Error>)
    ensures
        match answer {
            Ok(envelope) => match wrapped_key_of(envelope@) {
                Ok(wrapped) => unwrapped_with(key@, wrapped, r),
                Err(e) => r matches Err(Error::Envelope(x)) && x == e,
            },
            Err(text) => r matches Err(Error::Kms(t)) && t@ == text@,
        },
{
    match answered(answer) {
        Ok(wrapped) => unwrap(key, wrapped.as_slice()),
        Err(e) => Err(e),
    }
}

} // verus!
