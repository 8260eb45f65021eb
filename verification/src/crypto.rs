//! Key algorithms, key material and the per-algorithm signing discipline.
//!
//! Keys, public keys and signatures are held as the canonical byte encoding
//! of their algorithm, tagged with the algorithm. A [`PrivateKey`] can only
//! be made from bytes that its algorithm accepts, so deriving its public key
//! never fails.

use crate::text::{decimal, decimal_text, join, joined};
use vstd::prelude::*;
use vstd::slice::slice_to_vec;
use zeroize::Zeroize;

pub mod bls;
pub mod ecdsa;
pub mod ed25519;
pub mod keychain;

pub use keychain::Keychain;

verus! {

/// The closed set of supported signature algorithms.
#[derive(Clone, Copy, Debug, PartialEq, Eq, Structural)]
pub enum KeyType {
    Secp256k1,
    NistP256,
    Ed25519,
    BLS,
}

/// Why a keychain or key operation failed.
#[derive(Clone, Copy, Debug, PartialEq, Eq, Structural)]
pub enum Error {
    /// No key is stored under the handle.
    InvalidHandle,
    /// The signature scheme rejected the key or could not produce a
    /// signature.
    Signature,
    /// The BLS implementation reported the given code.
    BLS(u8),
}

impl Error {
    /// The text of the error.
    pub open spec fn text(self) -> Seq<char> {
        match self {
            Error::InvalidHandle => "invalid handle"@,
            Error::Signature => "signature error"@,
            Error::BLS(code) => joined("BLST error: "@, decimal(code as nat)),
        }
    }

    /// The text of the error.
    pub fn message(self) -> (text: String)
        ensures
            text@ == self.text(),
    {
        match self {
            Error::InvalidHandle => "invalid handle".to_owned(),
            Error::Signature => "signature error".to_owned(),
            Error::BLS(code) => {
                let digits = decimal_text(code);
                join("BLST error: ", digits.as_str())
            },
        }
    }
}

/// The number that a byte string holds, big-endian.
pub open spec fn big_endian(bytes: Seq<u8>) -> nat
    decreases bytes.len(),
{
    if bytes.len() == 0 {
        0
    } else {
        big_endian(bytes.drop_last()) * 256 + bytes.last() as nat
    }
}

/// Whether `secret` is the canonical encoding of a private key of `kind`:
/// a 32-byte scalar the curve accepts, any 32-byte Ed25519 seed, or a
/// 32-byte BLS scalar the implementation accepts.
pub open spec fn secret_ok(kind: KeyType, secret: Seq<u8>) -> bool {
    match kind {
        KeyType::Secp256k1 => ecdsa::scalar_ok(ecdsa::Curve::Secp256k1, secret),
        KeyType::NistP256 => ecdsa::scalar_ok(ecdsa::Curve::NistP256, secret),
        KeyType::Ed25519 => ed25519::seed_ok(secret),
        KeyType::BLS => bls::secret_ok(secret),
    }
}

/// The error that rejecting a private key of `kind` yields.
pub open spec fn rejection(kind: KeyType) -> Error {
    if kind == KeyType::BLS {
        Error::BLS(bls::BAD_ENCODING)
    } else {
        Error::Signature
    }
}

/// The canonical encoding of the public key of a private key: SEC1
/// compressed for the two curves, the standard 32 bytes for Ed25519, G1
/// compressed for BLS.
pub open spec fn public_key_of(kind: KeyType, secret: Seq<u8>) -> Seq<u8> {
    match kind {
        KeyType::Secp256k1 => ecdsa::public_point(ecdsa::Curve::Secp256k1, secret),
        KeyType::NistP256 => ecdsa::public_point(ecdsa::Curve::NistP256, secret),
        KeyType::Ed25519 => ed25519::ed25519_public_point(secret),
        KeyType::BLS => bls::bls_public_point(secret),
    }
}

/// The signature of `msg` under a private key, if the scheme yields one:
/// ECDSA over the Blake2b-256 digest for the two curves, pure Ed25519, and
/// BLS with the augmented scheme.
pub open spec fn signature_of(kind: KeyType, secret: Seq<u8>, msg: Seq<u8>) -> Option<Seq<u8>> {
    match kind {
        KeyType::Secp256k1 => ecdsa::signature_of(ecdsa::Curve::Secp256k1, secret, msg),
        KeyType::NistP256 => ecdsa::signature_of(ecdsa::Curve::NistP256, secret, msg),
        KeyType::Ed25519 => Some(ed25519::ed25519_signature(secret, msg)),
        KeyType::BLS => Some(bls::signature_of(secret, msg)),
    }
}

/// The length of a public key of `kind`.
pub open spec fn public_key_len(kind: KeyType) -> nat {
    match kind {
        KeyType::Secp256k1 => 33,
        KeyType::NistP256 => 33,
        KeyType::Ed25519 => 32,
        KeyType::BLS => 48,
    }
}

/// The length of a signature of `kind`.
pub open spec fn signature_len(kind: KeyType) -> nat {
    match kind {
        KeyType::Secp256k1 => 64,
        KeyType::NistP256 => 64,
        KeyType::Ed25519 => 64,
        KeyType::BLS => 96,
    }
}

/// What signing `msg` with the key `(kind, secret)` returns.
pub open spec fn sign_outcome(kind: KeyType, secret: Seq<u8>, msg: Seq<u8>) -> Result<
    (KeyType, Seq<u8>),
    Error,
> {
    match signature_of(kind, secret, msg) {
        Some(bytes) => Ok((kind, bytes)),
        None => Err(Error::Signature),
    }
}

/// Whether `bytes` is the canonical encoding of a public key of `kind`:
/// a SEC1 compressed point of the curve, the standard encoding of a point
/// of the Ed25519 curve, or a compressed point of G1.
pub open spec fn public_key_ok(kind: KeyType, bytes: Seq<u8>) -> bool {
    match kind {
        KeyType::Secp256k1 => ecdsa::point_ok(ecdsa::Curve::Secp256k1, bytes),
        KeyType::NistP256 => ecdsa::point_ok(ecdsa::Curve::NistP256, bytes),
        KeyType::Ed25519 => ed25519::point_ok(bytes),
        KeyType::BLS => bls::point_ok(bytes),
    }
}

/// Whether `bytes` is the canonical encoding of a signature of `kind`:
/// `r || s` with both in range for the curves, any 64 bytes for Ed25519, or
/// a compressed point of G2.
pub open spec fn signature_ok(kind: KeyType, bytes: Seq<u8>) -> bool {
    match kind {
        KeyType::Secp256k1 => ecdsa::signature_ok(ecdsa::Curve::Secp256k1, bytes),
        KeyType::NistP256 => ecdsa::signature_ok(ecdsa::Curve::NistP256, bytes),
        KeyType::Ed25519 => ed25519::signature_ok(bytes),
        KeyType::BLS => bls::signature_ok(bytes),
    }
}

/// Whether an error is one that rejecting a key or signature of `kind`
/// yields: for BLS a code of the implementation, else a signature error.
pub open spec fn rejects(kind: KeyType, e: Error) -> bool {
    if kind == KeyType::BLS {
        e is BLS
    } else {
        e == Error::Signature
    }
}

/// A public key: the algorithm and the key's canonical encoding, which the
/// algorithm accepts.
#[derive(Debug)]
pub struct PublicKey {
    kind: KeyType,
    bytes: Vec<u8>,
}

impl View for PublicKey {
    type V = (KeyType, Seq<u8>);

    closed spec fn view(&self) -> (KeyType, Seq<u8>) {
        (self.kind, self.bytes@)
    }
}

/// A signature: the algorithm and the signature's canonical encoding, which
/// the algorithm accepts.
#[derive(Debug)]
pub struct Signature {
    kind: KeyType,
    bytes: Vec<u8>,
}

impl View for Signature {
    type V = (KeyType, Seq<u8>);

    closed spec fn view(&self) -> (KeyType, Seq<u8>) {
        (self.kind, self.bytes@)
    }
}

impl PublicKey {
    #[verifier::type_invariant]
    spec fn well_formed(self) -> bool {
        public_key_ok(self.kind, self.bytes@)
    }

    /// Makes a public key from its canonical encoding. The bytes are
    /// rejected exactly when they are no encoding of a key of the algorithm.
    pub fn from_bytes(kind: KeyType, bytes: &[u8]) -> (r: Result<PublicKey, Error>)
        ensures
            r is Ok <==> public_key_ok(kind, bytes@),
            r matches Ok(key) ==> key@ == (kind, bytes@),
            r matches Err(e) ==> rejects(kind, e),
    {
        let accepted = match kind {
            KeyType::Secp256k1 => ecdsa::check_point(ecdsa::Curve::Secp256k1, bytes),
            KeyType::NistP256 => ecdsa::check_point(ecdsa::Curve::NistP256, bytes),
            KeyType::Ed25519 => ed25519::check_point(bytes),
            KeyType::BLS => match bls::check_point(bytes) {
                Ok(()) => true,
                Err(code) => return Err(Error::BLS(code)),
            },
        };
        if accepted {
            Ok(PublicKey { kind, bytes: slice_to_vec(bytes) })
        } else {
            Err(Error::Signature)
        }
    }

    /// The algorithm of the key.
    pub fn kind(&self) -> (kind: KeyType)
        ensures
            kind == self@.0,
            public_key_ok(self@.0, self@.1),
    {
        proof {
            use_type_invariant(self);
        }
        self.kind
    }

    /// The canonical encoding of the key, which the algorithm accepts.
    pub fn bytes(&self) -> (bytes: Vec<u8>)
        ensures
            bytes@ == self@.1,
            public_key_ok(self@.0, self@.1),
    {
        proof {
            use_type_invariant(self);
        }
        slice_to_vec(self.bytes.as_slice())
    }
}

impl Signature {
    #[verifier::type_invariant]
    spec fn well_formed(self) -> bool {
        signature_ok(self.kind, self.bytes@)
    }

    /// Makes a signature from its canonical encoding. The bytes are rejected
    /// exactly when they are no encoding of a signature of the algorithm.
    pub fn from_bytes(kind: KeyType, bytes: &[u8]) -> (r: Result<Signature, Error>)
        ensures
            r is Ok <==> signature_ok(kind, bytes@),
            r matches Ok(sig) ==> sig@ == (kind, bytes@),
            r matches Err(e) ==> rejects(kind, e),
    {
        let accepted = match kind {
            KeyType::Secp256k1 => ecdsa::check_signature(ecdsa::Curve::Secp256k1, bytes),
            KeyType::NistP256 => ecdsa::check_signature(ecdsa::Curve::NistP256, bytes),
            KeyType::Ed25519 => ed25519::check_signature(bytes),
            KeyType::BLS => match bls::check_signature(bytes) {
                Ok(()) => true,
                Err(code) => return Err(Error::BLS(code)),
            },
        };
        if accepted {
            Ok(Signature { kind, bytes: slice_to_vec(bytes) })
        } else {
            Err(Error::Signature)
        }
    }

    /// The algorithm of the signature.
    pub fn kind(&self) -> (kind: KeyType)
        ensures
            kind == self@.0,
            signature_ok(self@.0, self@.1),
    {
        proof {
            use_type_invariant(self);
        }
        self.kind
    }

    /// The canonical encoding of the signature, which the algorithm accepts.
    pub fn bytes(&self) -> (bytes: Vec<u8>)
        ensures
            bytes@ == self@.1,
            signature_ok(self@.0, self@.1),
    {
        proof {
            use_type_invariant(self);
        }
        slice_to_vec(self.bytes.as_slice())
    }
}

/// A private key: the algorithm and the canonical encoding of the secret.
/// The secret bytes are overwritten when the key is dropped.
pub struct PrivateKey {
    kind: KeyType,
    secret: Vec<u8>,
}

impl View for PrivateKey {
    type V = (KeyType, Seq<u8>);

    closed spec fn view(&self) -> (KeyType, Seq<u8>) {
        (self.kind, self.secret@)
    }
}

impl Drop for PrivateKey {
    /// `Zeroize::zeroize` on the secret bytes, before the memory is released.
    #[verifier::external_body]
    fn drop(&mut self)
        opens_invariants none
        no_unwind
    {
        self.secret.zeroize();
    }
}

impl PrivateKey {
    #[verifier::type_invariant]
    spec fn well_formed(self) -> bool {
        secret_ok(self.kind, self.secret@)
    }

    /// Makes a private key from the canonical encoding of its secret. The
    /// bytes are rejected exactly when the algorithm does not accept them.
    pub fn from_bytes(kind: KeyType, bytes: &[u8]) -> (r: Result<PrivateKey, Error>)
        ensures
            r is Ok <==> secret_ok(kind, bytes@),
            r matches Ok(key) ==> key@ == (kind, bytes@),
            r matches Err(e) ==> e == rejection(kind),
    {
        let accepted = match kind {
            KeyType::Secp256k1 => ecdsa::check_scalar(ecdsa::Curve::Secp256k1, bytes),
            KeyType::NistP256 => ecdsa::check_scalar(ecdsa::Curve::NistP256, bytes),
            KeyType::Ed25519 => ed25519::check_seed(bytes),
            KeyType::BLS => bls::check_secret(bytes).is_ok(),
        };
        if accepted {
            Ok(PrivateKey { kind, secret: slice_to_vec(bytes) })
        } else if kind == KeyType::BLS {
            Err(Error::BLS(bls::BAD_ENCODING))
        } else {
            Err(Error::Signature)
        }
    }

    /// Makes a private key from the canonical encoding of its secret, which
    /// becomes the key's own: no copy of the bytes is left behind. The bytes
    /// are rejected exactly when the algorithm does not accept them.
    pub fn from_vec(kind: KeyType, secret: Vec<u8>) -> (r: Result<PrivateKey, Error>)
        ensures
            r is Ok <==> secret_ok(kind, secret@),
            r matches Ok(key) ==> key@ == (kind, secret@),
            r matches Err(e) ==> e == rejection(kind),
    {
        let accepted = match kind {
            KeyType::Secp256k1 => ecdsa::check_scalar(ecdsa::Curve::Secp256k1, secret.as_slice()),
            KeyType::NistP256 => ecdsa::check_scalar(ecdsa::Curve::NistP256, secret.as_slice()),
            KeyType::Ed25519 => ed25519::check_seed(secret.as_slice()),
            KeyType::BLS => bls::check_secret(secret.as_slice()).is_ok(),
        };
        if accepted {
            Ok(PrivateKey { kind, secret })
        } else if kind == KeyType::BLS {
            Err(Error::BLS(bls::BAD_ENCODING))
        } else {
            Err(Error::Signature)
        }
    }

    /// Generates a private key of the given algorithm from `rng`, which
    /// always yields one. BLS derives its scalar from 32 bytes of key
    /// material with an empty key-info string.
    pub fn generate<R: rand_core::CryptoRngCore>(kind: KeyType, rng: &mut R) -> (r: Result<
        PrivateKey,
        Error,
    >)
        ensures
            r matches Ok(key) && key@.0 == kind && secret_ok(kind, key@.1) && (kind
                == KeyType::BLS ==> bls::derived(key@.1)),
    {
        match kind {
            KeyType::Secp256k1 => Ok(
                PrivateKey { kind, secret: ecdsa::random_scalar(ecdsa::Curve::Secp256k1, rng) },
            ),
            KeyType::NistP256 => Ok(
                PrivateKey { kind, secret: ecdsa::random_scalar(ecdsa::Curve::NistP256, rng) },
            ),
            KeyType::Ed25519 => Ok(PrivateKey { kind, secret: ed25519::random_seed(rng) }),
            KeyType::BLS => match bls::random_secret(rng) {
                Ok(secret) => Ok(PrivateKey { kind, secret }),
                Err(code) => Err(Error::BLS(code)),
            },
        }
    }

    /// The algorithm of the key.
    pub fn key_type(&self) -> (kind: KeyType)
        ensures
            kind == self@.0,
            secret_ok(self@.0, self@.1),
    {
        proof {
            use_type_invariant(self);
        }
        self.kind
    }

    /// The canonical encoding of the secret, which the key's algorithm
    /// accepts.
    pub fn to_bytes(&self) -> (bytes: Vec<u8>)
        ensures
            bytes@ == self@.1,
            secret_ok(self@.0, self@.1),
    {
        proof {
            use_type_invariant(self);
        }
        slice_to_vec(self.secret.as_slice())
    }

    /// The public key that belongs to this private key.
    pub fn public_key(&self) -> (public: PublicKey)
        ensures
            public@ == (self@.0, public_key_of(self@.0, self@.1)),
            public@.1.len() == public_key_len(self@.0),
            public_key_ok(public@.0, public@.1),
    {
        proof {
            use_type_invariant(self);
        }
        let bytes = match self.kind {
            KeyType::Secp256k1 => ecdsa::public_key(
                ecdsa::Curve::Secp256k1,
                self.secret.as_slice(),
            ),
            KeyType::NistP256 => ecdsa::public_key(ecdsa::Curve::NistP256, self.secret.as_slice()),
            KeyType::Ed25519 => ed25519::public_key(self.secret.as_slice()),
            KeyType::BLS => bls::public_key(self.secret.as_slice()),
        };
        PublicKey { kind: self.kind, bytes }
    }

    /// Signs `msg` with the discipline of the key's algorithm.
    pub fn try_sign(&self, msg: &[u8]) -> (r: Result<Signature, Error>)
        ensures
            r is Ok <==> sign_outcome(self@.0, self@.1, msg@) is Ok,
            r matches Ok(sig) ==> sign_outcome(self@.0, self@.1, msg@) == Ok::<
                (KeyType, Seq<u8>),
                Error,
            >(sig@) && sig@.1.len() == signature_len(self@.0) && signature_ok(sig@.0, sig@.1),
            r matches Err(e) ==> e == Error::Signature,
    {
        proof {
            use_type_invariant(self);
        }
        match self.kind {
            KeyType::Secp256k1 => match ecdsa::try_sign(
                ecdsa::Curve::Secp256k1,
                self.secret.as_slice(),
                msg,
            ) {
                Some(bytes) => Ok(Signature { kind: self.kind, bytes }),
                None => Err(Error::Signature),
            },
            KeyType::NistP256 => match ecdsa::try_sign(
                ecdsa::Curve::NistP256,
                self.secret.as_slice(),
                msg,
            ) {
                Some(bytes) => Ok(Signature { kind: self.kind, bytes }),
                None => Err(Error::Signature),
            },
            KeyType::Ed25519 => Ok(
                Signature { kind: self.kind, bytes: ed25519::sign(self.secret.as_slice(), msg) },
            ),
            KeyType::BLS => Ok(
                Signature { kind: self.kind, bytes: bls::sign(self.secret.as_slice(), msg) },
            ),
        }
    }
}

/// What holds a private key and signs with it.
pub trait KeyPair {
    /// The key held: its algorithm and its secret.
    spec fn key_model(&self) -> (KeyType, Seq<u8>);

    /// The public key that belongs to the key held.
    fn public_key(&self) -> (public: PublicKey)
        ensures
            public@ == (self.key_model().0, public_key_of(self.key_model().0, self.key_model().1)),
    ;

    /// Signs `msg` with the discipline of the key's algorithm.
    fn try_sign(&self, msg: &[u8]) -> (r: Result<Signature, Error>)
        ensures
            match r {
                Ok(sig) => sign_outcome(self.key_model().0, self.key_model().1, msg@) == Ok::<
                    (KeyType, Seq<u8>),
                    Error,
                >(sig@),
                Err(e) => sign_outcome(self.key_model().0, self.key_model().1, msg@) == Err::<
                    (KeyType, Seq<u8>),
                    Error,
                >(e),
            },
    ;
}

impl KeyPair for PrivateKey {
    open spec fn key_model(&self) -> (KeyType, Seq<u8>) {
        self@
    }

    fn public_key(&self) -> (public: PublicKey) {
        PrivateKey::public_key(self)
    }

    fn try_sign(&self, msg: &[u8]) -> (r: Result<Signature, Error>) {
        PrivateKey::try_sign(self, msg)
    }
}

} // verus!
