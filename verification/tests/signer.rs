use blake2::Digest;
use ed25519_dalek::Signer;
use k256::ecdsa::signature::{DigestVerifier, Verifier};
use signer_core::crypto::{KeyType, PrivateKey};
use signer_core::signer::{key_from_plaintext, key_to_plaintext};
use signer_core::{EncryptedSigner, EncryptionBackend, Error, SyncEncryptionBackend};

type Blake2b256 = blake2::Blake2b<blake2::digest::consts::U32>;

#[derive(Debug)]
struct Passthrough;

#[derive(Debug)]
struct DummyErr;

impl std::fmt::Display for DummyErr {
    fn fmt(&self, f: &mut std::fmt::Formatter<'_>) -> std::fmt::Result {
        f.write_str("dummy")
    }
}

impl EncryptionBackend for Passthrough {
    type Error = DummyErr;
}

impl SyncEncryptionBackend for Passthrough {
    fn encrypt(&self, src: &[u8]) -> Result<Vec<u8>, Self::Error> {
        Ok(Vec::from(src))
    }

    fn decrypt(&self, src: &[u8]) -> Result<Vec<u8>, Self::Error> {
        Ok(Vec::from(src))
    }
}

/// A backend that flips every bit, so that a ciphertext is never its
/// plaintext.
struct Flip;

impl EncryptionBackend for Flip {
    type Error = DummyErr;
}

impl SyncEncryptionBackend for Flip {
    fn encrypt(&self, src: &[u8]) -> Result<Vec<u8>, Self::Error> {
        Ok(src.iter().map(|b| !b).collect())
    }

    fn decrypt(&self, src: &[u8]) -> Result<Vec<u8>, Self::Error> {
        Ok(src.iter().map(|b| !b).collect())
    }
}

/// A backend that always fails.
struct Broken;

impl EncryptionBackend for Broken {
    type Error = DummyErr;
}

impl SyncEncryptionBackend for Broken {
    fn encrypt(&self, _src: &[u8]) -> Result<Vec<u8>, Self::Error> {
        Err(DummyErr)
    }

    fn decrypt(&self, _src: &[u8]) -> Result<Vec<u8>, Self::Error> {
        Err(DummyErr)
    }
}

#[test]
fn signer_secp256k1() {
    let signer = EncryptedSigner::new(Passthrough);
    let (pk_bytes, pub_key) = signer
        .generate(KeyType::Secp256k1, &mut rand_core::OsRng)
        .unwrap();

    let data = b"text";
    let sig = signer.try_sign_with(&pk_bytes, data).unwrap();
    assert_eq!(sig.kind(), KeyType::Secp256k1);
    let sig = k256::ecdsa::Signature::from_slice(&sig.bytes()).unwrap();

    let mut digest = Blake2b256::new();
    digest.update(data);

    assert_eq!(pub_key.kind(), KeyType::Secp256k1);
    k256::ecdsa::VerifyingKey::from_sec1_bytes(&pub_key.bytes())
        .unwrap()
        .verify_digest(digest, &sig)
        .unwrap();
}

#[test]
fn signer_nist_p256() {
    let signer = EncryptedSigner::new(Passthrough);
    let (pk_bytes, pub_key) = signer
        .generate(KeyType::NistP256, &mut rand_core::OsRng)
        .unwrap();

    let data = b"text";
    let sig = signer.try_sign_with(&pk_bytes, data).unwrap();
    assert_eq!(sig.kind(), KeyType::NistP256);
    let sig = p256::ecdsa::Signature::from_slice(&sig.bytes()).unwrap();

    let mut digest = Blake2b256::new();
    digest.update(data);

    assert_eq!(pub_key.kind(), KeyType::NistP256);
    p256::ecdsa::VerifyingKey::from_sec1_bytes(&pub_key.bytes())
        .unwrap()
        .verify_digest(digest, &sig)
        .unwrap();
}

#[test]
fn signer_ed25519() {
    let signer = EncryptedSigner::new(Passthrough);
    let (pk_bytes, pub_key) = signer
        .generate(KeyType::Ed25519, &mut rand_core::OsRng)
        .unwrap();

    let data = b"text";
    let sig = signer.try_sign_with(&pk_bytes, data).unwrap();
    assert_eq!(sig.kind(), KeyType::Ed25519);
    let sig = ed25519_dalek::Signature::from_slice(&sig.bytes()).unwrap();

    assert_eq!(pub_key.kind(), KeyType::Ed25519);
    let key_bytes: [u8; 32] = pub_key.bytes().as_slice().try_into().unwrap();
    ed25519_dalek::VerifyingKey::from_bytes(&key_bytes)
        .unwrap()
        .verify(data, &sig)
        .unwrap();
}

#[test]
fn signer_bls() {
    let signer = EncryptedSigner::new(Passthrough);
    let (pk_bytes, pub_key) = signer
        .generate(KeyType::BLS, &mut rand_core::OsRng)
        .unwrap();

    let data = b"text";
    let sig = signer.try_sign_with(&pk_bytes, data).unwrap();
    assert_eq!(sig.kind(), KeyType::BLS);
    assert_eq!(sig.bytes().len(), 96);
    assert_eq!(pub_key.bytes().len(), 48);

    let public = blst::min_pk::PublicKey::from_bytes(&pub_key.bytes()).unwrap();
    let sig = blst::min_pk::Signature::from_bytes(&sig.bytes()).unwrap();
    let dst = b"BLS_SIG_BLS12381G2_XMD:SHA-256_SSWU_RO_AUG_";
    assert_eq!(
        sig.verify(true, data, dst, &pub_key.bytes(), &public, true),
        blst::BLST_ERROR::BLST_SUCCESS
    );
    assert_ne!(
        sig.verify(true, data, dst, &[], &public, true),
        blst::BLST_ERROR::BLST_SUCCESS
    );
}

#[test]
fn ed25519_signs_the_message_not_a_digest() {
    let key = PrivateKey::from_bytes(KeyType::Ed25519, &[7u8; 32]).unwrap();
    let sig = key.try_sign(b"text").unwrap();
    let expected = ed25519_dalek::SigningKey::from_bytes(&[7u8; 32])
        .sign(b"text")
        .to_bytes();
    assert_eq!(sig.bytes(), expected.to_vec());
    let public = ed25519_dalek::SigningKey::from_bytes(&[7u8; 32]).verifying_key();
    let parsed = ed25519_dalek::Signature::from_slice(&sig.bytes()).unwrap();
    assert!(public.verify(&Blake2b256::digest(b"text"), &parsed).is_err());
}

#[test]
fn roundtrip_encryption_every_key_type() {
    for kind in [
        KeyType::Secp256k1,
        KeyType::NistP256,
        KeyType::Ed25519,
        KeyType::BLS,
    ] {
        let key = PrivateKey::generate(kind, &mut rand_core::OsRng).unwrap();
        let plaintext = key_to_plaintext(&key).unwrap();
        let backend = Flip;
        let ciphertext = backend.encrypt(&plaintext).unwrap();
        assert_ne!(ciphertext, plaintext);
        let decrypted = backend.decrypt(&ciphertext).unwrap();
        assert_eq!(decrypted, plaintext);
        let back = key_from_plaintext(&decrypted).unwrap();
        assert_eq!(back.key_type(), kind);
        assert_eq!(back.to_bytes(), key.to_bytes());
    }
}

#[test]
fn plaintext_of_a_key_is_a_single_entry_map() {
    let key = PrivateKey::from_bytes(KeyType::Ed25519, &[1u8; 32]).unwrap();
    let plaintext = key_to_plaintext(&key).unwrap();
    let mut expected = vec![0xa1, 0x67];
    expected.extend_from_slice(b"Ed25519");
    expected.extend_from_slice(&[0x58, 0x20]);
    expected.extend_from_slice(&[1u8; 32]);
    assert_eq!(plaintext, expected);
}

#[test]
fn import_returns_dense_handles() {
    let mut signer = EncryptedSigner::new(Flip);
    let mut expected = 0usize;
    for kind in [
        KeyType::Ed25519,
        KeyType::Secp256k1,
        KeyType::BLS,
        KeyType::NistP256,
        KeyType::Ed25519,
    ] {
        let (ciphertext, public) = signer.generate(kind, &mut rand_core::OsRng).unwrap();
        let (imported, handle) = signer.import(&ciphertext).unwrap();
        assert_eq!(handle, expected);
        assert_eq!(imported.bytes(), public.bytes());
        assert_eq!(signer.public_key(handle).unwrap().bytes(), public.bytes());
        expected += 1;
        assert_eq!(signer.len(), expected);
    }
}

#[test]
fn import_unencrypted_and_generate_and_import_share_the_keychain() {
    let mut signer = EncryptedSigner::new(Flip);
    let key = PrivateKey::from_bytes(KeyType::Ed25519, &[9u8; 32]).unwrap();
    let public = key.public_key();
    let (ciphertext, imported, handle) = signer.import_unencrypted(key).unwrap();
    assert_eq!(handle, 0);
    assert_eq!(imported.bytes(), public.bytes());
    assert_eq!(signer.public_key_from(&ciphertext).unwrap().bytes(), public.bytes());
    let (_, second, handle) = signer
        .generate_and_import(KeyType::Secp256k1, &mut rand_core::OsRng)
        .unwrap();
    assert_eq!(handle, 1);
    assert_eq!(signer.public_key(1).unwrap().bytes(), second.bytes());
    assert_eq!(signer.public_key(0).unwrap().bytes(), public.bytes());
}

#[test]
fn signer_errors_name_their_cause() {
    let mut signer = EncryptedSigner::new(Passthrough);
    assert!(matches!(
        signer.try_sign(0, b""),
        Err(Error::Signer(signer_core::crypto::Error::InvalidHandle))
    ));
    assert!(matches!(
        signer.public_key(3),
        Err(Error::Signer(signer_core::crypto::Error::InvalidHandle))
    ));
    assert!(matches!(
        signer.import(&[0xff, 0xff, 0xff]),
        Err(Error::Deserialize(_))
    ));
    assert_eq!(signer.len(), 0);
    let mut broken = EncryptedSigner::new(Broken);
    assert!(matches!(broken.import(&[1, 2, 3]), Err(Error::Encryption(DummyErr))));
    assert!(matches!(
        broken.generate(KeyType::Ed25519, &mut rand_core::OsRng),
        Err(Error::Encryption(DummyErr))
    ));
    assert!(matches!(
        broken.generate_and_import(KeyType::Ed25519, &mut rand_core::OsRng),
        Err(Error::Encryption(DummyErr))
    ));
    assert_eq!(broken.len(), 0);
}

#[test]
fn a_key_of_the_wrong_length_is_no_plaintext() {
    let mut bytes = vec![0xa1, 0x67];
    bytes.extend_from_slice(b"Ed25519");
    bytes.extend_from_slice(&[0x58, 0x1f]);
    bytes.extend_from_slice(&[1u8; 31]);
    assert_eq!(
        key_from_plaintext(&bytes).err().unwrap(),
        "invalid private key"
    );
}
