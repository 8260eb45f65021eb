//! A keychain behind an encryption backend. Every private key that leaves
//! the signer is first written as CBOR and wrapped by the backend; every key
//! that enters it encrypted is unwrapped by the backend and read back.
//!
//! The backend decides what a ciphertext is. Each operation that asks the
//! backend is therefore split in two: the call, and a function that takes
//! what the backend answered and does the rest. A caller that reaches its
//! backend some other way, a cooperative one for instance, makes the call
//! itself and hands the answer to the second function.

use crate::cbor::{cbor_bytes, cbor_parse, decode, encode, written, Cbor};
use crate::crypto::keychain::{public_key_at, sign_at, KeyModel};
use crate::crypto::{
    bls, public_key_len, public_key_of, secret_ok, sign_outcome, Error as KeyError, KeyType,
    Keychain, PrivateKey, PublicKey, Signature,
};
use crate::rpc::wire::{private_key_from_cbor, private_key_of, private_key_to_cbor, Malformed};
use vstd::prelude::*;

verus! {

/// What every encryption backend has: the type of its errors.
pub trait EncryptionBackend: Sized {
    type Error: core::fmt::Display;
}

/// A backend that wraps and unwraps bytes and returns when it is done.
pub trait SyncEncryptionBackend: EncryptionBackend {
    /// Wraps a plaintext.
    fn encrypt(&self, src: &[u8]) -> Result<Vec<u8>, Self::Error>;

    /// Unwraps a ciphertext.
    fn decrypt(&self, src: &[u8]) -> Result<Vec<u8>, Self::Error>;
}

/// Makes a backend from the credentials a client supplies.
pub trait EncryptionBackendFactory {
    type Output: EncryptionBackend;

    type Credentials;

    /// Makes a backend for one connection.
    fn try_new(&self, cred: Self::Credentials) -> Result<
        Self::Output,
        <Self::Output as EncryptionBackend>::Error,
    >;
}

/// Why a signer operation failed; `S` is the backend's error.
#[derive(Debug)]
pub enum Error<S> {
    /// The backend failed.
    Encryption(S),
    /// Key generation, signing or a keychain lookup failed.
    Signer(KeyError),
    /// A private key could not be written as CBOR; the text says why.
    Serialize(String),
    /// A plaintext is not a private key; the text says why.
    Deserialize(String),
}

/// A signer error as a mathematical value.
pub ghost enum ErrorModel<S> {
    Encryption(S),
    Signer(KeyError),
    Serialize(Seq<char>),
    Deserialize(Seq<char>),
}

impl<S> View for Error<S> {
    type V = ErrorModel<S>;

    open spec fn view(&self) -> ErrorModel<S> {
        match *self {
            Error::Encryption(e) => ErrorModel::Encryption(e),
            Error::Signer(e) => ErrorModel::Signer(e),
            Error::Serialize(text) => ErrorModel::Serialize(text@),
            Error::Deserialize(text) => ErrorModel::Deserialize(text@),
        }
    }
}

impl<S> Error<S> {
    /// The text of the error.
    pub open spec fn text(self) -> Seq<char> {
        match self {
            Error::Encryption(_) => "encryption error"@,
            Error::Signer(_) => "signer error"@,
            Error::Serialize(_) => "serialization error"@,
            Error::Deserialize(_) => "deserialization error"@,
        }
    }

    /// The text of the error.
    pub fn message(&self) -> (text: String)
        ensures
            text@ == self.text(),
    {
        match self {
            Error::Encryption(_) => "encryption error".to_owned(),
            Error::Signer(_) => "signer error".to_owned(),
            Error::Serialize(_) => "serialization error".to_owned(),
            Error::Deserialize(_) => "deserialization error".to_owned(),
        }
    }
}

/// The private key that a plaintext stands for, or the text that says why
/// it is none.
pub open spec fn key_of_plaintext(plaintext: Seq<u8>) -> Result<KeyModel, Seq<char>> {
    match cbor_parse(plaintext) {
        Ok(item) => match private_key_of(item) {
            Ok(key) => Ok(key),
            Err(m) => Err(m.text()),
        },
        Err(text) => Err(text),
    }
}

/// Whether `plaintext` is what writing the key `key` as CBOR gives: the
/// encoding of an item that stands for the key, or the text of the error.
pub open spec fn is_plaintext_of(key: KeyModel, plaintext: Result<Seq<u8>, Seq<char>>) -> bool {
    exists|item: Cbor| #[trigger]
        private_key_of(item) == Ok::<KeyModel, Malformed>(key) && cbor_bytes(item) == plaintext
}

/// The model of a key's public key.
pub open spec fn public_model(key: KeyModel) -> (KeyType, Seq<u8>) {
    (key.0, public_key_of(key.0, key.1))
}

/// The key in what the backend answered to unwrapping: the backend's error
/// is passed on, a plaintext that is no private key is a deserialization
/// error.
pub open spec fn key_of_answer<S>(answer: Result<Vec<u8>, S>) -> Result<
    KeyModel,
    ErrorModel<S>,
> {
    match answer {
        Ok(plaintext) => match key_of_plaintext(plaintext@) {
            Ok(key) => Ok(key),
            Err(text) => Err(ErrorModel::Deserialize(text)),
        },
        Err(e) => Err(ErrorModel::Encryption(e)),
    }
}

/// What wrapping comes to, given what the backend answered: the ciphertext,
/// or the backend's error passed on.
pub open spec fn wrapped<S>(answer: Result<Vec<u8>, S>) -> Result<Seq<u8>, ErrorModel<S>> {
    match answer {
        Ok(ciphertext) => Ok(ciphertext@),
        Err(e) => Err(ErrorModel::Encryption(e)),
    }
}

/// What signing `msg` with an encrypted key comes to, given what the backend
/// answered to unwrapping the key: the signature under the key that the
/// plaintext stands for, or the error.
pub open spec fn signed_with<S>(answer: Result<Vec<u8>, S>, msg: Seq<u8>) -> Result<
    (KeyType, Seq<u8>),
    ErrorModel<S>,
> {
    match key_of_answer(answer) {
        Ok(key) => match sign_outcome(key.0, key.1, msg) {
            Ok(sig) => Ok(sig),
            Err(e) => Err(ErrorModel::Signer(e)),
        },
        Err(e) => Err(e),
    }
}

/// What asking for the public key of an encrypted key comes to, given what
/// the backend answered to unwrapping the key.
pub open spec fn public_key_of_answer<S>(answer: Result<Vec<u8>, S>) -> Result<
    (KeyType, Seq<u8>),
    ErrorModel<S>,
> {
    match key_of_answer(answer) {
        Ok(key) => Ok(public_model(key)),
        Err(e) => Err(e),
    }
}

/// Whether `key` is what generating a key of `kind` may yield: a key of
/// that algorithm, which for BLS is derived from 32 bytes of key material.
pub open spec fn generated_key(kind: KeyType, key: KeyModel) -> bool {
    key.0 == kind && secret_ok(kind, key.1) && (kind == KeyType::BLS ==> bls::derived(key.1))
}

/// The model of a private key or an error that an operation returned.
pub open spec fn key_model<S>(r: Result<PrivateKey, Error<S>>) -> Result<KeyModel, ErrorModel<S>> {
    match r {
        Ok(key) => Ok(key@),
        Err(e) => Err(e@),
    }
}

/// The model of a ciphertext or an error that an operation returned.
pub open spec fn bytes_model<S>(r: Result<Vec<u8>, Error<S>>) -> Result<Seq<u8>, ErrorModel<S>> {
    match r {
        Ok(bytes) => Ok(bytes@),
        Err(e) => Err(e@),
    }
}

/// The model of a signature or an error that an operation returned.
pub open spec fn signature_model<S>(r: Result<Signature, Error<S>>) -> Result<
    (KeyType, Seq<u8>),
    ErrorModel<S>,
> {
    match r {
        Ok(sig) => Ok(sig@),
        Err(e) => Err(e@),
    }
}

/// The model of a public key or an error that an operation returned.
pub open spec fn public_key_model<S>(r: Result<PublicKey, Error<S>>) -> Result<
    (KeyType, Seq<u8>),
    ErrorModel<S>,
> {
    match r {
        Ok(public) => Ok(public@),
        Err(e) => Err(e@),
    }
}

/// A key survives being wrapped and unwrapped: where the backend, asked to
/// unwrap, gives back the plaintext that was written for the key, and
/// reading that plaintext undoes the writing, the key that is read is the
/// key that was written.
pub proof fn lemma_key_survives_wrapping<S>(
    key: KeyModel,
    plaintext: Seq<u8>,
    answer: Result<Vec<u8>, S>,
)
    requires
        is_plaintext_of(key, Ok(plaintext)),
        answer matches Ok(unwrapped) && unwrapped@ == plaintext,
        forall|item: Cbor| #[trigger]
            cbor_bytes(item) == Ok::<Seq<u8>, Seq<char>>(plaintext) ==> cbor_parse(plaintext)
                == Ok::<Cbor, Seq<char>>(item),
    ensures
        key_of_plaintext(plaintext) == Ok::<KeyModel, Seq<char>>(key),
        key_of_answer(answer) == Ok::<KeyModel, ErrorModel<S>>(key),
        public_key_of_answer(answer) == Ok::<(KeyType, Seq<u8>), ErrorModel<S>>(public_model(key)),
{
    let item = choose|item: Cbor| #[trigger]
        private_key_of(item) == Ok::<KeyModel, Malformed>(key) && cbor_bytes(item) == Ok::<
            Seq<u8>,
            Seq<char>,
        >(plaintext);
    assert(cbor_parse(plaintext) == Ok::<Cbor, Seq<char>>(item));
}

/// Reads the private key that a plaintext stands for.
pub fn key_from_plaintext(plaintext: &[u8]) -> (r: Result<PrivateKey, String>)
    ensures
        match r {
            Ok(key) => key_of_plaintext(plaintext@) == Ok::<KeyModel, Seq<char>>(key@),
            Err(text) => key_of_plaintext(plaintext@) == Err::<KeyModel, Seq<char>>(text@),
        },
{
    match decode(plaintext) {
        Ok(item) => match private_key_from_cbor(item) {
            Ok(key) => Ok(key),
            Err(m) => Err(m.message()),
        },
        Err(text) => Err(text),
    }
}

/// Writes a private key as the plaintext that the backend is to wrap, which
/// always succeeds.
pub fn key_to_plaintext(key: &PrivateKey) -> (r: Result<Vec<u8>, String>)
    ensures
        is_plaintext_of(key@, written(r)),
        r is Ok,
{
    let item = private_key_to_cbor(key);
    let ghost shape = item;
    let r = encode(item);
    proof {
        assert(private_key_of(shape) == Ok::<KeyModel, Malformed>(key@) && cbor_bytes(shape)
            == written(r));
    }
    r
}

/// A keychain whose keys enter and leave through an encryption backend.
pub struct EncryptedSigner<E> {
    keychain: Keychain,
    enc: E,
}

impl<E: EncryptionBackend> EncryptedSigner<E> {
    /// The keys held, in the order of their handles.
    pub closed spec fn keys(&self) -> Seq<KeyModel> {
        self.keychain@
    }

    /// The backend.
    pub closed spec fn backend(&self) -> E {
        self.enc
    }

    /// A signer that holds no key.
    pub fn new(enc: E) -> (signer: Self)
        ensures
            signer.keys() == Seq::<KeyModel>::empty(),
            signer.backend() == enc,
    {
        EncryptedSigner { keychain: Keychain::new(), enc }
    }

    /// The number of keys held.
    pub fn len(&self) -> (n: usize)
        ensures
            n == self.keys().len(),
    {
        self.keychain.len()
    }

    /// The backend, to ask it.
    pub fn get_ref(&self) -> (enc: &E)
        ensures
            *enc == self.backend(),
    {
        &self.enc
    }

    /// Signs `msg` with the key under `handle`.
    pub fn try_sign(&self, handle: usize, msg: &[u8]) -> (r: Result<Signature, Error<E::Error>>)
        ensures
            match r {
                Ok(sig) => sign_at(self.keys(), handle as int, msg@) == Ok::<
                    (KeyType, Seq<u8>),
                    KeyError,
                >(sig@),
                Err(e) => e@ is Signer && sign_at(self.keys(), handle as int, msg@) == Err::<
                    (KeyType, Seq<u8>),
                    KeyError,
                >(e@->Signer_0),
            },
    {
        match self.keychain.try_sign(handle, msg) {
            Ok(sig) => Ok(sig),
            Err(e) => Err(Error::Signer(e)),
        }
    }

    /// The public key of the key under `handle`.
    pub fn public_key(&self, handle: usize) -> (r: Result<PublicKey, Error<E::Error>>)
        ensures
            match r {
                Ok(public) => public_key_at(self.keys(), handle as int) == Ok::<
                    (KeyType, Seq<u8>),
                    KeyError,
                >(public@),
                Err(e) => e@ == ErrorModel::<E::Error>::Signer(KeyError::InvalidHandle) && !(0
                    <= handle < self.keys().len()),
            },
    {
        match self.keychain.public_key(handle) {
            Ok(public) => Ok(public),
            Err(e) => Err(Error::Signer(e)),
        }
    }

    /// Reads the key out of what the backend answered to `decrypt`: the
    /// backend's error is passed on, a plaintext that is no private key is a
    /// deserialization error.
    pub fn opened(decrypted: Result<Vec<u8>, E::Error>) -> (r: Result<PrivateKey, Error<E::Error>>)
        ensures
            match decrypted {
                Err(e) => r matches Err(x) && x@ == ErrorModel::Encryption(e),
                Ok(plaintext) => match key_of_plaintext(plaintext@) {
                    Ok(key) => r matches Ok(k) && k@ == key,
                    Err(text) => r matches Err(x) && x@ == ErrorModel::<E::Error>::Deserialize(
                        text,
                    ),
                },
            },
    {
        match decrypted {
            Ok(plaintext) => match key_from_plaintext(plaintext.as_slice()) {
                Ok(key) => Ok(key),
                Err(text) => Err(Error::Deserialize(text)),
            },
            Err(e) => Err(Error::Encryption(e)),
        }
    }

    /// Passes on what the backend answered to `encrypt`.
    pub fn sealed(encrypted: Result<Vec<u8>, E::Error>) -> (r: Result<Vec<u8>, Error<E::Error>>)
        ensures
            bytes_model(r) == wrapped(encrypted),
            match encrypted {
                Ok(bytes) => r matches Ok(b) && b@ == bytes@,
                Err(e) => r matches Err(x) && x@ == ErrorModel::Encryption(e),
            },
    {
        match encrypted {
            Ok(bytes) => Ok(bytes),
            Err(e) => Err(Error::Encryption(e)),
        }
    }

    /// Appends a key to the keychain and returns its public key and its
    /// handle.
    pub fn import_key(&mut self, key: PrivateKey) -> (r: (PublicKey, usize))
        ensures
            final(self).keys() == old(self).keys().push(key@),
            final(self).backend() == old(self).backend(),
            r.0@ == public_model(key@),
            r.1 == old(self).keys().len(),
    {
        let public = key.public_key();
        let handle = self.keychain.import(key);
        (public, handle)
    }

    /// Imports the key that the backend unwrapped; nothing is imported when
    /// the backend failed or the plaintext is no private key.
    pub fn import_opened(&mut self, decrypted: Result<Vec<u8>, E::Error>) -> (r: Result<
        (PublicKey, usize),
        Error<E::Error>,
    >)
        ensures
            final(self).backend() == old(self).backend(),
            match decrypted {
                Err(e) => r matches Err(x) && x@ == ErrorModel::Encryption(e) && final(self).keys()
                    == old(self).keys(),
                Ok(plaintext) => match key_of_plaintext(plaintext@) {
                    Ok(key) => r matches Ok(pair) && pair.0@ == public_model(key) && pair.1 == old(self).keys().len() && final(self).keys() == old(self).keys().push(key),
                    Err(text) => r matches Err(x) && x@ == ErrorModel::<E::Error>::Deserialize(
                        text,
                    ) && final(self).keys() == old(self).keys(),
                },
            },
    {
        match Self::opened(decrypted) {
            Ok(key) => Ok(self.import_key(key)),
            Err(e) => Err(e),
        }
    }

    /// Imports a key whose ciphertext the backend returned; nothing is
    /// imported when the backend failed.
    pub fn import_sealed(&mut self, key: PrivateKey, encrypted: Result<Vec<u8>, E::Error>) -> (r:
        Result<(Vec<u8>, PublicKey, usize), Error<E::Error>>)
        ensures
            final(self).backend() == old(self).backend(),
            match encrypted {
                Ok(bytes) => r matches Ok(triple) && triple.0@ == bytes@ && triple.1@
                    == public_model(key@) && triple.2 == old(self).keys().len() && final(self).keys() == old(self).keys().push(key@),
                Err(e) => r matches Err(x) && x@ == ErrorModel::Encryption(e) && final(self).keys()
                    == old(self).keys(),
            },
    {
        match encrypted {
            Ok(bytes) => {
                let (public, handle) = self.import_key(key);
                Ok((bytes, public, handle))
            },
            Err(e) => Err(Error::Encryption(e)),
        }
    }

    /// Pairs the ciphertext that the backend returned with the public key of
    /// the key it wraps.
    pub fn generated(key: &PrivateKey, encrypted: Result<Vec<u8>, E::Error>) -> (r: Result<
        (Vec<u8>, PublicKey),
        Error<E::Error>,
    >)
        ensures
            match encrypted {
                Ok(bytes) => r matches Ok(pair) && pair.0@ == bytes@ && pair.1@ == public_model(
                    key@,
                ) && pair.1@.1.len() == public_key_len(key@.0),
                Err(e) => r matches Err(x) && x@ == ErrorModel::Encryption(e),
            },
    {
        match encrypted {
            Ok(bytes) => Ok((bytes, key.public_key())),
            Err(e) => Err(Error::Encryption(e)),
        }
    }

    /// Signs `msg` with the key that the backend unwrapped.
    pub fn sign_with_opened(decrypted: Result<Vec<u8>, E::Error>, msg: &[u8]) -> (r: Result<
        Signature,
        Error<E::Error>,
    >)
        ensures
            signature_model(r) == signed_with(decrypted, msg@),
            match decrypted {
                Err(e) => r matches Err(x) && x@ == ErrorModel::Encryption(e),
                Ok(plaintext) => match key_of_plaintext(plaintext@) {
                    Ok(key) => match sign_outcome(key.0, key.1, msg@) {
                        Ok(sig) => r matches Ok(s) && s@ == sig,
                        Err(e) => r matches Err(x) && x@ == ErrorModel::<E::Error>::Signer(e),
                    },
                    Err(text) => r matches Err(x) && x@ == ErrorModel::<E::Error>::Deserialize(
                        text,
                    ),
                },
            },
    {
        match Self::opened(decrypted) {
            Ok(key) => match key.try_sign(msg) {
                Ok(sig) => Ok(sig),
                Err(e) => Err(Error::Signer(e)),
            },
            Err(e) => Err(e),
        }
    }

    /// The public key of the key that the backend unwrapped.
    pub fn public_key_of_opened(decrypted: Result<Vec<u8>, E::Error>) -> (r: Result<
        PublicKey,
        Error<E::Error>,
    >)
        ensures
            public_key_model(r) == public_key_of_answer(decrypted),
            match decrypted {
                Err(e) => r matches Err(x) && x@ == ErrorModel::Encryption(e),
                Ok(plaintext) => match key_of_plaintext(plaintext@) {
                    Ok(key) => r matches Ok(public) && public@ == public_model(key),
                    Err(text) => r matches Err(x) && x@ == ErrorModel::<E::Error>::Deserialize(
                        text,
                    ),
                },
            },
    {
        match Self::opened(decrypted) {
            Ok(key) => Ok(key.public_key()),
            Err(e) => Err(e),
        }
    }
}

impl<E: SyncEncryptionBackend> EncryptedSigner<E> {
    /// Unwraps an encrypted private key. Whatever the backend answers to
    /// unwrapping, the result is what that answer comes to: the key that the
    /// plaintext stands for, the backend's error, or a deserialization error
    /// for a plaintext that is no key.
    pub fn decrypt(&self, src: &[u8]) -> (r: Result<PrivateKey, Error<E::Error>>)
        ensures
            r matches Err(e) ==> e@ is Encryption || e@ is Deserialize,
            exists|answer: Result<Vec<u8>, E::Error>| #[trigger]
                key_of_answer(answer) == key_model(r),
    {
        let answer = self.enc.decrypt(src);
        let ghost given = answer;
        let r = Self::opened(answer);
        proof {
            assert(key_of_answer(given) == key_model(r));
        }
        r
    }

    /// Writes a private key as CBOR and wraps it. The backend is asked to
    /// wrap the key's encoding, and whatever it answers is returned: its
    /// ciphertext, or its error as an encryption error.
    pub fn encrypt(&self, key: &PrivateKey) -> (r: Result<Vec<u8>, Error<E::Error>>)
        ensures
            r matches Err(e) ==> e@ is Encryption,
            exists|plaintext: Result<Seq<u8>, Seq<char>>| #[trigger]
                is_plaintext_of(key@, plaintext) && plaintext is Ok && exists|
                    answer: Result<Vec<u8>, E::Error>,
                | #[trigger] wrapped(answer) == bytes_model(r),
    {
        let encoded = key_to_plaintext(key);
        let ghost plaintext = written(encoded);
        match encoded {
            Ok(bytes) => {
                let answer = self.enc.encrypt(bytes.as_slice());
                let ghost asked = answer;
                let r = Self::sealed(answer);
                proof {
                    assert(wrapped(asked) == bytes_model(r));
                    assert(is_plaintext_of(key@, plaintext));
                }
                r
            },
            Err(text) => {
                proof {
                    assert(is_plaintext_of(key@, plaintext));
                }
                Err(Error::Serialize(text))
            },
        }
    }

    /// Decrypts an encrypted private key and appends it to the keychain.
    /// Whatever the backend answers, success appends one key, whose public
    /// key and handle are returned, and failure appends none.
    pub fn import(&mut self, key_data: &[u8]) -> (r: Result<(PublicKey, usize), Error<E::Error>>)
        ensures
            final(self).backend() == old(self).backend(),
            match r {
                Ok(pair) => pair.1 == old(self).keys().len() && final(self).keys().len() == old(self).keys().len() + 1 && final(self).keys().drop_last() == old(self).keys() && pair.0@
                    == public_model(final(self).keys().last()),
                Err(e) => final(self).keys() == old(self).keys() && (e@ is Encryption || e@
                    is Deserialize),
            },
            exists|answer: Result<Vec<u8>, E::Error>| #[trigger]
                key_of_answer(answer) == match r {
                    Ok(_) => Ok::<KeyModel, ErrorModel<E::Error>>(final(self).keys().last()),
                    Err(e) => Err(e@),
                },
    {
        let decrypted = self.enc.decrypt(key_data);
        let ghost given = decrypted;
        let r = self.import_opened(decrypted);
        proof {
            if r is Ok {
                assert(self.keys().drop_last() =~= old(self).keys());
            }
            assert(key_of_answer(given) == match r {
                Ok(_) => Ok::<KeyModel, ErrorModel<E::Error>>(self.keys().last()),
                Err(e) => Err(e@),
            });
        }
        r
    }

    /// Encrypts a private key and appends it to the keychain. Whatever the
    /// backend answers, success appends the key and returns the ciphertext,
    /// the public key and the handle, and failure appends nothing.
    pub fn import_unencrypted(&mut self, key: PrivateKey) -> (r: Result<
        (Vec<u8>, PublicKey, usize),
        Error<E::Error>,
    >)
        ensures
            final(self).backend() == old(self).backend(),
            match r {
                Ok(triple) => triple.1@ == public_model(key@) && triple.2 == old(self).keys().len()
                    && final(self).keys() == old(self).keys().push(key@),
                Err(e) => final(self).keys() == old(self).keys() && e@ is Encryption,
            },
            exists|answer: Result<Vec<u8>, E::Error>| #[trigger]
                wrapped(answer) == match r {
                    Ok(triple) => Ok::<Seq<u8>, ErrorModel<E::Error>>(triple.0@),
                    Err(e) => Err(e@),
                },
    {
        match key_to_plaintext(&key) {
            Ok(plaintext) => {
                let encrypted = self.enc.encrypt(plaintext.as_slice());
                let ghost given = encrypted;
                let r = self.import_sealed(key, encrypted);
                proof {
                    assert(wrapped(given) == match r {
                        Ok(triple) => Ok::<Seq<u8>, ErrorModel<E::Error>>(triple.0@),
                        Err(e) => Err(e@),
                    });
                }
                r
            },
            Err(text) => Err(Error::Serialize(text)),
        }
    }

    /// Generates a private key and encrypts it; the key is not kept.
    /// Whatever the generator and the backend yield, success returns what
    /// the backend answered to wrapping the key, and the public key of a key
    /// that generating may yield; the only failure is the backend's.
    pub fn generate<R: rand_core::CryptoRngCore>(&self, kind: KeyType, rng: &mut R) -> (r: Result<
        (Vec<u8>, PublicKey),
        Error<E::Error>,
    >)
        ensures
            match r {
                Ok(pair) => pair.1@.1.len() == public_key_len(kind) && exists|key: KeyModel|
                    #[trigger] generated_key(kind, key) && pair.1@ == public_model(key),
                Err(e) => e@ is Encryption,
            },
            exists|answer: Result<Vec<u8>, E::Error>| #[trigger]
                wrapped(answer) == match r {
                    Ok(pair) => Ok::<Seq<u8>, ErrorModel<E::Error>>(pair.0@),
                    Err(e) => Err(e@),
                },
    {
        let key = match PrivateKey::generate(kind, rng) {
            Ok(key) => key,
            Err(e) => return Err(Error::Signer(e)),
        };
        match key_to_plaintext(&key) {
            Ok(plaintext) => {
                let encrypted = self.enc.encrypt(plaintext.as_slice());
                let ghost given = encrypted;
                let r = Self::generated(&key, encrypted);
                proof {
                    assert(generated_key(kind, key@));
                    assert(wrapped(given) == match r {
                        Ok(pair) => Ok::<Seq<u8>, ErrorModel<E::Error>>(pair.0@),
                        Err(e) => Err(e@),
                    });
                }
                r
            },
            Err(text) => Err(Error::Serialize(text)),
        }
    }

    /// Generates a private key, encrypts it and appends it to the keychain.
    /// Whatever the generator and the backend yield, success appends one key
    /// of the algorithm asked for and returns its ciphertext, public key and
    /// handle, and failure appends none.
    pub fn generate_and_import<R: rand_core::CryptoRngCore>(
        &mut self,
        kind: KeyType,
        rng: &mut R,
    ) -> (r: Result<(Vec<u8>, PublicKey, usize), Error<E::Error>>)
        ensures
            final(self).backend() == old(self).backend(),
            match r {
                Ok(triple) => triple.2 == old(self).keys().len() && final(self).keys().len() == old(self).keys().len() + 1 && final(self).keys().drop_last() == old(self).keys()
                    && generated_key(kind, final(self).keys().last()) && triple.1@ == public_model(
                    final(self).keys().last(),
                ),
                Err(e) => final(self).keys() == old(self).keys() && e@ is Encryption,
            },
            exists|answer: Result<Vec<u8>, E::Error>| #[trigger]
                wrapped(answer) == match r {
                    Ok(triple) => Ok::<Seq<u8>, ErrorModel<E::Error>>(triple.0@),
                    Err(e) => Err(e@),
                },
    {
        let key = match PrivateKey::generate(kind, rng) {
            Ok(key) => key,
            Err(e) => return Err(Error::Signer(e)),
        };
        let ghost model = key@;
        let r = self.import_unencrypted(key);
        proof {
            if r is Ok {
                assert(self.keys().drop_last() =~= old(self).keys());
                assert(self.keys().last() == model);
            }
        }
        r
    }

    /// Decrypts an encrypted private key and signs `msg` with it; the key is
    /// not kept. Whatever the backend answers to unwrapping the key, the
    /// result is what signing with that answer comes to: a signature of
    /// `msg` under the key that the plaintext stands for, the backend's
    /// error, a deserialization error for a plaintext that is no key, or the
    /// scheme's failure.
    pub fn try_sign_with(&self, key_data: &[u8], msg: &[u8]) -> (r: Result<
        Signature,
        Error<E::Error>,
    >)
        ensures
            r matches Err(e) ==> e@ is Encryption || e@ is Deserialize || e@
                == ErrorModel::<E::Error>::Signer(KeyError::Signature),
            exists|answer: Result<Vec<u8>, E::Error>| #[trigger]
                signed_with(answer, msg@) == signature_model(r),
    {
        let answer = self.enc.decrypt(key_data);
        let ghost asked = answer;
        let r = Self::sign_with_opened(answer, msg);
        proof {
            assert(signed_with(asked, msg@) == signature_model(r));
        }
        r
    }

    /// Decrypts an encrypted private key and returns its public key; the key
    /// is not kept. Whatever the backend answers to unwrapping the key, the
    /// result is what that answer comes to: the public key of the key that
    /// the plaintext stands for, the backend's error, or a deserialization
    /// error for a plaintext that is no key.
    pub fn public_key_from(&self, key_data: &[u8]) -> (r: Result<PublicKey, Error<E::Error>>)
        ensures
            r matches Err(e) ==> e@ is Encryption || e@ is Deserialize,
            exists|answer: Result<Vec<u8>, E::Error>| #[trigger]
                public_key_of_answer(answer) == public_key_model(r),
    {
        let answer = self.enc.decrypt(key_data);
        let ghost asked = answer;
        let r = Self::public_key_of_opened(answer);
        proof {
            assert(public_key_of_answer(asked) == public_key_model(r));
        }
        r
    }
}

} // verus!
