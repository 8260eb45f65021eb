//! Answering a request in two steps. Some requests are answered from the
//! keychain alone; the others need the encryption backend once, to wrap a
//! key or to unwrap one. The first step answers the former and says what to
//! ask the backend for the latter; the second step takes what the backend
//! answered and finishes. A blocking server asks the backend between the
//! two; a cooperative one awaits it there.

use crate::cbor::{credentials_from, encodable, no_encoding, Cbor};
use crate::crypto::keychain::{public_key_at, sign_at, KeyModel};
use crate::crypto::{sign_outcome, PrivateKey};
use crate::rpc::server::StateError;
use crate::rpc::{
    response_model, Error as RpcError, ErrorModel as RpcErrorModel, Reply, ReplyModel, Request,
    RequestModel, ResponseModel,
};
use crate::signer::{
    generated_key, is_plaintext_of, key_of_answer, key_of_plaintext, key_to_plaintext,
    public_model, EncryptedSigner,
    EncryptionBackend, EncryptionBackendFactory, Error as SignerError,
    ErrorModel as SignerErrorModel,
};
use vstd::prelude::*;

verus! {

/// What to ask the encryption backend.
#[derive(Debug)]
pub enum Ask {
    /// To unwrap the given ciphertext.
    Decrypt(Vec<u8>),
    /// To wrap the given plaintext.
    Encrypt(Vec<u8>),
}

/// What is left to do once the backend has answered.
pub enum Pending {
    /// To read the key from the plaintext and append it to the keychain.
    Import,
    /// To read the key from the plaintext and sign the given message.
    SignWith(Vec<u8>),
    /// To read the key from the plaintext and return its public key.
    PublicKeyFrom,
    /// To append the given key to the keychain and return its ciphertext.
    Store(PrivateKey),
    /// To return the ciphertext of the given key, which is not kept.
    Hand(PrivateKey),
}

/// Where the answering of a request stands after its first step.
pub enum Step {
    /// The request is answered.
    Done(Result<Reply, RpcError>),
    /// The backend is to be asked, and its answer handed to the second step.
    Ask(Ask, Pending),
}

/// Whether `told` is what the client is told of the signer error `e`: the
/// backend's error becomes some text, the others keep their content.
pub open spec fn told<S>(e: SignerErrorModel<S>, told: RpcErrorModel) -> bool {
    match e {
        SignerErrorModel::Encryption(_) => told is Encryption,
        SignerErrorModel::Signer(k) => told == RpcErrorModel::Signer(k),
        SignerErrorModel::Serialize(text) => told == RpcErrorModel::Serialize(text),
        SignerErrorModel::Deserialize(text) => told == RpcErrorModel::Deserialize(text),
    }
}

/// What signing `msg` with an encrypted key comes to where the backend
/// unwrapped `plaintext`.
pub open spec fn signed_from(plaintext: Seq<u8>, msg: Seq<u8>) -> ResponseModel {
    match key_of_plaintext(plaintext) {
        Ok(key) => match sign_outcome(key.0, key.1, msg) {
            Ok(sig) => Ok(ReplyModel::Signed(sig)),
            Err(k) => Err(RpcErrorModel::Signer(k)),
        },
        Err(text) => Err(RpcErrorModel::Deserialize(text)),
    }
}

/// What asking for the public key of an encrypted key comes to where the
/// backend unwrapped `plaintext`.
pub open spec fn public_from(plaintext: Seq<u8>) -> ResponseModel {
    match key_of_plaintext(plaintext) {
        Ok(key) => Ok(ReplyModel::Public(public_model(key))),
        Err(text) => Err(RpcErrorModel::Deserialize(text)),
    }
}

/// What the keychain alone answers to signing with the key under a handle.
pub open spec fn signed_at(keys: Seq<KeyModel>, handle: usize, msg: Seq<u8>) -> ResponseModel {
    match sign_at(keys, handle as int, msg) {
        Ok(sig) => Ok(ReplyModel::Signed(sig)),
        Err(k) => Err(RpcErrorModel::Signer(k)),
    }
}

/// What the keychain alone answers to asking for the public key under a
/// handle.
pub open spec fn public_at(keys: Seq<KeyModel>, handle: usize) -> ResponseModel {
    match public_key_at(keys, handle as int) {
        Ok(public) => Ok(ReplyModel::Public(public)),
        Err(k) => Err(RpcErrorModel::Signer(k)),
    }
}

/// Whether `step` is the first step of answering `request` with the keys
/// `keys` held. A key that is to be wrapped goes to the backend as its CBOR
/// encoding. Where a key is generated, what holds of every key that the
/// generator may yield.
pub open spec fn begun(keys: Seq<KeyModel>, request: RequestModel, step: Step) -> bool {
    match request {
        RequestModel::Initialize(_) => step matches Step::Done(r) && response_model(r) == Err::<
            ReplyModel,
            RpcErrorModel,
        >(RpcErrorModel::AlreadyInitialized),
        RequestModel::Import(key_data) => step matches Step::Ask(
            Ask::Decrypt(asked),
            Pending::Import,
        ) && asked@ == key_data,
        RequestModel::ImportUnencrypted(kind, secret) => step matches Step::Ask(
            Ask::Encrypt(asked),
            Pending::Store(key),
        ) && key@ == (kind, secret) && is_plaintext_of(key@, Ok(asked@)),
        RequestModel::Generate(kind) => step matches Step::Ask(
            Ask::Encrypt(asked),
            Pending::Hand(key),
        ) && generated_key(kind, key@) && is_plaintext_of(key@, Ok(asked@)),
        RequestModel::GenerateAndImport(kind) => step matches Step::Ask(
            Ask::Encrypt(asked),
            Pending::Store(key),
        ) && generated_key(kind, key@) && is_plaintext_of(key@, Ok(asked@)),
        RequestModel::Sign { handle, msg } => step matches Step::Done(r) && response_model(r)
            == signed_at(keys, handle, msg),
        RequestModel::SignWith { key_data, msg } => step matches Step::Ask(
            Ask::Decrypt(asked),
            Pending::SignWith(kept),
        ) && asked@ == key_data && kept@ == msg,
        RequestModel::PublicKey(handle) => step matches Step::Done(r) && response_model(r)
            == public_at(keys, handle),
        RequestModel::PublicKeyFrom(key_data) => step matches Step::Ask(
            Ask::Decrypt(asked),
            Pending::PublicKeyFrom,
        ) && asked@ == key_data,
    }
}

/// Whether `response` is the answer to a request whose first step left
/// `pending` and whose question the backend answered with `answer`, and
/// `after` the keys held then, where `before` were held before. Only a key
/// that was unwrapped or wrapped without error is appended, and its handle
/// is the number of keys held before.
pub open spec fn finished<S>(
    before: Seq<KeyModel>,
    pending: Pending,
    answer: Result<Vec<u8>, S>,
    after: Seq<KeyModel>,
    response: ResponseModel,
) -> bool {
    match pending {
        Pending::Import => match key_of_answer(answer) {
            Ok(key) => after == before.push(key) && (response matches Ok(
                ReplyModel::Imported(public, handle),
            ) && public == public_model(key) && handle == before.len()),
            Err(e) => after == before && (response matches Err(x) && told(e, x)),
        },
        Pending::SignWith(msg) => after == before && match key_of_answer(answer) {
            Ok(key) => response == match sign_outcome(key.0, key.1, msg@) {
                Ok(sig) => Ok::<ReplyModel, RpcErrorModel>(ReplyModel::Signed(sig)),
                Err(k) => Err(RpcErrorModel::Signer(k)),
            },
            Err(e) => response matches Err(x) && told(e, x),
        },
        Pending::PublicKeyFrom => after == before && match key_of_answer(answer) {
            Ok(key) => response == Ok::<ReplyModel, RpcErrorModel>(
                ReplyModel::Public(public_model(key)),
            ),
            Err(e) => response matches Err(x) && told(e, x),
        },
        Pending::Store(key) => match answer {
            Ok(encrypted) => after == before.push(key@) && (response matches Ok(
                ReplyModel::Stored(ciphertext, public, handle),
            ) && ciphertext == encrypted@ && public == public_model(key@) && handle
                == before.len()),
            Err(_) => after == before && (response matches Err(x) && x is Encryption),
        },
        Pending::Hand(key) => after == before && match answer {
            Ok(encrypted) => response == Ok::<ReplyModel, RpcErrorModel>(
                ReplyModel::Generated(encrypted@, public_model(key@)),
            ),
            Err(_) => response matches Err(x) && x is Encryption,
        },
    }
}

/// A signer error as the client is told it.
pub fn lift<S: core::fmt::Display>(e: SignerError<S>) -> (r: RpcError)
    ensures
        told(e@, r@),
{
    match e {
        SignerError::Encryption(err) => RpcError::Encryption(err.to_string()),
        SignerError::Signer(k) => RpcError::Signer(k),
        SignerError::Serialize(text) => RpcError::Serialize(text),
        SignerError::Deserialize(text) => RpcError::Deserialize(text),
    }
}

/// Carries out `Initialize`: reads the credentials of the factory's backend
/// out of the item that the client sent and has the factory make a backend
/// from them. The signer that comes of it holds no key. Credentials that
/// cannot be read are a deserialization error; a factory that refuses is an
/// encryption error that carries the factory's text.
pub fn open_signer<F>(fact: &F, credentials: Cbor) -> (r: Result<
    EncryptedSigner<F::Output>,
    RpcError,
>) where F: EncryptionBackendFactory, F::Credentials: serde::de::DeserializeOwned
    ensures
        match r {
            Ok(signer) => signer.keys() == Seq::<KeyModel>::empty(),
            Err(e) => e@ is Deserialize || e@ is Encryption,
        },
        !encodable(credentials) ==> (r matches Err(e) && e@ == RpcErrorModel::Deserialize(
            no_encoding(),
        )),
{
    let cred = match credentials_from::<F::Credentials>(credentials) {
        Ok(cred) => cred,
        Err(text) => return Err(RpcError::Deserialize(text)),
    };
    match fact.try_new(cred) {
        Ok(enc) => Ok(EncryptedSigner::new(enc)),
        Err(e) => Err(RpcError::Encryption(e.to_string())),
    }
}

/// Writes a key for the backend to wrap, and says what is to become of the
/// key once it is wrapped.
fn wrap(key: PrivateKey, keep: bool) -> (step: Step)
    ensures
        match step {
            Step::Ask(Ask::Encrypt(asked), Pending::Store(kept)) => keep && kept@ == key@
                && is_plaintext_of(key@, Ok(asked@)),
            Step::Ask(Ask::Encrypt(asked), Pending::Hand(kept)) => !keep && kept@ == key@
                && is_plaintext_of(key@, Ok(asked@)),
            _ => false,
        },
{
    match key_to_plaintext(&key) {
        Ok(plaintext) => {
            if keep {
                Step::Ask(Ask::Encrypt(plaintext), Pending::Store(key))
            } else {
                Step::Ask(Ask::Encrypt(plaintext), Pending::Hand(key))
            }
        },
        Err(text) => Step::Done(Err(RpcError::Serialize(text))),
    }
}

/// The first step of answering a request on an initialized connection.
pub fn begin<E: EncryptionBackend, R: rand_core::CryptoRngCore>(
    signer: &EncryptedSigner<E>,
    rng: &mut R,
    request: Request,
) -> (step: Step)
    ensures
        begun(signer.keys(), request@, step),
{
    match request {
        Request::Initialize(_) => Step::Done(Err(StateError::Initialized.into_error())),
        Request::Import(key_data) => Step::Ask(Ask::Decrypt(key_data), Pending::Import),
        Request::ImportUnencrypted(key) => wrap(key, true),
        Request::Generate(kind) => match PrivateKey::generate(kind, rng) {
            Ok(key) => wrap(key, false),
            Err(e) => Step::Done(Err(RpcError::Signer(e))),
        },
        Request::GenerateAndImport(kind) => match PrivateKey::generate(kind, rng) {
            Ok(key) => wrap(key, true),
            Err(e) => Step::Done(Err(RpcError::Signer(e))),
        },
        Request::Sign { handle, msg } => Step::Done(
            match signer.try_sign(handle, msg.as_slice()) {
                Ok(sig) => Ok(Reply::Signed(sig)),
                Err(e) => Err(lift(e)),
            },
        ),
        Request::SignWith { key_data, msg } => Step::Ask(
            Ask::Decrypt(key_data),
            Pending::SignWith(msg),
        ),
        Request::PublicKey(handle) => Step::Done(
            match signer.public_key(handle) {
                Ok(public) => Ok(Reply::Public(public)),
                Err(e) => Err(lift(e)),
            },
        ),
        Request::PublicKeyFrom(key_data) => Step::Ask(
            Ask::Decrypt(key_data),
            Pending::PublicKeyFrom,
        ),
    }
}

/// The second step: finishes a request with what the backend answered.
pub fn finish<E: EncryptionBackend>(
    signer: &mut EncryptedSigner<E>,
    pending: Pending,
    answer: Result<Vec<u8>, E::Error>,
) -> (r: Result<Reply, RpcError>)
    ensures
        final(signer).backend() == old(signer).backend(),
        finished(old(signer).keys(), pending, answer, final(signer).keys(), response_model(r)),
{
    match pending {
        Pending::Import => match signer.import_opened(answer) {
            Ok((public, handle)) => Ok(Reply::Imported(public, handle)),
            Err(e) => Err(lift(e)),
        },
        Pending::SignWith(msg) => match EncryptedSigner::<E>::sign_with_opened(
            answer,
            msg.as_slice(),
        ) {
            Ok(sig) => Ok(Reply::Signed(sig)),
            Err(e) => Err(lift(e)),
        },
        Pending::PublicKeyFrom => match EncryptedSigner::<E>::public_key_of_opened(answer) {
            Ok(public) => Ok(Reply::Public(public)),
            Err(e) => Err(lift(e)),
        },
        Pending::Store(key) => match signer.import_sealed(key, answer) {
            Ok((encrypted, public, handle)) => Ok(Reply::Stored(encrypted, public, handle)),
            Err(e) => Err(lift(e)),
        },
        Pending::Hand(key) => match EncryptedSigner::<E>::generated(&key, answer) {
            Ok((encrypted, public)) => Ok(Reply::Generated(encrypted, public)),
            Err(e) => Err(lift(e)),
        },
    }
}

} // verus!
