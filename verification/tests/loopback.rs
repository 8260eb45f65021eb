use blake2::Digest;
use k256::ecdsa::signature::{DigestVerifier, Verifier};
use signer_core::cbor::Cbor;
use signer_core::crypto::{Error as KeyError, KeyType};
use signer_core::rpc::client::{Error as ClientError, Transport};
use signer_core::rpc::server::IoKind;
use signer_core::rpc::{Client, Error as RpcError, Server};
use signer_core::{
    EncryptedSigner, EncryptionBackend, EncryptionBackendFactory, SyncEncryptionBackend,
};
use std::collections::BTreeMap;

type Blake2b256 = blake2::Blake2b<blake2::digest::consts::U32>;

#[derive(Debug)]
struct DummyErr;

impl std::fmt::Display for DummyErr {
    fn fmt(&self, f: &mut std::fmt::Formatter<'_>) -> std::fmt::Result {
        f.write_str("dummy")
    }
}

struct Passthrough;

impl EncryptionBackend for Passthrough {
    type Error = DummyErr;
}

impl SyncEncryptionBackend for Passthrough {
    fn encrypt(&self, src: &[u8]) -> Result<Vec<u8>, Self::Error> {
        Ok(Vec::from(src))
    }

    fn decrypt(&self, src: &[u8]) -> Result<Vec<u8>, Self::Error> {
        Ok(Vec::from(src))
    }
}

struct PassthroughFactory;

impl EncryptionBackendFactory for PassthroughFactory {
    type Output = Passthrough;
    type Credentials = BTreeMap<String, String>;

    fn try_new(&self, _cred: Self::Credentials) -> Result<Passthrough, DummyErr> {
        Ok(Passthrough)
    }
}

/// A connection whose other end is a server in the same process.
struct Loopback {
    server: Server<PassthroughFactory, EncryptedSigner<Passthrough>, rand_core::OsRng>,
    inbox: Vec<u8>,
    closed: bool,
}

impl Transport for Loopback {
    fn send(&mut self, bytes: &[u8]) -> Result<(), IoKind> {
        if self.closed {
            return Err(IoKind::Other);
        }
        self.server
            .serve_connection(bytes, &mut self.inbox)
            .map_err(|_| IoKind::Other)
    }

    fn receive(&mut self, len: usize) -> Result<Vec<u8>, IoKind> {
        if self.inbox.len() < len {
            return Err(IoKind::UnexpectedEof);
        }
        Ok(self.inbox.drain(..len).collect())
    }
}

fn client() -> Client<Loopback> {
    Client::new(Loopback {
        server: Server::new(PassthroughFactory, rand_core::OsRng),
        inbox: Vec::new(),
        closed: false,
    })
}

fn connected() -> Client<Loopback> {
    let mut client = client();
    client.initialize(Cbor::Dict(Vec::new())).unwrap();
    client
}

#[test]
fn client_happy_path_ed25519() {
    let mut client = connected();
    let (ciphertext, public, handle) = client.generate_and_import(KeyType::Ed25519).unwrap();
    assert_eq!(handle, 0);
    assert!(!ciphertext.is_empty());
    let sig = client.try_sign(0, b"text").unwrap();
    let key_bytes: [u8; 32] = public.bytes().as_slice().try_into().unwrap();
    ed25519_dalek::VerifyingKey::from_bytes(&key_bytes)
        .unwrap()
        .verify(b"text", &ed25519_dalek::Signature::from_slice(&sig.bytes()).unwrap())
        .unwrap();
    assert_eq!(client.public_key(0).unwrap().bytes(), public.bytes());
    assert_eq!(client.public_key_from(&ciphertext).unwrap().bytes(), public.bytes());
}

#[test]
fn client_signs_with_a_ciphertext() {
    let mut client = connected();
    let (ciphertext, public) = client.generate(KeyType::Secp256k1).unwrap();
    let sig = client.try_sign_with(&ciphertext, b"text").unwrap();
    let mut digest = Blake2b256::new();
    digest.update(b"text");
    k256::ecdsa::VerifyingKey::from_sec1_bytes(&public.bytes())
        .unwrap()
        .verify_digest(
            digest,
            &k256::ecdsa::Signature::from_slice(&sig.bytes()).unwrap(),
        )
        .unwrap();
    let (imported, handle) = client.import(&ciphertext).unwrap();
    assert_eq!((imported.bytes(), handle), (public.bytes(), 0));
}

#[test]
fn client_is_told_the_servers_errors() {
    let mut client = client();
    assert!(matches!(
        client.public_key(0),
        Err(ClientError::RPC(RpcError::Uninitialized))
    ));
    client.initialize(Cbor::Dict(Vec::new())).unwrap();
    assert!(matches!(
        client.initialize(Cbor::Dict(Vec::new())),
        Err(ClientError::RPC(RpcError::AlreadyInitialized))
    ));
    assert!(matches!(
        client.try_sign(42, b""),
        Err(ClientError::RPC(RpcError::Signer(KeyError::InvalidHandle)))
    ));
    assert!(matches!(
        client.import(&[0xff, 0xff, 0xff]),
        Err(ClientError::RPC(RpcError::Deserialize(_)))
    ));
}

#[test]
fn client_on_a_connection_that_fails() {
    let mut client = connected();
    client.get_mut().closed = true;
    assert!(matches!(
        client.generate(KeyType::BLS),
        Err(ClientError::IO(IoKind::Other))
    ));
    assert!(matches!(
        client.receive_frame(),
        Err(IoKind::UnexpectedEof)
    ));
    client.get_mut().inbox = vec![0, 0, 0, 5, 1, 2];
    assert!(matches!(
        client.receive_frame(),
        Err(IoKind::UnexpectedEof)
    ));
    client.get_mut().inbox = vec![0, 0, 0, 2, 1, 2, 9];
    assert_eq!(client.receive_frame(), Ok(vec![1, 2]));
    assert!(matches!(
        Client::<Loopback>::complete(Err(IoKind::UnexpectedEof), signer_core::rpc::ReplyKind::Done),
        Err(ClientError::IO(IoKind::UnexpectedEof))
    ));
    assert!(matches!(
        Client::<Loopback>::complete(Ok(vec![0xff]), signer_core::rpc::ReplyKind::Done),
        Err(ClientError::Deserialize(_))
    ));
}

#[test]
fn what_the_connection_delivered_decides_the_frame() {
    assert_eq!(Client::<Loopback>::announced(Ok(vec![0, 0, 1, 2])), Ok(258));
    assert_eq!(Client::<Loopback>::announced(Ok(vec![0, 0, 0, 0])), Ok(0));
    assert_eq!(
        Client::<Loopback>::announced(Ok(vec![0, 0, 1])),
        Err(IoKind::UnexpectedEof)
    );
    assert_eq!(
        Client::<Loopback>::announced(Ok(vec![0, 0, 0, 1, 2])),
        Err(IoKind::UnexpectedEof)
    );
    assert_eq!(
        Client::<Loopback>::announced(Err(IoKind::Other)),
        Err(IoKind::Other)
    );
    assert_eq!(
        Client::<Loopback>::delivered(2, Ok(vec![7, 8])),
        Ok(vec![7, 8])
    );
    assert_eq!(
        Client::<Loopback>::delivered(3, Ok(vec![7, 8])),
        Err(IoKind::UnexpectedEof)
    );
    assert_eq!(
        Client::<Loopback>::delivered(1, Ok(vec![7, 8])),
        Err(IoKind::UnexpectedEof)
    );
    assert_eq!(
        Client::<Loopback>::delivered(2, Err(IoKind::Other)),
        Err(IoKind::Other)
    );
}

#[test]
fn credentials_that_cannot_be_written_are_not_sent() {
    let mut client = client();
    assert!(matches!(
        client.initialize(Cbor::Other),
        Err(ClientError::Serialize(text)) if text == "item has no CBOR encoding"
    ));
    assert!(client.get_mut().inbox.is_empty());
    assert!(!client.get_mut().server.is_initialized());
    client.initialize(Cbor::Dict(Vec::new())).unwrap();
    assert!(client.get_mut().server.is_initialized());
}
