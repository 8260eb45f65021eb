use blake2::Digest;
use k256::ecdsa::signature::{DigestVerifier, Verifier};
use signer_core::cbor::Cbor;
use signer_core::crypto::{Error as KeyError, KeyType, PrivateKey};
use signer_core::rpc::client::Error as ClientError;
use signer_core::rpc::frame::{peek, write_frame, Peek};
use signer_core::rpc::plan::{begin, finish, lift, open_signer, Ask, Pending, Step};
use signer_core::rpc::server::{Error as ServerError, IoKind, StateError};
use signer_core::rpc::{Client, Error as RpcError, Reply, ReplyKind, Request, Server};
use signer_core::{
    EncryptedSigner, EncryptionBackend, EncryptionBackendFactory, SyncEncryptionBackend,
};
use std::collections::BTreeMap;

type Blake2b256 = blake2::Blake2b<blake2::digest::consts::U32>;

#[derive(Debug)]
struct DummyErr;

impl std::fmt::Display for DummyErr {
    fn fmt(&self, f: &mut std::fmt::Formatter<'_>) -> std::fmt::Result {
        f.write_str("dummy")
    }
}

/// A backend that flips every bit.
struct Flip;

impl EncryptionBackend for Flip {
    type Error = DummyErr;
}

impl SyncEncryptionBackend for Flip {
    fn encrypt(&self, src: &[u8]) -> Result<Vec<u8>, Self::Error> {
        Ok(src.iter().map(|b| !b).collect())
    }

    fn decrypt(&self, src: &[u8]) -> Result<Vec<u8>, Self::Error> {
        Ok(src.iter().map(|b| !b).collect())
    }
}

/// Makes a backend from credentials that are a map of strings; a map that
/// holds the key `deny` is refused.
struct FlipFactory;

impl EncryptionBackendFactory for FlipFactory {
    type Output = Flip;
    type Credentials = BTreeMap<String, String>;

    fn try_new(&self, cred: Self::Credentials) -> Result<Flip, DummyErr> {
        if cred.contains_key("deny") {
            Err(DummyErr)
        } else {
            Ok(Flip)
        }
    }
}

type TestServer = Server<FlipFactory, EncryptedSigner<Flip>, rand_core::OsRng>;

fn server() -> TestServer {
    Server::new(FlipFactory, rand_core::OsRng)
}

fn empty_credentials() -> Cbor {
    Cbor::Dict(Vec::new())
}

/// Sends one request over a fresh transcript and reads the one response.
fn call(server: &mut TestServer, request: Request) -> Result<Reply, ClientError> {
    let kind = request.reply_kind();
    let sent = Client::<()>::request_frame(request).unwrap();
    let mut received = Vec::new();
    server.serve_connection(&sent, &mut received).unwrap();
    match peek(&received, 0) {
        Peek::Frame { start, end } => {
            assert_eq!(end, received.len());
            Client::<()>::read_response(&received[start..end], kind)
        }
        other => panic!("no whole response frame: {:?}", other),
    }
}

fn initialized() -> TestServer {
    let mut server = server();
    assert!(matches!(
        call(&mut server, Request::Initialize(empty_credentials())),
        Ok(Reply::Done)
    ));
    server
}

#[test]
fn happy_path_ed25519_sign() {
    let mut server = initialized();
    let (ciphertext, public, handle) =
        match call(&mut server, Request::GenerateAndImport(KeyType::Ed25519)) {
            Ok(Reply::Stored(c, p, h)) => (c, p, h),
            other => panic!("unexpected {:?}", other),
        };
    assert_eq!(handle, 0);
    assert!(!ciphertext.is_empty());
    assert_eq!(public.kind(), KeyType::Ed25519);
    let sig = match call(
        &mut server,
        Request::Sign {
            handle: 0,
            msg: b"text".to_vec(),
        },
    ) {
        Ok(Reply::Signed(sig)) => sig,
        other => panic!("unexpected {:?}", other),
    };
    assert_eq!(sig.kind(), KeyType::Ed25519);
    let key_bytes: [u8; 32] = public.bytes().as_slice().try_into().unwrap();
    ed25519_dalek::VerifyingKey::from_bytes(&key_bytes)
        .unwrap()
        .verify(b"text", &ed25519_dalek::Signature::from_slice(&sig.bytes()).unwrap())
        .unwrap();
}

#[test]
fn sign_via_ciphertext_only() {
    let mut server = initialized();
    let (ciphertext, public) = match call(&mut server, Request::Generate(KeyType::Secp256k1)) {
        Ok(Reply::Generated(c, p)) => (c, p),
        other => panic!("unexpected {:?}", other),
    };
    let sig = match call(
        &mut server,
        Request::SignWith {
            key_data: ciphertext,
            msg: b"text".to_vec(),
        },
    ) {
        Ok(Reply::Signed(sig)) => sig,
        other => panic!("unexpected {:?}", other),
    };
    let mut digest = Blake2b256::new();
    digest.update(b"text");
    k256::ecdsa::VerifyingKey::from_sec1_bytes(&public.bytes())
        .unwrap()
        .verify_digest(
            digest,
            &k256::ecdsa::Signature::from_slice(&sig.bytes()).unwrap(),
        )
        .unwrap();
    // the key was not kept
    assert!(matches!(
        call(&mut server, Request::PublicKey(0)),
        Err(ClientError::RPC(RpcError::Signer(KeyError::InvalidHandle)))
    ));
}

#[test]
fn invalid_handle() {
    let mut server = initialized();
    assert!(matches!(
        call(
            &mut server,
            Request::Sign {
                handle: 42,
                msg: Vec::new()
            }
        ),
        Err(ClientError::RPC(RpcError::Signer(KeyError::InvalidHandle)))
    ));
}

#[test]
fn double_init() {
    let mut server = initialized();
    let (_, public, _) = match call(&mut server, Request::GenerateAndImport(KeyType::NistP256)) {
        Ok(Reply::Stored(c, p, h)) => (c, p, h),
        other => panic!("unexpected {:?}", other),
    };
    assert!(matches!(
        call(&mut server, Request::Initialize(empty_credentials())),
        Err(ClientError::RPC(RpcError::AlreadyInitialized))
    ));
    assert!(server.is_initialized());
    match call(&mut server, Request::PublicKey(0)) {
        Ok(Reply::Public(p)) => assert_eq!(p.bytes(), public.bytes()),
        other => panic!("unexpected {:?}", other),
    }
}

#[test]
fn garbage_frame() {
    let mut server = initialized();
    let mut sent = vec![0, 0, 0, 3, 0xff, 0xff, 0xff];
    sent.extend_from_slice(&Client::<()>::request_frame(Request::Generate(KeyType::Ed25519)).unwrap());
    let mut received = Vec::new();
    server.serve_connection(&sent, &mut received).unwrap();
    let (start, end) = match peek(&received, 0) {
        Peek::Frame { start, end } => (start, end),
        other => panic!("unexpected {:?}", other),
    };
    assert!(matches!(
        Client::<()>::read_response(&received[start..end], ReplyKind::Done),
        Err(ClientError::RPC(RpcError::Deserialize(_)))
    ));
    let (start, next) = match peek(&received, end) {
        Peek::Frame { start, end } => (start, end),
        other => panic!("unexpected {:?}", other),
    };
    assert!(matches!(
        Client::<()>::read_response(&received[start..next], ReplyKind::Generated),
        Ok(Reply::Generated(_, _))
    ));
    assert_eq!(next, received.len());
}

#[test]
fn bls_roundtrip() {
    let mut server = initialized();
    let public = match call(&mut server, Request::GenerateAndImport(KeyType::BLS)) {
        Ok(Reply::Stored(_, p, 0)) => p,
        other => panic!("unexpected {:?}", other),
    };
    let sig = match call(
        &mut server,
        Request::Sign {
            handle: 0,
            msg: b"hello".to_vec(),
        },
    ) {
        Ok(Reply::Signed(sig)) => sig,
        other => panic!("unexpected {:?}", other),
    };
    let key = blst::min_pk::PublicKey::uncompress(&public.bytes()).unwrap();
    let parsed = blst::min_pk::Signature::uncompress(&sig.bytes()).unwrap();
    assert_eq!(
        parsed.verify(
            true,
            b"hello",
            b"BLS_SIG_BLS12381G2_XMD:SHA-256_SSWU_RO_AUG_",
            &public.bytes(),
            &key,
            true
        ),
        blst::BLST_ERROR::BLST_SUCCESS
    );
}

#[test]
fn every_request_but_initialize_is_refused_before_initialize() {
    let key = || PrivateKey::from_bytes(KeyType::Ed25519, &[3u8; 32]).unwrap();
    let requests = vec![
        Request::Import(vec![1, 2, 3]),
        Request::ImportUnencrypted(key()),
        Request::Generate(KeyType::BLS),
        Request::GenerateAndImport(KeyType::Ed25519),
        Request::Sign {
            handle: 0,
            msg: vec![1],
        },
        Request::SignWith {
            key_data: vec![1],
            msg: vec![2],
        },
        Request::PublicKey(0),
        Request::PublicKeyFrom(vec![1]),
    ];
    let mut server = server();
    for request in requests {
        assert!(matches!(
            call(&mut server, request),
            Err(ClientError::RPC(RpcError::Uninitialized))
        ));
        assert!(!server.is_initialized());
    }
    assert!(matches!(
        call(&mut server, Request::Initialize(empty_credentials())),
        Ok(Reply::Done)
    ));
    assert!(server.is_initialized());
}

#[test]
fn dispatch_answers_without_the_wire() {
    let mut server = server();
    assert!(matches!(
        server.dispatch(Request::PublicKey(0)),
        Err(RpcError::Uninitialized)
    ));
    assert!(matches!(
        server.dispatch(Request::Initialize(empty_credentials())),
        Ok(Reply::Done)
    ));
    assert!(matches!(
        server.dispatch(Request::Initialize(empty_credentials())),
        Err(RpcError::AlreadyInitialized)
    ));
    let key = PrivateKey::from_bytes(KeyType::Ed25519, &[5u8; 32]).unwrap();
    let public = key.public_key();
    match server.dispatch(Request::ImportUnencrypted(key)) {
        Ok(Reply::Stored(_, p, 0)) => assert_eq!(p.bytes(), public.bytes()),
        other => panic!("unexpected {:?}", other),
    }
}

#[test]
fn credentials_that_the_factory_cannot_read_or_refuses() {
    let mut server = server();
    assert!(matches!(
        call(&mut server, Request::Initialize(Cbor::Integer(7))),
        Err(ClientError::RPC(RpcError::Deserialize(_)))
    ));
    assert!(!server.is_initialized());
    let deny = Cbor::Dict(vec![(
        Cbor::Text("deny".to_string()),
        Cbor::Text("yes".to_string()),
    )]);
    match call(&mut server, Request::Initialize(deny)) {
        Err(ClientError::RPC(RpcError::Encryption(text))) => assert_eq!(text, "dummy"),
        other => panic!("unexpected {:?}", other),
    }
    assert!(!server.is_initialized());
}

#[test]
fn import_of_a_ciphertext_that_holds_no_key() {
    let mut server = initialized();
    assert!(matches!(
        call(&mut server, Request::Import(vec![0x00, 0x00])),
        Err(ClientError::RPC(RpcError::Deserialize(_)))
    ));
    assert!(matches!(
        call(&mut server, Request::PublicKey(0)),
        Err(ClientError::RPC(RpcError::Signer(KeyError::InvalidHandle)))
    ));
}

#[test]
fn truncated_request_emits_nothing_and_closes() {
    let mut server = initialized();
    let whole = Client::<()>::request_frame(Request::Generate(KeyType::Ed25519)).unwrap();
    for cut in 1..whole.len() {
        let mut received = Vec::new();
        let r = server.serve_connection(&whole[..cut], &mut received);
        assert!(matches!(r, Err(ServerError::IO(IoKind::UnexpectedEof))));
        assert!(received.is_empty());
    }
    let mut received = Vec::new();
    assert!(server.serve_connection(&[], &mut received).is_ok());
    assert!(received.is_empty());
    // a whole frame and then a prefix that is cut short
    let mut sent = whole.clone();
    sent.extend_from_slice(&[0, 0]);
    let r = server.serve_connection(&sent, &mut received);
    assert!(matches!(r, Err(ServerError::IO(IoKind::UnexpectedEof))));
    assert_eq!(peek(&received, 0), Peek::Frame { start: 4, end: received.len() });
}

#[test]
fn one_response_frame_for_each_request_frame() {
    let mut server = server();
    let mut sent = Vec::new();
    let requests = vec![
        Request::PublicKey(0),
        Request::Initialize(empty_credentials()),
        Request::GenerateAndImport(KeyType::Ed25519),
        Request::PublicKey(0),
        Request::PublicKey(1),
    ];
    let count = requests.len();
    for request in requests {
        sent.extend_from_slice(&Client::<()>::request_frame(request).unwrap());
    }
    sent.extend_from_slice(&[0, 0, 0, 9, 1]);
    let mut received = vec![0xaa];
    let r = server.serve_connection(&sent, &mut received);
    assert!(matches!(r, Err(ServerError::IO(IoKind::UnexpectedEof))));
    assert_eq!(received[0], 0xaa);
    let mut pos = 1;
    let mut frames = 0;
    loop {
        match peek(&received, pos) {
            Peek::Frame { end, .. } => {
                frames += 1;
                pos = end;
            }
            Peek::End => break,
            Peek::Truncated => panic!("truncated response"),
        }
    }
    assert_eq!(pos, received.len());
    assert_eq!(frames, count);
}

#[test]
fn handle_message_leaves_the_response_in_the_buffer() {
    let mut server = server();
    let mut buf = vec![0xff, 0xff, 0xff];
    server.handle_message(&mut buf).unwrap();
    assert!(matches!(
        Client::<()>::read_response(&buf, ReplyKind::Done),
        Err(ClientError::RPC(RpcError::Deserialize(_)))
    ));
    // {"Initialize": {}}
    let mut buf = vec![0xa1, 0x6a];
    buf.extend_from_slice(b"Initialize");
    buf.push(0xa0);
    server.handle_message(&mut buf).unwrap();
    // {"Ok": null}
    assert_eq!(buf, vec![0xa1, 0x62, b'O', b'k', 0xf6]);
    // {"PublicKey": 42}
    let mut buf = vec![0xa1, 0x69];
    buf.extend_from_slice(b"PublicKey");
    buf.extend_from_slice(&[0x18, 42]);
    server.handle_message(&mut buf).unwrap();
    // {"Err": {"Signer": "InvalidHandle"}}
    let mut expected = vec![0xa1, 0x63];
    expected.extend_from_slice(b"Err");
    expected.extend_from_slice(&[0xa1, 0x66]);
    expected.extend_from_slice(b"Signer");
    expected.push(0x6d);
    expected.extend_from_slice(b"InvalidHandle");
    assert_eq!(buf, expected);
}

#[test]
fn frames_carry_a_big_endian_length() {
    let mut out = Vec::new();
    assert!(write_frame(&[7u8; 258], &mut out));
    assert_eq!(&out[..4], &[0, 0, 1, 2]);
    assert_eq!(out.len(), 262);
    assert_eq!(peek(&out, 0), Peek::Frame { start: 4, end: 262 });
    assert_eq!(peek(&out, 262), Peek::End);
    assert_eq!(peek(&out[..100], 0), Peek::Truncated);
    assert_eq!(peek(&out[..3], 0), Peek::Truncated);
    assert_eq!(peek(&out[..1], 0), Peek::Truncated);
    assert_eq!(peek(&[], 0), Peek::End);
}

#[test]
fn state_errors_say_what_they_are() {
    assert_eq!(StateError::Uninitialized.message(), "uninitialized");
    assert_eq!(StateError::Initialized.message(), "already initialized");
    assert!(matches!(
        StateError::Uninitialized.into_error(),
        RpcError::Uninitialized
    ));
    assert!(matches!(
        StateError::Initialized.into_error(),
        RpcError::AlreadyInitialized
    ));
}

#[test]
fn a_request_is_answered_in_two_steps() {
    let mut signer = EncryptedSigner::new(Flip);
    let mut rng = rand_core::OsRng;
    // answered from the keychain alone
    assert!(matches!(
        begin(&signer, &mut rng, Request::PublicKey(0)),
        Step::Done(Err(RpcError::Signer(KeyError::InvalidHandle)))
    ));
    assert!(matches!(
        begin(&signer, &mut rng, Request::Initialize(empty_credentials())),
        Step::Done(Err(RpcError::AlreadyInitialized))
    ));
    // a key goes to the backend as its CBOR encoding
    let key = PrivateKey::from_bytes(KeyType::Ed25519, &[6u8; 32]).unwrap();
    let public = key.public_key();
    let (plaintext, pending) = match begin(&signer, &mut rng, Request::ImportUnencrypted(key)) {
        Step::Ask(Ask::Encrypt(plaintext), pending) => (plaintext, pending),
        _ => panic!("no question"),
    };
    let mut expected = vec![0xa1, 0x67];
    expected.extend_from_slice(b"Ed25519");
    expected.extend_from_slice(&[0x58, 0x20]);
    expected.extend_from_slice(&[6u8; 32]);
    assert_eq!(plaintext, expected);
    assert!(matches!(pending, Pending::Store(_)));
    // a backend that fails leaves the keychain as it was
    match finish(&mut signer, pending, Err(DummyErr)) {
        Err(RpcError::Encryption(text)) => assert_eq!(text, "dummy"),
        other => panic!("unexpected {:?}", other),
    }
    assert_eq!(signer.len(), 0);
    // the ciphertext is what the backend answered
    let key = PrivateKey::from_bytes(KeyType::Ed25519, &[6u8; 32]).unwrap();
    let pending = match begin(&signer, &mut rng, Request::ImportUnencrypted(key)) {
        Step::Ask(Ask::Encrypt(_), pending) => pending,
        _ => panic!("no question"),
    };
    match finish(&mut signer, pending, Ok(vec![1, 2, 3])) {
        Ok(Reply::Stored(ciphertext, p, 0)) => {
            assert_eq!(ciphertext, vec![1, 2, 3]);
            assert_eq!(p.bytes(), public.bytes());
        }
        other => panic!("unexpected {:?}", other),
    }
    assert_eq!(signer.len(), 1);
    // a ciphertext goes to the backend as it came
    let (asked, pending) = match begin(
        &signer,
        &mut rng,
        Request::SignWith {
            key_data: vec![9, 9],
            msg: b"m".to_vec(),
        },
    ) {
        Step::Ask(Ask::Decrypt(asked), pending) => (asked, pending),
        _ => panic!("no question"),
    };
    assert_eq!(asked, vec![9, 9]);
    match finish(&mut signer, pending, Ok(expected.clone())) {
        Ok(Reply::Signed(sig)) => assert_eq!(
            sig.bytes(),
            PrivateKey::from_bytes(KeyType::Ed25519, &[6u8; 32])
                .unwrap()
                .try_sign(b"m")
                .unwrap()
                .bytes()
        ),
        other => panic!("unexpected {:?}", other),
    }
    let pending = match begin(&signer, &mut rng, Request::Import(vec![1])) {
        Step::Ask(Ask::Decrypt(_), pending) => pending,
        _ => panic!("no question"),
    };
    match finish(&mut signer, pending, Ok(expected.clone())) {
        Ok(Reply::Imported(p, 1)) => assert_eq!(p.bytes(), public.bytes()),
        other => panic!("unexpected {:?}", other),
    }
    let pending = match begin(&signer, &mut rng, Request::PublicKeyFrom(vec![1])) {
        Step::Ask(Ask::Decrypt(_), pending) => pending,
        _ => panic!("no question"),
    };
    assert!(matches!(
        finish(&mut signer, pending, Ok(vec![0xff])),
        Err(RpcError::Deserialize(_))
    ));
    let pending = match begin(&signer, &mut rng, Request::Generate(KeyType::BLS)) {
        Step::Ask(Ask::Encrypt(_), pending) => pending,
        _ => panic!("no question"),
    };
    assert!(matches!(pending, Pending::Hand(_)));
    assert!(matches!(
        finish(&mut signer, pending, Ok(vec![4])),
        Ok(Reply::Generated(c, p)) if c == vec![4] && p.kind() == KeyType::BLS
    ));
    assert_eq!(signer.len(), 2);
    let pending = match begin(&signer, &mut rng, Request::GenerateAndImport(KeyType::NistP256)) {
        Step::Ask(Ask::Encrypt(_), pending) => pending,
        _ => panic!("no question"),
    };
    assert!(matches!(
        finish(&mut signer, pending, Ok(vec![5])),
        Ok(Reply::Stored(c, p, 2)) if c == vec![5] && p.kind() == KeyType::NistP256
    ));
    assert!(matches!(
        lift(signer_core::Error::<DummyErr>::Signer(KeyError::Signature)),
        RpcError::Signer(KeyError::Signature)
    ));
}

#[test]
fn initialize_makes_a_signer_without_keys() {
    let signer = open_signer(&FlipFactory, empty_credentials()).ok().unwrap();
    assert_eq!(signer.len(), 0);
    assert!(matches!(
        open_signer(&FlipFactory, Cbor::Array(Vec::new())),
        Err(RpcError::Deserialize(_))
    ));
    assert!(matches!(
        open_signer(&FlipFactory, Cbor::Other),
        Err(RpcError::Deserialize(text)) if text == "item has no CBOR encoding"
    ));
    let deny = Cbor::Dict(vec![(
        Cbor::Text("deny".to_string()),
        Cbor::Text("yes".to_string()),
    )]);
    assert!(matches!(
        open_signer(&FlipFactory, deny),
        Err(RpcError::Encryption(text)) if text == "dummy"
    ));
}

#[test]
fn credentials_without_a_counterpart_in_cbor() {
    for item in [
        Cbor::Other,
        Cbor::Integer(1i128 << 64),
        Cbor::Dict(vec![(Cbor::Text("k".to_string()), Cbor::Other)]),
    ] {
        assert!(matches!(
            open_signer(&FlipFactory, item),
            Err(RpcError::Deserialize(text)) if text == "item has no CBOR encoding"
        ));
    }
}
