use signer_core::cbor::Cbor;
use signer_core::crypto::{Error as KeyError, KeyType, PrivateKey};
use signer_core::rpc::client::Error as ClientError;
use signer_core::rpc::frame::{peek, Peek};
use signer_core::rpc::server::{Error as ServerError, IoKind};
use signer_core::rpc::{encode_response, Client, Error as RpcError, Reply, ReplyKind, Request};
use signer_core::Error as SignerError;

#[test]
fn a_client_keeps_its_connection() {
    let mut client = Client::new(vec![1u8, 2, 3]);
    client.get_mut().push(4);
    assert_eq!(client.into_inner(), vec![1, 2, 3, 4]);
}

#[test]
fn a_request_goes_out_as_one_frame() {
    let sent = Client::<()>::request_frame(Request::PublicKey(1)).unwrap();
    // {"PublicKey": 1}
    let mut expected = vec![0, 0, 0, 12, 0xa1, 0x69];
    expected.extend_from_slice(b"PublicKey");
    expected.push(0x01);
    assert_eq!(sent, expected);
    assert_eq!(peek(&sent, 0), Peek::Frame { start: 4, end: 16 });
    assert!(matches!(
        Client::<()>::request_frame(Request::Initialize(Cbor::Other)),
        Err(ClientError::Serialize(text)) if text == "item has no CBOR encoding"
    ));
}

#[test]
fn a_response_is_a_reply_or_the_servers_error() {
    let public = PrivateKey::from_bytes(KeyType::NistP256, &[2; 32])
        .unwrap()
        .public_key();
    let expected = public.bytes();
    let payload = encode_response(Ok(Reply::Imported(public, 4))).unwrap();
    match Client::<()>::read_response(&payload, ReplyKind::Imported) {
        Ok(Reply::Imported(p, 4)) => assert_eq!(p.bytes(), expected),
        other => panic!("unexpected {:?}", other),
    }
    assert!(matches!(
        Client::<()>::read_response(&payload, ReplyKind::Signed),
        Err(ClientError::Deserialize(text)) if text == "invalid payload"
    ));
    let payload = encode_response(Err(RpcError::Signer(KeyError::InvalidHandle))).unwrap();
    assert!(matches!(
        Client::<()>::read_response(&payload, ReplyKind::Signed),
        Err(ClientError::RPC(RpcError::Signer(KeyError::InvalidHandle)))
    ));
    assert!(matches!(
        Client::<()>::read_response(&[0xff], ReplyKind::Signed),
        Err(ClientError::Deserialize(_))
    ));
}

#[test]
fn client_and_server_errors_say_what_they_are() {
    assert_eq!(
        ClientError::IO(IoKind::UnexpectedEof).message(),
        "IO error: unexpected end of file"
    );
    assert_eq!(ClientError::IO(IoKind::Other).message(), "IO error: other error");
    assert_eq!(
        ClientError::RPC(RpcError::AlreadyInitialized).message(),
        "RPC error: already initialized"
    );
    assert_eq!(
        ClientError::Serialize("x".to_string()).message(),
        "serialization error: x"
    );
    assert_eq!(
        ClientError::Deserialize("y".to_string()).message(),
        "deserialization error: y"
    );
    assert_eq!(
        ServerError::IO(IoKind::UnexpectedEof).message(),
        "IO error: unexpected end of file"
    );
    assert_eq!(
        ServerError::Serialize("x".to_string()).message(),
        "serialization error: x"
    );
    assert_eq!(
        ServerError::Deserialize("y".to_string()).message(),
        "deserialization error: y"
    );
    assert_eq!(IoKind::Other.message(), "other error");
    assert_eq!(SignerError::Encryption(()).message(), "encryption error");
    assert_eq!(
        SignerError::<()>::Signer(KeyError::Signature).message(),
        "signer error"
    );
    assert_eq!(
        SignerError::<()>::Serialize(String::new()).message(),
        "serialization error"
    );
    assert_eq!(
        SignerError::<()>::Deserialize(String::new()).message(),
        "deserialization error"
    );
}
