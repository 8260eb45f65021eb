use signer_core::cbor::Cbor;
use signer_core::crypto::{Error as KeyError, KeyType, PrivateKey, PublicKey, Signature};
use signer_core::rpc::wire::{
    public_key_from_cbor, public_key_to_cbor, signature_from_cbor, signature_to_cbor,
    into_bytes, into_handle, into_key_type, into_keyed_bytes, into_pair, key_type_item,
    key_type_word, keyed_bytes_item, named, pair, parse_key_type, tag, untag, Malformed,
};
use signer_core::rpc::{
    decode_response, encode_response, key_error_from_cbor, key_error_to_cbor, response_from_cbor,
    response_to_cbor, Error as RpcError, Reply, ReplyKind, Request,
};

fn text(s: &str) -> Cbor {
    Cbor::Text(s.to_string())
}

fn single(name: &str, body: Cbor) -> Cbor {
    Cbor::Dict(vec![(text(name), body)])
}

fn same(a: &Request, b: &Request) -> bool {
    match (a, b) {
        (Request::Initialize(_), Request::Initialize(_)) => true,
        (Request::Import(x), Request::Import(y)) => x == y,
        (Request::ImportUnencrypted(x), Request::ImportUnencrypted(y)) => {
            x.key_type() == y.key_type() && x.to_bytes() == y.to_bytes()
        }
        (Request::Generate(x), Request::Generate(y)) => x == y,
        (Request::GenerateAndImport(x), Request::GenerateAndImport(y)) => x == y,
        (
            Request::Sign { handle: h, msg: m },
            Request::Sign {
                handle: h2,
                msg: m2,
            },
        ) => h == h2 && m == m2,
        (
            Request::SignWith {
                key_data: k,
                msg: m,
            },
            Request::SignWith {
                key_data: k2,
                msg: m2,
            },
        ) => k == k2 && m == m2,
        (Request::PublicKey(x), Request::PublicKey(y)) => x == y,
        (Request::PublicKeyFrom(x), Request::PublicKeyFrom(y)) => x == y,
        _ => false,
    }
}

fn requests() -> Vec<Request> {
    vec![
        Request::Initialize(Cbor::Dict(Vec::new())),
        Request::Import(vec![1, 2, 3]),
        Request::ImportUnencrypted(PrivateKey::from_bytes(KeyType::Ed25519, &[8u8; 32]).unwrap()),
        Request::Generate(KeyType::Secp256k1),
        Request::GenerateAndImport(KeyType::BLS),
        Request::Sign {
            handle: 70000,
            msg: b"text".to_vec(),
        },
        Request::SignWith {
            key_data: vec![9; 40],
            msg: Vec::new(),
        },
        Request::PublicKey(0),
        Request::PublicKeyFrom(vec![0xff]),
    ]
}

#[test]
fn requests_read_back_from_their_items() {
    for (request, again) in requests().into_iter().zip(requests()) {
        let back = Request::from_cbor(request.to_cbor()).unwrap();
        assert!(same(&back, &again));
    }
}

#[test]
fn requests_read_back_from_their_bytes() {
    for (request, again) in requests().into_iter().zip(requests()) {
        let bytes = request.encode().unwrap();
        let back = Request::decode(&bytes).unwrap();
        assert!(same(&back, &again));
    }
}

#[test]
fn request_bytes_are_the_tagged_sum() {
    // {"Sign": {"handle": 5, "msg": h'0102'}}
    let bytes = Request::Sign {
        handle: 5,
        msg: vec![1, 2],
    }
    .encode()
    .unwrap();
    let mut expected = vec![0xa1, 0x64];
    expected.extend_from_slice(b"Sign");
    expected.extend_from_slice(&[0xa2, 0x66]);
    expected.extend_from_slice(b"handle");
    expected.extend_from_slice(&[0x05, 0x63]);
    expected.extend_from_slice(b"msg");
    expected.extend_from_slice(&[0x42, 1, 2]);
    assert_eq!(bytes, expected);
    // {"Generate": "NistP256"}
    let bytes = Request::Generate(KeyType::NistP256).encode().unwrap();
    let mut expected = vec![0xa1, 0x68];
    expected.extend_from_slice(b"Generate");
    expected.push(0x68);
    expected.extend_from_slice(b"NistP256");
    assert_eq!(bytes, expected);
}

#[test]
fn the_fields_of_a_request_may_come_in_either_order() {
    let swapped = single(
        "Sign",
        Cbor::Dict(vec![
            (text("msg"), Cbor::Bytes(vec![7])),
            (text("handle"), Cbor::Integer(3)),
        ]),
    );
    match Request::from_cbor(swapped) {
        Ok(Request::Sign { handle: 3, msg }) => assert_eq!(msg, vec![7]),
        _ => panic!("field order"),
    }
}

#[test]
fn items_that_are_no_request() {
    assert_eq!(
        Request::from_cbor(Cbor::Null).err(),
        Some(Malformed::NotTagged)
    );
    assert_eq!(
        Request::from_cbor(Cbor::Dict(Vec::new())).err(),
        Some(Malformed::NotTagged)
    );
    assert_eq!(
        Request::from_cbor(Cbor::Dict(vec![(Cbor::Integer(1), Cbor::Null)])).err(),
        Some(Malformed::NotTagged)
    );
    assert_eq!(
        Request::from_cbor(single("Resign", Cbor::Null)).err(),
        Some(Malformed::UnknownVariant)
    );
    assert_eq!(
        Request::from_cbor(single("Import", Cbor::Integer(1))).err(),
        Some(Malformed::BadPayload)
    );
    assert_eq!(
        Request::from_cbor(single("PublicKey", Cbor::Integer(-1))).err(),
        Some(Malformed::BadPayload)
    );
    assert_eq!(
        Request::from_cbor(single("Generate", text("RSA"))).err(),
        Some(Malformed::UnknownVariant)
    );
    assert_eq!(
        Request::from_cbor(single("Generate", Cbor::Integer(0))).err(),
        Some(Malformed::NotTagged)
    );
    assert_eq!(
        Request::from_cbor(single(
            "Sign",
            Cbor::Dict(vec![(text("handle"), Cbor::Integer(3))])
        ))
        .err(),
        Some(Malformed::BadPayload)
    );
    assert_eq!(
        Request::from_cbor(single(
            "ImportUnencrypted",
            single("Secp256k1", Cbor::Bytes(vec![0; 32]))
        ))
        .err(),
        Some(Malformed::BadKey)
    );
    assert_eq!(
        Request::decode(&[0xff, 0xff, 0xff]).is_err(),
        true
    );
    assert_eq!(Request::decode(&[0xf6]).err().unwrap(), "expected a variant name or a single-entry map");
}

#[test]
fn malformed_says_what_is_wrong() {
    assert_eq!(
        Malformed::NotTagged.message(),
        "expected a variant name or a single-entry map"
    );
    assert_eq!(Malformed::UnknownVariant.message(), "unknown variant");
    assert_eq!(Malformed::BadPayload.message(), "invalid payload");
    assert_eq!(Malformed::BadKey.message(), "invalid private key");
    assert_eq!(Malformed::BadPublicKey.message(), "invalid public key");
    assert_eq!(Malformed::BadSignature.message(), "invalid signature");
}

#[test]
fn reply_kinds_follow_the_request() {
    let kinds: Vec<ReplyKind> = requests().iter().map(|r| r.reply_kind()).collect();
    assert_eq!(
        kinds,
        vec![
            ReplyKind::Done,
            ReplyKind::Imported,
            ReplyKind::Stored,
            ReplyKind::Generated,
            ReplyKind::Stored,
            ReplyKind::Signed,
            ReplyKind::Signed,
            ReplyKind::Public,
            ReplyKind::Public,
        ]
    );
}

fn public() -> PublicKey {
    PrivateKey::from_bytes(KeyType::Ed25519, &[5; 32])
        .unwrap()
        .public_key()
}

fn signature() -> Signature {
    PrivateKey::from_bytes(KeyType::BLS, &[5; 32])
        .unwrap()
        .try_sign(b"message")
        .unwrap()
}

fn replies() -> Vec<Reply> {
    vec![
        Reply::Done,
        Reply::Imported(public(), 3),
        Reply::Stored(vec![1, 2], public(), 0),
        Reply::Generated(vec![7; 100], public()),
        Reply::Signed(signature()),
        Reply::Public(public()),
    ]
}

#[test]
fn replies_read_back_under_their_shape() {
    for reply in replies() {
        let kind = reply.kind();
        let expected = format!("{:?}", reply);
        let back = Reply::from_cbor(reply.to_cbor(), kind).unwrap();
        assert_eq!(format!("{:?}", back), expected);
    }
}

#[test]
fn replies_do_not_read_back_under_another_shape() {
    assert_eq!(
        Reply::from_cbor(Reply::Done.to_cbor(), ReplyKind::Imported).err(),
        Some(Malformed::BadPayload)
    );
    assert_eq!(
        Reply::from_cbor(Reply::Imported(public(), 1).to_cbor(), ReplyKind::Stored).err(),
        Some(Malformed::BadPayload)
    );
    assert_eq!(
        Reply::from_cbor(Reply::Imported(public(), 1).to_cbor(), ReplyKind::Generated).err(),
        Some(Malformed::BadPayload)
    );
    assert_eq!(
        Reply::from_cbor(Reply::Public(public()).to_cbor(), ReplyKind::Done).err(),
        Some(Malformed::BadPayload)
    );
}

fn errors() -> Vec<RpcError> {
    vec![
        RpcError::Uninitialized,
        RpcError::AlreadyInitialized,
        RpcError::Deserialize("bad".to_string()),
        RpcError::Signer(KeyError::InvalidHandle),
        RpcError::Signer(KeyError::Signature),
        RpcError::Signer(KeyError::BLS(7)),
        RpcError::Encryption("kms".to_string()),
        RpcError::Serialize("ser".to_string()),
    ]
}

#[test]
fn errors_read_back() {
    for e in errors() {
        let expected = format!("{:?}", e);
        let back = RpcError::from_cbor(e.to_cbor()).unwrap();
        assert_eq!(format!("{:?}", back), expected);
    }
    for e in [KeyError::InvalidHandle, KeyError::Signature, KeyError::BLS(255)] {
        assert_eq!(key_error_from_cbor(key_error_to_cbor(e)), Ok(e));
    }
    assert_eq!(
        key_error_from_cbor(single("BLS", Cbor::Integer(256))),
        Err(Malformed::BadPayload)
    );
    assert_eq!(
        key_error_from_cbor(text("Handle")),
        Err(Malformed::UnknownVariant)
    );
    assert_eq!(
        RpcError::from_cbor(text("Initialized")).err(),
        Some(Malformed::UnknownVariant)
    );
    assert_eq!(
        RpcError::from_cbor(single("Deserialize", Cbor::Null)).err(),
        Some(Malformed::BadPayload)
    );
}

#[test]
fn errors_say_what_they_are() {
    let texts: Vec<String> = errors().iter().map(|e| e.message()).collect();
    assert_eq!(
        texts,
        vec![
            "uninitialized",
            "already initialized",
            "deserialization error: bad",
            "signer error: invalid handle",
            "signer error: signature error",
            "signer error: BLST error: 7",
            "encryption error: kms",
            "serialization error: ser",
        ]
    );
}

#[test]
fn responses_read_back_from_items_and_bytes() {
    for reply in replies() {
        let kind = reply.kind();
        let expected = format!("{:?}", reply);
        let back = response_from_cbor(response_to_cbor(Ok(reply)), kind).unwrap();
        assert_eq!(format!("{:?}", back.unwrap()), expected);
    }
    for reply in replies() {
        let kind = reply.kind();
        let expected = format!("{:?}", reply);
        let bytes = encode_response(Ok(reply)).unwrap();
        let back = decode_response(&bytes, kind).unwrap();
        assert_eq!(format!("{:?}", back.unwrap()), expected);
    }
    for e in errors() {
        let expected = format!("{:?}", e);
        let bytes = encode_response(Err(e)).unwrap();
        for kind in [ReplyKind::Done, ReplyKind::Stored, ReplyKind::Signed] {
            let back = decode_response(&bytes, kind).unwrap();
            assert_eq!(format!("{:?}", back.err().unwrap()), expected);
        }
    }
    assert_eq!(
        response_from_cbor(single("Maybe", Cbor::Null), ReplyKind::Done).err(),
        Some(Malformed::UnknownVariant)
    );
    assert_eq!(
        response_from_cbor(Cbor::Null, ReplyKind::Done).err(),
        Some(Malformed::NotTagged)
    );
    assert!(decode_response(&[0xff], ReplyKind::Done).is_err());
}

#[test]
fn response_bytes_are_the_tagged_sum() {
    // {"Ok": [h'0102', {"Ed25519": h'05..'}, 0]}
    let bytes = encode_response(Ok(Reply::Stored(vec![1, 2], public(), 0))).unwrap();
    let mut expected = vec![0xa1, 0x62, b'O', b'k', 0x83, 0x42, 1, 2, 0xa1, 0x67];
    expected.extend_from_slice(b"Ed25519");
    expected.extend_from_slice(&[0x58, 0x20]);
    expected.extend_from_slice(&public().bytes());
    expected.push(0x00);
    assert_eq!(bytes, expected);
}

#[test]
fn an_item_without_encoding_cannot_be_written() {
    assert_eq!(
        Request::Initialize(Cbor::Other).encode().err().unwrap(),
        "item has no CBOR encoding"
    );
    assert!(Request::Initialize(Cbor::Integer(i128::MAX))
        .encode()
        .is_err());
    assert!(Request::Initialize(Cbor::Integer(-(1i128 << 64)))
        .encode()
        .is_ok());
    assert!(Request::Initialize(Cbor::Integer(u64::MAX as i128))
        .encode()
        .is_ok());
}

#[test]
fn every_kind_of_item_reads_back() {
    let items = vec![
        Cbor::Integer(-5),
        Cbor::Integer(1 << 40),
        Cbor::Bytes(vec![1, 2, 3]),
        text("hello"),
        Cbor::Boolean(true),
        Cbor::Null,
        Cbor::Tagged(42, Box::new(Cbor::Integer(1))),
        Cbor::Array(vec![Cbor::Null, Cbor::Array(vec![text("x")])]),
        Cbor::Dict(vec![(Cbor::Integer(1), Cbor::Bytes(Vec::new()))]),
    ];
    for item in items {
        let expected = format!("{:?}", item);
        let bytes = Request::Initialize(item).encode().unwrap();
        match Request::decode(&bytes).unwrap() {
            Request::Initialize(back) => assert_eq!(format!("{:?}", back), expected),
            _ => panic!("not an Initialize"),
        }
    }
    // a floating-point number is an item the library has no use for
    let mut bytes = vec![0xa1, 0x6a];
    bytes.extend_from_slice(b"Initialize");
    bytes.extend_from_slice(&[0xf9, 0x3c, 0x00]);
    assert!(matches!(
        Request::decode(&bytes),
        Ok(Request::Initialize(Cbor::Other))
    ));
}

#[test]
fn the_parts_of_the_shapes() {
    assert!(named(&"Sign".to_string(), "Sign"));
    assert!(!named(&"Sign".to_string(), "SignWith"));
    match untag(tag("Name", Cbor::Null)) {
        Some((name, Cbor::Null)) => assert_eq!(name, "Name"),
        _ => panic!("untag"),
    }
    assert!(untag(Cbor::Array(Vec::new())).is_none());
    assert_eq!(into_bytes(Cbor::Bytes(vec![1])), Some(vec![1]));
    assert_eq!(into_bytes(Cbor::Null), None);
    assert_eq!(into_handle(Cbor::Integer(9)), Some(9));
    assert_eq!(into_handle(Cbor::Integer(-9)), None);
    assert_eq!(into_handle(Cbor::Integer(i128::MAX)), None);
    assert_eq!(into_handle(text("9")), None);
    match into_pair(pair("a", Cbor::Integer(1), "b", Cbor::Integer(2)), "a", "b") {
        Some((Cbor::Integer(1), Cbor::Integer(2))) => {}
        _ => panic!("pair"),
    }
    match into_pair(pair("a", Cbor::Integer(1), "b", Cbor::Integer(2)), "b", "a") {
        Some((Cbor::Integer(2), Cbor::Integer(1))) => {}
        _ => panic!("pair"),
    }
    assert!(into_pair(pair("a", Cbor::Null, "c", Cbor::Null), "a", "b").is_none());
    for kind in [
        KeyType::Secp256k1,
        KeyType::NistP256,
        KeyType::Ed25519,
        KeyType::BLS,
    ] {
        assert_eq!(parse_key_type(&key_type_word(kind).to_string()), Some(kind));
        assert_eq!(into_key_type(key_type_item(kind)), Ok(kind));
        assert_eq!(
            into_keyed_bytes(keyed_bytes_item(kind, vec![1, 2])),
            Ok((kind, vec![1, 2]))
        );
    }
    assert_eq!(key_type_word(KeyType::BLS), "BLS");
    assert_eq!(parse_key_type(&"bls".to_string()), None);
}

#[test]
fn items_without_a_counterpart_in_cbor() {
    let refused = |item: Cbor| {
        assert_eq!(
            Request::Initialize(item).encode().err().unwrap(),
            "item has no CBOR encoding"
        )
    };
    refused(Cbor::Integer(1i128 << 64));
    refused(Cbor::Integer(-(1i128 << 64) - 1));
    refused(Cbor::Tagged(1, Box::new(Cbor::Other)));
    refused(Cbor::Array(vec![Cbor::Null, Cbor::Other]));
    refused(Cbor::Dict(vec![(Cbor::Other, Cbor::Null)]));
    refused(Cbor::Dict(vec![(Cbor::Null, Cbor::Integer(i128::MIN))]));
    refused(Cbor::Array(vec![Cbor::Array(vec![Cbor::Tagged(
        0,
        Box::new(Cbor::Integer(1i128 << 64)),
    )])]));
    assert!(Request::Initialize(Cbor::Integer((1i128 << 64) - 1))
        .encode()
        .is_ok());
    assert!(Request::Initialize(Cbor::Integer(-(1i128 << 64)))
        .encode()
        .is_ok());
    assert!(Request::Initialize(Cbor::Array(vec![
        Cbor::Tagged(7, Box::new(Cbor::Boolean(false))),
        Cbor::Dict(vec![(Cbor::Text(String::new()), Cbor::Bytes(Vec::new()))]),
    ]))
    .encode()
    .is_ok());
}

#[test]
fn keys_and_signatures_that_are_written_are_read_back() {
    for kind in [
        KeyType::Secp256k1,
        KeyType::NistP256,
        KeyType::Ed25519,
        KeyType::BLS,
    ] {
        let key = PrivateKey::generate(kind, &mut rand_core::OsRng).unwrap();
        let public = key.public_key();
        let back = public_key_from_cbor(public_key_to_cbor(&public)).unwrap();
        assert_eq!((back.kind(), back.bytes()), (kind, public.bytes()));
        let sig = key.try_sign(b"message").unwrap();
        let back = signature_from_cbor(signature_to_cbor(&sig)).unwrap();
        assert_eq!((back.kind(), back.bytes()), (kind, sig.bytes()));
        assert!(PublicKey::from_bytes(kind, &public.bytes()).is_ok());
        assert!(Signature::from_bytes(kind, &sig.bytes()).is_ok());
    }
}

#[test]
fn bytes_that_are_no_key_or_signature_are_refused() {
    let keyed = |name: &str, bytes: Vec<u8>| single(name, Cbor::Bytes(bytes));
    // the empty string, a wrong length, and bytes of the right length that are no point
    for name in ["Secp256k1", "NistP256", "Ed25519", "BLS"] {
        assert_eq!(
            signature_from_cbor(keyed(name, Vec::new())).err(),
            Some(Malformed::BadSignature)
        );
        assert_eq!(
            public_key_from_cbor(keyed(name, Vec::new())).err(),
            Some(Malformed::BadPublicKey)
        );
        assert_eq!(
            public_key_from_cbor(keyed(name, vec![0xff; 31])).err(),
            Some(Malformed::BadPublicKey)
        );
    }
    assert_eq!(
        public_key_from_cbor(keyed("Secp256k1", vec![0x02; 33])).is_ok(),
        k256::ecdsa::VerifyingKey::from_sec1_bytes(&[0x02; 33]).is_ok()
    );
    assert_eq!(
        public_key_from_cbor(keyed("Secp256k1", vec![0xff; 33])).err(),
        Some(Malformed::BadPublicKey)
    );
    assert_eq!(
        public_key_from_cbor(keyed("NistP256", vec![0x05; 33])).err(),
        Some(Malformed::BadPublicKey)
    );
    assert_eq!(
        public_key_from_cbor(keyed("BLS", vec![0xff; 48])).err(),
        Some(Malformed::BadPublicKey)
    );
    assert_eq!(
        signature_from_cbor(keyed("BLS", vec![0xff; 96])).err(),
        Some(Malformed::BadSignature)
    );
    assert_eq!(
        signature_from_cbor(keyed("BLS", vec![9; 96])).err(),
        Some(Malformed::BadSignature)
    );
    assert_eq!(
        signature_from_cbor(keyed("Secp256k1", vec![0; 64])).err(),
        Some(Malformed::BadSignature)
    );
    assert_eq!(
        signature_from_cbor(keyed("NistP256", vec![0xff; 64])).err(),
        Some(Malformed::BadSignature)
    );
    assert_eq!(
        signature_from_cbor(keyed("Secp256k1", vec![1; 65])).err(),
        Some(Malformed::BadSignature)
    );
    assert!(signature_from_cbor(keyed("Ed25519", vec![0; 64])).is_ok());
    assert_eq!(
        signature_from_cbor(keyed("Ed25519", vec![0; 63])).err(),
        Some(Malformed::BadSignature)
    );
    assert_eq!(
        signature_from_cbor(keyed("RSA", vec![0; 64])).err(),
        Some(Malformed::UnknownVariant)
    );
    assert_eq!(
        public_key_from_cbor(Cbor::Null).err(),
        Some(Malformed::NotTagged)
    );
    // a reply that carries such bytes is no reply
    assert_eq!(
        Reply::from_cbor(keyed("BLS", Vec::new()), ReplyKind::Signed).err(),
        Some(Malformed::BadPayload)
    );
    assert_eq!(
        Reply::from_cbor(keyed("Ed25519", vec![1; 31]), ReplyKind::Public).err(),
        Some(Malformed::BadPayload)
    );
    assert!(matches!(
        PublicKey::from_bytes(KeyType::BLS, &[]),
        Err(KeyError::BLS(_))
    ));
    assert!(matches!(
        Signature::from_bytes(KeyType::BLS, &[1; 96]),
        Err(KeyError::BLS(_))
    ));
    assert!(matches!(
        PublicKey::from_bytes(KeyType::Ed25519, &[1; 33]),
        Err(KeyError::Signature)
    ));
    assert!(matches!(
        Signature::from_bytes(KeyType::NistP256, &[0; 64]),
        Err(KeyError::Signature)
    ));
}
