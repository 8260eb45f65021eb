//! The CBOR shapes of the protocol: tagged sums written as single-entry maps
//! from the variant's name to its payload, unit variants as the name alone,
//! byte fields as byte strings, tuples as arrays.

use crate::cbor::{encodable, Cbor};
use crate::crypto::keychain::KeyModel;
use crate::crypto::{
    public_key_ok, secret_ok, signature_ok, KeyType, PrivateKey, PublicKey, Signature,
};
use vstd::prelude::*;

verus! {

/// Why an item is not the shape that was asked for.
#[derive(Clone, Copy, Debug, PartialEq, Eq, Structural)]
pub enum Malformed {
    /// The item is not a single-entry map keyed by a text string, nor a text
    /// string where a unit variant is expected.
    NotTagged,
    /// The variant's name is not one of the sum.
    UnknownVariant,
    /// The payload of the variant has the wrong shape.
    BadPayload,
    /// The bytes of a private key are not a key of the named algorithm.
    BadKey,
    /// The bytes of a public key are not a key of the named algorithm.
    BadPublicKey,
    /// The bytes of a signature are not a signature of the named algorithm.
    BadSignature,
}

impl Malformed {
    /// The text that says what is wrong.
    pub open spec fn text(self) -> Seq<char> {
        match self {
            Malformed::NotTagged => "expected a variant name or a single-entry map"@,
            Malformed::UnknownVariant => "unknown variant"@,
            Malformed::BadPayload => "invalid payload"@,
            Malformed::BadKey => "invalid private key"@,
            Malformed::BadPublicKey => "invalid public key"@,
            Malformed::BadSignature => "invalid signature"@,
        }
    }

    /// The text that says what is wrong.
    pub fn message(self) -> (text: String)
        ensures
            text@ == self.text(),
    {
        match self {
            Malformed::NotTagged => "expected a variant name or a single-entry map".to_owned(),
            Malformed::UnknownVariant => "unknown variant".to_owned(),
            Malformed::BadPayload => "invalid payload".to_owned(),
            Malformed::BadKey => "invalid private key".to_owned(),
            Malformed::BadPublicKey => "invalid public key".to_owned(),
            Malformed::BadSignature => "invalid signature".to_owned(),
        }
    }
}

/// The name and payload of a single-entry map keyed by a text string.
pub open spec fn tagged(item: Cbor) -> Option<(Seq<char>, Cbor)> {
    match item {
        Cbor::Dict(entries) => if entries@.len() == 1 {
            match entries@[0].0 {
                Cbor::Text(name) => Some((name@, entries@[0].1)),
                _ => None,
            }
        } else {
            None
        },
        _ => None,
    }
}

/// The content of a byte string.
pub open spec fn bytes_of(item: Cbor) -> Option<Seq<u8>> {
    match item {
        Cbor::Bytes(bytes) => Some(bytes@),
        _ => None,
    }
}

/// The value of an integer item that fits a handle.
pub open spec fn handle_of(item: Cbor) -> Option<usize> {
    match item {
        Cbor::Integer(i) => if 0 <= i <= usize::MAX {
            Some(i as usize)
        } else {
            None
        },
        _ => None,
    }
}

/// The two values of a two-entry map keyed by the text strings `first` and
/// `second`, in that order whichever way the map lists them.
pub open spec fn pair_of(item: Cbor, first: Seq<char>, second: Seq<char>) -> Option<(Cbor, Cbor)> {
    match item {
        Cbor::Dict(entries) => if entries@.len() == 2 {
            match (entries@[0].0, entries@[1].0) {
                (Cbor::Text(a), Cbor::Text(b)) => if a@ == first && b@ == second {
                    Some((entries@[0].1, entries@[1].1))
                } else if a@ == second && b@ == first {
                    Some((entries@[1].1, entries@[0].1))
                } else {
                    None
                },
                _ => None,
            }
        } else {
            None
        },
        _ => None,
    }
}

/// Whether an item is a two-entry map that lists the key `first` before the
/// key `second`.
pub open spec fn in_order(item: Cbor, first: Seq<char>, second: Seq<char>) -> bool {
    match item {
        Cbor::Dict(entries) => entries@.len() == 2 && match (entries@[0].0, entries@[1].0) {
            (Cbor::Text(a), Cbor::Text(b)) => a@ == first && b@ == second,
            _ => false,
        },
        _ => false,
    }
}

/// The items of an array.
pub open spec fn items_of(item: Cbor) -> Option<Seq<Cbor>> {
    match item {
        Cbor::Array(items) => Some(items@),
        _ => None,
    }
}

/// The name under which an algorithm is written.
pub open spec fn key_type_name(kind: KeyType) -> Seq<char> {
    match kind {
        KeyType::Secp256k1 => "Secp256k1"@,
        KeyType::NistP256 => "NistP256"@,
        KeyType::Ed25519 => "Ed25519"@,
        KeyType::BLS => "BLS"@,
    }
}

/// The algorithm that a name stands for.
pub open spec fn key_type_named(name: Seq<char>) -> Option<KeyType> {
    if name == "Secp256k1"@ {
        Some(KeyType::Secp256k1)
    } else if name == "NistP256"@ {
        Some(KeyType::NistP256)
    } else if name == "Ed25519"@ {
        Some(KeyType::Ed25519)
    } else if name == "BLS"@ {
        Some(KeyType::BLS)
    } else {
        None
    }
}

/// The algorithm that an item names: a text string holding its name.
pub open spec fn key_type_of(item: Cbor) -> Result<KeyType, Malformed> {
    match item {
        Cbor::Text(name) => match key_type_named(name@) {
            Some(kind) => Ok(kind),
            None => Err(Malformed::UnknownVariant),
        },
        _ => Err(Malformed::NotTagged),
    }
}

/// The algorithm and bytes of a key or signature: a single-entry map from
/// the algorithm's name to a byte string.
pub open spec fn keyed_bytes_of(item: Cbor) -> Result<(KeyType, Seq<u8>), Malformed> {
    match tagged(item) {
        Some((name, body)) => match key_type_named(name) {
            Some(kind) => match bytes_of(body) {
                Some(bytes) => Ok((kind, bytes)),
                None => Err(Malformed::BadPayload),
            },
            None => Err(Malformed::UnknownVariant),
        },
        None => Err(Malformed::NotTagged),
    }
}

/// The four names are pairwise different, so a name stands for one algorithm.
pub proof fn lemma_key_type_names(kind: KeyType)
    ensures
        key_type_named(key_type_name(kind)) == Some(kind),
{
    reveal_strlit("Secp256k1");
    reveal_strlit("NistP256");
    reveal_strlit("Ed25519");
    reveal_strlit("BLS");
    assert("Secp256k1"@.len() == 9);
    assert("NistP256"@.len() == 8);
    assert("Ed25519"@.len() == 7);
    assert("BLS"@.len() == 3);
}

/// Tells whether `name` is the text `word`.
pub fn named(name: &String, word: &str) -> (b: bool)
    ensures
        b == (name@ == word@),
{
    let owned = word.to_owned();
    *name == owned
}

/// Splits a single-entry map keyed by a text string into name and payload.
pub fn untag(item: Cbor) -> (r: Option<(String, Cbor)>)
    ensures
        match r {
            Some((name, body)) => tagged(item) == Some((name@, body)),
            None => tagged(item) is None,
        },
{
    match item {
        Cbor::Dict(mut entries) => {
            if entries.len() != 1 {
                return None;
            }
            match entries.pop() {
                Some((Cbor::Text(name), body)) => Some((name, body)),
                _ => None,
            }
        },
        _ => None,
    }
}

/// Builds the single-entry map from `name` to `body`.
pub fn tag(name: &str, body: Cbor) -> (item: Cbor)
    ensures
        tagged(item) == Some((name@, body)),
        encodable(item) == encodable(body),
{
    let mut entries: Vec<(Cbor, Cbor)> = Vec::new();
    entries.push((Cbor::Text(name.to_owned()), body));
    let item = Cbor::Dict(entries);
    proof {
        assert(entries@[0].1 == body);
        assert(encodable(entries@[0].0));
        if encodable(body) {
            assert forall|k: int| 0 <= k < entries@.len() implies encodable(
                (#[trigger] entries@[k]).0,
            ) && encodable(entries@[k].1) by {
                assert(k == 0);
            }
        }
    }
    item
}

/// Takes the content out of a byte string.
pub fn into_bytes(item: Cbor) -> (r: Option<Vec<u8>>)
    ensures
        match r {
            Some(bytes) => bytes_of(item) == Some(bytes@),
            None => bytes_of(item) is None,
        },
{
    match item {
        Cbor::Bytes(bytes) => Some(bytes),
        _ => None,
    }
}

/// Reads a handle from an integer item.
pub fn into_handle(item: Cbor) -> (r: Option<usize>)
    ensures
        r == handle_of(item),
{
    match item {
        Cbor::Integer(i) => {
            if 0 <= i && i <= usize::MAX as i128 {
                Some(i as usize)
            } else {
                None
            }
        },
        _ => None,
    }
}

/// Splits a two-entry map keyed by `first` and `second` into its two values.
pub fn into_pair(item: Cbor, first: &str, second: &str) -> (r: Option<(Cbor, Cbor)>)
    ensures
        r == pair_of(item, first@, second@),
{
    match item {
        Cbor::Dict(mut entries) => {
            if entries.len() != 2 {
                return None;
            }
            let last = entries.pop();
            let head = entries.pop();
            match (head, last) {
                (Some((Cbor::Text(a), x)), Some((Cbor::Text(b), y))) => {
                    if named(&a, first) && named(&b, second) {
                        Some((x, y))
                    } else if named(&a, second) && named(&b, first) {
                        Some((y, x))
                    } else {
                        None
                    }
                },
                _ => None,
            }
        },
        _ => None,
    }
}

/// Builds the two-entry map from `first` to `x` and from `second` to `y`.
pub fn pair(first: &str, x: Cbor, second: &str, y: Cbor) -> (item: Cbor)
    requires
        first@ != second@,
    ensures
        pair_of(item, first@, second@) == Some((x, y)),
        in_order(item, first@, second@),
        encodable(x) && encodable(y) ==> encodable(item),
{
    let mut entries: Vec<(Cbor, Cbor)> = Vec::new();
    entries.push((Cbor::Text(first.to_owned()), x));
    entries.push((Cbor::Text(second.to_owned()), y));
    let item = Cbor::Dict(entries);
    proof {
        assert(encodable(entries@[0].0) && encodable(entries@[1].0));
        if encodable(x) && encodable(y) {
            assert forall|k: int| 0 <= k < entries@.len() implies encodable(
                (#[trigger] entries@[k]).0,
            ) && encodable(entries@[k].1) by {
                assert(k == 0 || k == 1);
            }
        }
    }
    item
}

/// The name under which an algorithm is written.
pub fn key_type_word(kind: KeyType) -> (word: &'static str)
    ensures
        word@ == key_type_name(kind),
{
    match kind {
        KeyType::Secp256k1 => "Secp256k1",
        KeyType::NistP256 => "NistP256",
        KeyType::Ed25519 => "Ed25519",
        KeyType::BLS => "BLS",
    }
}

/// Reads the algorithm that a name stands for.
pub fn parse_key_type(name: &String) -> (r: Option<KeyType>)
    ensures
        r == key_type_named(name@),
{
    if named(name, "Secp256k1") {
        Some(KeyType::Secp256k1)
    } else if named(name, "NistP256") {
        Some(KeyType::NistP256)
    } else if named(name, "Ed25519") {
        Some(KeyType::Ed25519)
    } else if named(name, "BLS") {
        Some(KeyType::BLS)
    } else {
        None
    }
}

/// Writes an algorithm as the text string of its name.
pub fn key_type_item(kind: KeyType) -> (item: Cbor)
    ensures
        key_type_of(item) == Ok::<KeyType, Malformed>(kind),
        encodable(item),
{
    proof {
        lemma_key_type_names(kind);
    }
    Cbor::Text(key_type_word(kind).to_owned())
}

/// Reads an algorithm from the text string of its name.
pub fn into_key_type(item: Cbor) -> (r: Result<KeyType, Malformed>)
    ensures
        r == key_type_of(item),
{
    match item {
        Cbor::Text(name) => match parse_key_type(&name) {
            Some(kind) => Ok(kind),
            None => Err(Malformed::UnknownVariant),
        },
        _ => Err(Malformed::NotTagged),
    }
}

/// Writes a key or signature as the single-entry map from its algorithm's
/// name to its bytes.
pub fn keyed_bytes_item(kind: KeyType, bytes: Vec<u8>) -> (item: Cbor)
    ensures
        keyed_bytes_of(item) == Ok::<(KeyType, Seq<u8>), Malformed>((kind, bytes@)),
        encodable(item),
{
    proof {
        lemma_key_type_names(kind);
    }
    tag(key_type_word(kind), Cbor::Bytes(bytes))
}

/// Reads the algorithm and the bytes of a key or signature from the
/// single-entry map from its algorithm's name to its bytes. Whether the
/// bytes are a key or signature of the algorithm is for the caller to test.
pub fn into_keyed_bytes(item: Cbor) -> (r: Result<(KeyType, Vec<u8>), Malformed>)
    ensures
        match r {
            Ok((kind, bytes)) => keyed_bytes_of(item) == Ok::<(KeyType, Seq<u8>), Malformed>(
                (kind, bytes@),
            ),
            Err(e) => keyed_bytes_of(item) == Err::<(KeyType, Seq<u8>), Malformed>(e),
        },
{
    match untag(item) {
        Some((name, body)) => match parse_key_type(&name) {
            Some(kind) => match into_bytes(body) {
                Some(bytes) => Ok((kind, bytes)),
                None => Err(Malformed::BadPayload),
            },
            None => Err(Malformed::UnknownVariant),
        },
        None => Err(Malformed::NotTagged),
    }
}

/// The private key that an item stands for: a single-entry map from the
/// algorithm's name to the secret, which the algorithm must accept.
pub open spec fn private_key_of(item: Cbor) -> Result<KeyModel, Malformed> {
    match keyed_bytes_of(item) {
        Ok((kind, secret)) => if secret_ok(kind, secret) {
            Ok((kind, secret))
        } else {
            Err(Malformed::BadKey)
        },
        Err(e) => Err(e),
    }
}

/// Reads a private key from an item.
pub fn private_key_from_cbor(item: Cbor) -> (r: Result<PrivateKey, Malformed>)
    ensures
        match r {
            Ok(key) => private_key_of(item) == Ok::<KeyModel, Malformed>(key@),
            Err(m) => private_key_of(item) == Err::<KeyModel, Malformed>(m),
        },
{
    match into_keyed_bytes(item) {
        Ok((kind, secret)) => match PrivateKey::from_vec(kind, secret) {
            Ok(key) => Ok(key),
            Err(_) => Err(Malformed::BadKey),
        },
        Err(m) => Err(m),
    }
}

/// Writes a private key as an item. Reading the item gives the key back.
pub fn private_key_to_cbor(key: &PrivateKey) -> (item: Cbor)
    ensures
        private_key_of(item) == Ok::<KeyModel, Malformed>(key@),
        encodable(item),
{
    let secret = key.to_bytes();
    keyed_bytes_item(key.key_type(), secret)
}

/// The public key that an item stands for: a single-entry map from the
/// algorithm's name to the key's canonical encoding, which the algorithm
/// must accept.
pub open spec fn public_key_item_of(item: Cbor) -> Result<(KeyType, Seq<u8>), Malformed> {
    match keyed_bytes_of(item) {
        Ok((kind, bytes)) => if public_key_ok(kind, bytes) {
            Ok((kind, bytes))
        } else {
            Err(Malformed::BadPublicKey)
        },
        Err(e) => Err(e),
    }
}

/// The signature that an item stands for: a single-entry map from the
/// algorithm's name to the signature's canonical encoding, which the
/// algorithm must accept.
pub open spec fn signature_item_of(item: Cbor) -> Result<(KeyType, Seq<u8>), Malformed> {
    match keyed_bytes_of(item) {
        Ok((kind, bytes)) => if signature_ok(kind, bytes) {
            Ok((kind, bytes))
        } else {
            Err(Malformed::BadSignature)
        },
        Err(e) => Err(e),
    }
}

/// Reads a public key from an item; bytes that are no key of the algorithm
/// are refused.
pub fn public_key_from_cbor(item: Cbor) -> (r: Result<PublicKey, Malformed>)
    ensures
        match r {
            Ok(key) => public_key_item_of(item) == Ok::<(KeyType, Seq<u8>), Malformed>(key@),
            Err(m) => public_key_item_of(item) == Err::<(KeyType, Seq<u8>), Malformed>(m),
        },
{
    match into_keyed_bytes(item) {
        Ok((kind, bytes)) => match PublicKey::from_bytes(kind, bytes.as_slice()) {
            Ok(key) => Ok(key),
            Err(_) => Err(Malformed::BadPublicKey),
        },
        Err(m) => Err(m),
    }
}

/// Writes a public key as an item. Reading the item gives the key back.
pub fn public_key_to_cbor(key: &PublicKey) -> (item: Cbor)
    ensures
        public_key_item_of(item) == Ok::<(KeyType, Seq<u8>), Malformed>(key@),
        encodable(item),
{
    let bytes = key.bytes();
    keyed_bytes_item(key.kind(), bytes)
}

/// Reads a signature from an item; bytes that are no signature of the
/// algorithm are refused.
pub fn signature_from_cbor(item: Cbor) -> (r: Result<Signature, Malformed>)
    ensures
        match r {
            Ok(sig) => signature_item_of(item) == Ok::<(KeyType, Seq<u8>), Malformed>(sig@),
            Err(m) => signature_item_of(item) == Err::<(KeyType, Seq<u8>), Malformed>(m),
        },
{
    match into_keyed_bytes(item) {
        Ok((kind, bytes)) => match Signature::from_bytes(kind, bytes.as_slice()) {
            Ok(sig) => Ok(sig),
            Err(_) => Err(Malformed::BadSignature),
        },
        Err(m) => Err(m),
    }
}

/// Writes a signature as an item. Reading the item gives the signature back.
pub fn signature_to_cbor(sig: &Signature) -> (item: Cbor)
    ensures
        signature_item_of(item) == Ok::<(KeyType, Seq<u8>), Malformed>(sig@),
        encodable(item),
{
    let bytes = sig.bytes();
    keyed_bytes_item(sig.kind(), bytes)
}

} // verus!
