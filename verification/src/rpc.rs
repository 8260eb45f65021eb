//! The request/response protocol: the request vocabulary, the replies and
//! errors that answer it, and their CBOR shapes.

use crate::cbor::{
    cbor_bytes, cbor_parse, decode, encode, encodable, no_encoding, written, Cbor,
};
use crate::crypto::{Error as KeyError, KeyType, PrivateKey};
use crate::rpc::wire::{
    bytes_of, handle_of, in_order, into_bytes, into_handle, into_key_type, into_pair,
    key_type_item, key_type_of, named, pair, pair_of, private_key_from_cbor, private_key_of,
    private_key_to_cbor, tag, tagged, untag, Malformed,
};
use crate::text::{join, joined};
use vstd::prelude::*;

pub mod client;
pub mod frame;
pub mod plan;
pub mod reply;
pub mod server;
pub mod wire;

pub use client::Client;
pub use reply::{kind_of, reply_of, Reply, ReplyKind, ReplyModel};
pub use server::Server;

verus! {

/// A request, client to server.
pub enum Request {
    /// Sets up the encryption backend from the given credentials. Accepted
    /// once per connection.
    Initialize(Cbor),
    /// Decrypts an encrypted private key and appends it to the keychain.
    Import(Vec<u8>),
    /// Encrypts a private key and appends it to the keychain.
    ImportUnencrypted(PrivateKey),
    /// Generates a private key and encrypts it; the key is not kept.
    Generate(KeyType),
    /// Generates a private key, encrypts it and appends it to the keychain.
    GenerateAndImport(KeyType),
    /// Signs a message with the key under a handle.
    Sign { handle: usize, msg: Vec<u8> },
    /// Decrypts an encrypted private key and signs a message with it; the
    /// key is not kept.
    SignWith { key_data: Vec<u8>, msg: Vec<u8> },
    /// Returns the public key of the key under a handle.
    PublicKey(usize),
    /// Decrypts an encrypted private key and returns its public key; the key
    /// is not kept.
    PublicKeyFrom(Vec<u8>),
}

/// A request as a mathematical value.
pub ghost enum RequestModel {
    Initialize(Cbor),
    Import(Seq<u8>),
    ImportUnencrypted(KeyType, Seq<u8>),
    Generate(KeyType),
    GenerateAndImport(KeyType),
    Sign { handle: usize, msg: Seq<u8> },
    SignWith { key_data: Seq<u8>, msg: Seq<u8> },
    PublicKey(usize),
    PublicKeyFrom(Seq<u8>),
}

impl View for Request {
    type V = RequestModel;

    open spec fn view(&self) -> RequestModel {
        match *self {
            Request::Initialize(cred) => RequestModel::Initialize(cred),
            Request::Import(key_data) => RequestModel::Import(key_data@),
            Request::ImportUnencrypted(key) => RequestModel::ImportUnencrypted(key@.0, key@.1),
            Request::Generate(kind) => RequestModel::Generate(kind),
            Request::GenerateAndImport(kind) => RequestModel::GenerateAndImport(kind),
            Request::Sign { handle, msg } => RequestModel::Sign { handle, msg: msg@ },
            Request::SignWith { key_data, msg } => RequestModel::SignWith {
                key_data: key_data@,
                msg: msg@,
            },
            Request::PublicKey(handle) => RequestModel::PublicKey(handle),
            Request::PublicKeyFrom(key_data) => RequestModel::PublicKeyFrom(key_data@),
        }
    }
}

/// The request that an item stands for: a single-entry map from the
/// operation's name to its payload.
pub open spec fn request_of(item: Cbor) -> Result<RequestModel, Malformed> {
    match tagged(item) {
        None => Err(Malformed::NotTagged),
        Some((name, body)) => if name == "Initialize"@ {
            Ok(RequestModel::Initialize(body))
        } else if name == "Import"@ {
            match bytes_of(body) {
                Some(key_data) => Ok(RequestModel::Import(key_data)),
                None => Err(Malformed::BadPayload),
            }
        } else if name == "ImportUnencrypted"@ {
            match private_key_of(body) {
                Ok((kind, secret)) => Ok(RequestModel::ImportUnencrypted(kind, secret)),
                Err(e) => Err(e),
            }
        } else if name == "Generate"@ {
            match key_type_of(body) {
                Ok(kind) => Ok(RequestModel::Generate(kind)),
                Err(e) => Err(e),
            }
        } else if name == "GenerateAndImport"@ {
            match key_type_of(body) {
                Ok(kind) => Ok(RequestModel::GenerateAndImport(kind)),
                Err(e) => Err(e),
            }
        } else if name == "Sign"@ {
            match pair_of(body, "handle"@, "msg"@) {
                Some((h, m)) => match (handle_of(h), bytes_of(m)) {
                    (Some(handle), Some(msg)) => Ok(RequestModel::Sign { handle, msg }),
                    _ => Err(Malformed::BadPayload),
                },
                None => Err(Malformed::BadPayload),
            }
        } else if name == "SignWith"@ {
            match pair_of(body, "key_data"@, "msg"@) {
                Some((k, m)) => match (bytes_of(k), bytes_of(m)) {
                    (Some(key_data), Some(msg)) => Ok(RequestModel::SignWith { key_data, msg }),
                    _ => Err(Malformed::BadPayload),
                },
                None => Err(Malformed::BadPayload),
            }
        } else if name == "PublicKey"@ {
            match handle_of(body) {
                Some(handle) => Ok(RequestModel::PublicKey(handle)),
                None => Err(Malformed::BadPayload),
            }
        } else if name == "PublicKeyFrom"@ {
            match bytes_of(body) {
                Some(key_data) => Ok(RequestModel::PublicKeyFrom(key_data)),
                None => Err(Malformed::BadPayload),
            }
        } else {
            Err(Malformed::UnknownVariant)
        },
    }
}

/// Whether a request can be written: it carries no credentials, or
/// credentials that have a counterpart in CBOR.
pub open spec fn writable(request: RequestModel) -> bool {
    match request {
        RequestModel::Initialize(credentials) => encodable(credentials),
        _ => true,
    }
}

/// Whether the item of a request lists the fields of `Sign` and `SignWith`
/// in the order in which they are declared.
pub open spec fn fields_in_order(item: Cbor) -> bool {
    match tagged(item) {
        Some((name, body)) => if name == "Sign"@ {
            in_order(body, "handle"@, "msg"@)
        } else if name == "SignWith"@ {
            in_order(body, "key_data"@, "msg"@)
        } else {
            true
        },
        None => true,
    }
}

/// The nine operation names are pairwise different.
pub proof fn lemma_request_names()
    ensures
        "Initialize"@.len() == 10,
        "Import"@.len() == 6,
        "ImportUnencrypted"@.len() == 17 && "ImportUnencrypted"@[0] == 'I',
        "Generate"@.len() == 8 && "Generate"@[0] == 'G',
        "GenerateAndImport"@.len() == 17 && "GenerateAndImport"@[0] == 'G',
        "Sign"@.len() == 4,
        "SignWith"@.len() == 8 && "SignWith"@[0] == 'S',
        "PublicKey"@.len() == 9,
        "PublicKeyFrom"@.len() == 13,
        "handle"@.len() == 6,
        "msg"@.len() == 3,
        "key_data"@.len() == 8,
{
    reveal_strlit("Initialize");
    reveal_strlit("Import");
    reveal_strlit("ImportUnencrypted");
    reveal_strlit("Generate");
    reveal_strlit("GenerateAndImport");
    reveal_strlit("Sign");
    reveal_strlit("SignWith");
    reveal_strlit("PublicKey");
    reveal_strlit("PublicKeyFrom");
    reveal_strlit("handle");
    reveal_strlit("msg");
    reveal_strlit("key_data");
}

impl Request {
    /// Reads a request from an item.
    pub fn from_cbor(item: Cbor) -> (r: Result<Request, Malformed>)
        ensures
            match r {
                Ok(request) => request_of(item) == Ok::<RequestModel, Malformed>(request@),
                Err(e) => request_of(item) == Err::<RequestModel, Malformed>(e),
            },
    {
        let (name, body) = match untag(item) {
            Some(parts) => parts,
            None => return Err(Malformed::NotTagged),
        };
        if named(&name, "Initialize") {
            Ok(Request::Initialize(body))
        } else if named(&name, "Import") {
            match into_bytes(body) {
                Some(key_data) => Ok(Request::Import(key_data)),
                None => Err(Malformed::BadPayload),
            }
        } else if named(&name, "ImportUnencrypted") {
            match private_key_from_cbor(body) {
                Ok(key) => Ok(Request::ImportUnencrypted(key)),
                Err(e) => Err(e),
            }
        } else if named(&name, "Generate") {
            match into_key_type(body) {
                Ok(kind) => Ok(Request::Generate(kind)),
                Err(e) => Err(e),
            }
        } else if named(&name, "GenerateAndImport") {
            match into_key_type(body) {
                Ok(kind) => Ok(Request::GenerateAndImport(kind)),
                Err(e) => Err(e),
            }
        } else if named(&name, "Sign") {
            match into_pair(body, "handle", "msg") {
                Some((h, m)) => match (into_handle(h), into_bytes(m)) {
                    (Some(handle), Some(msg)) => Ok(Request::Sign { handle, msg }),
                    _ => Err(Malformed::BadPayload),
                },
                None => Err(Malformed::BadPayload),
            }
        } else if named(&name, "SignWith") {
            match into_pair(body, "key_data", "msg") {
                Some((k, m)) => match (into_bytes(k), into_bytes(m)) {
                    (Some(key_data), Some(msg)) => Ok(Request::SignWith { key_data, msg }),
                    _ => Err(Malformed::BadPayload),
                },
                None => Err(Malformed::BadPayload),
            }
        } else if named(&name, "PublicKey") {
            match into_handle(body) {
                Some(handle) => Ok(Request::PublicKey(handle)),
                None => Err(Malformed::BadPayload),
            }
        } else if named(&name, "PublicKeyFrom") {
            match into_bytes(body) {
                Some(key_data) => Ok(Request::PublicKeyFrom(key_data)),
                None => Err(Malformed::BadPayload),
            }
        } else {
            Err(Malformed::UnknownVariant)
        }
    }

    /// Writes the request as an item. Reading the item gives the request
    /// back. The fields of a request are listed in the order in which they are
    /// declared, and the item has a counterpart in CBOR unless it carries
    /// credentials that have none.
    pub fn to_cbor(self) -> (item: Cbor)
        ensures
            request_of(item) == Ok::<RequestModel, Malformed>(self@),
            fields_in_order(item),
            encodable(item) == writable(self@),
    {
        proof {
            lemma_request_names();
        }
        match self {
            Request::Initialize(cred) => tag("Initialize", cred),
            Request::Import(key_data) => tag("Import", Cbor::Bytes(key_data)),
            Request::ImportUnencrypted(key) => tag("ImportUnencrypted", private_key_to_cbor(&key)),
            Request::Generate(kind) => tag("Generate", key_type_item(kind)),
            Request::GenerateAndImport(kind) => tag("GenerateAndImport", key_type_item(kind)),
            Request::Sign { handle, msg } => tag(
                "Sign",
                pair("handle", Cbor::Integer(handle as i128), "msg", Cbor::Bytes(msg)),
            ),
            Request::SignWith { key_data, msg } => tag(
                "SignWith",
                pair("key_data", Cbor::Bytes(key_data), "msg", Cbor::Bytes(msg)),
            ),
            Request::PublicKey(handle) => tag("PublicKey", Cbor::Integer(handle as i128)),
            Request::PublicKeyFrom(key_data) => tag("PublicKeyFrom", Cbor::Bytes(key_data)),
        }
    }
}

/// Why the server did not carry out a request.
#[derive(Debug)]
pub enum Error {
    /// The request came before `Initialize`.
    Uninitialized,
    /// `Initialize` came a second time.
    AlreadyInitialized,
    /// The request could not be read; the text says why.
    Deserialize(String),
    /// Key generation, signing or a keychain lookup failed.
    Signer(KeyError),
    /// The encryption backend failed; the text is the backend's.
    Encryption(String),
    /// A value could not be written as CBOR; the text says why.
    Serialize(String),
}

/// An error as a mathematical value.
pub ghost enum ErrorModel {
    Uninitialized,
    AlreadyInitialized,
    Deserialize(Seq<char>),
    Signer(KeyError),
    Encryption(Seq<char>),
    Serialize(Seq<char>),
}

impl View for Error {
    type V = ErrorModel;

    open spec fn view(&self) -> ErrorModel {
        match *self {
            Error::Uninitialized => ErrorModel::Uninitialized,
            Error::AlreadyInitialized => ErrorModel::AlreadyInitialized,
            Error::Deserialize(text) => ErrorModel::Deserialize(text@),
            Error::Signer(e) => ErrorModel::Signer(e),
            Error::Encryption(text) => ErrorModel::Encryption(text@),
            Error::Serialize(text) => ErrorModel::Serialize(text@),
        }
    }
}

impl Error {
    /// The text of the error.
    pub open spec fn text(self) -> Seq<char> {
        match self {
            Error::Uninitialized => "uninitialized"@,
            Error::AlreadyInitialized => "already initialized"@,
            Error::Deserialize(reason) => joined("deserialization error: "@, reason@),
            Error::Signer(e) => joined("signer error: "@, e.text()),
            Error::Encryption(reason) => joined("encryption error: "@, reason@),
            Error::Serialize(reason) => joined("serialization error: "@, reason@),
        }
    }

    /// The text of the error.
    pub fn message(&self) -> (text: String)
        ensures
            text@ == self.text(),
    {
        match self {
            Error::Uninitialized => "uninitialized".to_owned(),
            Error::AlreadyInitialized => "already initialized".to_owned(),
            Error::Deserialize(reason) => join("deserialization error: ", reason.as_str()),
            Error::Signer(e) => {
                let inner = e.message();
                join("signer error: ", inner.as_str())
            },
            Error::Encryption(reason) => join("encryption error: ", reason.as_str()),
            Error::Serialize(reason) => join("serialization error: ", reason.as_str()),
        }
    }
}

/// The content of a text string.
pub open spec fn text_of(item: Cbor) -> Option<Seq<char>> {
    match item {
        Cbor::Text(text) => Some(text@),
        _ => None,
    }
}

/// The code of a BLS error: an integer item that fits eight bits.
pub open spec fn code_of(item: Cbor) -> Option<u8> {
    match item {
        Cbor::Integer(i) => if 0 <= i <= u8::MAX {
            Some(i as u8)
        } else {
            None
        },
        _ => None,
    }
}

/// The key error that an item stands for: the name of a unit variant, or a
/// single-entry map from `BLS` to the code.
pub open spec fn key_error_of(item: Cbor) -> Result<KeyError, Malformed> {
    match item {
        Cbor::Text(name) => if name@ == "InvalidHandle"@ {
            Ok(KeyError::InvalidHandle)
        } else if name@ == "Signature"@ {
            Ok(KeyError::Signature)
        } else {
            Err(Malformed::UnknownVariant)
        },
        _ => match tagged(item) {
            Some((name, body)) => if name == "BLS"@ {
                match code_of(body) {
                    Some(code) => Ok(KeyError::BLS(code)),
                    None => Err(Malformed::BadPayload),
                }
            } else {
                Err(Malformed::UnknownVariant)
            },
            None => Err(Malformed::NotTagged),
        },
    }
}

/// The error that an item stands for: the name of a unit variant, or a
/// single-entry map from the variant's name to its payload.
pub open spec fn error_of(item: Cbor) -> Result<ErrorModel, Malformed> {
    match item {
        Cbor::Text(name) => if name@ == "Uninitialized"@ {
            Ok(ErrorModel::Uninitialized)
        } else if name@ == "AlreadyInitialized"@ {
            Ok(ErrorModel::AlreadyInitialized)
        } else {
            Err(Malformed::UnknownVariant)
        },
        _ => match tagged(item) {
            Some((name, body)) => if name == "Deserialize"@ {
                match text_of(body) {
                    Some(text) => Ok(ErrorModel::Deserialize(text)),
                    None => Err(Malformed::BadPayload),
                }
            } else if name == "Signer"@ {
                match key_error_of(body) {
                    Ok(e) => Ok(ErrorModel::Signer(e)),
                    Err(e) => Err(e),
                }
            } else if name == "Encryption"@ {
                match text_of(body) {
                    Some(text) => Ok(ErrorModel::Encryption(text)),
                    None => Err(Malformed::BadPayload),
                }
            } else if name == "Serialize"@ {
                match text_of(body) {
                    Some(text) => Ok(ErrorModel::Serialize(text)),
                    None => Err(Malformed::BadPayload),
                }
            } else {
                Err(Malformed::UnknownVariant)
            },
            None => Err(Malformed::NotTagged),
        },
    }
}

/// The names of the error variants are pairwise different.
pub proof fn lemma_error_names()
    ensures
        "InvalidHandle"@.len() == 13,
        "Signature"@.len() == 9,
        "BLS"@.len() == 3,
        "Uninitialized"@.len() == 13,
        "AlreadyInitialized"@.len() == 18,
        "Deserialize"@.len() == 11,
        "Signer"@.len() == 6,
        "Encryption"@.len() == 10,
        "Serialize"@.len() == 9,
{
    reveal_strlit("InvalidHandle");
    reveal_strlit("Signature");
    reveal_strlit("BLS");
    reveal_strlit("Uninitialized");
    reveal_strlit("AlreadyInitialized");
    reveal_strlit("Deserialize");
    reveal_strlit("Signer");
    reveal_strlit("Encryption");
    reveal_strlit("Serialize");
}

/// Takes the content out of a text string.
pub fn into_text(item: Cbor) -> (r: Option<String>)
    ensures
        match r {
            Some(text) => text_of(item) == Some(text@),
            None => text_of(item) is None,
        },
{
    match item {
        Cbor::Text(text) => Some(text),
        _ => None,
    }
}

/// Reads a key error from an item.
pub fn key_error_from_cbor(item: Cbor) -> (r: Result<KeyError, Malformed>)
    ensures
        r == key_error_of(item),
{
    match item {
        Cbor::Text(name) => {
            if named(&name, "InvalidHandle") {
                Ok(KeyError::InvalidHandle)
            } else if named(&name, "Signature") {
                Ok(KeyError::Signature)
            } else {
                Err(Malformed::UnknownVariant)
            }
        },
        other => match untag(other) {
            Some((name, body)) => {
                if named(&name, "BLS") {
                    match body {
                        Cbor::Integer(i) => {
                            if 0 <= i && i <= 255 {
                                Ok(KeyError::BLS(i as u8))
                            } else {
                                Err(Malformed::BadPayload)
                            }
                        },
                        _ => Err(Malformed::BadPayload),
                    }
                } else {
                    Err(Malformed::UnknownVariant)
                }
            },
            None => Err(Malformed::NotTagged),
        },
    }
}

/// Writes a key error as an item. Reading the item gives the error back.
pub fn key_error_to_cbor(e: KeyError) -> (item: Cbor)
    ensures
        key_error_of(item) == Ok::<KeyError, Malformed>(e),
        encodable(item),
{
    proof {
        lemma_error_names();
    }
    match e {
        KeyError::InvalidHandle => Cbor::Text("InvalidHandle".to_owned()),
        KeyError::Signature => Cbor::Text("Signature".to_owned()),
        KeyError::BLS(code) => tag("BLS", Cbor::Integer(code as i128)),
    }
}

impl Error {
    /// Reads an error from an item.
    pub fn from_cbor(item: Cbor) -> (r: Result<Error, Malformed>)
        ensures
            match r {
                Ok(e) => error_of(item) == Ok::<ErrorModel, Malformed>(e@),
                Err(m) => error_of(item) == Err::<ErrorModel, Malformed>(m),
            },
    {
        match item {
            Cbor::Text(name) => {
                if named(&name, "Uninitialized") {
                    Ok(Error::Uninitialized)
                } else if named(&name, "AlreadyInitialized") {
                    Ok(Error::AlreadyInitialized)
                } else {
                    Err(Malformed::UnknownVariant)
                }
            },
            other => match untag(other) {
                Some((name, body)) => {
                    if named(&name, "Deserialize") {
                        match into_text(body) {
                            Some(text) => Ok(Error::Deserialize(text)),
                            None => Err(Malformed::BadPayload),
                        }
                    } else if named(&name, "Signer") {
                        match key_error_from_cbor(body) {
                            Ok(e) => Ok(Error::Signer(e)),
                            Err(m) => Err(m),
                        }
                    } else if named(&name, "Encryption") {
                        match into_text(body) {
                            Some(text) => Ok(Error::Encryption(text)),
                            None => Err(Malformed::BadPayload),
                        }
                    } else if named(&name, "Serialize") {
                        match into_text(body) {
                            Some(text) => Ok(Error::Serialize(text)),
                            None => Err(Malformed::BadPayload),
                        }
                    } else {
                        Err(Malformed::UnknownVariant)
                    }
                },
                None => Err(Malformed::NotTagged),
            },
        }
    }

    /// Writes the error as an item. Reading the item gives the error back.
    pub fn to_cbor(self) -> (item: Cbor)
        ensures
            error_of(item) == Ok::<ErrorModel, Malformed>(self@),
            encodable(item),
    {
        proof {
            lemma_error_names();
        }
        match self {
            Error::Uninitialized => Cbor::Text("Uninitialized".to_owned()),
            Error::AlreadyInitialized => Cbor::Text("AlreadyInitialized".to_owned()),
            Error::Deserialize(text) => tag("Deserialize", Cbor::Text(text)),
            Error::Signer(e) => tag("Signer", key_error_to_cbor(e)),
            Error::Encryption(text) => tag("Encryption", Cbor::Text(text)),
            Error::Serialize(text) => tag("Serialize", Cbor::Text(text)),
        }
    }
}

/// A response as a mathematical value: the reply, or the error.
pub type ResponseModel = Result<ReplyModel, ErrorModel>;

/// The model of a response.
pub open spec fn response_model(response: Result<Reply, Error>) -> ResponseModel {
    match response {
        Ok(reply) => Ok(reply@),
        Err(e) => Err(e@),
    }
}

/// The shape of reply that a request is answered with.
pub open spec fn reply_kind_of(request: RequestModel) -> ReplyKind {
    match request {
        RequestModel::Initialize(_) => ReplyKind::Done,
        RequestModel::Import(_) => ReplyKind::Imported,
        RequestModel::ImportUnencrypted(..) => ReplyKind::Stored,
        RequestModel::Generate(_) => ReplyKind::Generated,
        RequestModel::GenerateAndImport(_) => ReplyKind::Stored,
        RequestModel::Sign { .. } => ReplyKind::Signed,
        RequestModel::SignWith { .. } => ReplyKind::Signed,
        RequestModel::PublicKey(_) => ReplyKind::Public,
        RequestModel::PublicKeyFrom(_) => ReplyKind::Public,
    }
}

/// The shape under which a response is read back: that of its reply; an
/// error reads the same under every shape.
pub open spec fn shape_of(response: ResponseModel) -> ReplyKind {
    match response {
        Ok(reply) => kind_of(reply),
        Err(_) => ReplyKind::Done,
    }
}

/// The response that an item stands for, where a reply of shape `kind` is
/// expected: a single-entry map from `Ok` to the reply or from `Err` to the
/// error.
pub open spec fn response_of(item: Cbor, kind: ReplyKind) -> Result<ResponseModel, Malformed> {
    match tagged(item) {
        Some((name, body)) => if name == "Ok"@ {
            match reply_of(body, kind) {
                Ok(reply) => Ok(Ok(reply)),
                Err(m) => Err(m),
            }
        } else if name == "Err"@ {
            match error_of(body) {
                Ok(e) => Ok(Err(e)),
                Err(m) => Err(m),
            }
        } else {
            Err(Malformed::UnknownVariant)
        },
        None => Err(Malformed::NotTagged),
    }
}

/// The request that a payload stands for, or the text that says why it is
/// none.
pub open spec fn request_of_bytes(payload: Seq<u8>) -> Result<RequestModel, Seq<char>> {
    match cbor_parse(payload) {
        Ok(item) => match request_of(item) {
            Ok(request) => Ok(request),
            Err(m) => Err(m.text()),
        },
        Err(text) => Err(text),
    }
}

/// The response that a payload stands for, where a reply of shape `kind` is
/// expected, or the text that says why it is none.
pub open spec fn response_of_bytes(payload: Seq<u8>, kind: ReplyKind) -> Result<
    ResponseModel,
    Seq<char>,
> {
    match cbor_parse(payload) {
        Ok(item) => match response_of(item, kind) {
            Ok(response) => Ok(response),
            Err(m) => Err(m.text()),
        },
        Err(text) => Err(text),
    }
}

/// Whether `payload` is what writing `request` gives: the encoding of an
/// item that stands for the request, or the text of the error.
pub open spec fn is_request_payload(
    request: RequestModel,
    payload: Result<Seq<u8>, Seq<char>>,
) -> bool {
    exists|item: Cbor| #[trigger]
        request_of(item) == Ok::<RequestModel, Malformed>(request) && cbor_bytes(item) == payload
}

/// Whether `payload` is what writing `response` gives: the encoding of an
/// item that stands for the response, or the text of the error.
pub open spec fn is_response_payload(
    response: ResponseModel,
    payload: Result<Seq<u8>, Seq<char>>,
) -> bool {
    exists|item: Cbor| #[trigger]
        response_of(item, shape_of(response)) == Ok::<ResponseModel, Malformed>(response)
            && cbor_bytes(item) == payload
}

/// Reads a response from an item, where a reply of shape `kind` is expected.
pub fn response_from_cbor(item: Cbor, kind: ReplyKind) -> (r: Result<
    Result<Reply, Error>,
    Malformed,
>)
    ensures
        match r {
            Ok(response) => response_of(item, kind) == Ok::<ResponseModel, Malformed>(
                response_model(response),
            ),
            Err(m) => response_of(item, kind) == Err::<ResponseModel, Malformed>(m),
        },
{
    match untag(item) {
        Some((name, body)) => {
            if named(&name, "Ok") {
                match Reply::from_cbor(body, kind) {
                    Ok(reply) => Ok(Ok(reply)),
                    Err(m) => Err(m),
                }
            } else if named(&name, "Err") {
                match Error::from_cbor(body) {
                    Ok(e) => Ok(Err(e)),
                    Err(m) => Err(m),
                }
            } else {
                Err(Malformed::UnknownVariant)
            }
        },
        None => Err(Malformed::NotTagged),
    }
}

/// Writes a response as an item. Reading the item under the shape of the
/// response gives the response back.
pub fn response_to_cbor(response: Result<Reply, Error>) -> (item: Cbor)
    ensures
        response_of(item, shape_of(response_model(response))) == Ok::<ResponseModel, Malformed>(
            response_model(response),
        ),
        encodable(item),
{
    proof {
        reveal_strlit("Ok");
        reveal_strlit("Err");
        assert("Ok"@.len() == 2);
        assert("Err"@.len() == 3);
    }
    match response {
        Ok(reply) => tag("Ok", reply.to_cbor()),
        Err(e) => tag("Err", e.to_cbor()),
    }
}

impl Request {
    /// The shape of reply that the request is answered with.
    pub fn reply_kind(&self) -> (kind: ReplyKind)
        ensures
            kind == reply_kind_of(self@),
    {
        match self {
            Request::Initialize(_) => ReplyKind::Done,
            Request::Import(_) => ReplyKind::Imported,
            Request::ImportUnencrypted(_) => ReplyKind::Stored,
            Request::Generate(_) => ReplyKind::Generated,
            Request::GenerateAndImport(_) => ReplyKind::Stored,
            Request::Sign { .. } => ReplyKind::Signed,
            Request::SignWith { .. } => ReplyKind::Signed,
            Request::PublicKey(_) => ReplyKind::Public,
            Request::PublicKeyFrom(_) => ReplyKind::Public,
        }
    }

    /// Reads a request from the payload of a frame.
    pub fn decode(payload: &[u8]) -> (r: Result<Request, String>)
        ensures
            match r {
                Ok(request) => request_of_bytes(payload@) == Ok::<RequestModel, Seq<char>>(
                    request@,
                ),
                Err(text) => request_of_bytes(payload@) == Err::<RequestModel, Seq<char>>(text@),
            },
    {
        match decode(payload) {
            Ok(item) => match Request::from_cbor(item) {
                Ok(request) => Ok(request),
                Err(m) => Err(m.message()),
            },
            Err(text) => Err(text),
        }
    }

    /// Writes the request as the payload of a frame. Only a request whose
    /// credentials have no counterpart in CBOR cannot be written.
    pub fn encode(self) -> (r: Result<Vec<u8>, String>)
        ensures
            is_request_payload(self@, written(r)),
            r is Ok <==> writable(self@),
            !writable(self@) ==> written(r) == Err::<Seq<u8>, Seq<char>>(no_encoding()),
    {
        let ghost model = self@;
        let item = self.to_cbor();
        let ghost shape = item;
        let r = encode(item);
        proof {
            assert(request_of(shape) == Ok::<RequestModel, Malformed>(model) && cbor_bytes(shape)
                == written(r));
        }
        r
    }
}

/// Reads a response from the payload of a frame, where a reply of shape
/// `kind` is expected.
pub fn decode_response(payload: &[u8], kind: ReplyKind) -> (r: Result<
    Result<Reply, Error>,
    String,
>)
    ensures
        match r {
            Ok(response) => response_of_bytes(payload@, kind) == Ok::<ResponseModel, Seq<char>>(
                response_model(response),
            ),
            Err(text) => response_of_bytes(payload@, kind) == Err::<ResponseModel, Seq<char>>(
                text@,
            ),
        },
{
    match decode(payload) {
        Ok(item) => match response_from_cbor(item, kind) {
            Ok(response) => Ok(response),
            Err(m) => Err(m.message()),
        },
        Err(text) => Err(text),
    }
}

/// Writes a response as the payload of a frame, which always succeeds.
pub fn encode_response(response: Result<Reply, Error>) -> (r: Result<Vec<u8>, String>)
    ensures
        is_response_payload(response_model(response), written(r)),
        r is Ok,
{
    let ghost model = response_model(response);
    let item = response_to_cbor(response);
    let ghost shape = item;
    let r = encode(item);
    proof {
        assert(response_of(shape, shape_of(model)) == Ok::<ResponseModel, Malformed>(model)
            && cbor_bytes(shape) == written(r));
    }
    r
}

} // verus!
