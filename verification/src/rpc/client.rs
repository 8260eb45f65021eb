//! The client's side of the protocol: what to send for a request, and what
//! to make of the response. The client holds the connection; moving the
//! bytes over it is the caller's part.

use crate::cbor::{written, Cbor};
use crate::crypto::{KeyType, PublicKey, Signature};
use crate::rpc::frame::{be32, frame, payload_len, write_frame, HEADER_LEN, MAX_PAYLOAD};
use crate::rpc::reply::kind_of;
use crate::rpc::server::IoKind;
use crate::rpc::{
    decode_response, is_request_payload, reply_kind_of, response_of_bytes, Error as RpcError,
    ErrorModel as RpcErrorModel, Reply, ReplyKind, ReplyModel, Request, RequestModel,
};
use crate::text::{join, joined};
use vstd::prelude::*;
use vstd::slice::slice_to_vec;

verus! {

/// Why a call failed on the client's side.
#[derive(Debug)]
pub enum Error {
    /// The transport failed.
    IO(IoKind),
    /// The server answered with an error.
    RPC(RpcError),
    /// The request could not be written; the text says why.
    Serialize(String),
    /// The response could not be read; the text says why.
    Deserialize(String),
}

impl Error {
    /// The text of the error.
    pub open spec fn text(self) -> Seq<char> {
        match self {
            Error::IO(kind) => joined("IO error: "@, kind.text()),
            Error::RPC(e) => joined("RPC error: "@, e.text()),
            Error::Serialize(reason) => joined("serialization error: "@, reason@),
            Error::Deserialize(reason) => joined("deserialization error: "@, reason@),
        }
    }

    /// The text of the error.
    pub fn message(&self) -> (text: String)
        ensures
            text@ == self.text(),
    {
        match self {
            Error::IO(kind) => join("IO error: ", kind.message()),
            Error::RPC(e) => {
                let inner = e.message();
                join("RPC error: ", inner.as_str())
            },
            Error::Serialize(reason) => join("serialization error: ", reason.as_str()),
            Error::Deserialize(reason) => join("deserialization error: ", reason.as_str()),
        }
    }
}

/// What the client makes of the payload of a response frame, where a reply
/// of shape `kind` is expected: the reply, the server's error, or the text
/// that says why the payload is no response.
pub open spec fn outcome_of(payload: Seq<u8>, kind: ReplyKind) -> Result<
    ReplyModel,
    Result<RpcErrorModel, Seq<char>>,
> {
    match response_of_bytes(payload, kind) {
        Ok(Ok(reply)) => Ok(reply),
        Ok(Err(e)) => Err(Ok(e)),
        Err(text) => Err(Err(text)),
    }
}

/// A connection as the client uses it. What it sends and what it receives
/// is its own affair; the client takes every answer as it comes.
pub trait Transport {
    /// Sends all of `bytes`.
    fn send(&mut self, bytes: &[u8]) -> Result<(), IoKind>;

    /// Receives the next `len` bytes.
    fn receive(&mut self, len: usize) -> Result<Vec<u8>, IoKind>;
}

/// What a call comes to once the connection has delivered `received` as the
/// payload of the response, or has failed, where a reply of shape `kind` is
/// expected.
pub open spec fn completed(received: Result<Seq<u8>, IoKind>, kind: ReplyKind) -> Result<
    ReplyModel,
    ErrorModel,
> {
    match received {
        Ok(payload) => match outcome_of(payload, kind) {
            Ok(reply) => Ok(reply),
            Err(Ok(e)) => Err(ErrorModel::RPC(e)),
            Err(Err(text)) => Err(ErrorModel::Deserialize(text)),
        },
        Err(io) => Err(ErrorModel::IO(io)),
    }
}

/// A client error as a mathematical value.
pub ghost enum ErrorModel {
    IO(IoKind),
    RPC(RpcErrorModel),
    Serialize(Seq<char>),
    Deserialize(Seq<char>),
}

impl View for Error {
    type V = ErrorModel;

    open spec fn view(&self) -> ErrorModel {
        match *self {
            Error::IO(kind) => ErrorModel::IO(kind),
            Error::RPC(e) => ErrorModel::RPC(e@),
            Error::Serialize(text) => ErrorModel::Serialize(text@),
            Error::Deserialize(text) => ErrorModel::Deserialize(text@),
        }
    }
}

/// The model of what a call returned.
pub open spec fn call_model(r: Result<Reply, Error>) -> Result<ReplyModel, ErrorModel> {
    match r {
        Ok(reply) => Ok(reply@),
        Err(e) => Err(e@),
    }
}

/// Whether `r` is what a call may return where a reply of shape `kind` is
/// expected: a reply of that shape, the server's error, or a failure of the
/// client's side. Whatever the connection delivers, a reply that is
/// returned was read from the payload of a response.
pub open spec fn called(kind: ReplyKind, r: Result<ReplyModel, ErrorModel>) -> bool {
    match r {
        Ok(reply) => kind_of(reply) == kind && exists|payload: Seq<u8>|
            #[trigger] outcome_of(payload, kind) == Ok::<
                ReplyModel,
                Result<RpcErrorModel, Seq<char>>,
            >(reply),
        Err(ErrorModel::RPC(e)) => exists|payload: Seq<u8>|
            #[trigger] outcome_of(payload, kind) == Err::<
                ReplyModel,
                Result<RpcErrorModel, Seq<char>>,
            >(Ok(e)),
        Err(_) => true,
    }
}

/// Whether `r` is the frame for a request whose writing gave `payload`: the
/// frame that carries the payload, or a serialization error where the
/// request could not be written, with the reason, or is too long for a
/// frame.
pub open spec fn framed(payload: Result<Seq<u8>, Seq<char>>, r: Result<Vec<u8>, Error>) -> bool {
    match payload {
        Ok(bytes) => if bytes.len() <= MAX_PAYLOAD {
            r matches Ok(sent) && sent@ == frame(bytes)
        } else {
            r matches Err(Error::Serialize(_))
        },
        Err(text) => r matches Err(Error::Serialize(t)) && t@ == text,
    }
}

/// What receiving a frame comes to, given what the connection delivered
/// when it was asked for the four bytes of the length and then for as many
/// bytes as they announce: the payload, the connection's failure, or an
/// unexpected end where the connection delivered another number of bytes
/// than it was asked for.
pub open spec fn frame_received(
    prefix: Result<Seq<u8>, IoKind>,
    body: Result<Seq<u8>, IoKind>,
) -> Result<Seq<u8>, IoKind> {
    match prefix {
        Ok(head) => if head.len() == HEADER_LEN {
            match body {
                Ok(payload) => if payload.len() == be32(head) {
                    Ok(payload)
                } else {
                    Err(IoKind::UnexpectedEof)
                },
                Err(io) => Err(io),
            }
        } else {
            Err(IoKind::UnexpectedEof)
        },
        Err(io) => Err(io),
    }
}

/// What the connection delivered, as a mathematical value.
pub open spec fn delivery(received: Result<Vec<u8>, IoKind>) -> Result<Seq<u8>, IoKind> {
    match received {
        Ok(bytes) => Ok(bytes@),
        Err(io) => Err(io),
    }
}

/// Whether `r` is what a call with `request` may return. A request that
/// cannot be written, or is too long for a frame, is a serialization error
/// and nothing is sent. Else the request is sent in one frame, and what the
/// call returns is what the connection's answer comes to: the reply read
/// from the payload of the response, the server's error, a payload that is
/// no response, or the connection's failure.
pub open spec fn exchanged(request: RequestModel, r: Result<ReplyModel, ErrorModel>) -> bool {
    exists|payload: Result<Seq<u8>, Seq<char>>| #[trigger]
        is_request_payload(request, payload) && match payload {
            Ok(bytes) => if bytes.len() <= MAX_PAYLOAD {
                exists|received: Result<Seq<u8>, IoKind>| #[trigger]
                    completed(received, reply_kind_of(request)) == r
            } else {
                r matches Err(ErrorModel::Serialize(_))
            },
            Err(text) => r == Err::<ReplyModel, ErrorModel>(ErrorModel::Serialize(text)),
        }
}

/// A client on a connection of type `T`.
pub struct Client<T> {
    socket: T,
}

impl<T> Client<T> {
    /// The connection the client speaks on.
    pub closed spec fn socket(&self) -> T {
        self.socket
    }

    /// A client on the given connection.
    pub fn new(sock: T) -> (client: Self)
        ensures
            client.socket() == sock,
    {
        Client { socket: sock }
    }

    /// Gives the connection back.
    pub fn into_inner(self) -> (sock: T)
        ensures
            sock == self.socket(),
    {
        self.socket
    }

    /// The connection, to send and receive on.
    pub fn get_mut(&mut self) -> (sock: &mut T)
        ensures
            *sock == old(self).socket(),
            final(self).socket() == *final(sock),
    {
        &mut self.socket
    }

    /// The frame to send for `request`. The only failures are a request that
    /// cannot be written and one too long for a frame.
    pub fn request_frame(request: Request) -> (r: Result<Vec<u8>, Error>)
        ensures
            exists|payload: Result<Seq<u8>, Seq<char>>| #[trigger]
                is_request_payload(request@, payload) && framed(payload, r),
    {
        let ghost model = request@;
        let encoded = request.encode();
        let ghost wrote = written(encoded);
        let r = match encoded {
            Ok(payload) => {
                let mut sent: Vec<u8> = Vec::new();
                if write_frame(payload.as_slice(), &mut sent) {
                    assert(sent@ =~= frame(payload@));
                    Ok(sent)
                } else {
                    Err(Error::Serialize("request too long for a frame".to_owned()))
                }
            },
            Err(text) => Err(Error::Serialize(text)),
        };
        proof {
            assert(is_request_payload(model, wrote) && framed(wrote, r));
        }
        r
    }

    /// Reads the payload of a response frame, where a reply of shape `kind`
    /// is expected.
    pub fn read_response(payload: &[u8], kind: ReplyKind) -> (r: Result<Reply, Error>)
        ensures
            match outcome_of(payload@, kind) {
                Ok(reply) => r matches Ok(got) && got@ == reply,
                Err(Ok(e)) => r matches Err(Error::RPC(got)) && got@ == e,
                Err(Err(text)) => r matches Err(Error::Deserialize(got)) && got@ == text,
            },
    {
        match decode_response(payload, kind) {
            Ok(Ok(reply)) => Ok(reply),
            Ok(Err(e)) => Err(Error::RPC(e)),
            Err(text) => Err(Error::Deserialize(text)),
        }
    }
}

/// A reply read under a shape has that shape.
pub proof fn lemma_outcome_shape(payload: Seq<u8>, kind: ReplyKind)
    ensures
        outcome_of(payload, kind) matches Ok(reply) ==> kind_of(reply) == kind,
{
}

impl<T: Transport> Client<T> {
    /// The length that a delivered length prefix announces.
    pub fn announced(prefix: Result<Vec<u8>, IoKind>) -> (r: Result<usize, IoKind>)
        ensures
            match delivery(prefix) {
                Ok(head) => if head.len() == HEADER_LEN {
                    r matches Ok(len) && len == be32(head)
                } else {
                    r == Err::<usize, IoKind>(IoKind::UnexpectedEof)
                },
                Err(io) => r == Err::<usize, IoKind>(io),
            },
    {
        match prefix {
            Ok(head) => {
                if head.len() != HEADER_LEN {
                    Err(IoKind::UnexpectedEof)
                } else {
                    Ok(payload_len(head.as_slice()) as usize)
                }
            },
            Err(io) => Err(io),
        }
    }

    /// The payload in what the connection delivered when it was asked for
    /// `len` bytes.
    pub fn delivered(len: usize, body: Result<Vec<u8>, IoKind>) -> (r: Result<Vec<u8>, IoKind>)
        ensures
            delivery(r) == match delivery(body) {
                Ok(payload) => if payload.len() == len {
                    Ok(payload)
                } else {
                    Err(IoKind::UnexpectedEof)
                },
                Err(io) => Err(io),
            },
    {
        match body {
            Ok(payload) => {
                if payload.len() != len {
                    Err(IoKind::UnexpectedEof)
                } else {
                    Ok(payload)
                }
            },
            Err(io) => Err(io),
        }
    }

    /// Receives one frame and returns its payload: asks the connection for
    /// the four bytes of the length and then for as many bytes as they
    /// announce. Whatever the connection delivers, the result is what those
    /// two deliveries come to.
    pub fn receive_frame(&mut self) -> (r: Result<Vec<u8>, IoKind>)
        ensures
            r matches Ok(payload) ==> payload@.len() <= MAX_PAYLOAD,
            exists|prefix: Result<Seq<u8>, IoKind>, body: Result<Seq<u8>, IoKind>| #[trigger]
                frame_received(prefix, body) == delivery(r),
    {
        let prefix = self.socket.receive(HEADER_LEN);
        let ghost head = delivery(prefix);
        let len = match Self::announced(prefix) {
            Ok(len) => len,
            Err(io) => {
                proof {
                    assert(frame_received(head, Err(io)) == Err::<Seq<u8>, IoKind>(io));
                }
                return Err(io);
            },
        };
        let body = self.socket.receive(len);
        let ghost rest = delivery(body);
        let r = Self::delivered(len, body);
        proof {
            assert(frame_received(head, rest) == delivery(r));
        }
        r
    }

    /// What a call comes to once the response frame has been received, or
    /// the connection has failed.
    pub fn complete(received: Result<Vec<u8>, IoKind>, kind: ReplyKind) -> (r: Result<
        Reply,
        Error,
    >)
        ensures
            call_model(r) == completed(
                match received {
                    Ok(payload) => Ok(payload@),
                    Err(io) => Err(io),
                },
                kind,
            ),
    {
        match received {
            Ok(payload) => Self::read_response(payload.as_slice(), kind),
            Err(io) => Err(Error::IO(io)),
        }
    }

    /// Sends a request in one frame, receives the response frame and reads
    /// the reply from it.
    pub fn round_trip(&mut self, request: Request) -> (r: Result<Reply, Error>)
        ensures
            called(reply_kind_of(request@), call_model(r)),
            exchanged(request@, call_model(r)),
    {
        let ghost model = request@;
        let kind = request.reply_kind();
        let framed_request = Self::request_frame(request);
        let ghost payload = choose|payload: Result<Seq<u8>, Seq<char>>|
            #[trigger] is_request_payload(model, payload) && framed(payload, framed_request);
        let sent = match framed_request {
            Ok(sent) => sent,
            Err(e) => {
                return Err(e);
            },
        };
        let received = match self.socket.send(sent.as_slice()) {
            Ok(()) => self.receive_frame(),
            Err(io) => Err(io),
        };
        let ghost answer = delivery(received);
        let r = Self::complete(received, kind);
        proof {
            if answer is Ok {
                lemma_outcome_shape(answer->Ok_0, kind);
            }
            assert(completed(answer, reply_kind_of(model)) == call_model(r));
        }
        r
    }

    /// Sets up the encryption backend of the connection from the given
    /// credentials: sends `Initialize` with them and returns once the server
    /// has answered that it is done. The server's refusal, credentials that
    /// cannot be written, and a failure of the connection are errors.
    pub fn initialize(&mut self, credentials: Cbor) -> (r: Result<(), Error>)
        ensures
            r is Ok ==> called(ReplyKind::Done, Ok(ReplyModel::Done)),
            r matches Err(e) ==> called(ReplyKind::Done, Err(e@)),
            exchanged(
                RequestModel::Initialize(credentials),
                match r {
                    Ok(()) => Ok(ReplyModel::Done),
                    Err(e) => Err(e@),
                },
            ),
    {
        match self.round_trip(Request::Initialize(credentials)) {
            Ok(_) => Ok(()),
            Err(e) => Err(e),
        }
    }

    /// Has an encrypted private key imported; returns its public key and its
    /// handle.
    pub fn import(&mut self, key_data: &[u8]) -> (r: Result<(PublicKey, usize), Error>)
        ensures
            match r {
                Ok(pair) => called(ReplyKind::Imported, Ok(ReplyModel::Imported(pair.0@, pair.1))),
                Err(e) => called(ReplyKind::Imported, Err(e@)),
            },
            exchanged(
                (RequestModel::Import(key_data@)),
                match r {
                    Ok(pair) => Ok(ReplyModel::Imported(pair.0@, pair.1)),
                    Err(e) => Err(e@),
                },
            ),
    {
        match self.round_trip(Request::Import(slice_to_vec(key_data))) {
            Ok(Reply::Imported(public, handle)) => Ok((public, handle)),
            Ok(_) => Err(Error::Deserialize("unexpected reply".to_owned())),
            Err(e) => Err(e),
        }
    }

    /// Has a private key generated; returns its ciphertext and its public
    /// key.
    pub fn generate(&mut self, t: KeyType) -> (r: Result<(Vec<u8>, PublicKey), Error>)
        ensures
            match r {
                Ok(pair) => called(
                    ReplyKind::Generated,
                    Ok(ReplyModel::Generated(pair.0@, pair.1@)),
                ),
                Err(e) => called(ReplyKind::Generated, Err(e@)),
            },
            exchanged(
                (RequestModel::Generate(t)),
                match r {
                    Ok(pair) => Ok(ReplyModel::Generated(pair.0@, pair.1@)),
                    Err(e) => Err(e@),
                },
            ),
    {
        match self.round_trip(Request::Generate(t)) {
            Ok(Reply::Generated(encrypted, public)) => Ok((encrypted, public)),
            Ok(_) => Err(Error::Deserialize("unexpected reply".to_owned())),
            Err(e) => Err(e),
        }
    }

    /// Has a private key generated and imported; returns its ciphertext, its
    /// public key and its handle.
    pub fn generate_and_import(&mut self, t: KeyType) -> (r: Result<
        (Vec<u8>, PublicKey, usize),
        Error,
    >)
        ensures
            match r {
                Ok(triple) => called(
                    ReplyKind::Stored,
                    Ok(ReplyModel::Stored(triple.0@, triple.1@, triple.2)),
                ),
                Err(e) => called(ReplyKind::Stored, Err(e@)),
            },
            exchanged(
                (RequestModel::GenerateAndImport(t)),
                match r {
                    Ok(triple) => Ok(ReplyModel::Stored(triple.0@, triple.1@, triple.2)),
                    Err(e) => Err(e@),
                },
            ),
    {
        match self.round_trip(Request::GenerateAndImport(t)) {
            Ok(Reply::Stored(encrypted, public, handle)) => Ok((encrypted, public, handle)),
            Ok(_) => Err(Error::Deserialize("unexpected reply".to_owned())),
            Err(e) => Err(e),
        }
    }

    /// Has a message signed with the key under a handle.
    pub fn try_sign(&mut self, handle: usize, msg: &[u8]) -> (r: Result<Signature, Error>)
        ensures
            match r {
                Ok(sig) => called(ReplyKind::Signed, Ok(ReplyModel::Signed(sig@))),
                Err(e) => called(ReplyKind::Signed, Err(e@)),
            },
            exchanged(
                (RequestModel::Sign { handle, msg: msg@ }),
                match r {
                    Ok(sig) => Ok(ReplyModel::Signed(sig@)),
                    Err(e) => Err(e@),
                },
            ),
    {
        match self.round_trip(Request::Sign { handle, msg: slice_to_vec(msg) }) {
            Ok(Reply::Signed(sig)) => Ok(sig),
            Ok(_) => Err(Error::Deserialize("unexpected reply".to_owned())),
            Err(e) => Err(e),
        }
    }

    /// Has a message signed with an encrypted private key, which is not
    /// kept.
    pub fn try_sign_with(&mut self, key_data: &[u8], msg: &[u8]) -> (r: Result<Signature, Error>)
        ensures
            match r {
                Ok(sig) => called(ReplyKind::Signed, Ok(ReplyModel::Signed(sig@))),
                Err(e) => called(ReplyKind::Signed, Err(e@)),
            },
            exchanged(
                (RequestModel::SignWith { key_data: key_data@, msg: msg@ }),
                match r {
                    Ok(sig) => Ok(ReplyModel::Signed(sig@)),
                    Err(e) => Err(e@),
                },
            ),
    {
        match self.round_trip(
            Request::SignWith { key_data: slice_to_vec(key_data), msg: slice_to_vec(msg) },
        ) {
            Ok(Reply::Signed(sig)) => Ok(sig),
            Ok(_) => Err(Error::Deserialize("unexpected reply".to_owned())),
            Err(e) => Err(e),
        }
    }

    /// Asks for the public key of the key under a handle.
    pub fn public_key(&mut self, handle: usize) -> (r: Result<PublicKey, Error>)
        ensures
            match r {
                Ok(public) => called(ReplyKind::Public, Ok(ReplyModel::Public(public@))),
                Err(e) => called(ReplyKind::Public, Err(e@)),
            },
            exchanged(
                (RequestModel::PublicKey(handle)),
                match r {
                    Ok(public) => Ok(ReplyModel::Public(public@)),
                    Err(e) => Err(e@),
                },
            ),
    {
        match self.round_trip(Request::PublicKey(handle)) {
            Ok(Reply::Public(public)) => Ok(public),
            Ok(_) => Err(Error::Deserialize("unexpected reply".to_owned())),
            Err(e) => Err(e),
        }
    }

    /// Asks for the public key of an encrypted private key, which is not
    /// kept.
    pub fn public_key_from(&mut self, key_data: &[u8]) -> (r: Result<PublicKey, Error>)
        ensures
            match r {
                Ok(public) => called(ReplyKind::Public, Ok(ReplyModel::Public(public@))),
                Err(e) => called(ReplyKind::Public, Err(e@)),
            },
            exchanged(
                (RequestModel::PublicKeyFrom(key_data@)),
                match r {
                    Ok(public) => Ok(ReplyModel::Public(public@)),
                    Err(e) => Err(e@),
                },
            ),
    {
        match self.round_trip(Request::PublicKeyFrom(slice_to_vec(key_data))) {
            Ok(Reply::Public(public)) => Ok(public),
            Ok(_) => Err(Error::Deserialize("unexpected reply".to_owned())),
            Err(e) => Err(e),
        }
    }
}

} // verus!
