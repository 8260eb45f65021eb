//! The server's side of the protocol: a per-connection state machine that
//! starts without a signer, gets one from the first valid `Initialize`, and
//! from then on answers the other requests from its keychain and backend.

use crate::cbor::{encodable, no_encoding, written};
use crate::crypto::keychain::{public_key_at, sign_at, KeyModel};
use crate::cbor::Cbor;
use crate::crypto::ed25519::{ed25519_public_point, ed25519_signature};
use crate::crypto::KeyType;
use crate::rpc::frame::{
    first_frame, frame, frames, lemma_append_frame, lemma_frame_first, peek, rest, well_framed,
    write_frame, Peek, MAX_PAYLOAD,
};
use crate::rpc::plan::{
    begin, finish, open_signer, public_from, signed_from, Ask, Pending, Step,
};
use crate::rpc::{
    encode_response, is_response_payload, request_of_bytes, response_model, Error as RpcError,
    ErrorModel as RpcErrorModel, Reply, ReplyModel, Request, RequestModel, ResponseModel,
};
use crate::signer::{
    generated_key, key_of_plaintext, public_model, EncryptedSigner, EncryptionBackendFactory,
    SyncEncryptionBackend,
};
use crate::text::{join, joined};
use vstd::prelude::*;
use vstd::slice::{slice_subrange, slice_to_vec};

verus! {

/// A request that does not fit the state of the connection.
#[derive(Clone, Copy, Debug, PartialEq, Eq, Structural)]
pub enum StateError {
    /// The request came before `Initialize`.
    Uninitialized,
    /// `Initialize` came a second time.
    Initialized,
}

impl StateError {
    /// The text of the error.
    pub open spec fn text(self) -> Seq<char> {
        match self {
            StateError::Uninitialized => "uninitialized"@,
            StateError::Initialized => "already initialized"@,
        }
    }

    /// The text of the error.
    pub fn message(self) -> (text: String)
        ensures
            text@ == self.text(),
    {
        match self {
            StateError::Uninitialized => "uninitialized".to_owned(),
            StateError::Initialized => "already initialized".to_owned(),
        }
    }

    /// The error as the client is told it.
    pub fn into_error(self) -> (e: RpcError)
        ensures
            e@ == match self {
                StateError::Uninitialized => RpcErrorModel::Uninitialized,
                StateError::Initialized => RpcErrorModel::AlreadyInitialized,
            },
    {
        match self {
            StateError::Uninitialized => RpcError::Uninitialized,
            StateError::Initialized => RpcError::AlreadyInitialized,
        }
    }
}

/// Whether a request fits the state of a connection: before `Initialize`
/// nothing else is accepted, after it everything else is.
pub open spec fn fits_state(initialized: bool, request: RequestModel) -> Result<(), StateError> {
    if initialized {
        if request is Initialize {
            Err(StateError::Initialized)
        } else {
            Ok(())
        }
    } else {
        if request is Initialize {
            Ok(())
        } else {
            Err(StateError::Uninitialized)
        }
    }
}

/// Tells whether a request fits the state of a connection.
pub fn check_state(initialized: bool, request: &Request) -> (r: Result<(), StateError>)
    ensures
        r == fits_state(initialized, request@),
{
    let is_initialize = match request {
        Request::Initialize(_) => true,
        _ => false,
    };
    if initialized {
        if is_initialize {
            Err(StateError::Initialized)
        } else {
            Ok(())
        }
    } else {
        if is_initialize {
            Ok(())
        } else {
            Err(StateError::Uninitialized)
        }
    }
}

/// What went wrong on the stream.
#[derive(Clone, Copy, Debug, PartialEq, Eq, Structural)]
pub enum IoKind {
    /// The stream ended in the middle of a frame.
    UnexpectedEof,
    /// Any other failure of the transport.
    Other,
}

/// Why the server gave up a connection.
#[derive(Debug)]
pub enum Error {
    /// The transport failed.
    IO(IoKind),
    /// A response could not be written; the text says why.
    Serialize(String),
    /// A message could not be read; the text says why.
    Deserialize(String),
}

impl IoKind {
    /// The text of the failure.
    pub open spec fn text(self) -> Seq<char> {
        match self {
            IoKind::UnexpectedEof => "unexpected end of file"@,
            IoKind::Other => "other error"@,
        }
    }

    /// The text of the failure.
    pub fn message(self) -> (text: &'static str)
        ensures
            text@ == self.text(),
    {
        match self {
            IoKind::UnexpectedEof => "unexpected end of file",
            IoKind::Other => "other error",
        }
    }
}

impl Error {
    /// The text of the error.
    pub open spec fn text(self) -> Seq<char> {
        match self {
            Error::IO(kind) => joined("IO error: "@, kind.text()),
            Error::Serialize(reason) => joined("serialization error: "@, reason@),
            Error::Deserialize(reason) => joined("deserialization error: "@, reason@),
        }
    }

    /// The text of the error.
    pub fn message(&self) -> (text: String)
        ensures
            text@ == self.text(),
    {
        match self {
            Error::IO(kind) => join("IO error: ", kind.message()),
            Error::Serialize(reason) => join("serialization error: ", reason.as_str()),
            Error::Deserialize(reason) => join("deserialization error: ", reason.as_str()),
        }
    }
}

/// The server of one connection: a backend factory, the signer once the
/// connection is initialized, and the generator that new keys are drawn from.
pub struct Server<F, S, R> {
    fact: F,
    signer: Option<S>,
    rng: R,
}

impl<F, S, R> Server<F, S, R> {
    /// The signer, once the connection is initialized.
    pub closed spec fn signer(&self) -> Option<S> {
        self.signer
    }

    /// The backend factory.
    pub closed spec fn factory(&self) -> F {
        self.fact
    }

    /// The generator that new keys are drawn from.
    pub closed spec fn rng(&self) -> R {
        self.rng
    }

    /// A server in the uninitialized state, with the given factory and
    /// generator.
    pub fn new(fact: F, rng: R) -> (server: Self)
        ensures
            server.signer() is None,
            server.factory() == fact,
            server.rng() == rng,
    {
        Server { fact, signer: None, rng }
    }

    /// Whether `Initialize` has been carried out.
    pub fn is_initialized(&self) -> (b: bool)
        ensures
            b == self.signer() is Some,
    {
        self.signer.is_some()
    }
}

/// What the server answers to `request` and what becomes of its state:
/// `before` and `after` are the keys held before and after, if the
/// connection is initialized then. In the uninitialized state only
/// `Initialize` is accepted, and nothing else changes the state; a
/// connection once initialized stays so.
pub open spec fn dispatched(
    before: Option<Seq<KeyModel>>,
    request: RequestModel,
    after: Option<Seq<KeyModel>>,
    response: ResponseModel,
) -> bool {
    match before {
        Some(keys) => after is Some && served(keys, request, after->0, response),
        None => if request is Initialize {
            match response {
                Ok(reply) => reply == ReplyModel::Done && after == Some(Seq::<KeyModel>::empty())
                    && encodable(request->Initialize_0),
                Err(e) => after is None && (e is Deserialize || e is Encryption) && (!encodable(
                    request->Initialize_0,
                ) ==> e == RpcErrorModel::Deserialize(no_encoding())),
            }
        } else {
            after is None && response == Err::<ReplyModel, RpcErrorModel>(
                RpcErrorModel::Uninitialized,
            )
        },
    }
}

/// A request that does not fit the state is answered with the state's error
/// and changes nothing.
pub proof fn lemma_refused_when_not_fits_state(
    before: Option<Seq<KeyModel>>,
    request: RequestModel,
    after: Option<Seq<KeyModel>>,
    response: ResponseModel,
)
    requires
        dispatched(before, request, after, response),
        fits_state(before is Some, request) is Err,
    ensures
        after == before,
        response == Err::<ReplyModel, RpcErrorModel>(
            match fits_state(before is Some, request)->Err_0 {
                StateError::Uninitialized => RpcErrorModel::Uninitialized,
                StateError::Initialized => RpcErrorModel::AlreadyInitialized,
            },
        ),
{
}

/// Before `Initialize` every other request is answered with `Uninitialized`
/// and the connection stays uninitialized.
pub proof fn lemma_uninitialized_refuses(
    request: RequestModel,
    after: Option<Seq<KeyModel>>,
    response: ResponseModel,
)
    requires
        !(request is Initialize),
        dispatched(None, request, after, response),
    ensures
        after is None,
        response == Err::<ReplyModel, RpcErrorModel>(RpcErrorModel::Uninitialized),
{
}

/// Once the connection is initialized, `Initialize` is answered with
/// `AlreadyInitialized` and the keychain is left as it was.
pub proof fn lemma_initialize_once(
    keys: Seq<KeyModel>,
    request: RequestModel,
    after: Option<Seq<KeyModel>>,
    response: ResponseModel,
)
    requires
        request is Initialize,
        dispatched(Some(keys), request, after, response),
    ensures
        after == Some(keys),
        response == Err::<ReplyModel, RpcErrorModel>(RpcErrorModel::AlreadyInitialized),
{
}

/// No request takes an initialized connection back, and no request removes
/// or replaces a key: the keys held before stay under their handles.
pub proof fn lemma_no_way_back(
    keys: Seq<KeyModel>,
    request: RequestModel,
    after: Option<Seq<KeyModel>>,
    response: ResponseModel,
)
    requires
        dispatched(Some(keys), request, after, response),
    ensures
        after is Some,
        after->0.len() >= keys.len(),
        after->0.subrange(0, keys.len() as int) == keys,
{
    let grown = after->0;
    if grown.len() == keys.len() + 1 && grown.drop_last() == keys {
        assert(grown.subrange(0, keys.len() as int) =~= grown.drop_last());
    } else if grown == keys {
        assert(grown.subrange(0, keys.len() as int) =~= keys);
    } else {
        assert(request is ImportUnencrypted);
        assert(grown.subrange(0, keys.len() as int) =~= keys);
    }
}

/// What handling the payload of one frame does: a payload that is no
/// request is answered with a deserialization error that carries the reason
/// and leaves the state as it was; a request is dispatched.
pub open spec fn handled(
    before: Option<Seq<KeyModel>>,
    payload: Seq<u8>,
    after: Option<Seq<KeyModel>>,
    response: ResponseModel,
) -> bool {
    match request_of_bytes(payload) {
        Ok(request) => dispatched(before, request, after, response),
        Err(text) => after == before && response == Err::<ReplyModel, RpcErrorModel>(
            RpcErrorModel::Deserialize(text),
        ),
    }
}

/// Whether handling the payloads `requests` one after another, from the
/// state `start` on, answers with the payloads `answers` and ends in the
/// state `end`, where `states` are the states before each request and after
/// the last, and `responses` what the requests were answered with.
pub open spec fn trace(
    start: Option<Seq<KeyModel>>,
    requests: Seq<Seq<u8>>,
    answers: Seq<Seq<u8>>,
    end: Option<Seq<KeyModel>>,
    states: Seq<Option<Seq<KeyModel>>>,
    responses: Seq<ResponseModel>,
) -> bool {
    &&& answers.len() == requests.len()
    &&& responses.len() == requests.len()
    &&& states.len() == requests.len() + 1
    &&& states[0] == start
    &&& states[requests.len() as int] == end
    &&& forall|i: int|
        #![trigger responses[i]]
        0 <= i < requests.len() ==> handled(states[i], requests[i], states[i + 1], responses[i])
            && is_response_payload(responses[i], Ok::<Seq<u8>, Seq<char>>(answers[i]))
}

/// Whether handling the payloads `requests` one after another, from the
/// state `start` on, can answer with the payloads `answers` and end in the
/// state `end`: each answer is the encoding of what its request was answered
/// with in the state that the requests before it led to.
pub open spec fn answered_in_turn(
    start: Option<Seq<KeyModel>>,
    requests: Seq<Seq<u8>>,
    answers: Seq<Seq<u8>>,
    end: Option<Seq<KeyModel>>,
) -> bool {
    exists|states: Seq<Option<Seq<KeyModel>>>, responses: Seq<ResponseModel>|
        trace(start, requests, answers, end, states, responses)
}

/// What serving a connection comes to, where the server started in the
/// state `start`, the peer sent `input` before it closed, and the server
/// wrote `emitted` and ended in the state `end`: one response frame for each
/// whole request frame, in turn, and nothing else. The connection ends
/// cleanly when the peer closes between frames, and with an unexpected end
/// of stream when it closes inside one, be it inside the length prefix or
/// inside the payload. It ends early only where a response cannot be sent:
/// the request was handled, and its response is too long for a frame.
pub open spec fn conversation(
    start: Option<Seq<KeyModel>>,
    input: Seq<u8>,
    emitted: Seq<u8>,
    end: Option<Seq<KeyModel>>,
    r: Result<(), Error>,
) -> bool {
    let n = frames(emitted).len() as int;
    &&& well_framed(emitted)
    &&& n <= frames(input).len()
    &&& match r {
        Ok(()) => n == frames(input).len() && rest(input).len() == 0 && answered_in_turn(
            start,
            frames(input),
            frames(emitted),
            end,
        ),
        Err(Error::IO(kind)) => kind == IoKind::UnexpectedEof && n == frames(input).len() && rest(
            input,
        ).len() > 0 && answered_in_turn(start, frames(input), frames(emitted), end),
        Err(Error::Serialize(_)) => n < frames(input).len() && exists|
            mid: Option<Seq<KeyModel>>,
            response: ResponseModel,
            payload: Result<Seq<u8>, Seq<char>>,
        |
            #![trigger handled(mid, frames(input)[n], end, response), is_response_payload(response, payload)]
            answered_in_turn(start, frames(input).take(n), frames(emitted), mid) && handled(
                mid,
                frames(input)[n],
                end,
                response,
            ) && is_response_payload(response, payload) && (payload matches Ok(bytes)
                && bytes.len() > MAX_PAYLOAD),
        Err(Error::Deserialize(_)) => false,
    }
}

/// What the initialized state answers to `request` and what it does to the
/// keychain; `before` and `after` are the keys held before and after. Where
/// the keychain alone decides, the answer is fixed. Where the backend
/// decides, the answer is the backend's failure or what the library makes
/// of some plaintext or ciphertext that the backend gave. Where the
/// generator decides, the key is one that generating may yield.
pub open spec fn served(
    before: Seq<KeyModel>,
    request: RequestModel,
    after: Seq<KeyModel>,
    response: ResponseModel,
) -> bool {
    match request {
        RequestModel::Initialize(_) => after == before && response == Err::<
            ReplyModel,
            RpcErrorModel,
        >(RpcErrorModel::AlreadyInitialized),
        RequestModel::Import(_) => match response {
            Ok(reply) => reply matches ReplyModel::Imported(public, handle) && public
                == public_model(after.last()) && handle == before.len() && after.len()
                == before.len() + 1 && after.drop_last() == before && exists|plaintext: Seq<u8>|
                #[trigger] key_of_plaintext(plaintext) == Ok::<KeyModel, Seq<char>>(after.last()),
            Err(e) => after == before && (e is Encryption || exists|plaintext: Seq<u8>|
                #[trigger] key_of_plaintext(plaintext) is Err && e == RpcErrorModel::Deserialize(
                    key_of_plaintext(plaintext)->Err_0,
                )),
        },
        RequestModel::ImportUnencrypted(kind, secret) => match response {
            Ok(reply) => reply matches ReplyModel::Stored(_, public, handle) && public
                == public_model((kind, secret)) && handle == before.len() && after == before.push(
                (kind, secret),
            ),
            Err(e) => after == before && e is Encryption,
        },
        RequestModel::Generate(kind) => after == before && match response {
            Ok(reply) => reply matches ReplyModel::Generated(_, public) && exists|key: KeyModel|
                #[trigger] generated_key(kind, key) && public == public_model(key),
            Err(e) => e is Encryption,
        },
        RequestModel::GenerateAndImport(kind) => match response {
            Ok(reply) => reply matches ReplyModel::Stored(_, public, handle) && handle
                == before.len() && after.len() == before.len() + 1 && after.drop_last() == before
                && generated_key(kind, after.last()) && public == public_model(after.last()),
            Err(e) => after == before && e is Encryption,
        },
        RequestModel::Sign { handle, msg } => after == before && response == match sign_at(
            before,
            handle as int,
            msg,
        ) {
            Ok(sig) => Ok::<ReplyModel, RpcErrorModel>(ReplyModel::Signed(sig)),
            Err(k) => Err(RpcErrorModel::Signer(k)),
        },
        RequestModel::SignWith { key_data, msg } => after == before && ((response matches Err(e)
            && e is Encryption) || exists|plaintext: Seq<u8>|
            response == #[trigger] signed_from(plaintext, msg)),
        RequestModel::PublicKey(handle) => after == before && response == match public_key_at(
            before,
            handle as int,
        ) {
            Ok(public) => Ok::<ReplyModel, RpcErrorModel>(ReplyModel::Public(public)),
            Err(k) => Err(RpcErrorModel::Signer(k)),
        },
        RequestModel::PublicKeyFrom(_) => after == before && ((response matches Err(e) && e
            is Encryption) || exists|plaintext: Seq<u8>|
            response == #[trigger] public_from(plaintext)),
    }
}

/// The frames of two frames one after the other are their two payloads, and
/// nothing is left.
pub proof fn lemma_two_frames(one: Seq<u8>, two: Seq<u8>)
    requires
        one.len() <= MAX_PAYLOAD,
        two.len() <= MAX_PAYLOAD,
    ensures
        frames(frame(one) + frame(two)) == seq![one, two],
        rest(frame(one) + frame(two)).len() == 0,
{
    let none = Seq::<u8>::empty();
    lemma_frame_first(one, frame(two));
    lemma_frame_first(two, none);
    assert(frame(two) + none =~= frame(two));
    assert(first_frame(none) is None);
    assert(frames(none) =~= Seq::<Seq<u8>>::empty());
    assert(seq![one] + (seq![two] + Seq::<Seq<u8>>::empty()) =~= seq![one, two]);
}

/// A frame that is no request does not end the connection. It is answered
/// with a deserialization error that carries the reason and leaves the
/// state as it was, and the frame after it is answered as it would be alone
/// in that state. The connection does not end with a failure of the
/// transport, since the peer closed between frames.
pub proof fn lemma_rejected_frame_then_next(
    start: Option<Seq<KeyModel>>,
    rejected: Seq<u8>,
    next: Seq<u8>,
    emitted: Seq<u8>,
    end: Option<Seq<KeyModel>>,
    r: Result<(), Error>,
)
    requires
        rejected.len() <= MAX_PAYLOAD,
        next.len() <= MAX_PAYLOAD,
        request_of_bytes(rejected) is Err,
        conversation(start, frame(rejected) + frame(next), emitted, end, r),
    ensures
        !(r matches Err(Error::IO(_))),
        r is Ok ==> frames(emitted).len() == 2 && is_response_payload(
            Err(RpcErrorModel::Deserialize(request_of_bytes(rejected)->Err_0)),
            Ok(frames(emitted)[0]),
        ) && exists|response: ResponseModel| #[trigger]
            handled(start, next, end, response) && is_response_payload(
                response,
                Ok(frames(emitted)[1]),
            ),
{
    lemma_two_frames(rejected, next);
    let input = frame(rejected) + frame(next);
    if r is Ok {
        let (states, responses) = choose|
            states: Seq<Option<Seq<KeyModel>>>,
            responses: Seq<ResponseModel>,
        | trace(start, frames(input), frames(emitted), end, states, responses);
        assert(frames(input)[0] == rejected && frames(input)[1] == next);
        assert(handled(states[0], frames(input)[0], states[1], responses[0])
            && is_response_payload(responses[0], Ok(frames(emitted)[0])));
        assert(handled(states[1], frames(input)[1], states[2], responses[1])
            && is_response_payload(responses[1], Ok(frames(emitted)[1])));
        assert(states[1] == start);
        assert(handled(start, next, end, responses[1]));
    }
}

/// What three answers in turn come to for a connection that is initialized,
/// has an Ed25519 key generated and imported, and has `msg` signed with the
/// key under handle 0: where the first two succeed, the key gets the handle
/// 0, and the third answer is the pure Ed25519 signature of `msg` itself
/// under the seed whose public key the second answer carries.
pub open spec fn signed_with_generated(
    one: ResponseModel,
    two: ResponseModel,
    three: ResponseModel,
    msg: Seq<u8>,
) -> bool {
    one is Ok && two is Ok ==> one == Ok::<ReplyModel, RpcErrorModel>(ReplyModel::Done) && (
    two matches Ok(ReplyModel::Stored(_, public, handle)) && handle == 0 && exists|seed: Seq<u8>|
        seed.len() == 32 && public == (KeyType::Ed25519, #[trigger] ed25519_public_point(seed))
            && three == Ok::<ReplyModel, RpcErrorModel>(
            ReplyModel::Signed((KeyType::Ed25519, ed25519_signature(seed, msg))),
        ))
}

/// A fresh connection that is sent `Initialize`, `GenerateAndImport` of an
/// Ed25519 key and `Sign` with handle 0, and is closed after them, gets
/// three answers in turn; where the backend is set up and wraps the key, the
/// key gets the handle 0 and the third answer is the signature of the
/// message itself under that key.
pub proof fn lemma_generate_import_sign(
    first: Seq<u8>,
    second: Seq<u8>,
    third: Seq<u8>,
    credentials: Cbor,
    msg: Seq<u8>,
    emitted: Seq<u8>,
    end: Option<Seq<KeyModel>>,
)
    requires
        first.len() <= MAX_PAYLOAD,
        second.len() <= MAX_PAYLOAD,
        third.len() <= MAX_PAYLOAD,
        request_of_bytes(first) == Ok::<RequestModel, Seq<char>>(
            RequestModel::Initialize(credentials),
        ),
        request_of_bytes(second) == Ok::<RequestModel, Seq<char>>(
            RequestModel::GenerateAndImport(KeyType::Ed25519),
        ),
        request_of_bytes(third) == Ok::<RequestModel, Seq<char>>(
            (RequestModel::Sign { handle: 0, msg }),
        ),
        conversation(None, frame(first) + (frame(second) + frame(third)), emitted, end, Ok(())),
    ensures
        frames(emitted).len() == 3,
        exists|one: ResponseModel, two: ResponseModel, three: ResponseModel|
            #![trigger signed_with_generated(one, two, three, msg)]
            is_response_payload(one, Ok(frames(emitted)[0])) && is_response_payload(
                two,
                Ok(frames(emitted)[1]),
            ) && is_response_payload(three, Ok(frames(emitted)[2])) && signed_with_generated(
                one,
                two,
                three,
                msg,
            ),
{
    lemma_two_frames(second, third);
    lemma_frame_first(first, frame(second) + frame(third));
    let input = frame(first) + (frame(second) + frame(third));
    assert(frames(input) =~= seq![first, second, third]);
    let (states, responses) = choose|
        states: Seq<Option<Seq<KeyModel>>>,
        responses: Seq<ResponseModel>,
    | trace(None, frames(input), frames(emitted), end, states, responses);
    assert(handled(states[0], frames(input)[0], states[1], responses[0]) && is_response_payload(
        responses[0],
        Ok(frames(emitted)[0]),
    ));
    assert(handled(states[1], frames(input)[1], states[2], responses[1]) && is_response_payload(
        responses[1],
        Ok(frames(emitted)[1]),
    ));
    assert(handled(states[2], frames(input)[2], states[3], responses[2]) && is_response_payload(
        responses[2],
        Ok(frames(emitted)[2]),
    ));
    if responses[0] is Ok && responses[1] is Ok {
        assert(states[1] == Some(Seq::<KeyModel>::empty()));
        let keys = states[2]->0;
        assert(keys.len() == 1);
        let key = keys.last();
        assert(keys[0] == key);
        assert(generated_key(KeyType::Ed25519, key));
        assert(key.1.len() == 32);
        assert(public_model(key) == (KeyType::Ed25519, ed25519_public_point(key.1)));
        assert(responses[2] == Ok::<ReplyModel, RpcErrorModel>(
            ReplyModel::Signed((KeyType::Ed25519, ed25519_signature(key.1, msg))),
        ));
    }
    assert(signed_with_generated(responses[0], responses[1], responses[2], msg));
}

impl<F, R> Server<F, EncryptedSigner<F::Output>, R> where
    F: EncryptionBackendFactory,
    F::Output: SyncEncryptionBackend,
    F::Credentials: serde::de::DeserializeOwned,
    R: rand_core::CryptoRngCore,
 {
    /// The keys held, once the connection is initialized.
    pub open spec fn keys(&self) -> Option<Seq<KeyModel>> {
        match self.signer() {
            Some(signer) => Some(signer.keys()),
            None => None,
        }
    }

    /// Answers a request in the initialized state: takes the first step,
    /// asks the backend where the step says so, and finishes with the
    /// backend's answer.
    pub fn serve(signer: &mut EncryptedSigner<F::Output>, rng: &mut R, request: Request) -> (r:
        Result<Reply, RpcError>)
        ensures
            final(signer).backend() == old(signer).backend(),
            served(old(signer).keys(), request@, final(signer).keys(), response_model(r)),
    {
        let ghost asked_of = request@;
        match begin(signer, rng, request) {
            Step::Done(r) => r,
            Step::Ask(Ask::Decrypt(ciphertext), pending) => {
                let answer = signer.get_ref().decrypt(ciphertext.as_slice());
                let ghost given = answer;
                let ghost left = pending;
                let r = finish(signer, pending, answer);
                proof {
                    if given is Ok {
                        let plaintext = given->Ok_0@;
                        match left {
                            Pending::Import => {
                                if r is Ok {
                                    assert(signer.keys().drop_last() =~= old(signer).keys());
                                    assert(key_of_plaintext(plaintext) == Ok::<
                                        KeyModel,
                                        Seq<char>,
                                    >(signer.keys().last()));
                                } else {
                                    assert(key_of_plaintext(plaintext) is Err);
                                }
                            },
                            Pending::SignWith(msg) => {
                                assert(response_model(r) == signed_from(plaintext, msg@));
                            },
                            Pending::PublicKeyFrom => {
                                assert(response_model(r) == public_from(plaintext));
                            },
                            _ => {},
                        }
                    }
                }
                r
            },
            Step::Ask(Ask::Encrypt(plaintext), pending) => {
                let answer = signer.get_ref().encrypt(plaintext.as_slice());
                let ghost left = pending;
                let r = finish(signer, pending, answer);
                proof {
                    match left {
                        Pending::Store(key) => {
                            if r is Ok {
                                assert(signer.keys().drop_last() =~= old(signer).keys());
                                assert(signer.keys().last() == key@);
                            }
                        },
                        Pending::Hand(key) => {
                            if asked_of is Generate {
                                assert(generated_key(asked_of->Generate_0, key@));
                            }
                        },
                        _ => {},
                    }
                }
                r
            },
        }
    }
}

impl<F, R> Server<F, EncryptedSigner<F::Output>, R> where
    F: EncryptionBackendFactory,
    F::Output: SyncEncryptionBackend,
    F::Credentials: serde::de::DeserializeOwned,
    R: rand_core::CryptoRngCore,
 {
    /// Answers a request and moves the state machine.
    pub fn dispatch(&mut self, request: Request) -> (r: Result<Reply, RpcError>)
        ensures
            final(self).factory() == old(self).factory(),
            old(self).signer() matches Some(s) ==> (final(self).signer() matches Some(t)
                && t.backend() == s.backend()),
            dispatched(old(self).keys(), request@, final(self).keys(), response_model(r)),
    {
        if let Err(e) = check_state(self.signer.is_some(), &request) {
            return Err(e.into_error());
        }
        match &mut self.signer {
            Some(signer) => Self::serve(signer, &mut self.rng, request),
            None => match request {
                Request::Initialize(item) => match open_signer(&self.fact, item) {
                    Ok(signer) => {
                        self.signer = Some(signer);
                        Ok(Reply::Done)
                    },
                    Err(e) => Err(e),
                },
                _ => Err(StateError::Uninitialized.into_error()),
            },
        }
    }

    /// Handles the payload of one frame: reads the request, answers it, and
    /// leaves the payload of the response in `buf`. Every response can be
    /// written, so this always succeeds.
    pub fn handle_message(&mut self, buf: &mut Vec<u8>) -> (r: Result<(), Error>)
        ensures
            r is Ok,
            final(self).factory() == old(self).factory(),
            old(self).signer() matches Some(s) ==> (final(self).signer() matches Some(t)
                && t.backend() == s.backend()),
            old(self).keys() is Some ==> final(self).keys() is Some,
            exists|response: ResponseModel, payload: Result<Seq<u8>, Seq<char>>|
                #![trigger handled(old(self).keys(), old(buf)@, final(self).keys(), response), is_response_payload(response, payload)]
                handled(old(self).keys(), old(buf)@, final(self).keys(), response)
                    && is_response_payload(response, payload) && match r {
                    Ok(()) => payload == Ok::<Seq<u8>, Seq<char>>(final(buf)@),
                    Err(e) => e matches Error::Serialize(text) && payload == Err::<
                        Seq<u8>,
                        Seq<char>,
                    >(text@),
                },
    {
        let response = match Request::decode(buf.as_slice()) {
            Ok(request) => self.dispatch(request),
            Err(text) => Err(RpcError::Deserialize(text)),
        };
        let ghost model = response_model(response);
        let encoded = encode_response(response);
        proof {
            assert(handled(old(self).keys(), old(buf)@, self.keys(), model));
            assert(is_response_payload(model, written(encoded)));
        }
        buf.clear();
        match encoded {
            Ok(mut payload) => {
                buf.append(&mut payload);
                assert(buf@ =~= written(encoded)->Ok_0);
                Ok(())
            },
            Err(text) => Err(Error::Serialize(text)),
        }
    }
}

impl<F, R> Server<F, EncryptedSigner<F::Output>, R> where
    F: EncryptionBackendFactory,
    F::Output: SyncEncryptionBackend,
    F::Credentials: serde::de::DeserializeOwned,
    R: rand_core::CryptoRngCore,
 {
    /// Serves one connection from the bytes its peer sent before closing:
    /// handles the frames of `input` in order and appends one response frame
    /// to `output` for each, until the input ends or a response cannot be
    /// written. Nothing is written for a frame that is cut short.
    pub fn serve_connection(&mut self, input: &[u8], output: &mut Vec<u8>) -> (r: Result<
        (),
        Error,
    >)
        ensures
            final(self).factory() == old(self).factory(),
            old(self).signer() matches Some(s) ==> (final(self).signer() matches Some(t)
                && t.backend() == s.backend()),
            old(self).keys() is Some ==> final(self).keys() is Some,
            final(output)@.len() >= old(output)@.len(),
            final(output)@.subrange(0, old(output)@.len() as int) == old(output)@,
            conversation(
                old(self).keys(),
                input@,
                final(output)@.skip(old(output)@.len() as int),
                final(self).keys(),
                r,
            ),
    {
        let mut pos: usize = 0;
        let mut outcome: Result<(), Error> = Ok(());
        let ghost mut emitted: Seq<u8> = Seq::empty();
        let ghost mut done: Seq<Seq<u8>> = Seq::empty();
        let ghost mut states: Seq<Option<Seq<KeyModel>>> = seq![self.keys()];
        let ghost mut responses: Seq<ResponseModel> = Seq::empty();
        proof {
            assert(input@.skip(0) =~= input@);
            assert(output@ =~= old(output)@ + emitted);
            assert(frames(emitted) =~= Seq::<Seq<u8>>::empty());
            assert(frames(input@) =~= done + frames(input@.skip(0)));
        }
        loop
            invariant_except_break
                trace(old(self).keys(), done, frames(emitted), self.keys(), states, responses),
            invariant
                pos <= input@.len(),
                self.factory() == old(self).factory(),
                old(self).signer() matches Some(s) ==> (self.signer() matches Some(t)
                    && t.backend() == s.backend()),
                old(self).keys() is Some ==> self.keys() is Some,
                output@ == old(output)@ + emitted,
                well_framed(emitted),
                frames(input@) == done + frames(input@.skip(pos as int)),
                rest(input@) == rest(input@.skip(pos as int)),
            ensures
                self.factory() == old(self).factory(),
                old(self).signer() matches Some(s) ==> (self.signer() matches Some(t)
                    && t.backend() == s.backend()),
                old(self).keys() is Some ==> self.keys() is Some,
                output@ == old(output)@ + emitted,
                conversation(old(self).keys(), input@, emitted, self.keys(), outcome),
            decreases input@.len() - pos,
        {
            let ghost tail = input@.skip(pos as int);
            let ghost before = self.keys();
            let (start, end) = match peek(input, pos) {
                Peek::Frame { start, end } => (start, end),
                Peek::Truncated => {
                    outcome = Err(Error::IO(IoKind::UnexpectedEof));
                    proof {
                        assert(frames(input@) =~= done);
                    }
                    break;
                },
                Peek::End => {
                    outcome = Ok(());
                    proof {
                        assert(frames(input@) =~= done);
                    }
                    break;
                },
            };
            let mut buf = slice_to_vec(slice_subrange(input, start, end));
            let ghost request = buf@;
            proof {
                assert(first_frame(tail) == Some(request));
                assert(frames(tail) == seq![request] + frames(input@.skip(end as int)));
                assert(frames(input@).take(done.len() as int) =~= done);
            }
            proof {
                assert(answered_in_turn(
                    old(self).keys(),
                    frames(input@).take(done.len() as int),
                    frames(emitted),
                    before,
                ));
            }
            let handled_frame = self.handle_message(&mut buf);
            let ghost (response, payload) = choose|
                response: ResponseModel,
                payload: Result<Seq<u8>, Seq<char>>,
            |
                #![trigger handled(before, request, self.keys(), response), is_response_payload(response, payload)]
                handled(before, request, self.keys(), response) && is_response_payload(
                    response,
                    payload,
                ) && match handled_frame {
                    Ok(()) => payload == Ok::<Seq<u8>, Seq<char>>(buf@),
                    Err(e) => e matches Error::Serialize(text) && payload == Err::<
                        Seq<u8>,
                        Seq<char>,
                    >(text@),
                };
            proof {
                assert(frames(input@)[done.len() as int] == request);
                assert(done.len() == frames(emitted).len());
            }
            match handled_frame {
                Ok(()) => {},
                Err(e) => {
                    outcome = Err(e);
                    break;
                },
            }
            if !write_frame(buf.as_slice(), output) {
                outcome = Err(Error::Serialize("response too long for a frame".to_owned()));
                break;
            }
            proof {
                lemma_append_frame(emitted, buf@);
                let grown = emitted + frame(buf@);
                assert(output@ =~= old(output)@ + grown);
                let more_states = states.push(self.keys());
                let more_responses = responses.push(response);
                let more_done = done.push(request);
                assert forall|i: int|
                    #![trigger more_responses[i]]
                    0 <= i < more_done.len() implies handled(
                    more_states[i],
                    more_done[i],
                    more_states[i + 1],
                    more_responses[i],
                ) && is_response_payload(
                    more_responses[i],
                    Ok::<Seq<u8>, Seq<char>>(frames(grown)[i]),
                ) by {
                    if i < done.len() {
                        assert(responses[i] == more_responses[i]);
                        assert(frames(grown)[i] == frames(emitted)[i]);
                    }
                }
                assert(frames(input@) =~= more_done + frames(input@.skip(end as int)));
                emitted = grown;
                states = more_states;
                responses = more_responses;
                done = more_done;
            }
            pos = end;
        }
        proof {
            assert((old(output)@ + emitted).skip(old(output)@.len() as int) =~= emitted);
            assert((old(output)@ + emitted).subrange(0, old(output)@.len() as int) =~= old(output)@);
        }
        outcome
    }
}

} // verus!
