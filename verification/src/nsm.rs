//! The secure module as the signer sees it: what its answers mean, how
//! random bytes are gathered from the chunks it hands out, and how much
//! entropy a chunk is credited with when it is fed to the kernel's pool.
//! Talking to the device is the caller's part.

use vstd::prelude::*;
use vstd::slice::slice_subrange;

verus! {

/// The number of bytes that seed the kernel's entropy pool at start.
pub const DEFAULT_ENTROPY_BYTE_SZ: usize = 1024;

/// The codes with which the secure module reports the outcome of a request.
#[derive(Clone, Copy, Debug, PartialEq, Eq, Structural)]
pub enum ErrorCode {
    Success,
    InvalidArgument,
    InvalidIndex,
    InvalidResponse,
    ReadOnlyIndex,
    InvalidOperation,
    BufferTooSmall,
    InputTooLarge,
    InternalError,
}

/// Why an operation on the secure module failed.
#[derive(Clone, Copy, Debug, PartialEq, Eq, Structural)]
pub enum Error {
    /// The device could not be opened, or the kernel refused a call.
    IO,
    /// The secure module reported an error.
    NSM(ErrorCode),
    /// The public key could not be encoded.
    SPKI,
    /// The secure module answered a different question.
    ResponseType,
}

/// What the secure module answered.
#[derive(Debug)]
pub enum Response {
    /// An attestation document.
    Attestation(Vec<u8>),
    /// Random bytes.
    GetRandom(Vec<u8>),
    /// An error code.
    Error(ErrorCode),
    /// An answer to a request the signer never makes.
    Other,
}

/// A request for an attestation document. The public key, where there is
/// one, is the DER encoding of its SubjectPublicKeyInfo.
#[derive(Debug)]
pub struct AttestationRequest {
    pub user_data: Option<Vec<u8>>,
    pub nonce: Option<Vec<u8>>,
    pub public_key: Option<Vec<u8>>,
}

impl ErrorCode {
    /// The text of the code.
    pub open spec fn text(self) -> Seq<char> {
        match self {
            ErrorCode::Success => "NSM error: success"@,
            ErrorCode::InvalidArgument => "NSM error: invalid argument"@,
            ErrorCode::InvalidIndex => "NSM error: invalid index"@,
            ErrorCode::InvalidResponse => "NSM error: invalid response"@,
            ErrorCode::ReadOnlyIndex => "NSM error: read_only index"@,
            ErrorCode::InvalidOperation => "NSM error: invalid operation"@,
            ErrorCode::BufferTooSmall => "NSM error: buffer too small"@,
            ErrorCode::InputTooLarge => "NSM error: input too large"@,
            ErrorCode::InternalError => "NSM error: internal error"@,
        }
    }

    /// The text of the code.
    pub fn message(self) -> (text: &'static str)
        ensures
            text@ == self.text(),
    {
        match self {
            ErrorCode::Success => "NSM error: success",
            ErrorCode::InvalidArgument => "NSM error: invalid argument",
            ErrorCode::InvalidIndex => "NSM error: invalid index",
            ErrorCode::InvalidResponse => "NSM error: invalid response",
            ErrorCode::ReadOnlyIndex => "NSM error: read_only index",
            ErrorCode::InvalidOperation => "NSM error: invalid operation",
            ErrorCode::BufferTooSmall => "NSM error: buffer too small",
            ErrorCode::InputTooLarge => "NSM error: input too large",
            ErrorCode::InternalError => "NSM error: internal error",
        }
    }
}

impl Error {
    /// The text of the error.
    pub open spec fn text(self) -> Seq<char> {
        match self {
            Error::IO => "IO error"@,
            Error::NSM(code) => code.text(),
            Error::SPKI => "SPKI error"@,
            Error::ResponseType => "wrong response type"@,
        }
    }

    /// The text of the error.
    pub fn message(self) -> (text: &'static str)
        ensures
            text@ == self.text(),
    {
        match self {
            Error::IO => "IO error",
            Error::NSM(code) => code.message(),
            Error::SPKI => "SPKI error",
            Error::ResponseType => "wrong response type",
        }
    }
}

/// What an answer means to a caller that asked for an attestation document.
pub open spec fn attestation_of(response: Response) -> Result<Seq<u8>, Error> {
    match response {
        Response::Attestation(document) => Ok(document@),
        Response::Error(code) => Err(Error::NSM(code)),
        _ => Err(Error::ResponseType),
    }
}

/// What an answer means to a caller that asked for random bytes. An empty
/// answer is the sign of a broken driver.
pub open spec fn random_of(response: Response) -> Result<Seq<u8>, Error> {
    match response {
        Response::GetRandom(random) => if random@.len() == 0 {
            Err(Error::NSM(ErrorCode::InternalError))
        } else {
            Ok(random@)
        },
        Response::Error(code) => Err(Error::NSM(code)),
        _ => Err(Error::ResponseType),
    }
}

/// The attestation document of an answer.
pub fn attestation(response: Response) -> (r: Result<Vec<u8>, Error>)
    ensures
        match r {
            Ok(document) => attestation_of(response) == Ok::<Seq<u8>, Error>(document@),
            Err(e) => attestation_of(response) == Err::<Seq<u8>, Error>(e),
        },
{
    match response {
        Response::Attestation(document) => Ok(document),
        Response::Error(code) => Err(Error::NSM(code)),
        _ => Err(Error::ResponseType),
    }
}

/// The random bytes of an answer, of which there is at least one.
pub fn random(response: Response) -> (r: Result<Vec<u8>, Error>)
    ensures
        match r {
            Ok(bytes) => random_of(response) == Ok::<Seq<u8>, Error>(bytes@) && bytes@.len() > 0,
            Err(e) => random_of(response) == Err::<Seq<u8>, Error>(e),
        },
{
    match response {
        Response::GetRandom(bytes) => {
            if bytes.len() == 0 {
                Err(Error::NSM(ErrorCode::InternalError))
            } else {
                Ok(bytes)
            }
        },
        Response::Error(code) => Err(Error::NSM(code)),
        _ => Err(Error::ResponseType),
    }
}

/// The request that binds a public key, given as the DER encoding of its
/// SubjectPublicKeyInfo, into an attestation document. User data and nonce
/// are not used.
pub fn key_attestation(public_key_der: Vec<u8>) -> (request: AttestationRequest)
    ensures
        request.user_data is None,
        request.nonce is None,
        request.public_key == Some(public_key_der),
{
    AttestationRequest { user_data: None, nonce: None, public_key: Some(public_key_der) }
}

/// The entropy, in bits, that a chunk of `len` bytes is credited with: eight
/// bits a byte, the module's generator being trusted.
pub open spec fn credit_bits(len: nat) -> nat {
    8 * len
}

/// The two numbers at the head of the record that feeds a chunk to the
/// kernel's pool: the entropy credit in bits and the size of the chunk in
/// bytes. `None` for a chunk whose credit does not fit the record.
pub fn pool_info(len: usize) -> (r: Option<(i32, i32)>)
    ensures
        r is Some <==> credit_bits(len as nat) <= i32::MAX,
        r matches Some(info) ==> info.0 == credit_bits(len as nat) && info.1 == len,
{
    if len <= 268435455 {
        Some(((len * 8) as i32, len as i32))
    } else {
        None
    }
}

/// How many bytes are still to be gathered from the secure module.
pub struct Draw {
    remaining: usize,
}

/// What taking from a chunk comes to: how many of its bytes are used, or
/// the error for a chunk that is empty.
pub open spec fn taken(remaining: nat, chunk_len: nat) -> Result<nat, Error> {
    if chunk_len == 0 {
        Err(Error::NSM(ErrorCode::InternalError))
    } else if chunk_len <= remaining {
        Ok(chunk_len)
    } else {
        Ok(remaining)
    }
}

impl Draw {
    /// The number of bytes still wanted.
    pub closed spec fn remaining(&self) -> nat {
        self.remaining as nat
    }

    /// Starts a draw of `bytes` bytes.
    pub fn new(bytes: usize) -> (draw: Draw)
        ensures
            draw.remaining() == bytes,
    {
        Draw { remaining: bytes }
    }

    /// Whether enough has been gathered.
    pub fn is_done(&self) -> (done: bool)
        ensures
            done == (self.remaining() == 0),
    {
        self.remaining == 0
    }

    /// The number of bytes still wanted.
    pub fn left(&self) -> (n: usize)
        ensures
            n == self.remaining(),
    {
        self.remaining
    }

    /// Takes from a chunk that the module handed out: as much of its start
    /// as is still wanted. An empty chunk is an error and takes nothing.
    pub fn take<'a>(&mut self, chunk: &'a [u8]) -> (r: Result<&'a [u8], Error>)
        ensures
            match taken(old(self).remaining(), chunk@.len()) {
                Ok(n) => r matches Ok(part) && part@ == chunk@.subrange(0, n as int) && final(self).remaining() == old(self).remaining() - n,
                Err(e) => r matches Err(x) && x == e && final(self).remaining() == old(self).remaining(),
            },
    {
        if chunk.len() == 0 {
            return Err(Error::NSM(ErrorCode::InternalError));
        }
        let n = if chunk.len() <= self.remaining {
            chunk.len()
        } else {
            self.remaining
        };
        self.remaining = self.remaining - n;
        Ok(slice_subrange(chunk, 0, n))
    }

    /// Takes from a chunk and appends what was taken to `dest`.
    pub fn fill(&mut self, dest: &mut Vec<u8>, chunk: &[u8]) -> (r: Result<(), Error>)
        ensures
            match taken(old(self).remaining(), chunk@.len()) {
                Ok(n) => r is Ok && final(dest)@ == old(dest)@ + chunk@.subrange(0, n as int)
                    && final(self).remaining() == old(self).remaining() - n,
                Err(e) => r == Err::<(), Error>(e) && final(dest)@ == old(dest)@ && final(self).remaining() == old(self).remaining(),
            },
    {
        match self.take(chunk) {
            Ok(part) => {
                dest.extend_from_slice(part);
                assert(dest@ =~= old(dest)@ + part@);
                Ok(())
            },
            Err(e) => Err(e),
        }
    }
}

} // verus!
