//! Reading the CMS `EnvelopedData` structure that the key-management service
//! answers an attested decryption with, as far as the signer needs it: the
//! key that was wrapped for the first recipient. The structure is BER; its
//! elements may have definite lengths of up to four length bytes, or, where
//! they are constructed, an indefinite length ended by two zero bytes.

use vstd::prelude::*;
use vstd::slice::{slice_subrange, slice_to_vec};

verus! {

/// The tag of a constructed SEQUENCE.
pub const SEQUENCE: u8 = 0x30;

/// The tag of a constructed SET.
pub const SET: u8 = 0x31;

/// The tag of an INTEGER.
pub const INTEGER: u8 = 0x02;

/// The tag of an OCTET STRING.
pub const OCTET_STRING: u8 = 0x04;

/// The tag of an OBJECT IDENTIFIER.
pub const OID: u8 = 0x06;

/// The tag of a constructed element with context tag 0.
pub const CONTEXT_0: u8 = 0xa0;

/// Why an envelope could not be read.
#[derive(Clone, Copy, Debug, PartialEq, Eq, Structural)]
pub enum EnvelopeError {
    /// The bytes are not the elements that an envelope is made of.
    Malformed,
    /// The outermost element holds something else than enveloped data.
    NotEnvelopedData,
}

/// The object identifier of enveloped data, 1.2.840.113549.1.7.3, encoded.
pub open spec fn enveloped_data_oid() -> Seq<u8> {
    seq![0x2au8, 0x86, 0x48, 0x86, 0xf7, 0x0d, 0x01, 0x07, 0x03]
}

/// The head of an element: its tag, the length of its content where the
/// length is definite, and where the content starts.
pub struct Head {
    pub tag: u8,
    pub len: Option<usize>,
    pub body: usize,
}

/// The number that `n` bytes from `pos` on hold, big-endian; `n` is at most
/// four.
pub open spec fn be_value(bytes: Seq<u8>, pos: int, n: int) -> int
    decreases n,
{
    if n <= 0 {
        0
    } else {
        be_value(bytes, pos, n - 1) * 256 + bytes[pos + n - 1] as int
    }
}

/// The head of the element that starts at `pos`: a tag of one byte, then a
/// length in short form, in long form with up to four bytes, or, for a
/// constructed element, the mark of an indefinite length.
pub open spec fn head_at(bytes: Seq<u8>, pos: int) -> Option<Head> {
    if 0 <= pos && pos + 2 <= bytes.len() <= usize::MAX {
        let tag = bytes[pos];
        let first = bytes[pos + 1];
        if tag & 0x1f == 0x1f {
            None
        } else if first < 0x80 {
            Some(Head { tag, len: Some(first as usize), body: (pos + 2) as usize })
        } else if first == 0x80 {
            if tag & 0x20 == 0x20 {
                Some(Head { tag, len: None, body: (pos + 2) as usize })
            } else {
                None
            }
        } else {
            let n = first - 0x80;
            if n <= 4 && pos + 2 + n <= bytes.len() && be_value(bytes, pos + 2, n as int)
                <= usize::MAX {
                Some(
                    Head {
                        tag,
                        len: Some(be_value(bytes, pos + 2, n as int) as usize),
                        body: (pos + 2 + n) as usize,
                    },
                )
            } else {
                None
            }
        }
    } else {
        None
    }
}

/// Where the element that starts at `pos` ends: after its content where the
/// length is definite, after the two zero bytes that end its children where
/// it is not.
pub open spec fn element_end(bytes: Seq<u8>, pos: int) -> Option<int>
    decreases bytes.len() - pos, 0int,
{
    match head_at(bytes, pos) {
        Some(head) => match head.len {
            Some(len) => if head.body + len <= bytes.len() {
                Some(head.body + len)
            } else {
                None
            },
            None => if pos < head.body <= bytes.len() {
                children_end(bytes, head.body as int)
            } else {
                None
            },
        },
        None => None,
    }
}

/// Where the children that start at `pos` end: after the two zero bytes
/// that follow the last of them.
pub open spec fn children_end(bytes: Seq<u8>, pos: int) -> Option<int>
    decreases bytes.len() - pos, 1int,
{
    if 0 <= pos && pos + 2 <= bytes.len() {
        if bytes[pos] == 0 && bytes[pos + 1] == 0 {
            Some(pos + 2)
        } else {
            match element_end(bytes, pos) {
                Some(next) => if pos < next <= bytes.len() {
                    children_end(bytes, next)
                } else {
                    None
                },
                None => None,
            }
        }
    } else {
        None
    }
}

/// Where the content of the element at `at` starts, if the element has the
/// tag `tag`.
pub open spec fn enter(bytes: Seq<u8>, at: Option<int>, tag: u8) -> Option<int> {
    match at {
        Some(pos) => match head_at(bytes, pos) {
            Some(head) => if head.tag == tag {
                Some(head.body as int)
            } else {
                None
            },
            None => None,
        },
        None => None,
    }
}

/// Where the element at `at` ends, if it has the tag `tag`.
pub open spec fn skip(bytes: Seq<u8>, at: Option<int>, tag: u8) -> Option<int> {
    match at {
        Some(pos) => match head_at(bytes, pos) {
            Some(head) => if head.tag == tag {
                element_end(bytes, pos)
            } else {
                None
            },
            None => None,
        },
        None => None,
    }
}

/// Where the element at `at` ends, whatever its tag.
pub open spec fn skip_any(bytes: Seq<u8>, at: Option<int>) -> Option<int> {
    match at {
        Some(pos) => element_end(bytes, pos),
        None => None,
    }
}

/// Where the element at `at` ends if it has the tag `tag`, and `at` itself
/// if it has another.
pub open spec fn skip_optional(bytes: Seq<u8>, at: Option<int>, tag: u8) -> Option<int> {
    match at {
        Some(pos) => match head_at(bytes, pos) {
            Some(head) => if head.tag == tag {
                element_end(bytes, pos)
            } else {
                at
            },
            None => None,
        },
        None => None,
    }
}

/// The content of the element at `at`, if it has the tag `tag` and a
/// definite length that the bytes cover.
pub open spec fn content(bytes: Seq<u8>, at: Option<int>, tag: u8) -> Option<Seq<u8>> {
    match at {
        Some(pos) => match head_at(bytes, pos) {
            Some(head) => match head.len {
                Some(len) => if head.tag == tag && head.body + len <= bytes.len() {
                    Some(bytes.subrange(head.body as int, head.body + len))
                } else {
                    None
                },
                None => None,
            },
            None => None,
        },
        None => None,
    }
}

/// Where the enveloped data starts: inside the outermost sequence, after
/// the object identifier, inside the element with context tag 0.
pub open spec fn enveloped_data_at(bytes: Seq<u8>) -> Option<int> {
    let inner = enter(bytes, Some(0int), SEQUENCE);
    enter(bytes, skip(bytes, inner, OID), CONTEXT_0)
}

/// Where the wrapped key of the first recipient stands: inside the
/// enveloped data, after the version and the originator's information where
/// there is any, inside the set of recipients, inside the first of them, after
/// its version, its recipient identifier and its key-encryption algorithm.
pub open spec fn wrapped_key_at(bytes: Seq<u8>) -> Option<int> {
    let data = enter(bytes, enveloped_data_at(bytes), SEQUENCE);
    let recipients = enter(
        bytes,
        skip_optional(bytes, skip(bytes, data, INTEGER), CONTEXT_0),
        SET,
    );
    let recipient = enter(bytes, recipients, SEQUENCE);
    skip(bytes, skip_any(bytes, skip(bytes, recipient, INTEGER)), SEQUENCE)
}

/// The key that an envelope wraps for its first recipient.
pub open spec fn wrapped_key_of(bytes: Seq<u8>) -> Result<Seq<u8>, EnvelopeError> {
    match content(bytes, enter(bytes, Some(0int), SEQUENCE), OID) {
        Some(oid) => if oid == enveloped_data_oid() {
            match content(bytes, wrapped_key_at(bytes), OCTET_STRING) {
                Some(key) => Ok(key),
                None => Err(EnvelopeError::Malformed),
            }
        } else {
            Err(EnvelopeError::NotEnvelopedData)
        },
        None => Err(EnvelopeError::Malformed),
    }
}

/// Reads the number that `n` bytes from `pos` on hold.
fn read_be(bytes: &[u8], pos: usize, n: usize) -> (value: u64)
    requires
        n <= 4,
        pos + n <= bytes@.len(),
    ensures
        value == be_value(bytes@, pos as int, n as int),
        value < 0x1_0000_0000,
{
    let total = bytes.len();
    let mut value: u64 = 0;
    let mut i: usize = 0;
    while i < n
        invariant
            i <= n <= 4,
            pos + n <= bytes@.len(),
            total == bytes@.len(),
            value == be_value(bytes@, pos as int, i as int),
            value < pow256(i as nat),
        decreases n - i,
    {
        proof {
            lemma_pow256(i as nat);
        }
        value = value * 256 + bytes[pos + i] as u64;
        i += 1;
    }
    proof {
        lemma_pow256(n as nat);
    }
    value
}

/// 256 to the power of `n`.
pub open spec fn pow256(n: nat) -> nat
    decreases n,
{
    if n == 0 {
        1
    } else {
        256 * pow256((n - 1) as nat)
    }
}

/// The first five powers of 256.
proof fn lemma_pow256(n: nat)
    requires
        n <= 4,
    ensures
        pow256(n) <= 0x1_0000_0000,
        pow256(n + 1) == 256 * pow256(n),
        n == 0 ==> pow256(n) == 1,
        n == 1 ==> pow256(n) == 256,
        n == 2 ==> pow256(n) == 65536,
        n == 3 ==> pow256(n) == 16777216,
        n == 4 ==> pow256(n) == 0x1_0000_0000,
{
    reveal_with_fuel(pow256, 6);
}

/// Reads the head of the element that starts at `pos`.
pub fn head(bytes: &[u8], pos: usize) -> (r: Option<Head>)
    ensures
        r == head_at(bytes@, pos as int),
        r matches Some(h) ==> pos + 2 <= h.body <= bytes@.len(),
{
    if bytes.len() < 2 || pos > bytes.len() - 2 {
        return None;
    }
    let tag = bytes[pos];
    let first = bytes[pos + 1];
    if tag & 0x1f == 0x1f {
        None
    } else if first < 0x80 {
        Some(Head { tag, len: Some(first as usize), body: pos + 2 })
    } else if first == 0x80 {
        if tag & 0x20 == 0x20 {
            Some(Head { tag, len: None, body: pos + 2 })
        } else {
            None
        }
    } else {
        let n = (first - 0x80) as usize;
        if n <= 4 && n <= bytes.len() - 2 - pos {
            let value = read_be(bytes, pos + 2, n);
            if value <= usize::MAX as u64 {
                Some(Head { tag, len: Some(value as usize), body: pos + 2 + n })
            } else {
                None
            }
        } else {
            None
        }
    }
}

/// Finds where the element that starts at `pos` ends.
pub fn end_of_element(bytes: &[u8], pos: usize) -> (r: Option<usize>)
    ensures
        r matches Some(end) ==> element_end(bytes@, pos as int) == Some(end as int) && pos < end
            <= bytes@.len(),
        r is None ==> element_end(bytes@, pos as int) is None,
    decreases bytes@.len() - pos, 0int,
{
    match head(bytes, pos) {
        Some(h) => match h.len {
            Some(len) => {
                if len <= bytes.len() - h.body {
                    Some(h.body + len)
                } else {
                    None
                }
            },
            None => end_of_children(bytes, h.body),
        },
        None => None,
    }
}

/// Finds where the children that start at `pos` end.
pub fn end_of_children(bytes: &[u8], pos: usize) -> (r: Option<usize>)
    ensures
        r matches Some(end) ==> children_end(bytes@, pos as int) == Some(end as int) && pos < end
            <= bytes@.len(),
        r is None ==> children_end(bytes@, pos as int) is None,
    decreases bytes@.len() - pos, 1int,
{
    if bytes.len() < 2 || pos > bytes.len() - 2 {
        return None;
    }
    if bytes[pos] == 0 && bytes[pos + 1] == 0 {
        return Some(pos + 2);
    }
    match end_of_element(bytes, pos) {
        Some(next) => end_of_children(bytes, next),
        None => None,
    }
}

/// A position in `bytes`, or none after a step that failed.
pub open spec fn as_spec(at: Option<usize>) -> Option<int> {
    match at {
        Some(pos) => Some(pos as int),
        None => None,
    }
}

/// Steps into the element at `at` if it has the tag `tag`.
pub fn step_in(bytes: &[u8], at: Option<usize>, tag: u8) -> (r: Option<usize>)
    ensures
        as_spec(r) == enter(bytes@, as_spec(at), tag),
{
    match at {
        Some(pos) => match head(bytes, pos) {
            Some(h) => {
                if h.tag == tag {
                    Some(h.body)
                } else {
                    None
                }
            },
            None => None,
        },
        None => None,
    }
}

/// Steps over the element at `at` if it has the tag `tag`.
pub fn step_over(bytes: &[u8], at: Option<usize>, tag: u8) -> (r: Option<usize>)
    ensures
        as_spec(r) == skip(bytes@, as_spec(at), tag),
{
    match at {
        Some(pos) => match head(bytes, pos) {
            Some(h) => {
                if h.tag == tag {
                    end_of_element(bytes, pos)
                } else {
                    None
                }
            },
            None => None,
        },
        None => None,
    }
}

/// Steps over the element at `at`, whatever its tag.
pub fn step_over_any(bytes: &[u8], at: Option<usize>) -> (r: Option<usize>)
    ensures
        as_spec(r) == skip_any(bytes@, as_spec(at)),
{
    match at {
        Some(pos) => end_of_element(bytes, pos),
        None => None,
    }
}

/// Steps over the element at `at` if it has the tag `tag`, and stays if it
/// has another.
pub fn step_over_optional(bytes: &[u8], at: Option<usize>, tag: u8) -> (r: Option<usize>)
    ensures
        as_spec(r) == skip_optional(bytes@, as_spec(at), tag),
{
    match at {
        Some(pos) => match head(bytes, pos) {
            Some(h) => {
                if h.tag == tag {
                    end_of_element(bytes, pos)
                } else {
                    at
                }
            },
            None => None,
        },
        None => None,
    }
}

/// The content of the element at `at`, if it has the tag `tag` and a
/// definite length that the bytes cover.
pub fn content_of<'a>(bytes: &'a [u8], at: Option<usize>, tag: u8) -> (r: Option<&'a [u8]>)
    ensures
        match r {
            Some(found) => content(bytes@, as_spec(at), tag) == Some(found@),
            None => content(bytes@, as_spec(at), tag) is None,
        },
{
    match at {
        Some(pos) => match head(bytes, pos) {
            Some(h) => match h.len {
                Some(len) => {
                    if h.tag == tag && len <= bytes.len() - h.body {
                        Some(slice_subrange(bytes, h.body, h.body + len))
                    } else {
                        None
                    }
                },
                None => None,
            },
            None => None,
        },
        None => None,
    }
}

/// Tells whether `oid` is the object identifier of enveloped data.
fn is_enveloped_data(oid: &[u8]) -> (b: bool)
    ensures
        b == (oid@ == enveloped_data_oid()),
{
    let b = oid.len() == 9 && oid[0] == 0x2a && oid[1] == 0x86 && oid[2] == 0x48 && oid[3] == 0x86
        && oid[4] == 0xf7 && oid[5] == 0x0d && oid[6] == 0x01 && oid[7] == 0x07 && oid[8] == 0x03;
    proof {
        if b {
            assert(oid@ =~= enveloped_data_oid());
        }
    }
    b
}

/// Reads the key that an envelope wraps for its first recipient.
pub fn wrapped_key(bytes: &[u8]) -> (r: Result<Vec<u8>, EnvelopeError>)
    ensures
        match r {
            Ok(key) => wrapped_key_of(bytes@) == Ok::<Seq<u8>, EnvelopeError>(key@),
            Err(e) => wrapped_key_of(bytes@) == Err::<Seq<u8>, EnvelopeError>(e),
        },
{
    let inner = step_in(bytes, Some(0), SEQUENCE);
    let oid = match content_of(bytes, inner, OID) {
        Some(oid) => oid,
        None => return Err(EnvelopeError::Malformed),
    };
    if !is_enveloped_data(oid) {
        return Err(EnvelopeError::NotEnvelopedData);
    }
    let outer = step_in(bytes, step_over(bytes, inner, OID), CONTEXT_0);
    let data = step_in(bytes, outer, SEQUENCE);
    let recipients = step_in(
        bytes,
        step_over_optional(bytes, step_over(bytes, data, INTEGER), CONTEXT_0),
        SET,
    );
    let recipient = step_in(bytes, recipients, SEQUENCE);
    let at = step_over(
        bytes,
        step_over_any(bytes, step_over(bytes, recipient, INTEGER)),
        SEQUENCE,
    );
    match content_of(bytes, at, OCTET_STRING) {
        Some(key) => Ok(slice_to_vec(key)),
        None => Err(EnvelopeError::Malformed),
    }
}

} // verus!
