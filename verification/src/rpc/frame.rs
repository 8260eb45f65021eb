//! Framing: every message on the wire is a length, four bytes big-endian,
//! followed by that many bytes of payload.

use vstd::prelude::*;

verus! {

/// The number of bytes of a frame's length prefix.
pub const HEADER_LEN: usize = 4;

/// The longest payload a frame can carry.
pub const MAX_PAYLOAD: usize = 0xffff_ffff;

/// The number that the first four bytes of `bytes` hold, big-endian.
pub open spec fn be32(bytes: Seq<u8>) -> int {
    (bytes[0] as int) * 16777216 + (bytes[1] as int) * 65536 + (bytes[2] as int) * 256 + (
    bytes[3] as int)
}

/// The four bytes that hold `len`, big-endian.
pub open spec fn header(len: nat) -> Seq<u8> {
    seq![
        (len / 16777216) as u8,
        ((len / 65536) % 256) as u8,
        ((len / 256) % 256) as u8,
        (len % 256) as u8,
    ]
}

/// The frame that carries `payload`.
pub open spec fn frame(payload: Seq<u8>) -> Seq<u8> {
    header(payload.len()) + payload
}

/// The payload of the frame at the start of `input`, if a whole frame is
/// there.
pub open spec fn first_frame(input: Seq<u8>) -> Option<Seq<u8>> {
    if input.len() >= 4 && input.len() - 4 >= be32(input) {
        Some(input.subrange(4, 4 + be32(input)))
    } else {
        None
    }
}

/// The payloads of the whole frames that `input` starts with, in order.
pub open spec fn frames(input: Seq<u8>) -> Seq<Seq<u8>>
    decreases input.len(),
{
    match first_frame(input) {
        Some(payload) => seq![payload] + frames(input.skip(4 + payload.len() as int)),
        None => Seq::empty(),
    }
}

/// What is left of `input` after its whole frames: nothing, or the start of
/// a frame that is cut short.
pub open spec fn rest(input: Seq<u8>) -> Seq<u8>
    decreases input.len(),
{
    match first_frame(input) {
        Some(payload) => rest(input.skip(4 + payload.len() as int)),
        None => input,
    }
}

/// Whether `bytes` is a sequence of whole frames and nothing else.
pub open spec fn well_framed(bytes: Seq<u8>) -> bool {
    rest(bytes).len() == 0
}

/// Reading back the length that a header holds gives the length.
pub proof fn lemma_header_roundtrip(len: nat)
    requires
        len <= MAX_PAYLOAD,
    ensures
        header(len).len() == 4,
        be32(header(len)) == len,
{
    let h = header(len);
    assert(h[0] == (len / 16777216) as u8);
    assert(h[1] == ((len / 65536) % 256) as u8);
    assert(h[2] == ((len / 256) % 256) as u8);
    assert(h[3] == (len % 256) as u8);
    assert(len / 16777216 < 256);
}

/// A frame followed by anything starts with that frame.
pub proof fn lemma_frame_first(payload: Seq<u8>, tail: Seq<u8>)
    requires
        payload.len() <= MAX_PAYLOAD,
    ensures
        first_frame(frame(payload) + tail) == Some(payload),
        (frame(payload) + tail).skip(4 + payload.len() as int) == tail,
        frames(frame(payload) + tail) == seq![payload] + frames(tail),
        rest(frame(payload) + tail) == rest(tail),
{
    lemma_header_roundtrip(payload.len());
    let all = frame(payload) + tail;
    let h = header(payload.len());
    assert(all[0] == h[0] && all[1] == h[1] && all[2] == h[2] && all[3] == h[3]);
    assert(be32(all) == be32(h));
    assert(all.subrange(4, 4 + payload.len() as int) =~= payload);
    assert(all.skip(4 + payload.len() as int) =~= tail);
}

/// Appending a frame to a sequence of whole frames gives a sequence of
/// whole frames with that one more payload at the end.
pub proof fn lemma_append_frame(bytes: Seq<u8>, payload: Seq<u8>)
    requires
        well_framed(bytes),
        payload.len() <= MAX_PAYLOAD,
    ensures
        well_framed(bytes + frame(payload)),
        frames(bytes + frame(payload)) == frames(bytes).push(payload),
    decreases bytes.len(),
{
    let f = frame(payload);
    match first_frame(bytes) {
        None => {
            assert(bytes.len() == 0);
            assert(bytes + f =~= f + Seq::<u8>::empty());
            lemma_frame_first(payload, Seq::empty());
            assert(first_frame(Seq::<u8>::empty()) is None);
            assert(frames(bytes) =~= Seq::<Seq<u8>>::empty());
            assert(seq![payload] + Seq::<Seq<u8>>::empty() =~= frames(bytes).push(payload));
        },
        Some(head) => {
            let after = bytes.skip(4 + head.len() as int);
            let all = bytes + f;
            assert(all[0] == bytes[0] && all[1] == bytes[1] && all[2] == bytes[2] && all[3]
                == bytes[3]);
            assert(be32(all) == be32(bytes));
            assert(all.subrange(4, 4 + be32(all)) =~= head);
            assert(first_frame(all) == Some(head));
            assert(all.skip(4 + head.len() as int) =~= after + f);
            lemma_append_frame(after, payload);
            assert(seq![head] + frames(after).push(payload) =~= (seq![head] + frames(
                after,
            )).push(payload));
        },
    }
}

/// What stands at a position of a byte stream that has ended.
#[derive(Clone, Copy, Debug, PartialEq, Eq, Structural)]
pub enum Peek {
    /// A whole frame, whose payload is the bytes from `start` up to `end`.
    Frame { start: usize, end: usize },
    /// The start of a frame that is cut short, inside its length prefix or
    /// inside its payload.
    Truncated,
    /// Nothing: the stream ended between frames.
    End,
}

/// Reads the length that a header holds.
pub fn payload_len(prefix: &[u8]) -> (len: u32)
    requires
        prefix@.len() >= 4,
    ensures
        len == be32(prefix@),
{
    let b0: u32 = prefix[0] as u32;
    let b1: u32 = prefix[1] as u32;
    let b2: u32 = prefix[2] as u32;
    let b3: u32 = prefix[3] as u32;
    b0 * 16777216 + b1 * 65536 + b2 * 256 + b3
}

/// Tells what stands at `pos` in `input`.
pub fn peek(input: &[u8], pos: usize) -> (p: Peek)
    requires
        pos <= input@.len(),
    ensures
        match p {
            Peek::Frame { start, end } => start == pos + 4 && start <= end <= input@.len()
                && first_frame(input@.skip(pos as int)) == Some(
                input@.subrange(start as int, end as int),
            ) && input@.skip(pos as int).skip(4 + (end - start)) == input@.skip(end as int),
            Peek::Truncated => input@.len() - pos > 0 && first_frame(input@.skip(pos as int))
                is None,
            Peek::End => input@.len() == pos && first_frame(input@.skip(pos as int)) is None,
        },
{
    let ghost tail = input@.skip(pos as int);
    if input.len() == pos {
        return Peek::End;
    }
    if input.len() - pos < 4 {
        return Peek::Truncated;
    }
    let prefix = vstd::slice::slice_subrange(input, pos, pos + 4);
    let len = payload_len(prefix) as usize;
    proof {
        assert(prefix@[0] == tail[0] && prefix@[1] == tail[1] && prefix@[2] == tail[2]
            && prefix@[3] == tail[3]);
    }
    if input.len() - pos - 4 < len {
        return Peek::Truncated;
    }
    proof {
        assert(tail.subrange(4, 4 + len as int) =~= input@.subrange(pos + 4, pos + 4 + len));
        assert(tail.skip(4 + len as int) =~= input@.skip(pos + 4 + len));
    }
    Peek::Frame { start: pos + 4, end: pos + 4 + len }
}

/// Appends to `out` the frame that carries `payload`. A payload too long
/// for a frame is refused, and `out` is left as it was.
pub fn write_frame(payload: &[u8], out: &mut Vec<u8>) -> (ok: bool)
    ensures
        ok <==> payload@.len() <= MAX_PAYLOAD,
        ok ==> final(out)@ == old(out)@ + frame(payload@),
        !ok ==> final(out)@ == old(out)@,
{
    let len = payload.len();
    if len > MAX_PAYLOAD {
        return false;
    }
    out.push((len / 16777216) as u8);
    out.push(((len / 65536) % 256) as u8);
    out.push(((len / 256) % 256) as u8);
    out.push((len % 256) as u8);
    out.extend_from_slice(payload);
    assert(out@ =~= old(out)@ + frame(payload@));
    true
}

} // verus!
