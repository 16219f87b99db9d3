//! The frame codec: on the wire, every message travels as a varint byte
//! count followed by exactly that many body bytes.
//!
//! Decoding off a growing buffer never consumes anything until a whole frame
//! is present; a length prefix that is not a minimal varint, or that exceeds
//! [`MAX_BODY_LEN`], is malformed and fatal for the owning connection.

use vstd::prelude::*;

use crate::message::{
    spec_decode_request_body, spec_request_body, spec_response_body, spec_decode_response_body,
    decode_request_body, decode_response_body, request_tag, response_tag, RawRequest,
    RawRequestView, Request, RequestView, Response, ResponseView,
};
use crate::varint::{read_varint, varint_bytes, varint_decode, write_varint, VarintRead, VarintSpec};

verus! {

/// The largest frame body the codec accepts or emits, in bytes.
pub const MAX_BODY_LEN: u64 = 0x0400_0000;

/// The frame carrying `body`: a varint byte count, then the body.
pub open spec fn spec_frame_bytes(body: Seq<u8>) -> Seq<u8> {
    varint_bytes(body.len() as u64) + body
}

/// What reading a frame off the front of a buffer yields.
pub ghost enum FrameSpec {
    /// A whole frame is present: its body, and how many buffer bytes it
    /// spans.
    Frame { body: Seq<u8>, used: int },
    /// More bytes must arrive first.
    Incomplete,
    /// The length prefix is not a minimal varint, or declares a body over
    /// [`MAX_BODY_LEN`]; fatal for the connection.
    Malformed,
}

/// Reads a frame off the front of `b` without consuming anything.
pub open spec fn spec_decode_frame(b: Seq<u8>) -> FrameSpec {
    match varint_decode(b) {
        VarintSpec::Malformed => FrameSpec::Malformed,
        VarintSpec::Incomplete => FrameSpec::Incomplete,
        VarintSpec::Value { n, len } => {
            if n > MAX_BODY_LEN {
                FrameSpec::Malformed
            } else if b.len() < len + n {
                FrameSpec::Incomplete
            } else {
                FrameSpec::Frame { body: b.subrange(len, len + n as int), used: len + n as int }
            }
        },
    }
}

/// The wire bytes of a request.
pub open spec fn spec_encode_request(m: RequestView) -> Seq<u8> {
    spec_frame_bytes(spec_request_body(m))
}

/// The wire bytes of a response.
pub open spec fn spec_encode_response(m: ResponseView) -> Seq<u8> {
    spec_frame_bytes(spec_response_body(m))
}

/// A request whose body fits in a frame.
pub open spec fn valid_request(m: RequestView) -> bool {
    m.payload.len() + 1 <= MAX_BODY_LEN
}

/// A response whose body fits in a frame.
pub open spec fn valid_response(m: ResponseView) -> bool {
    m.payload.len() + 1 <= MAX_BODY_LEN
}

/// Appends each byte of `src` to `out`.
fn push_bytes(out: &mut Vec<u8>, src: &[u8])
    ensures
        final(out)@ == old(out)@ + src@,
{
    let ghost orig = out@;
    let mut i: usize = 0;
    while i < src.len()
        invariant
            i <= src@.len(),
            out@ == orig + src@.take(i as int),
        decreases src@.len() - i,
    {
        out.push(src[i]);
        i = i + 1;
        assert(out@ =~= orig + src@.take(i as int));
    }
    assert(src@.take(src@.len() as int) =~= src@);
}

/// Round-trip law: a buffer that starts with the encoding of a valid request
/// decodes to exactly that request, consuming exactly its frame.
pub proof fn lemma_request_roundtrip(m: RequestView, rest: Seq<u8>)
    requires
        valid_request(m),
    ensures
        spec_decode_frame(spec_encode_request(m) + rest) == (FrameSpec::Frame {
            body: spec_request_body(m),
            used: spec_encode_request(m).len() as int,
        }),
        spec_decode_request_body(spec_request_body(m)) == RawRequestView::Known(m),
{
    lemma_frame_roundtrip(spec_request_body(m), rest);
    crate::message::lemma_request_body_roundtrip(m);
}

/// Round-trip law: a buffer that starts with the encoding of a valid
/// response decodes to exactly that response, consuming exactly its frame.
pub proof fn lemma_response_roundtrip(m: ResponseView, rest: Seq<u8>)
    requires
        valid_response(m),
    ensures
        spec_decode_frame(spec_encode_response(m) + rest) == (FrameSpec::Frame {
            body: spec_response_body(m),
            used: spec_encode_response(m).len() as int,
        }),
        spec_decode_response_body(spec_response_body(m)) == Some(m),
{
    lemma_frame_roundtrip(spec_response_body(m), rest);
    crate::message::lemma_response_body_roundtrip(m);
}

/// A buffer that starts with the frame carrying `body` decodes to that
/// frame, whatever the body holds — in particular a body whose tag lies
/// outside the catalog is still consumed as one frame, so the connection
/// stays open and the engine can answer it with an exception.
pub proof fn lemma_frame_roundtrip(body: Seq<u8>, rest: Seq<u8>)
    requires
        body.len() <= MAX_BODY_LEN,
    ensures
        spec_decode_frame(spec_frame_bytes(body) + rest) == (FrameSpec::Frame {
            body,
            used: spec_frame_bytes(body).len() as int,
        }),
{
    let n = body.len() as u64;
    let vb = varint_bytes(n);
    crate::varint::lemma_varint_roundtrip(n, body + rest);
    assert(spec_frame_bytes(body) + rest =~= vb + (body + rest));
    let b = vb + (body + rest);
    assert(b.subrange(vb.len() as int, vb.len() + n as int) =~= body);
}

/// Partial-frame law: every strict prefix of a valid frame decodes to
/// `Incomplete`, and the whole frame decodes to its message; combined with
/// `decode_request`'s contract, a decode that sees only part of a frame
/// consumes nothing, and feeding the remainder yields the original message.
pub proof fn lemma_frame_split(body: Seq<u8>, i: int)
    requires
        body.len() <= MAX_BODY_LEN,
        0 <= i < spec_frame_bytes(body).len(),
    ensures
        spec_decode_frame(spec_frame_bytes(body).take(i)) == FrameSpec::Incomplete,
        spec_decode_frame(spec_frame_bytes(body)) == (FrameSpec::Frame {
            body,
            used: spec_frame_bytes(body).len() as int,
        }),
{
    let n = body.len() as u64;
    let vb = varint_bytes(n);
    let fb = spec_frame_bytes(body);
    if i < vb.len() {
        crate::varint::lemma_varint_prefix(n, i);
        assert(fb.take(i) =~= vb.take(i));
    } else {
        crate::varint::lemma_varint_roundtrip(n, body.take(i - vb.len()));
        assert(fb.take(i) =~= vb + body.take(i - vb.len()));
    }
    crate::varint::lemma_varint_roundtrip(n, body);
    assert(fb.subrange(vb.len() as int, vb.len() + n as int) =~= body);
}

/// What reading a frame-wrapped request off a buffer yielded.
#[derive(Debug, PartialEq, Eq)]
pub enum RequestDecode {
    /// A whole frame arrived and was consumed; its body, read as a request.
    Message(RawRequest),
    /// More bytes must arrive first; nothing was consumed.
    Incomplete,
    /// The length prefix is invalid; nothing was consumed, and the
    /// connection must close.
    Malformed,
}

/// What reading a frame-wrapped response off a buffer yielded.
#[derive(Debug, PartialEq, Eq)]
pub enum ResponseDecode {
    /// A whole frame arrived and was consumed; its body, read as a response.
    Message(Response),
    /// A whole frame arrived and was consumed, but its tag is outside the
    /// catalog.
    UnknownKind,
    /// More bytes must arrive first; nothing was consumed.
    Incomplete,
    /// The length prefix is invalid; nothing was consumed.
    Malformed,
}

/// Stateless translator between byte buffers and discrete messages.
#[derive(Debug)]
pub struct ABCICodec;

impl ABCICodec {
    /// A codec.
    pub fn new() -> (c: ABCICodec) {
        ABCICodec
    }

    /// Appends the frame carrying `m` to `out`.
    pub fn encode_request(&self, m: &Request, out: &mut Vec<u8>)
        requires
            valid_request(m@),
        ensures
            final(out)@ == old(out)@ + spec_encode_request(m@),
    {
        let blen: u64 = (m.payload.len() as u64) + 1;
        write_varint(blen, out);
        out.push(request_tag(m.kind));
        push_bytes(out, m.payload.as_slice());
        assert(out@ =~= old(out)@ + spec_encode_request(m@));
    }

    /// Appends the frame carrying `m` to `out`.
    pub fn encode_response(&self, m: &Response, out: &mut Vec<u8>)
        requires
            valid_response(m@),
        ensures
            final(out)@ == old(out)@ + spec_encode_response(m@),
    {
        let blen: u64 = (m.payload.len() as u64) + 1;
        write_varint(blen, out);
        out.push(response_tag(m.kind));
        push_bytes(out, m.payload.as_slice());
        assert(out@ =~= old(out)@ + spec_encode_response(m@));
    }

    /// Reads one request frame off the front of `buf`, consuming it exactly
    /// when a whole frame is present.
    pub fn decode_request(&self, buf: &mut Vec<u8>) -> (r: RequestDecode)
        ensures
            match spec_decode_frame(old(buf)@) {
                FrameSpec::Frame { body, used } => {
                    &&& final(buf)@ == old(buf)@.skip(used)
                    &&& r matches RequestDecode::Message(raw) && raw@ == spec_decode_request_body(
                        body,
                    )
                },
                FrameSpec::Incomplete => r is Incomplete && final(buf)@ == old(buf)@,
                FrameSpec::Malformed => r is Malformed && final(buf)@ == old(buf)@,
            },
    {
        let vr = read_varint(buf.as_slice());
        match vr {
            VarintRead::Incomplete => RequestDecode::Incomplete,
            VarintRead::Malformed => RequestDecode::Malformed,
            VarintRead::Value { n, len } => {
                if n > MAX_BODY_LEN {
                    return RequestDecode::Malformed;
                }
                let total: usize = len + (n as usize);
                if buf.len() < total {
                    return RequestDecode::Incomplete;
                }
                let body = vstd::slice::slice_subrange(buf.as_slice(), len, total);
                let raw = decode_request_body(body);
                let tail = buf.split_off(total);
                *buf = tail;
                RequestDecode::Message(raw)
            },
        }
    }

    /// Reads one response frame off the front of `buf`, consuming it exactly
    /// when a whole frame is present.
    pub fn decode_response(&self, buf: &mut Vec<u8>) -> (r: ResponseDecode)
        ensures
            match spec_decode_frame(old(buf)@) {
                FrameSpec::Frame { body, used } => {
                    &&& final(buf)@ == old(buf)@.skip(used)
                    &&& match spec_decode_response_body(body) {
                        Some(v) => r matches ResponseDecode::Message(m) && m@ == v,
                        None => r is UnknownKind,
                    }
                },
                FrameSpec::Incomplete => r is Incomplete && final(buf)@ == old(buf)@,
                FrameSpec::Malformed => r is Malformed && final(buf)@ == old(buf)@,
            },
    {
        let vr = read_varint(buf.as_slice());
        match vr {
            VarintRead::Incomplete => ResponseDecode::Incomplete,
            VarintRead::Malformed => ResponseDecode::Malformed,
            VarintRead::Value { n, len } => {
                if n > MAX_BODY_LEN {
                    return ResponseDecode::Malformed;
                }
                let total: usize = len + (n as usize);
                if buf.len() < total {
                    return ResponseDecode::Incomplete;
                }
                let body = vstd::slice::slice_subrange(buf.as_slice(), len, total);
                let m = decode_response_body(body);
                let tail = buf.split_off(total);
                *buf = tail;
                match m {
                    Some(m) => ResponseDecode::Message(m),
                    None => ResponseDecode::UnknownKind,
                }
            },
        }
    }
}

} // verus!
