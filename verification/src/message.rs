//! The message catalog: the closed set of request kinds, each paired with a
//! response kind of the same name, plus the `Exception` response kind used to
//! answer unrecognized input.
//!
//! A message body on the wire is a tag byte naming the kind followed by the
//! payload bytes. The payload's schema is opaque to this engine: a message is
//! its kind and its bytes.

use vstd::prelude::*;

verus! {

/// The kinds of request the engine understands.
#[derive(Clone, Copy, Debug, PartialEq, Eq, Structural)]
pub enum RequestKind {
    Info,
    SetOption,
    Query,
    CheckTx,
    InitChain,
    BeginBlock,
    DeliverTx,
    EndBlock,
    Commit,
    Flush,
    Echo,
}

/// The kinds of response the engine can send; every request kind has its
/// mirror here, and `Exception` answers unrecognized input.
#[derive(Clone, Copy, Debug, PartialEq, Eq, Structural)]
pub enum ResponseType {
    Info,
    SetOption,
    Query,
    CheckTx,
    InitChain,
    BeginBlock,
    DeliverTx,
    EndBlock,
    Commit,
    Flush,
    Echo,
    Exception,
}

/// The response kind that answers a request of kind `k`.
pub open spec fn spec_matching_response(k: RequestKind) -> ResponseType {
    match k {
        RequestKind::Info => ResponseType::Info,
        RequestKind::SetOption => ResponseType::SetOption,
        RequestKind::Query => ResponseType::Query,
        RequestKind::CheckTx => ResponseType::CheckTx,
        RequestKind::InitChain => ResponseType::InitChain,
        RequestKind::BeginBlock => ResponseType::BeginBlock,
        RequestKind::DeliverTx => ResponseType::DeliverTx,
        RequestKind::EndBlock => ResponseType::EndBlock,
        RequestKind::Commit => ResponseType::Commit,
        RequestKind::Flush => ResponseType::Flush,
        RequestKind::Echo => ResponseType::Echo,
    }
}

/// The response kind that answers a request of kind `k`.
pub fn matching_response(k: RequestKind) -> (r: ResponseType)
    ensures
        r == spec_matching_response(k),
{
    match k {
        RequestKind::Info => ResponseType::Info,
        RequestKind::SetOption => ResponseType::SetOption,
        RequestKind::Query => ResponseType::Query,
        RequestKind::CheckTx => ResponseType::CheckTx,
        RequestKind::InitChain => ResponseType::InitChain,
        RequestKind::BeginBlock => ResponseType::BeginBlock,
        RequestKind::DeliverTx => ResponseType::DeliverTx,
        RequestKind::EndBlock => ResponseType::EndBlock,
        RequestKind::Commit => ResponseType::Commit,
        RequestKind::Flush => ResponseType::Flush,
        RequestKind::Echo => ResponseType::Echo,
    }
}

/// The wire tag of a request kind.
pub open spec fn spec_request_tag(k: RequestKind) -> u8 {
    match k {
        RequestKind::Info => 1,
        RequestKind::SetOption => 2,
        RequestKind::Query => 3,
        RequestKind::CheckTx => 4,
        RequestKind::InitChain => 5,
        RequestKind::BeginBlock => 6,
        RequestKind::DeliverTx => 7,
        RequestKind::EndBlock => 8,
        RequestKind::Commit => 9,
        RequestKind::Flush => 10,
        RequestKind::Echo => 11,
    }
}

/// The request kind a wire tag names, if any.
pub open spec fn spec_request_kind_of_tag(t: u8) -> Option<RequestKind> {
    if t == 1 {
        Some(RequestKind::Info)
    } else if t == 2 {
        Some(RequestKind::SetOption)
    } else if t == 3 {
        Some(RequestKind::Query)
    } else if t == 4 {
        Some(RequestKind::CheckTx)
    } else if t == 5 {
        Some(RequestKind::InitChain)
    } else if t == 6 {
        Some(RequestKind::BeginBlock)
    } else if t == 7 {
        Some(RequestKind::DeliverTx)
    } else if t == 8 {
        Some(RequestKind::EndBlock)
    } else if t == 9 {
        Some(RequestKind::Commit)
    } else if t == 10 {
        Some(RequestKind::Flush)
    } else if t == 11 {
        Some(RequestKind::Echo)
    } else {
        None
    }
}

/// The wire tag of a response kind.
pub open spec fn spec_response_tag(k: ResponseType) -> u8 {
    match k {
        ResponseType::Info => 1,
        ResponseType::SetOption => 2,
        ResponseType::Query => 3,
        ResponseType::CheckTx => 4,
        ResponseType::InitChain => 5,
        ResponseType::BeginBlock => 6,
        ResponseType::DeliverTx => 7,
        ResponseType::EndBlock => 8,
        ResponseType::Commit => 9,
        ResponseType::Flush => 10,
        ResponseType::Echo => 11,
        ResponseType::Exception => 12,
    }
}

/// The response kind a wire tag names, if any.
pub open spec fn spec_response_kind_of_tag(t: u8) -> Option<ResponseType> {
    if 1 <= t <= 11 {
        match spec_request_kind_of_tag(t) {
            Some(k) => Some(spec_matching_response(k)),
            None => None,
        }
    } else if t == 12 {
        Some(ResponseType::Exception)
    } else {
        None
    }
}

/// A decoded request: its kind and its payload bytes.
#[derive(Debug, Clone, PartialEq, Eq)]
pub struct Request {
    pub kind: RequestKind,
    pub payload: Vec<u8>,
}

/// The mathematical value of a request.
pub ghost struct RequestView {
    pub kind: RequestKind,
    pub payload: Seq<u8>,
}

impl View for Request {
    type V = RequestView;

    open spec fn view(&self) -> RequestView {
        RequestView { kind: self.kind, payload: self.payload@ }
    }
}

/// A response: its kind and its payload bytes.
#[derive(Debug, Clone, PartialEq, Eq)]
pub struct Response {
    pub kind: ResponseType,
    pub payload: Vec<u8>,
}

/// The mathematical value of a response.
pub ghost struct ResponseView {
    pub kind: ResponseType,
    pub payload: Seq<u8>,
}

impl View for Response {
    type V = ResponseView;

    open spec fn view(&self) -> ResponseView {
        ResponseView { kind: self.kind, payload: self.payload@ }
    }
}

impl Request {
    /// A request of kind `kind` carrying `payload`.
    pub fn new(kind: RequestKind, payload: Vec<u8>) -> (r: Request)
        ensures
            r@ == (RequestView { kind, payload: payload@ }),
    {
        Request { kind, payload }
    }
}

impl Response {
    /// A response of kind `kind` carrying `payload`.
    pub fn new(kind: ResponseType, payload: Vec<u8>) -> (r: Response)
        ensures
            r@ == (ResponseView { kind, payload: payload@ }),
    {
        Response { kind, payload }
    }
}

/// What the body of a frame holds: a request of a catalog kind, or bytes
/// whose tag lies outside the catalog.
#[derive(Debug, PartialEq, Eq)]
pub enum RawRequest {
    Known(Request),
    Unknown,
}

/// The mathematical value of a frame body.
pub ghost enum RawRequestView {
    Known(RequestView),
    Unknown,
}

impl View for RawRequest {
    type V = RawRequestView;

    open spec fn view(&self) -> RawRequestView {
        match self {
            RawRequest::Known(m) => RawRequestView::Known(m@),
            RawRequest::Unknown => RawRequestView::Unknown,
        }
    }
}

/// The body bytes of a request: its tag, then its payload.
pub open spec fn spec_request_body(m: RequestView) -> Seq<u8> {
    seq![spec_request_tag(m.kind)] + m.payload
}

/// The body bytes of a response: its tag, then its payload.
pub open spec fn spec_response_body(m: ResponseView) -> Seq<u8> {
    seq![spec_response_tag(m.kind)] + m.payload
}

/// What body bytes `b` hold: a request whose tag is in the catalog, or
/// unrecognized input (an empty body, or a tag outside the catalog).
pub open spec fn spec_decode_request_body(b: Seq<u8>) -> RawRequestView {
    if b.len() >= 1 && spec_request_kind_of_tag(b[0]) is Some {
        RawRequestView::Known(
            RequestView {
                kind: spec_request_kind_of_tag(b[0]) -> 0,
                payload: b.skip(1),
            },
        )
    } else {
        RawRequestView::Unknown
    }
}

/// What body bytes `b` hold on the response side, if the tag is known.
pub open spec fn spec_decode_response_body(b: Seq<u8>) -> Option<ResponseView> {
    if b.len() >= 1 && spec_response_kind_of_tag(b[0]) is Some {
        Some(
            ResponseView {
                kind: spec_response_kind_of_tag(b[0]) -> 0,
                payload: b.skip(1),
            },
        )
    } else {
        None
    }
}

/// The wire tag of a request kind.
pub fn request_tag(k: RequestKind) -> (r: u8)
    ensures
        r == spec_request_tag(k),
{
    match k {
        RequestKind::Info => 1,
        RequestKind::SetOption => 2,
        RequestKind::Query => 3,
        RequestKind::CheckTx => 4,
        RequestKind::InitChain => 5,
        RequestKind::BeginBlock => 6,
        RequestKind::DeliverTx => 7,
        RequestKind::EndBlock => 8,
        RequestKind::Commit => 9,
        RequestKind::Flush => 10,
        RequestKind::Echo => 11,
    }
}

/// The request kind a wire tag names, if any.
pub fn request_kind_of_tag(t: u8) -> (r: Option<RequestKind>)
    ensures
        r == spec_request_kind_of_tag(t),
{
    if t == 1 {
        Some(RequestKind::Info)
    } else if t == 2 {
        Some(RequestKind::SetOption)
    } else if t == 3 {
        Some(RequestKind::Query)
    } else if t == 4 {
        Some(RequestKind::CheckTx)
    } else if t == 5 {
        Some(RequestKind::InitChain)
    } else if t == 6 {
        Some(RequestKind::BeginBlock)
    } else if t == 7 {
        Some(RequestKind::DeliverTx)
    } else if t == 8 {
        Some(RequestKind::EndBlock)
    } else if t == 9 {
        Some(RequestKind::Commit)
    } else if t == 10 {
        Some(RequestKind::Flush)
    } else if t == 11 {
        Some(RequestKind::Echo)
    } else {
        None
    }
}

/// The wire tag of a response kind.
pub fn response_tag(k: ResponseType) -> (r: u8)
    ensures
        r == spec_response_tag(k),
{
    match k {
        ResponseType::Info => 1,
        ResponseType::SetOption => 2,
        ResponseType::Query => 3,
        ResponseType::CheckTx => 4,
        ResponseType::InitChain => 5,
        ResponseType::BeginBlock => 6,
        ResponseType::DeliverTx => 7,
        ResponseType::EndBlock => 8,
        ResponseType::Commit => 9,
        ResponseType::Flush => 10,
        ResponseType::Echo => 11,
        ResponseType::Exception => 12,
    }
}

/// The response kind a wire tag names, if any.
pub fn response_kind_of_tag(t: u8) -> (r: Option<ResponseType>)
    ensures
        r == spec_response_kind_of_tag(t),
{
    if t == 12 {
        Some(ResponseType::Exception)
    } else {
        match request_kind_of_tag(t) {
            Some(k) => Some(matching_response(k)),
            None => None,
        }
    }
}

/// Reads a frame body as a request.
pub fn decode_request_body(b: &[u8]) -> (r: RawRequest)
    ensures
        r@ == spec_decode_request_body(b@),
{
    if b.len() == 0 {
        return RawRequest::Unknown;
    }
    let tag = b[0];
    match request_kind_of_tag(tag) {
        None => RawRequest::Unknown,
        Some(k) => {
            let payload = vstd::slice::slice_to_vec(
                vstd::slice::slice_subrange(b, 1, b.len()),
            );
            assert(payload@ =~= b@.skip(1));
            RawRequest::Known(Request { kind: k, payload })
        },
    }
}

/// Reads a frame body as a response, if its tag is in the catalog.
pub fn decode_response_body(b: &[u8]) -> (r: Option<Response>)
    ensures
        match r {
            Some(m) => spec_decode_response_body(b@) == Some(m@),
            None => spec_decode_response_body(b@) is None,
        },
{
    if b.len() == 0 {
        return None;
    }
    let tag = b[0];
    match response_kind_of_tag(tag) {
        None => None,
        Some(k) => {
            let payload = vstd::slice::slice_to_vec(
                vstd::slice::slice_subrange(b, 1, b.len()),
            );
            assert(payload@ =~= b@.skip(1));
            Some(Response { kind: k, payload })
        },
    }
}

/// A frame body whose tag lies outside the catalog — or an empty body —
/// reads as unrecognized input, never as a catalog request; the frame
/// itself is still well-formed, so the connection stays open and the engine
/// answers it with an exception.
pub proof fn lemma_unknown_tag_body(b: Seq<u8>)
    requires
        b.len() == 0 || spec_request_kind_of_tag(b[0]) is None,
    ensures
        spec_decode_request_body(b) is Unknown,
{
}

/// Encoding a request and reading the body back yields the request.
pub proof fn lemma_request_body_roundtrip(m: RequestView)
    ensures
        spec_decode_request_body(spec_request_body(m)) == RawRequestView::Known(m),
{
    let b = spec_request_body(m);
    assert(b[0] == spec_request_tag(m.kind));
    assert(spec_request_kind_of_tag(spec_request_tag(m.kind)) == Some(m.kind));
    assert(b.skip(1) =~= m.payload);
}

/// Encoding a response and reading the body back yields the response.
pub proof fn lemma_response_body_roundtrip(m: ResponseView)
    ensures
        spec_decode_response_body(spec_response_body(m)) == Some(m),
{
    let b = spec_response_body(m);
    assert(b[0] == spec_response_tag(m.kind));
    assert(spec_response_kind_of_tag(spec_response_tag(m.kind)) == Some(m.kind));
    assert(b.skip(1) =~= m.payload);
}

} // verus!
