//! The per-connection state machine: framing plus the one-request-in-flight
//! discipline.
//!
//! A connection reads bytes into its buffer, and only when no request of its
//! own is outstanding does it decode the next frame and submit it. It then
//! waits for that request's answer before decoding again, so on one
//! connection a response is always written before the next request is read:
//! responses leave in exactly the order their requests arrived, whatever
//! order the application completes handlers in.

use vstd::prelude::*;

use crate::codec::{
    spec_decode_frame, spec_encode_response, valid_response, ABCICodec, FrameSpec, RequestDecode,
};
use crate::message::{spec_decode_request_body, RawRequest, RawRequestView, Response, ResponseView};

verus! {

/// What polling a connection for its next request yielded.
#[derive(Debug, PartialEq, Eq)]
pub enum ConnectionPoll {
    /// A whole frame arrived: submit this to the actor, then await its
    /// answer.
    Submit(RawRequest),
    /// No whole frame is buffered yet.
    NeedMore,
    /// The frame's length prefix is invalid: the connection must close.
    /// Other connections are unaffected.
    Failed,
}

/// One live transport connection: its read buffer, whether a request of its
/// own is outstanding, and the history of what it submitted and answered.
pub struct Connection {
    codec: ABCICodec,
    buffer: Vec<u8>,
    awaiting: bool,
    failed: bool,
    submitted: Ghost<Seq<RawRequestView>>,
    answered: Ghost<Seq<(RawRequestView, ResponseView)>>,
}

impl Connection {
    /// Every request this connection has submitted to the actor, oldest
    /// first.
    pub closed spec fn submitted(&self) -> Seq<RawRequestView> {
        self.submitted@
    }

    /// Every response this connection has written to the wire, oldest first,
    /// each paired with the request it answers.
    pub closed spec fn answered(&self) -> Seq<(RawRequestView, ResponseView)> {
        self.answered@
    }

    /// Whether a submitted request is still unanswered.
    pub closed spec fn spec_awaiting(&self) -> bool {
        self.awaiting
    }

    /// Whether a framing error closed the connection.
    pub closed spec fn spec_failed(&self) -> bool {
        self.failed
    }

    /// The bytes read off the transport and not yet consumed.
    pub closed spec fn buffered(&self) -> Seq<u8> {
        self.buffer@
    }

    /// The one-request-in-flight discipline: every answer is paired with the
    /// request at its own index, and at most the latest submitted request is
    /// unanswered — exactly one when one is outstanding.
    pub open spec fn wf(&self) -> bool {
        &&& self.submitted().len() == self.answered().len() + (if self.spec_awaiting() {
            1int
        } else {
            0int
        })
        &&& forall|i: int|
            0 <= i < self.answered().len() ==> self.answered()[i].0 == self.submitted()[i]
    }

    /// A fresh connection with nothing buffered and nothing in flight.
    pub fn new() -> (c: Connection)
        ensures
            c.wf(),
            c.submitted().len() == 0,
            c.answered().len() == 0,
            !c.spec_awaiting(),
            !c.spec_failed(),
            c.buffered().len() == 0,
    {
        Connection {
            codec: ABCICodec::new(),
            buffer: Vec::new(),
            awaiting: false,
            failed: false,
            submitted: Ghost(Seq::empty()),
            answered: Ghost(Seq::empty()),
        }
    }

    /// Whether a submitted request is still unanswered.
    pub fn is_awaiting(&self) -> (b: bool)
        ensures
            b == self.spec_awaiting(),
    {
        self.awaiting
    }

    /// Whether a framing error closed the connection.
    pub fn has_failed(&self) -> (b: bool)
        ensures
            b == self.spec_failed(),
    {
        self.failed
    }

    /// Bytes arrived from the transport, in whatever chunk the transport
    /// produced them.
    pub fn feed(&mut self, chunk: &[u8])
        ensures
            final(self).buffered() == old(self).buffered() + chunk@,
            final(self).submitted() == old(self).submitted(),
            final(self).answered() == old(self).answered(),
            final(self).spec_awaiting() == old(self).spec_awaiting(),
            final(self).spec_failed() == old(self).spec_failed(),
            old(self).wf() ==> final(self).wf(),
    {
        self.buffer.extend_from_slice(chunk);
        assert(self.buffer@ =~= old(self).buffered() + chunk@);
    }

    /// Tries to decode the next request off the buffer. Only callable while
    /// no request is outstanding: the next frame is not even decoded until
    /// the previous answer has been written.
    pub fn poll(&mut self) -> (r: ConnectionPoll)
        requires
            old(self).wf(),
            !old(self).spec_awaiting(),
            !old(self).spec_failed(),
        ensures
            final(self).wf(),
            final(self).answered() == old(self).answered(),
            match spec_decode_frame(old(self).buffered()) {
                FrameSpec::Frame { body, used } => {
                    &&& r matches ConnectionPoll::Submit(raw) && raw@ == spec_decode_request_body(
                        body,
                    )
                    &&& final(self).buffered() == old(self).buffered().skip(used)
                    &&& final(self).submitted() == old(self).submitted().push(
                        spec_decode_request_body(body),
                    )
                    &&& final(self).spec_awaiting()
                    &&& !final(self).spec_failed()
                },
                FrameSpec::Incomplete => {
                    &&& r is NeedMore
                    &&& final(self).buffered() == old(self).buffered()
                    &&& final(self).submitted() == old(self).submitted()
                    &&& !final(self).spec_awaiting()
                    &&& !final(self).spec_failed()
                },
                FrameSpec::Malformed => {
                    &&& r is Failed
                    &&& final(self).spec_failed()
                    &&& final(self).submitted() == old(self).submitted()
                    &&& !final(self).spec_awaiting()
                },
            },
    {
        let d = self.codec.decode_request(&mut self.buffer);
        match d {
            RequestDecode::Message(raw) => {
                self.awaiting = true;
                self.submitted = Ghost(self.submitted@.push(raw@));
                ConnectionPoll::Submit(raw)
            },
            RequestDecode::Incomplete => ConnectionPoll::NeedMore,
            RequestDecode::Malformed => {
                self.failed = true;
                ConnectionPoll::Failed
            },
        }
    }

    /// The actor answered the one outstanding request: encodes the response
    /// for the wire, records the pairing, and resumes reading. The returned
    /// bytes are what the transport writes back.
    pub fn reply(&mut self, response: &Response) -> (out: Vec<u8>)
        requires
            old(self).wf(),
            old(self).spec_awaiting(),
            !old(self).spec_failed(),
            valid_response(response@),
        ensures
            final(self).wf(),
            out@ == spec_encode_response(response@),
            final(self).submitted() == old(self).submitted(),
            final(self).answered() == old(self).answered().push(
                (old(self).submitted().last(), response@),
            ),
            !final(self).spec_awaiting(),
            !final(self).spec_failed(),
            final(self).buffered() == old(self).buffered(),
    {
        let mut out: Vec<u8> = Vec::new();
        self.codec.encode_response(response, &mut out);
        self.awaiting = false;
        self.answered = Ghost(self.answered@.push((self.submitted@.last(), response@)));
        out
    }
}

/// Per-connection ordering: on any well-formed connection the `i`-th
/// response written answers the `i`-th request submitted, and never is more
/// than one request unanswered — however the application interleaves or
/// reorders its handlers' completions, the wire sees answers in request
/// order.
pub proof fn lemma_per_connection_ordering(c: &Connection)
    requires
        c.wf(),
    ensures
        c.answered().len() <= c.submitted().len() <= c.answered().len() + 1,
        forall|i: int| 0 <= i < c.answered().len() ==> c.answered()[i].0 == c.submitted()[i],
{
}

} // verus!
