//! Completion handles and the exit signal.
//!
//! A [`Responder`] is a single-use token bound to exactly one expected
//! response kind: it is consumed by its one `respond`, and a response of any
//! other kind is rejected without a side effect.

use vstd::prelude::*;

use crate::channel::send;
use crate::message::{Response, ResponseType};

verus! {

/// The value-less token exchanged over the two shutdown channels: one from
/// the engine to the application, one from the application to the engine.
/// Either delivery is terminal.
#[derive(Debug, PartialEq, Eq, Structural)]
pub struct ExitSignal;

/// Handed to the application on start-up; lets it ask the engine to shut
/// down. Clones share the one exit channel: only the first signal the
/// engine receives matters.
#[derive(Clone, Debug)]
pub struct Exiter {
    sender: crossbeam_channel::Sender<ExitSignal>,
}

impl Exiter {
    /// An exit handle sending on `sender`.
    pub fn new(sender: crossbeam_channel::Sender<ExitSignal>) -> Exiter {
        Exiter { sender }
    }

    /// Asks the engine to shut down. Only the first signal the engine
    /// receives is observed; whether this one arrives depends on whether the
    /// engine still listens, so nothing is promised of the outcome.
    pub fn exit(&self) -> Result<(), ()> {
        match send(&self.sender, ExitSignal) {
            Ok(()) => Ok(()),
            Err(_) => Err(()),
        }
    }
}

/// The one-shot destination for the response answering one request. Taking
/// `self` by value, `deliver` can be called at most once: at most one
/// response ever reaches the waiting connection.
#[derive(Debug)]
pub struct ReplyHandle {
    sender: crossbeam_channel::Sender<Response>,
}

impl ReplyHandle {
    /// A reply handle sending on `sender`.
    pub fn new(sender: crossbeam_channel::Sender<Response>) -> ReplyHandle {
        ReplyHandle { sender }
    }

    /// Hands the response to the waiting connection, consuming the handle.
    /// Fails only when the connection is gone, which abandons the write.
    pub fn deliver(self, response: Response) -> Result<(), ()> {
        match send(&self.sender, response) {
            Ok(()) => Ok(()),
            Err(_) => Err(()),
        }
    }
}

/// Why a `respond` call failed.
#[derive(Debug, PartialEq, Eq, Structural)]
pub enum RespondError {
    /// The response's kind is not the kind the responder was bound to;
    /// nothing was forwarded.
    KindMismatch,
    /// The protocol actor is gone; the response was dropped.
    Disconnected,
}

/// A single-use completion handle bound to exactly one expected response
/// kind and to the reply channel of the request it answers.
#[derive(Debug)]
pub struct Responder {
    response_sender: crossbeam_channel::Sender<(Response, ReplyHandle)>,
    reply: ReplyHandle,
    response_type: ResponseType,
}

impl Responder {
    /// The response kind this responder accepts.
    pub closed spec fn expected(&self) -> ResponseType {
        self.response_type
    }

    /// A responder that forwards to `response_sender`, answers on `reply`,
    /// and accepts only responses of kind `response_type`.
    pub fn new(
        response_sender: crossbeam_channel::Sender<(Response, ReplyHandle)>,
        reply: ReplyHandle,
        response_type: ResponseType,
    ) -> (r: Responder)
        ensures
            r.expected() == response_type,
    {
        Responder { response_sender, reply, response_type }
    }

    /// Whether `response` is of the kind this responder was bound to.
    fn check_response(&self, response: &Response) -> (r: bool)
        ensures
            r == (response@.kind == self.expected()),
    {
        response.kind == self.response_type
    }

    /// Responds with `response`, consuming the responder. A response of the
    /// wrong kind is rejected without a side effect; one of the right kind
    /// is forwarded toward the waiting connection, failing only when the
    /// protocol actor is gone.
    pub fn respond(self, response: Response) -> (r: Result<(), RespondError>)
        ensures
            (r == Err::<(), RespondError>(RespondError::KindMismatch)) <==> (response@.kind
                != self.expected()),
            r is Ok ==> response@.kind == self.expected(),
    {
        if !self.check_response(&response) {
            return Err(RespondError::KindMismatch);
        }
        match send(&self.response_sender, (response, self.reply)) {
            Ok(()) => Ok(()),
            Err(_) => Err(RespondError::Disconnected),
        }
    }
}

} // verus!
