//! The protocol actor: the single owner of the application instance.
//!
//! The actor is a state machine over `Starting -> Running -> Draining ->
//! Stopped`. While running, it consumes one [`Event`] at a time — an exit
//! signal, an inbound request, a completion from the application, or the
//! closing of the inbound channels — and dispatches it; the loop that waits
//! on the three sources hands each event to [`Protocol::step`].

use vstd::prelude::*;

use crate::channel::{channel, send};
use crate::message::{
    matching_response, RawRequest, Request, RequestKind, Response, ResponseType,
};
use crate::responder::{ExitSignal, Exiter, ReplyHandle, Responder, RespondError};

verus! {

/// The capability set the embedding program implements: one handler per
/// data-bearing request kind, each given the decoded payload and a
/// [`Responder`] bound to the matching response kind. Every default handler
/// immediately responds with a zero-valued response of the matching kind, so
/// an application implementing nothing is a valid, inert peer. `Flush` and
/// `Echo` are answered by the engine itself.
pub trait Application: Sized {
    /// Called exactly once, before any request is dispatched, handing the
    /// application a capability to request shutdown.
    fn start(&mut self, _exiter: Exiter) {
    }

    /// Called exactly once, during shutdown; no handler is called after it.
    fn exit(&mut self) {
    }

    /// Answers the engine's question about the application's last known
    /// state.
    fn info(&mut self, _payload: Vec<u8>, responder: Responder)
        requires
            responder.expected() == ResponseType::Info,
    {
        let _ = responder.respond(Response::new(ResponseType::Info, Vec::new()));
    }

    /// Sets an option on the application.
    fn set_option(&mut self, _payload: Vec<u8>, responder: Responder)
        requires
            responder.expected() == ResponseType::SetOption,
    {
        let _ = responder.respond(Response::new(ResponseType::SetOption, Vec::new()));
    }

    /// Queries the application's state.
    fn query(&mut self, _payload: Vec<u8>, responder: Responder)
        requires
            responder.expected() == ResponseType::Query,
    {
        let _ = responder.respond(Response::new(ResponseType::Query, Vec::new()));
    }

    /// Validates a transaction for admission.
    fn check_tx(&mut self, _payload: Vec<u8>, responder: Responder)
        requires
            responder.expected() == ResponseType::CheckTx,
    {
        let _ = responder.respond(Response::new(ResponseType::CheckTx, Vec::new()));
    }

    /// Establishes the initial state.
    fn init_chain(&mut self, _payload: Vec<u8>, responder: Responder)
        requires
            responder.expected() == ResponseType::InitChain,
    {
        let _ = responder.respond(Response::new(ResponseType::InitChain, Vec::new()));
    }

    /// Opens a block of transactions.
    fn begin_block(&mut self, _payload: Vec<u8>, responder: Responder)
        requires
            responder.expected() == ResponseType::BeginBlock,
    {
        let _ = responder.respond(Response::new(ResponseType::BeginBlock, Vec::new()));
    }

    /// Applies one transaction.
    fn deliver_tx(&mut self, _payload: Vec<u8>, responder: Responder)
        requires
            responder.expected() == ResponseType::DeliverTx,
    {
        let _ = responder.respond(Response::new(ResponseType::DeliverTx, Vec::new()));
    }

    /// Closes a block of transactions.
    fn end_block(&mut self, _payload: Vec<u8>, responder: Responder)
        requires
            responder.expected() == ResponseType::EndBlock,
    {
        let _ = responder.respond(Response::new(ResponseType::EndBlock, Vec::new()));
    }

    /// Commits the block with the application's latest state.
    fn commit(&mut self, _payload: Vec<u8>, responder: Responder)
        requires
            responder.expected() == ResponseType::Commit,
    {
        let _ = responder.respond(Response::new(ResponseType::Commit, Vec::new()));
    }
}

/// Where the actor stands in its lifecycle.
#[derive(Clone, Copy, Debug, PartialEq, Eq, Structural)]
pub enum Phase {
    /// Constructed; the application has not been started.
    Starting,
    /// Serving events.
    Running,
    /// An exit signal fired or the inbound channels closed; no further
    /// events are served.
    Draining,
    /// The application was told to exit; terminal.
    Stopped,
}

/// One thing the running actor can wait on.
pub enum Event {
    /// An exit signal from the application.
    Exit,
    /// A completion produced by a handler, with the reply channel of the
    /// request it answers.
    Application(Response, ReplyHandle),
    /// The next inbound request from some connection, with a fresh one-shot
    /// reply channel.
    Network(RawRequest, ReplyHandle),
    /// No connection remains and none can arrive.
    NetworkClosed,
}

/// The three sources the running actor waits on.
#[derive(Clone, Copy, Debug, PartialEq, Eq, Structural)]
pub enum Source {
    /// The exit channel.
    Exit,
    /// The completions channel.
    Application,
    /// The inbound request channel.
    Network,
}

/// Which ready source the actor serves next: an exit signal takes precedence
/// over either other source; between a ready completion and a ready inbound
/// request, completions are served first (either order would do, and this
/// one is fixed so the choice is deterministic).
pub fn choose_source(exit_ready: bool, application_ready: bool, network_ready: bool) -> (r: Option<
    Source,
>)
    ensures
        r == if exit_ready {
            Some(Source::Exit)
        } else if application_ready {
            Some(Source::Application)
        } else if network_ready {
            Some(Source::Network)
        } else {
            None::<Source>
        },
{
    if exit_ready {
        Some(Source::Exit)
    } else if application_ready {
        Some(Source::Application)
    } else if network_ready {
        Some(Source::Network)
    } else {
        None
    }
}

/// The text of the exception answering an unrecognized request.
pub open spec fn spec_unrecognized_text() -> Seq<u8> {
    seq![
        85u8, 110, 114, 101, 99, 111, 103, 110, 105, 122, 101, 100, 32, 114, 101, 113, 117, 101,
        115, 116,
    ]
}

/// The exception response answering an unrecognized request; its payload
/// reads "Unrecognized request".
pub fn exception_unrecognized() -> (r: Response)
    ensures
        r@.kind == ResponseType::Exception,
        r@.payload == spec_unrecognized_text(),
{
    let mut p: Vec<u8> = Vec::new();
    p.push(85);
    p.push(110);
    p.push(114);
    p.push(101);
    p.push(99);
    p.push(111);
    p.push(103);
    p.push(110);
    p.push(105);
    p.push(122);
    p.push(101);
    p.push(100);
    p.push(32);
    p.push(114);
    p.push(101);
    p.push(113);
    p.push(117);
    p.push(101);
    p.push(115);
    p.push(116);
    assert(p@ =~= spec_unrecognized_text());
    Response::new(ResponseType::Exception, p)
}

/// The single owner of the application instance. It alone calls the
/// application, one handler at a time, so the application's state mutations
/// are totally ordered without a lock.
pub struct Protocol<A> {
    application: A,
    phase: Phase,
    response_sender: crossbeam_channel::Sender<(Response, ReplyHandle)>,
    exit_sender: crossbeam_channel::Sender<ExitSignal>,
    network_exit_sender: crossbeam_channel::Sender<ExitSignal>,
}

impl<A: Application> Protocol<A> {
    /// Where the actor stands in its lifecycle.
    pub closed spec fn spec_phase(&self) -> Phase {
        self.phase
    }

    /// Where the actor stands in its lifecycle.
    pub fn phase(&self) -> (p: Phase)
        ensures
            p == self.spec_phase(),
    {
        self.phase
    }

    /// An actor owning `application`, in the `Starting` phase. Returns,
    /// beside the actor, the receiving ends of the completions channel and
    /// of the application's exit channel — the two sources, with the inbound
    /// request channel, that the serving loop waits on. `network_exit_sender`
    /// is signalled once, when the actor stops, to tell the transport layer
    /// to stop accepting and serving.
    pub fn new(application: A, network_exit_sender: crossbeam_channel::Sender<ExitSignal>) -> (r: (
        Protocol<A>,
        crossbeam_channel::Receiver<(Response, ReplyHandle)>,
        crossbeam_channel::Receiver<ExitSignal>,
    ))
        ensures
            r.0.spec_phase() is Starting,
    {
        let (response_sender, response_receiver) = channel();
        let (exit_sender, exit_receiver) = channel();
        let protocol = Protocol {
            application,
            phase: Phase::Starting,
            response_sender,
            exit_sender,
            network_exit_sender,
        };
        (protocol, response_receiver, exit_receiver)
    }

    /// Starts the application, handing it an exit capability; called exactly
    /// once, before any event is served.
    pub fn start(&mut self)
        requires
            old(self).spec_phase() is Starting,
        ensures
            final(self).spec_phase() is Running,
    {
        self.phase = Phase::Running;
        let exiter = Exiter::new(self.exit_sender.clone());
        self.application.start(exiter);
    }

    /// Serves one event. An exit signal or the closing of the inbound
    /// channels drains the actor and ends the serving loop; any other event
    /// is dispatched and the loop goes on.
    pub fn step(&mut self, event: Event) -> (keep_running: bool)
        requires
            old(self).spec_phase() is Running,
        ensures
            keep_running == !(event is Exit || event is NetworkClosed),
            final(self).spec_phase() == if keep_running {
                Phase::Running
            } else {
                Phase::Draining
            },
    {
        match event {
            Event::Exit => {
                self.phase = Phase::Draining;
                false
            },
            Event::NetworkClosed => {
                self.phase = Phase::Draining;
                false
            },
            Event::Application(response, reply) => {
                self.handle_application_response(response, reply);
                true
            },
            Event::Network(raw, reply) => {
                self.handle_network_request(raw, reply);
                true
            },
        }
    }

    /// Tells the transport layer to stop and the application to exit;
    /// called exactly once, after the serving loop ends. Terminal.
    pub fn exit(&mut self)
        requires
            old(self).spec_phase() is Draining,
        ensures
            final(self).spec_phase() is Stopped,
    {
        self.phase = Phase::Stopped;
        let _ = send(&self.network_exit_sender, ExitSignal);
        self.application.exit();
    }

    /// Forwards a completion to the reply channel bound to its originating
    /// request. No reordering happens here: the binding between request and
    /// reply channel is one-to-one, and the wire-level ordering is enforced
    /// by each connection's one-request-in-flight discipline.
    fn handle_application_response(&mut self, response: Response, reply: ReplyHandle)
        ensures
            *final(self) == *old(self),
    {
        let _ = reply.deliver(response);
    }

    /// Dispatches an inbound request: a data-bearing kind goes to the
    /// application's handler with a responder bound to the matching response
    /// kind; `Flush` and `Echo` are answered here; an unrecognized kind is
    /// answered with an exception rather than ending the connection.
    fn handle_network_request(&mut self, raw: RawRequest, reply: ReplyHandle)
        ensures
            final(self).spec_phase() == old(self).spec_phase(),
    {
        match raw {
            RawRequest::Known(req) => {
                let Request { kind, payload } = req;
                let expected = matching_response(kind);
                let responder = Responder::new(
                    self.response_sender.clone(),
                    reply,
                    expected,
                );
                match kind {
                    RequestKind::Info => self.application.info(payload, responder),
                    RequestKind::SetOption => self.application.set_option(payload, responder),
                    RequestKind::Query => self.application.query(payload, responder),
                    RequestKind::CheckTx => self.application.check_tx(payload, responder),
                    RequestKind::InitChain => self.application.init_chain(payload, responder),
                    RequestKind::BeginBlock => self.application.begin_block(payload, responder),
                    RequestKind::DeliverTx => self.application.deliver_tx(payload, responder),
                    RequestKind::EndBlock => self.application.end_block(payload, responder),
                    RequestKind::Commit => self.application.commit(payload, responder),
                    RequestKind::Flush => {
                        let r = responder.respond(Response::new(ResponseType::Flush, Vec::new()));
                        assert(r != Err::<(), RespondError>(RespondError::KindMismatch));
                    },
                    RequestKind::Echo => {
                        let r = responder.respond(Response::new(ResponseType::Echo, payload));
                        assert(r != Err::<(), RespondError>(RespondError::KindMismatch));
                    },
                }
            },
            RawRequest::Unknown => {
                let responder = Responder::new(
                    self.response_sender.clone(),
                    reply,
                    ResponseType::Exception,
                );
                let r = responder.respond(exception_unrecognized());
                assert(r != Err::<(), RespondError>(RespondError::KindMismatch));
            },
        }
    }
}

} // verus!
