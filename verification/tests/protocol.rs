use crossbeam_channel::{unbounded, Receiver, Sender};

use abci::message::{RawRequest, Request, RequestKind, Response, ResponseType};
use abci::protocol::{choose_source, Application, Event, Phase, Protocol, Source};
use abci::responder::{ExitSignal, Exiter, ReplyHandle, Responder, RespondError};

struct InertApp;

impl Application for InertApp {}

/// Hands an inbound request to the actor on a fresh reply channel, pumps the
/// one resulting completion through the actor, and returns what reached the
/// reply channel.
fn one_round<A: Application>(
    protocol: &mut Protocol<A>,
    response_rx: &Receiver<(Response, ReplyHandle)>,
    raw: RawRequest,
) -> Response {
    let (reply_tx, reply_rx) = unbounded();
    assert!(protocol.step(Event::Network(raw, ReplyHandle::new(reply_tx))));
    let (resp, reply) = response_rx.try_recv().expect("a completion");
    assert!(protocol.step(Event::Application(resp, reply)));
    reply_rx.try_recv().expect("a response on the reply channel")
}

#[test]
fn echo_scenario() {
    let (net_exit_tx, _net_exit_rx) = unbounded();
    let (mut protocol, response_rx, _exit_rx) = Protocol::new(InertApp, net_exit_tx);
    protocol.start();
    let raw = RawRequest::Known(Request::new(RequestKind::Echo, b"ping".to_vec()));
    let delivered = one_round(&mut protocol, &response_rx, raw);
    assert_eq!(delivered.kind, ResponseType::Echo);
    assert_eq!(delivered.payload, b"ping".to_vec());
}

#[test]
fn flush_is_answered_by_the_engine() {
    let (net_exit_tx, _net_exit_rx) = unbounded();
    let (mut protocol, response_rx, _exit_rx) = Protocol::new(InertApp, net_exit_tx);
    protocol.start();
    let raw = RawRequest::Known(Request::new(RequestKind::Flush, Vec::new()));
    let delivered = one_round(&mut protocol, &response_rx, raw);
    assert_eq!(delivered.kind, ResponseType::Flush);
    assert_eq!(delivered.payload, Vec::<u8>::new());
}

#[test]
fn unknown_kind_yields_exactly_one_exception_and_engine_stays_up() {
    let (net_exit_tx, _net_exit_rx) = unbounded();
    let (mut protocol, response_rx, _exit_rx) = Protocol::new(InertApp, net_exit_tx);
    protocol.start();
    let delivered = one_round(&mut protocol, &response_rx, RawRequest::Unknown);
    assert_eq!(delivered.kind, ResponseType::Exception);
    assert_eq!(delivered.payload, b"Unrecognized request".to_vec());
    // Exactly one response was produced.
    assert!(response_rx.try_recv().is_err());
    // The engine keeps serving afterwards.
    let raw = RawRequest::Known(Request::new(RequestKind::Echo, b"still up".to_vec()));
    let delivered = one_round(&mut protocol, &response_rx, raw);
    assert_eq!(delivered.kind, ResponseType::Echo);
    assert_eq!(delivered.payload, b"still up".to_vec());
}

#[test]
fn default_handlers_respond_with_zero_valued_matching_kind() {
    let pairs = [
        (RequestKind::Info, ResponseType::Info),
        (RequestKind::SetOption, ResponseType::SetOption),
        (RequestKind::Query, ResponseType::Query),
        (RequestKind::CheckTx, ResponseType::CheckTx),
        (RequestKind::InitChain, ResponseType::InitChain),
        (RequestKind::BeginBlock, ResponseType::BeginBlock),
        (RequestKind::DeliverTx, ResponseType::DeliverTx),
        (RequestKind::EndBlock, ResponseType::EndBlock),
        (RequestKind::Commit, ResponseType::Commit),
    ];
    let (net_exit_tx, _net_exit_rx) = unbounded();
    let (mut protocol, response_rx, _exit_rx) = Protocol::new(InertApp, net_exit_tx);
    protocol.start();
    for &(req_kind, resp_kind) in pairs.iter() {
        let raw = RawRequest::Known(Request::new(req_kind, vec![1, 2]));
        let delivered = one_round(&mut protocol, &response_rx, raw);
        assert_eq!(delivered.kind, resp_kind);
        assert_eq!(delivered.payload, Vec::<u8>::new());
    }
}

#[test]
fn responder_rejects_mismatched_kind_without_delivering() {
    let (resp_tx, resp_rx) = unbounded();
    let (reply_tx, reply_rx) = unbounded();
    let responder = Responder::new(resp_tx, ReplyHandle::new(reply_tx), ResponseType::CheckTx);
    let r = responder.respond(Response::new(ResponseType::Echo, b"wrong".to_vec()));
    assert_eq!(r, Err(RespondError::KindMismatch));
    // Nothing reached either channel.
    assert!(resp_rx.try_recv().is_err());
    assert!(reply_rx.try_recv().is_err());
}

#[test]
fn responder_forwards_matching_kind() {
    let (resp_tx, resp_rx) = unbounded();
    let (reply_tx, _reply_rx) = unbounded();
    let responder = Responder::new(resp_tx, ReplyHandle::new(reply_tx), ResponseType::CheckTx);
    let r = responder.respond(Response::new(ResponseType::CheckTx, vec![7]));
    assert_eq!(r, Ok(()));
    let (resp, _reply) = resp_rx.try_recv().expect("forwarded completion");
    assert_eq!(resp.kind, ResponseType::CheckTx);
    assert_eq!(resp.payload, vec![7]);
}

#[test]
fn responder_reports_disconnection() {
    let (resp_tx, resp_rx) = unbounded();
    drop(resp_rx);
    let (reply_tx, _reply_rx) = unbounded();
    let responder = Responder::new(resp_tx, ReplyHandle::new(reply_tx), ResponseType::Query);
    let r = responder.respond(Response::new(ResponseType::Query, Vec::new()));
    assert_eq!(r, Err(RespondError::Disconnected));
}

#[test]
fn exit_precedence_over_other_ready_sources() {
    assert_eq!(choose_source(true, true, true), Some(Source::Exit));
    assert_eq!(choose_source(true, false, true), Some(Source::Exit));
    assert_eq!(choose_source(false, true, true), Some(Source::Application));
    assert_eq!(choose_source(false, false, true), Some(Source::Network));
    assert_eq!(choose_source(false, false, false), None);
}

#[derive(Debug, PartialEq, Eq)]
enum Check {
    Started,
    SentCheckTx,
    SentDeliverTx,
    Exited,
}

struct ChecksApp {
    checks: Sender<Check>,
    exiter: Option<Exiter>,
    exit_during_check_tx: bool,
}

impl Application for ChecksApp {
    fn start(&mut self, exiter: Exiter) {
        self.exiter = Some(exiter);
        let _ = self.checks.send(Check::Started);
    }

    fn exit(&mut self) {
        let _ = self.checks.send(Check::Exited);
    }

    fn check_tx(&mut self, _payload: Vec<u8>, responder: Responder) {
        if self.exit_during_check_tx {
            let exiter = self.exiter.as_ref().expect("started first");
            assert_eq!(exiter.exit(), Ok(()));
        }
        let _ = responder.respond(Response::new(ResponseType::CheckTx, Vec::new()));
        let _ = self.checks.send(Check::SentCheckTx);
    }

    fn deliver_tx(&mut self, _payload: Vec<u8>, responder: Responder) {
        let _ = responder.respond(Response::new(ResponseType::DeliverTx, Vec::new()));
        let _ = self.checks.send(Check::SentDeliverTx);
    }
}

#[test]
fn protocol_calls_app_in_order_and_exits_when_network_closes() {
    let (checks_tx, checks_rx) = unbounded();
    let app = ChecksApp { checks: checks_tx, exiter: None, exit_during_check_tx: false };
    let (net_exit_tx, net_exit_rx) = unbounded();
    let (mut protocol, response_rx, _exit_rx) = Protocol::new(app, net_exit_tx);

    protocol.start();
    assert_eq!(checks_rx.try_recv(), Ok(Check::Started));

    // A check tx request, then a deliver tx request.
    let (reply_tx, _reply_rx) = unbounded();
    let raw = RawRequest::Known(Request::new(RequestKind::CheckTx, Vec::new()));
    assert!(protocol.step(Event::Network(raw, ReplyHandle::new(reply_tx))));
    assert_eq!(checks_rx.try_recv(), Ok(Check::SentCheckTx));

    let (reply_tx, _reply_rx) = unbounded();
    let raw = RawRequest::Known(Request::new(RequestKind::DeliverTx, Vec::new()));
    assert!(protocol.step(Event::Network(raw, ReplyHandle::new(reply_tx))));
    assert_eq!(checks_rx.try_recv(), Ok(Check::SentDeliverTx));

    // The completions of both handlers are queued for the actor.
    assert!(response_rx.try_recv().is_ok());
    assert!(response_rx.try_recv().is_ok());

    // The server disconnected: the loop ends and the app hears exit last.
    assert!(!protocol.step(Event::NetworkClosed));
    protocol.exit();
    assert_eq!(checks_rx.try_recv(), Ok(Check::Exited));
    assert!(checks_rx.try_recv().is_err());

    // The transport layer was told to stop.
    assert_eq!(net_exit_rx.try_recv(), Ok(ExitSignal));
}

#[test]
fn shutdown_scenario_app_requests_exit_during_a_handler() {
    let (checks_tx, checks_rx) = unbounded();
    let app = ChecksApp { checks: checks_tx, exiter: None, exit_during_check_tx: true };
    let (net_exit_tx, net_exit_rx) = unbounded();
    let (mut protocol, response_rx, exit_rx) = Protocol::new(app, net_exit_tx);

    protocol.start();
    assert_eq!(protocol.phase(), Phase::Running);
    assert_eq!(checks_rx.try_recv(), Ok(Check::Started));

    // The handler both answers its request and requests engine shutdown.
    let (reply_tx, reply_rx) = unbounded();
    let raw = RawRequest::Known(Request::new(RequestKind::CheckTx, Vec::new()));
    assert!(protocol.step(Event::Network(raw, ReplyHandle::new(reply_tx))));
    assert_eq!(checks_rx.try_recv(), Ok(Check::SentCheckTx));

    // The exit signal is ready, and so is the handler's completion: exit
    // takes precedence, but the in-flight answer is forwarded first here so
    // the request is answered rather than abandoned.
    assert_eq!(exit_rx.try_recv(), Ok(ExitSignal));
    let (resp, reply) = response_rx.try_recv().expect("completion");
    assert!(protocol.step(Event::Application(resp, reply)));
    assert_eq!(reply_rx.try_recv().expect("answered").kind, ResponseType::CheckTx);

    // Draining: the loop ends, the app hears exit exactly once, the
    // transport layer is told to stop.
    assert!(!protocol.step(Event::Exit));
    assert_eq!(protocol.phase(), Phase::Draining);
    protocol.exit();
    assert_eq!(protocol.phase(), Phase::Stopped);
    assert_eq!(checks_rx.try_recv(), Ok(Check::Exited));
    assert!(checks_rx.try_recv().is_err());
    assert_eq!(net_exit_rx.try_recv(), Ok(ExitSignal));

    // A second exit request by the app is a no-op: the engine is gone.
    // (Nothing listens on the exit channel once the protocol is dropped.)
    drop(protocol);
}

#[test]
fn later_exit_signals_are_no_ops() {
    let (tx, rx) = unbounded();
    let exiter = Exiter::new(tx);
    assert_eq!(exiter.exit(), Ok(()));
    assert_eq!(rx.try_recv(), Ok(ExitSignal));
    // Once the engine's receiving end is gone, a further exit request fails
    // harmlessly instead of delivering anything.
    drop(rx);
    assert_eq!(exiter.exit(), Err(()));
}
