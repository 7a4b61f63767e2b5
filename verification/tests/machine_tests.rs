use tls_hello::ServerError;
use tls_hello::dispatcher::{
    DispatchStep, ListenerItem, StartupStep, TaskReport, dispatch, plan_startup, select_address,
    settle_task,
};
use tls_hello::handler::{HandlerAction, HandlerEvent, HandlerState, handler_step};
use tls_hello::response::response_bytes;

#[test]
fn handler_walks_the_happy_path() {
    let (s, a) = handler_step(HandlerState::Accepted, HandlerEvent::Proceed);
    assert_eq!(s, HandlerState::Handshaking);
    assert_eq!(a, HandlerAction::BeginHandshake);
    let (s, a) = handler_step(s, HandlerEvent::HandshakeSucceeded);
    assert_eq!(s, HandlerState::HandshakeComplete);
    assert_eq!(a, HandlerAction::SendResponse);
    let (s, a) = handler_step(s, HandlerEvent::WriteSucceeded);
    assert_eq!(s, HandlerState::ResponseSent);
    assert_eq!(a, HandlerAction::ReleaseConnection);
    let (s, a) = handler_step(s, HandlerEvent::Proceed);
    assert_eq!(s, HandlerState::Closed);
    assert_eq!(a, HandlerAction::DoNothing);
}

#[test]
fn handshake_failure_errors_and_reports() {
    let (s, a) = handler_step(HandlerState::Handshaking, HandlerEvent::HandshakeFailed);
    assert_eq!(s, HandlerState::Errored(ServerError::HandshakeFailed));
    assert_eq!(a, HandlerAction::Report(ServerError::HandshakeFailed));
    assert!(!ServerError::HandshakeFailed.is_fatal());
}

#[test]
fn write_failure_errors_and_reports() {
    let (s, a) = handler_step(HandlerState::HandshakeComplete, HandlerEvent::WriteFailed);
    assert_eq!(s, HandlerState::Errored(ServerError::WriteFailed));
    assert_eq!(a, HandlerAction::Report(ServerError::WriteFailed));
    assert!(!ServerError::WriteFailed.is_fatal());
}

#[test]
fn terminal_states_absorb_every_event() {
    let events = [
        HandlerEvent::Proceed,
        HandlerEvent::HandshakeSucceeded,
        HandlerEvent::HandshakeFailed,
        HandlerEvent::WriteSucceeded,
        HandlerEvent::WriteFailed,
    ];
    for &e in &events {
        let (s, a) = handler_step(HandlerState::Closed, e);
        assert_eq!(s, HandlerState::Closed);
        assert_eq!(a, HandlerAction::DoNothing);
        let errored = HandlerState::Errored(ServerError::HandshakeFailed);
        let (s, a) = handler_step(errored, e);
        assert_eq!(s, errored);
        assert_eq!(a, HandlerAction::DoNothing);
    }
}

#[test]
fn unexpected_events_change_nothing() {
    let (s, a) = handler_step(HandlerState::Accepted, HandlerEvent::WriteFailed);
    assert_eq!(s, HandlerState::Accepted);
    assert_eq!(a, HandlerAction::DoNothing);
    let (s, a) = handler_step(HandlerState::Handshaking, HandlerEvent::WriteSucceeded);
    assert_eq!(s, HandlerState::Handshaking);
    assert_eq!(a, HandlerAction::DoNothing);
}

#[test]
fn dispatch_spawns_on_connections_and_stops_on_accept_failure() {
    assert_eq!(dispatch(ListenerItem::Connection), DispatchStep::SpawnHandler);
    assert_eq!(
        dispatch(ListenerItem::AcceptError),
        DispatchStep::StopListening(ServerError::AcceptFailed)
    );
}

#[test]
fn task_outcomes_are_absorbed_at_the_boundary() {
    assert_eq!(settle_task(Ok(())), TaskReport::Completed);
    assert_eq!(
        settle_task(Err(ServerError::WriteFailed)),
        TaskReport::Reported(ServerError::WriteFailed)
    );
}

#[test]
fn address_selection_takes_the_first_or_fails() {
    assert_eq!(select_address::<u32>(vec![]), Err(ServerError::AddressResolution));
    assert_eq!(select_address(vec![7u32, 8, 9]), Ok(7));
}

#[test]
fn startup_exits_on_configuration_failure() {
    let failed: Result<tls_hello::config::TlsServerConfig, ServerError> =
        Err(ServerError::NoKeyProvided);
    assert_eq!(plan_startup(&failed), StartupStep::Exit(ServerError::NoKeyProvided));
}

#[test]
fn response_is_the_exact_http_bytes() {
    let expected: &[u8] =
        b"HTTP/1.0 200 ok\r\nConnection: close\r\nContent-length: 12\r\n\r\nHello world!";
    let v = response_bytes();
    assert_eq!(v.as_slice(), expected);
    assert_eq!(v.len(), 70);
    // The declared content length matches the body.
    let body = &v[58..];
    assert_eq!(body, b"Hello world!");
    assert_eq!(body.len(), 12);
}
