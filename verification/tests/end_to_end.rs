use hudwiz::server::echo::{EchoAction, EchoEvent, EchoHandler, Message, HTTP_PORT, WEBSOCKET_PATH};
use hudwiz::frontend::realtime_service::RealtimeService;
use hudwiz::frontend::transport::{ActiveTransport, Channel, HandshakeReport};
use hudwiz::frontend::transport_manager::{Negotiation, TransportManager};
use hudwiz::server::webtransport::{start_webtransport_server, Action, Event, StreamKind};

/// Negotiates with a server whose WebTransport endpoint answers or not, and
/// whose WebSocket endpoint answers.
fn connect(server_url: &str, webtransport_answers: bool) -> RealtimeService {
    let manager = TransportManager::new(server_url);
    let first = if webtransport_answers {
        HandshakeReport::Opened
    } else {
        HandshakeReport::Refused { reason: "connection refused".to_string() }
    };
    let handle = match manager.attempt_finished(0, first) {
        Negotiation::Established(handle, _) => handle,
        Negotiation::Attempt(manager) => match manager.attempt_finished(1, HandshakeReport::Opened) {
            Negotiation::Established(handle, _) => handle,
            other => panic!("no connection: {:?}", other),
        },
        Negotiation::Failed(error) => panic!("no connection: {:?}", error),
    };
    RealtimeService::new(handle)
}

#[test]
fn ping_over_webtransport_is_acknowledged() {
    let service = connect("https://127.0.0.1:4433", true);
    assert_eq!(service.active_transport(), ActiveTransport::WebTransport);
    let frame = service.send("ping").unwrap();
    assert_eq!(frame.channel, Channel::BidirectionalStream);

    let mut listener = start_webtransport_server();
    let (_, mut session) = listener.accept();
    session.step(Event::SessionRequested {
        authority: "127.0.0.1:4433".to_string(),
        path: "/".to_string(),
    });
    session.step(Event::SessionAccepted);
    let mut buffer = match session.step(Event::StreamAccepted(StreamKind::Bidirectional)) {
        Action::Read { buffer, .. } => buffer,
        other => panic!("unexpected action {:?}", other),
    };
    buffer[..frame.payload.len()].copy_from_slice(&frame.payload);
    assert_eq!(&buffer[..4], b"ping");
    let reply =
        session.step(Event::ReadCompleted { buffer, bytes_read: Some(frame.payload.len()) });
    assert_eq!(reply, Action::Write { on: StreamKind::Bidirectional, payload: b"ACK".to_vec() });
}

#[test]
fn hello_over_websocket_is_echoed() {
    let service = connect("ws://127.0.0.1:8080/ws", false);
    assert_eq!(service.active_transport(), ActiveTransport::WebSocket);
    let frame = service.send("hello").unwrap();
    assert_eq!(frame.channel, Channel::TextMessage);

    let mut handler = EchoHandler::new();
    let text = String::from_utf8(frame.payload).unwrap();
    let reply = handler.step(EchoEvent::Received(Message::Text(text)));
    assert_eq!(reply, EchoAction::Send(Message::Text("hello".to_string())));
}

#[test]
fn websocket_endpoint_is_where_the_client_looks_for_it() {
    assert_eq!(format!("ws://127.0.0.1:{}{}", HTTP_PORT, WEBSOCKET_PATH), "ws://127.0.0.1:8080/ws");
}
