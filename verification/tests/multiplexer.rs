use hudwiz::frame::{ack, clip, decode_frame, ProtocolDecodeError, MAX_FRAME_LEN};
use hudwiz::server::webtransport::{
    start_webtransport_server, Action, ConnectionState, Event, Phase, Session, SessionError,
    StreamKind, KEEP_ALIVE_SECS, WEBTRANSPORT_PORT,
};

fn requested() -> Event {
    Event::SessionRequested { authority: "localhost:4433".to_string(), path: "/".to_string() }
}

/// A session that has been requested and accepted.
fn servicing() -> Session {
    let mut session = Session::new();
    assert_eq!(session.step(requested()), Action::AcceptSession);
    assert_eq!(session.step(Event::SessionAccepted), Action::AwaitNext);
    session
}

/// Starts a read on a new stream and hands back the buffer that was lent.
fn begin_read(session: &mut Session, kind: StreamKind) -> Vec<u8> {
    match session.step(Event::StreamAccepted(kind)) {
        Action::Read { kind: lent_for, buffer } => {
            assert_eq!(lent_for, kind);
            buffer
        }
        other => panic!("unexpected action {:?}", other),
    }
}

/// Reads `payload` from a new stream the way a transport does: once, into the
/// buffer that was lent, as far as it fits; and where the stream ends before
/// it gave a byte, by reporting no count at all.
fn receive(session: &mut Session, kind: StreamKind, payload: &[u8]) -> Action {
    let mut buffer = begin_read(session, kind);
    let n = payload.len().min(buffer.len());
    buffer[..n].copy_from_slice(&payload[..n]);
    let bytes_read = if n == 0 { None } else { Some(n) };
    session.step(Event::ReadCompleted { buffer, bytes_read })
}

#[test]
fn ack_is_three_ascii_bytes() {
    assert_eq!(ack(), vec![b'A', b'C', b'K']);
    assert_eq!(ack(), b"ACK".to_vec());
}

#[test]
fn frame_limit_is_64_kib() {
    assert_eq!(MAX_FRAME_LEN, 65536);
    assert_eq!(WEBTRANSPORT_PORT, 4433);
    assert_eq!(KEEP_ALIVE_SECS, 3);
}

#[test]
fn decode_frame_gives_the_text() {
    assert_eq!(decode_frame(b"ping"), Ok("ping"));
    assert_eq!(decode_frame(b""), Ok(""));
    assert_eq!(decode_frame("h\u{e9}llo \u{1f600}".as_bytes()), Ok("h\u{e9}llo \u{1f600}"));
}

#[test]
fn decode_frame_reports_the_valid_prefix() {
    assert_eq!(decode_frame(&[0xff]), Err(ProtocolDecodeError { valid_up_to: 0 }));
    assert_eq!(decode_frame(&[b'a', b'b', 0xc3]), Err(ProtocolDecodeError { valid_up_to: 2 }));
    assert_eq!(
        decode_frame(&[b'o', b'k', 0xed, 0xa0, 0x80, b'!']),
        Err(ProtocolDecodeError { valid_up_to: 2 })
    );
    assert_eq!(decode_frame(&[0xc0, 0x80]), Err(ProtocolDecodeError { valid_up_to: 0 }));
}

#[test]
fn clip_keeps_what_fits() {
    let small = vec![7u8; 10];
    assert_eq!(clip(&small), &small[..]);
    let exact = vec![1u8; 65536];
    assert_eq!(clip(&exact).len(), 65536);
    let mut large = vec![2u8; 65537];
    large[65536] = 9;
    assert_eq!(clip(&large), &large[..65536]);
    assert_eq!(clip(&[]), &[] as &[u8]);
}

#[test]
fn session_walks_through_its_states() {
    let mut session = Session::new();
    assert_eq!(session.phase(), Phase::AwaitingSession);
    assert_eq!(session.state(), ConnectionState::AwaitingSession);
    assert_eq!(session.step(requested()), Action::AcceptSession);
    assert_eq!(session.phase(), Phase::Accepted);
    assert_eq!(session.state(), ConnectionState::Accepted);
    assert_eq!(session.step(Event::SessionAccepted), Action::AwaitNext);
    assert_eq!(session.phase(), Phase::Idle);
    assert_eq!(session.state(), ConnectionState::Servicing);
    let action = session.step(Event::Failed { detail: "connection lost".to_string() });
    assert_eq!(
        action,
        Action::Close { error: SessionError::Io { detail: "connection lost".to_string() } }
    );
    assert_eq!(session.state(), ConnectionState::Closed);
}

#[test]
fn bidirectional_stream_is_acknowledged() {
    let mut session = servicing();
    let action = receive(&mut session, StreamKind::Bidirectional, b"ping");
    assert_eq!(
        action,
        Action::Write { on: StreamKind::Bidirectional, payload: b"ACK".to_vec() }
    );
    assert_eq!(session.phase(), Phase::Writing(StreamKind::Bidirectional));
    assert_eq!(session.state(), ConnectionState::Servicing);
    assert_eq!(session.step(Event::ReplyWritten), Action::AwaitNext);
    assert_eq!(session.phase(), Phase::Idle);
}

#[test]
fn unidirectional_stream_is_acknowledged_on_a_new_stream() {
    let mut session = servicing();
    let action = receive(&mut session, StreamKind::Unidirectional, b"one way");
    assert_eq!(action, Action::OpenReplyStream);
    assert_eq!(session.phase(), Phase::OpeningReply);
    assert_eq!(
        session.step(Event::ReplyStreamOpened),
        Action::Write { on: StreamKind::Unidirectional, payload: b"ACK".to_vec() }
    );
    assert_eq!(session.phase(), Phase::Writing(StreamKind::Unidirectional));
    assert_eq!(session.step(Event::ReplyWritten), Action::AwaitNext);
    assert_eq!(session.phase(), Phase::Idle);
}

#[test]
fn datagram_is_acknowledged() {
    let mut session = servicing();
    let action = session.step(Event::DatagramReceived(b"hello".to_vec()));
    assert_eq!(action, Action::SendDatagram { payload: b"ACK".to_vec() });
    assert_eq!(session.phase(), Phase::SendingDatagram);
    assert_eq!(session.step(Event::DatagramSent), Action::AwaitNext);
    assert_eq!(session.phase(), Phase::Idle);
}

#[test]
fn empty_payloads_are_acknowledged() {
    let mut session = servicing();
    let action = receive(&mut session, StreamKind::Bidirectional, b"");
    assert_eq!(
        action,
        Action::Write { on: StreamKind::Bidirectional, payload: b"ACK".to_vec() }
    );
    assert_eq!(session.step(Event::ReplyWritten), Action::AwaitNext);
    assert_eq!(
        session.step(Event::DatagramReceived(Vec::new())),
        Action::SendDatagram { payload: b"ACK".to_vec() }
    );
}

#[test]
fn large_datagram_is_not_clipped() {
    let mut session = servicing();
    let mut payload = vec![b'x'; 70000];
    payload[69999] = 0xff;
    let action = session.step(Event::DatagramReceived(payload));
    assert_eq!(
        action,
        Action::Close { error: SessionError::Decode(ProtocolDecodeError { valid_up_to: 69999 }) }
    );
}

#[test]
fn empty_payload_on_a_finished_stream_is_acknowledged() {
    let mut session = servicing();
    let buffer = begin_read(&mut session, StreamKind::Bidirectional);
    let action = session.step(Event::ReadCompleted { buffer, bytes_read: None });
    assert_eq!(
        action,
        Action::Write { on: StreamKind::Bidirectional, payload: b"ACK".to_vec() }
    );
    assert_eq!(session.phase(), Phase::Writing(StreamKind::Bidirectional));
    assert_eq!(session.step(Event::ReplyWritten), Action::AwaitNext);

    let buffer = begin_read(&mut session, StreamKind::Unidirectional);
    let action = session.step(Event::ReadCompleted { buffer, bytes_read: None });
    assert_eq!(action, Action::OpenReplyStream);
    assert_eq!(
        session.step(Event::ReplyStreamOpened),
        Action::Write { on: StreamKind::Unidirectional, payload: b"ACK".to_vec() }
    );
    assert_eq!(session.step(Event::ReplyWritten), Action::AwaitNext);
    assert_eq!(session.phase(), Phase::Idle);
}

#[test]
fn read_of_no_bytes_is_acknowledged_like_the_empty_payload() {
    let mut session = servicing();
    let buffer = begin_read(&mut session, StreamKind::Bidirectional);
    let action = session.step(Event::ReadCompleted { buffer, bytes_read: Some(0) });
    assert_eq!(
        action,
        Action::Write { on: StreamKind::Bidirectional, payload: b"ACK".to_vec() }
    );
}

#[test]
fn non_utf8_stream_payload_closes_the_connection() {
    let mut session = servicing();
    let action = receive(&mut session, StreamKind::Bidirectional, &[b'h', b'i', 0xff, b'!']);
    assert_eq!(
        action,
        Action::Close { error: SessionError::Decode(ProtocolDecodeError { valid_up_to: 2 }) }
    );
    assert_eq!(session.phase(), Phase::Closed);
    assert_eq!(session.state(), ConnectionState::Closed);
}

#[test]
fn non_utf8_datagram_closes_the_connection() {
    let mut session = servicing();
    let action = session.step(Event::DatagramReceived(vec![0x80]));
    assert_eq!(
        action,
        Action::Close { error: SessionError::Decode(ProtocolDecodeError { valid_up_to: 0 }) }
    );
    assert_eq!(session.phase(), Phase::Closed);
}

#[test]
fn decode_failure_leaves_other_connections_alone() {
    let mut listener = start_webtransport_server();
    let (_, mut first) = listener.accept();
    let (_, mut second) = listener.accept();
    for session in [&mut first, &mut second] {
        session.step(requested());
        session.step(Event::SessionAccepted);
    }
    first.step(Event::DatagramReceived(vec![0xff, 0xfe]));
    assert_eq!(first.state(), ConnectionState::Closed);
    assert_eq!(second.state(), ConnectionState::Servicing);
    assert_eq!(
        second.step(Event::DatagramReceived(b"still here".to_vec())),
        Action::SendDatagram { payload: b"ACK".to_vec() }
    );
}

#[test]
fn failure_closes_the_connection_in_every_phase() {
    let failed = || Event::Failed { detail: "reset".to_string() };
    let closed = || Action::Close { error: SessionError::Io { detail: "reset".to_string() } };

    let mut session = Session::new();
    assert_eq!(session.step(failed()), closed());
    assert_eq!(session.phase(), Phase::Closed);

    let mut session = Session::new();
    session.step(requested());
    assert_eq!(session.step(failed()), closed());

    let mut session = servicing();
    begin_read(&mut session, StreamKind::Unidirectional);
    assert_eq!(session.step(failed()), closed());

    let mut session = servicing();
    receive(&mut session, StreamKind::Unidirectional, b"x");
    assert_eq!(session.step(failed()), closed());

    let mut session = servicing();
    receive(&mut session, StreamKind::Bidirectional, b"x");
    assert_eq!(session.step(failed()), closed());

    let mut session = servicing();
    session.step(Event::DatagramReceived(b"x".to_vec()));
    assert_eq!(session.step(failed()), closed());
    assert_eq!(session.phase(), Phase::Closed);
}

#[test]
fn closed_connection_stays_closed() {
    let mut session = servicing();
    session.step(Event::Failed { detail: "bye".to_string() });
    let out_of_turn = || Action::Close { error: SessionError::OutOfTurn };
    assert_eq!(session.step(Event::StreamAccepted(StreamKind::Bidirectional)), out_of_turn());
    assert_eq!(session.step(Event::DatagramReceived(b"late".to_vec())), out_of_turn());
    assert_eq!(session.step(Event::Failed { detail: "again".to_string() }), out_of_turn());
    assert_eq!(session.step(requested()), out_of_turn());
    assert_eq!(session.phase(), Phase::Closed);
}

#[test]
fn event_out_of_turn_closes_the_connection() {
    let out_of_turn = || Action::Close { error: SessionError::OutOfTurn };

    let mut session = Session::new();
    assert_eq!(session.step(Event::SessionAccepted), out_of_turn());
    assert_eq!(session.phase(), Phase::Closed);

    let mut session = Session::new();
    assert_eq!(session.step(Event::DatagramReceived(b"early".to_vec())), out_of_turn());

    let mut session = servicing();
    assert_eq!(session.step(Event::ReplyWritten), out_of_turn());

    let mut session = servicing();
    assert_eq!(
        session.step(Event::ReadCompleted { buffer: vec![0; 65536], bytes_read: Some(1) }),
        out_of_turn()
    );

    let mut session = servicing();
    receive(&mut session, StreamKind::Bidirectional, b"x");
    assert_eq!(session.step(Event::ReplyStreamOpened), out_of_turn());

    let mut session = servicing();
    receive(&mut session, StreamKind::Unidirectional, b"x");
    assert_eq!(session.step(Event::ReplyWritten), out_of_turn());
}

#[test]
fn no_second_read_while_the_buffer_is_out() {
    let mut session = servicing();
    let _buffer = begin_read(&mut session, StreamKind::Bidirectional);
    assert_eq!(session.phase(), Phase::Reading(StreamKind::Bidirectional));
    let action = session.step(Event::StreamAccepted(StreamKind::Unidirectional));
    assert_eq!(action, Action::Close { error: SessionError::OutOfTurn });

    let mut session = servicing();
    let _buffer = begin_read(&mut session, StreamKind::Unidirectional);
    let action = session.step(Event::DatagramReceived(b"x".to_vec()));
    assert_eq!(action, Action::Close { error: SessionError::OutOfTurn });
}

#[test]
fn buffer_is_lent_again_after_it_came_back() {
    let mut session = servicing();
    for round in 0..3u8 {
        let payload = vec![b'a' + round; 100];
        let action = receive(&mut session, StreamKind::Bidirectional, &payload);
        assert_eq!(
            action,
            Action::Write { on: StreamKind::Bidirectional, payload: b"ACK".to_vec() }
        );
        assert_eq!(session.step(Event::ReplyWritten), Action::AwaitNext);
    }
    assert_eq!(begin_read(&mut session, StreamKind::Unidirectional).len(), 65536);
}

#[test]
fn buffer_of_another_length_is_made_whole_again() {
    let mut session = servicing();
    let _ = begin_read(&mut session, StreamKind::Bidirectional);
    let action = session.step(Event::ReadCompleted { buffer: b"ok".to_vec(), bytes_read: Some(2) });
    assert_eq!(
        action,
        Action::Write { on: StreamKind::Bidirectional, payload: b"ACK".to_vec() }
    );
    session.step(Event::ReplyWritten);
    assert_eq!(begin_read(&mut session, StreamKind::Bidirectional).len(), 65536);
}

#[test]
fn read_cannot_deliver_more_than_the_buffer_holds() {
    let mut session = servicing();
    let _ = begin_read(&mut session, StreamKind::Bidirectional);
    let action =
        session.step(Event::ReadCompleted { buffer: vec![b'a', 0xff], bytes_read: Some(9) });
    assert_eq!(
        action,
        Action::Close { error: SessionError::Decode(ProtocolDecodeError { valid_up_to: 1 }) }
    );
}

#[test]
fn only_the_bytes_read_count() {
    let mut session = servicing();
    let mut buffer = begin_read(&mut session, StreamKind::Bidirectional);
    buffer[..3].copy_from_slice(b"abc");
    buffer[3] = 0xff;
    let action = session.step(Event::ReadCompleted { buffer, bytes_read: Some(3) });
    assert_eq!(
        action,
        Action::Write { on: StreamKind::Bidirectional, payload: b"ACK".to_vec() }
    );
}

#[test]
fn payload_of_exactly_64_kib_is_acknowledged() {
    let payload = vec![b'z'; 65536];
    let mut session = servicing();
    let mut buffer = begin_read(&mut session, StreamKind::Bidirectional);
    assert_eq!(buffer.len(), payload.len());
    buffer.copy_from_slice(&payload);
    let action = session.step(Event::ReadCompleted { buffer, bytes_read: Some(65536) });
    assert_eq!(
        action,
        Action::Write { on: StreamKind::Bidirectional, payload: b"ACK".to_vec() }
    );
    assert_eq!(session.step(Event::ReplyWritten), Action::AwaitNext);
}

#[test]
fn payload_of_64_kib_that_ends_in_a_wide_character_is_acknowledged() {
    let mut payload = vec![b'z'; 65532];
    payload.extend_from_slice("\u{1f600}".as_bytes());
    assert_eq!(payload.len(), 65536);
    let mut session = servicing();
    let action = receive(&mut session, StreamKind::Unidirectional, &payload);
    assert_eq!(action, Action::OpenReplyStream);
}

#[test]
fn oversized_payload_is_truncated_to_64_kib() {
    // The bytes beyond the buffer are never looked at: not even an invalid
    // one among them is noticed.
    let mut payload = vec![b'y'; 70000];
    payload[65536] = 0xff;
    let mut session = servicing();
    let action = receive(&mut session, StreamKind::Bidirectional, &payload);
    assert_eq!(
        action,
        Action::Write { on: StreamKind::Bidirectional, payload: b"ACK".to_vec() }
    );

    // The same when a whole payload is handed over at once.
    let mut session = servicing();
    let _ = begin_read(&mut session, StreamKind::Bidirectional);
    let action = session.step(Event::ReadCompleted { buffer: payload, bytes_read: Some(70000) });
    assert_eq!(
        action,
        Action::Write { on: StreamKind::Bidirectional, payload: b"ACK".to_vec() }
    );
}

#[test]
fn truncation_inside_a_character_is_a_decode_error() {
    let mut payload = vec![b'y'; 65535];
    payload.extend_from_slice("\u{e9}".as_bytes());
    payload.extend_from_slice(b"tail");
    let mut session = servicing();
    let action = receive(&mut session, StreamKind::Bidirectional, &payload);
    assert_eq!(
        action,
        Action::Close { error: SessionError::Decode(ProtocolDecodeError { valid_up_to: 65535 }) }
    );
    assert_eq!(session.state(), ConnectionState::Closed);
}

#[test]
fn listener_numbers_connections_from_zero() {
    let mut listener = start_webtransport_server();
    assert_eq!(listener.next_id(), 0);
    let (first, session) = listener.accept();
    assert_eq!(first, 0);
    assert_eq!(session.phase(), Phase::AwaitingSession);
    let (second, _) = listener.accept();
    let (third, _) = listener.accept();
    assert_eq!((second, third), (1, 2));
    assert_eq!(listener.next_id(), 3);
}
