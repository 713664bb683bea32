use hudwiz::server::echo::{CloseFrame, EchoAction, EchoEvent, EchoHandler, EchoPhase, Message};

#[test]
fn echo_replies_with_the_message_itself() {
    let mut handler = EchoHandler::new();
    assert_eq!(handler.phase(), EchoPhase::Receiving);
    let action = handler.step(EchoEvent::Received(Message::Text("hello".to_string())));
    assert_eq!(action, EchoAction::Send(Message::Text("hello".to_string())));
    assert_ne!(action, EchoAction::Send(Message::Text("ACK".to_string())));
    assert_eq!(handler.phase(), EchoPhase::Sending);
    assert_eq!(handler.step(EchoEvent::Sent), EchoAction::Receive);
    assert_eq!(handler.phase(), EchoPhase::Receiving);
}

#[test]
fn echo_keeps_the_kind_of_every_message() {
    let messages = || {
        vec![
            Message::Text(String::new()),
            Message::Binary(vec![0, 159, 146, 150]),
            Message::Ping(vec![1, 2, 3]),
            Message::Pong(Vec::new()),
            Message::Close(None),
            Message::Close(Some(CloseFrame { code: 1000, reason: "done".to_string() })),
        ]
    };
    let mut handler = EchoHandler::new();
    for (sent, expected) in messages().into_iter().zip(messages()) {
        assert_eq!(handler.step(EchoEvent::Received(sent)), EchoAction::Send(expected));
        assert_eq!(handler.step(EchoEvent::Sent), EchoAction::Receive);
    }
}

#[test]
fn echo_ends_when_the_peer_is_gone() {
    let mut handler = EchoHandler::new();
    assert_eq!(handler.step(EchoEvent::Disconnected), EchoAction::Stop);
    assert_eq!(handler.phase(), EchoPhase::Done);

    let mut handler = EchoHandler::new();
    assert_eq!(handler.step(EchoEvent::ReceiveFailed), EchoAction::Stop);
    assert_eq!(handler.phase(), EchoPhase::Done);
}

#[test]
fn echo_ends_when_sending_fails() {
    let mut handler = EchoHandler::new();
    handler.step(EchoEvent::Received(Message::Text("hello".to_string())));
    assert_eq!(handler.step(EchoEvent::SendFailed), EchoAction::Stop);
    assert_eq!(handler.phase(), EchoPhase::Done);
}

#[test]
fn echo_that_ended_stays_ended() {
    let mut handler = EchoHandler::new();
    handler.step(EchoEvent::Disconnected);
    assert_eq!(
        handler.step(EchoEvent::Received(Message::Text("late".to_string()))),
        EchoAction::Stop
    );
    assert_eq!(handler.step(EchoEvent::Sent), EchoAction::Stop);
    assert_eq!(handler.phase(), EchoPhase::Done);
}

#[test]
fn echo_ends_on_an_event_out_of_turn() {
    let mut handler = EchoHandler::new();
    assert_eq!(handler.step(EchoEvent::Sent), EchoAction::Stop);

    let mut handler = EchoHandler::new();
    handler.step(EchoEvent::Received(Message::Binary(vec![1])));
    assert_eq!(
        handler.step(EchoEvent::Received(Message::Binary(vec![2]))),
        EchoAction::Stop
    );
    assert_eq!(handler.phase(), EchoPhase::Done);
}
