//! The server's WebSocket side: every message that arrives goes back as it
//! came.
//!
//! Unlike the WebTransport multiplexer, which answers with the acknowledgment
//! frame, this handler answers with the message itself.

use vstd::prelude::*;

verus! {

/// The port of the HTTP listener that upgrades connections to WebSocket.
pub const HTTP_PORT: u16 = 8080;

/// The path under which connections are upgraded.
pub const WEBSOCKET_PATH: &'static str = "/ws";

/// The payload of a close message.
#[derive(Debug, PartialEq, Eq)]
pub struct CloseFrame {
    pub code: u16,
    pub reason: String,
}

/// One WebSocket message.
#[derive(Debug, PartialEq, Eq)]
pub enum Message {
    Text(String),
    Binary(Vec<u8>),
    Ping(Vec<u8>),
    Pong(Vec<u8>),
    Close(Option<CloseFrame>),
}

/// [`Message`] as a mathematical value.
pub enum MessageView {
    Text(Seq<char>),
    Binary(Seq<u8>),
    Ping(Seq<u8>),
    Pong(Seq<u8>),
    Close(Option<(u16, Seq<char>)>),
}

impl View for Message {
    type V = MessageView;

    open spec fn view(&self) -> MessageView {
        match self {
            Message::Text(text) => MessageView::Text(text@),
            Message::Binary(bytes) => MessageView::Binary(bytes@),
            Message::Ping(bytes) => MessageView::Ping(bytes@),
            Message::Pong(bytes) => MessageView::Pong(bytes@),
            Message::Close(Some(frame)) => MessageView::Close(Some((frame.code, frame.reason@))),
            Message::Close(None) => MessageView::Close(None),
        }
    }
}

/// Where an echo handler stands.
#[derive(Debug, Clone, Copy, PartialEq, Eq, Structural)]
pub enum EchoPhase {
    /// Waiting for the next message.
    Receiving,
    /// Waiting for the echo to be sent.
    Sending,
    /// The handler has ended.
    Done,
}

/// The outcome of the operation an echo handler asked for.
#[derive(Debug, PartialEq, Eq)]
pub enum EchoEvent {
    /// A message arrived.
    Received(Message),
    /// Receiving failed.
    ReceiveFailed,
    /// The peer is gone: no more messages will come.
    Disconnected,
    /// The echo was sent.
    Sent,
    /// Sending failed.
    SendFailed,
}

/// The operation an echo handler asks for next.
#[derive(Debug, PartialEq, Eq)]
pub enum EchoAction {
    /// Wait for the next message.
    Receive,
    /// Send this message.
    Send(Message),
    /// Leave the connection.
    Stop,
}

/// [`EchoEvent`] as a mathematical value.
pub enum EchoEventView {
    Received(MessageView),
    ReceiveFailed,
    Disconnected,
    Sent,
    SendFailed,
}

/// [`EchoAction`] as a mathematical value.
pub enum EchoActionView {
    Receive,
    Send(MessageView),
    Stop,
}

impl View for EchoEvent {
    type V = EchoEventView;

    open spec fn view(&self) -> EchoEventView {
        match self {
            EchoEvent::Received(message) => EchoEventView::Received(message@),
            EchoEvent::ReceiveFailed => EchoEventView::ReceiveFailed,
            EchoEvent::Disconnected => EchoEventView::Disconnected,
            EchoEvent::Sent => EchoEventView::Sent,
            EchoEvent::SendFailed => EchoEventView::SendFailed,
        }
    }
}

impl View for EchoAction {
    type V = EchoActionView;

    open spec fn view(&self) -> EchoActionView {
        match self {
            EchoAction::Receive => EchoActionView::Receive,
            EchoAction::Send(message) => EchoActionView::Send(message@),
            EchoAction::Stop => EchoActionView::Stop,
        }
    }
}

/// The transition function of the echo handler. A message that arrives is
/// sent back verbatim; once it is sent the handler waits for the next. The
/// handler ends when the peer is gone, when receiving or sending fails, and
/// on an event that the outstanding operation cannot have produced.
pub open spec fn echo_spec(phase: EchoPhase, event: EchoEventView) -> (EchoPhase, EchoActionView) {
    match (phase, event) {
        (EchoPhase::Receiving, EchoEventView::Received(message)) => (
            EchoPhase::Sending,
            EchoActionView::Send(message),
        ),
        (EchoPhase::Sending, EchoEventView::Sent) => (EchoPhase::Receiving, EchoActionView::Receive),
        _ => (EchoPhase::Done, EchoActionView::Stop),
    }
}

/// The handler of one upgraded WebSocket connection.
#[derive(Debug)]
pub struct EchoHandler {
    phase: EchoPhase,
}

impl View for EchoHandler {
    type V = EchoPhase;

    closed spec fn view(&self) -> EchoPhase {
        self.phase
    }
}

impl EchoHandler {
    /// The handler of a connection that was just upgraded: it waits for the
    /// first message.
    pub fn new() -> (handler: EchoHandler)
        ensures
            handler@ == EchoPhase::Receiving,
    {
        EchoHandler { phase: EchoPhase::Receiving }
    }

    /// The phase the handler is in.
    pub fn phase(&self) -> (phase: EchoPhase)
        ensures
            phase == self@,
    {
        self.phase
    }

    /// Advances the handler by one event and says what to do next.
    pub fn step(&mut self, event: EchoEvent) -> (action: EchoAction)
        ensures
            (final(self)@, action@) == echo_spec(old(self)@, event@),
    {
        let phase = self.phase;
        match event {
            EchoEvent::Received(message) => {
                if phase == EchoPhase::Receiving {
                    self.phase = EchoPhase::Sending;
                    EchoAction::Send(message)
                } else {
                    self.phase = EchoPhase::Done;
                    EchoAction::Stop
                }
            },
            EchoEvent::Sent => {
                if phase == EchoPhase::Sending {
                    self.phase = EchoPhase::Receiving;
                    EchoAction::Receive
                } else {
                    self.phase = EchoPhase::Done;
                    EchoAction::Stop
                }
            },
            _ => {
                self.phase = EchoPhase::Done;
                EchoAction::Stop
            },
        }
    }
}

/// The echo is the message itself, whatever the message: in particular it is
/// not the acknowledgment frame.
pub proof fn lemma_echo_is_verbatim(message: MessageView)
    ensures
        echo_spec(EchoPhase::Receiving, EchoEventView::Received(message)) == (
            EchoPhase::Sending,
            EchoActionView::Send(message),
        ),
{
}

/// A handler that has ended stays ended and asks for nothing more.
pub proof fn lemma_echo_done_is_final(event: EchoEventView)
    ensures
        echo_spec(EchoPhase::Done, event) == (EchoPhase::Done, EchoActionView::Stop),
{
}

} // verus!
