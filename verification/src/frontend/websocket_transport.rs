//! The WebSocket transport: one persistent full-duplex connection that
//! carries each message as one text message.

use crate::frontend::transport::{
    outcome_of, ActiveTransport, Channel, ConnectError, HandshakeReport, HandshakeReportView,
    LinkView, OutboundFrame, SendError, Transport,
};
use vstd::prelude::*;
use vstd::string::StrSliceExecFns;

verus! {

/// What a socket reports through its callbacks.
#[derive(Debug, PartialEq, Eq)]
pub enum SocketEvent {
    /// The connection is established.
    Open,
    /// The socket failed.
    Error { message: String },
    /// The socket closed.
    Close,
    /// A message arrived.
    Message,
}

/// [`SocketEvent`] as a mathematical value.
pub enum SocketEventView {
    Open,
    Error { message: Seq<char> },
    Close,
    Message,
}

impl View for SocketEvent {
    type V = SocketEventView;

    open spec fn view(&self) -> SocketEventView {
        match self {
            SocketEvent::Open => SocketEventView::Open,
            SocketEvent::Error { message } => SocketEventView::Error { message: message@ },
            SocketEvent::Close => SocketEventView::Close,
            SocketEvent::Message => SocketEventView::Message,
        }
    }
}

/// What a socket event means to a handshake that is still under way: `Open`
/// completes it, `Error` and `Close` fail it, a message says nothing.
pub open spec fn report_spec(event: SocketEventView) -> Option<HandshakeReportView> {
    match event {
        SocketEventView::Open => Some(HandshakeReportView::Opened),
        SocketEventView::Error { message } => Some(HandshakeReportView::Refused { reason: message }),
        SocketEventView::Close => Some(HandshakeReportView::Refused { reason: Seq::empty() }),
        SocketEventView::Message => None,
    }
}

/// Turns a socket event into the report it makes to the handshake.
pub fn handshake_report(event: SocketEvent) -> (report: Option<HandshakeReport>)
    ensures
        report is Some <==> report_spec(event@) is Some,
        report matches Some(r) ==> Some(r@) == report_spec(event@),
{
    match event {
        SocketEvent::Open => Some(HandshakeReport::Opened),
        SocketEvent::Error { message } => Some(HandshakeReport::Refused { reason: message }),
        SocketEvent::Close => Some(HandshakeReport::Refused { reason: String::new() }),
        SocketEvent::Message => None,
    }
}

/// An established WebSocket connection.
#[derive(Debug)]
pub struct WebSocketTransport {
    id: u64,
    server_url: String,
    open: bool,
}

impl View for WebSocketTransport {
    type V = LinkView;

    closed spec fn view(&self) -> LinkView {
        LinkView {
            transport: ActiveTransport::WebSocket,
            id: self.id,
            server_url: self.server_url@,
            open: self.open,
        }
    }
}

impl WebSocketTransport {
    /// The number that stands for the underlying socket.
    pub fn id(&self) -> (id: u64)
        ensures
            id == self@.id,
    {
        self.id
    }

    /// The address the connection was opened to.
    pub fn server_url(&self) -> (server_url: &str)
        ensures
            server_url@ == self@.server_url,
    {
        self.server_url.as_str()
    }

    /// Whether the connection is still open.
    pub fn is_open(&self) -> (open: bool)
        ensures
            open == self@.open,
    {
        self.open
    }

    /// The transport is part of the type.
    pub proof fn lemma_transport(&self)
        ensures
            self@.transport == ActiveTransport::WebSocket,
            self.link() == self@,
    {
    }
}

impl Transport for WebSocketTransport {
    closed spec fn link(&self) -> LinkView {
        self@
    }

    open spec fn transport() -> ActiveTransport {
        ActiveTransport::WebSocket
    }

    fn connect(server_url: &str, id: u64, report: HandshakeReport) -> (connected: Result<
        Self,
        ConnectError,
    >) {
        match outcome_of(report) {
            Ok(()) => Ok(WebSocketTransport { id, server_url: server_url.to_owned(), open: true }),
            Err(e) => Err(e),
        }
    }

    fn send(&self, message: &str) -> (frame: Result<OutboundFrame, SendError>) {
        if self.open {
            Ok(OutboundFrame { channel: Channel::TextMessage, payload: message.as_bytes_vec() })
        } else {
            Err(SendError::Closed)
        }
    }

    fn close(&mut self) {
        self.open = false;
    }
}

} // verus!
