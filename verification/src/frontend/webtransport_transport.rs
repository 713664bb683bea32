//! The WebTransport transport: a session of independent streams and
//! datagrams, which carries each message on a bidirectional stream.

use crate::frontend::transport::{
    outcome_of, ActiveTransport, Channel, ConnectError, HandshakeReport, HandshakeReportView,
    LinkView, OutboundFrame, SendError, Transport,
};
use vstd::prelude::*;
use vstd::string::StrSliceExecFns;

verus! {

/// What a session reports about itself.
#[derive(Debug, PartialEq, Eq)]
pub enum WebTransportStatus {
    /// The session has opened.
    Opened,
    /// The session has closed, for this reason.
    Closed(String),
    /// The session has failed, for this reason.
    Error(String),
}

/// [`WebTransportStatus`] as a mathematical value.
pub enum WebTransportStatusView {
    Opened,
    Closed(Seq<char>),
    Error(Seq<char>),
}

impl View for WebTransportStatus {
    type V = WebTransportStatusView;

    open spec fn view(&self) -> WebTransportStatusView {
        match self {
            WebTransportStatus::Opened => WebTransportStatusView::Opened,
            WebTransportStatus::Closed(reason) => WebTransportStatusView::Closed(reason@),
            WebTransportStatus::Error(reason) => WebTransportStatusView::Error(reason@),
        }
    }
}

/// What a status means to a handshake that is still under way: `Opened`
/// completes it, `Closed` and `Error` fail it with their reason.
pub open spec fn report_spec(status: WebTransportStatusView) -> HandshakeReportView {
    match status {
        WebTransportStatusView::Opened => HandshakeReportView::Opened,
        WebTransportStatusView::Closed(reason) => HandshakeReportView::Refused { reason },
        WebTransportStatusView::Error(reason) => HandshakeReportView::Refused { reason },
    }
}

/// Turns a status notification into the report it makes to the
/// handshake.
pub fn handshake_report(status: WebTransportStatus) -> (report: HandshakeReport)
    ensures
        report@ == report_spec(status@),
{
    match status {
        WebTransportStatus::Opened => HandshakeReport::Opened,
        WebTransportStatus::Closed(reason) => HandshakeReport::Refused { reason },
        WebTransportStatus::Error(reason) => HandshakeReport::Refused { reason },
    }
}

/// An established WebTransport session.
#[derive(Debug)]
pub struct WebTransportTransport {
    id: u64,
    server_url: String,
    open: bool,
}

impl View for WebTransportTransport {
    type V = LinkView;

    closed spec fn view(&self) -> LinkView {
        LinkView {
            transport: ActiveTransport::WebTransport,
            id: self.id,
            server_url: self.server_url@,
            open: self.open,
        }
    }
}

impl WebTransportTransport {
    /// The number that stands for the underlying session.
    pub fn id(&self) -> (id: u64)
        ensures
            id == self@.id,
    {
        self.id
    }

    /// The address the session was opened to.
    pub fn server_url(&self) -> (server_url: &str)
        ensures
            server_url@ == self@.server_url,
    {
        self.server_url.as_str()
    }

    /// Whether the session is still open.
    pub fn is_open(&self) -> (open: bool)
        ensures
            open == self@.open,
    {
        self.open
    }

    /// The transport is part of the type.
    pub proof fn lemma_transport(&self)
        ensures
            self@.transport == ActiveTransport::WebTransport,
            self.link() == self@,
    {
    }
}

impl Transport for WebTransportTransport {
    closed spec fn link(&self) -> LinkView {
        self@
    }

    open spec fn transport() -> ActiveTransport {
        ActiveTransport::WebTransport
    }

    fn connect(server_url: &str, id: u64, report: HandshakeReport) -> (connected: Result<
        Self,
        ConnectError,
    >) {
        match outcome_of(report) {
            Ok(()) => Ok(
                WebTransportTransport { id, server_url: server_url.to_owned(), open: true },
            ),
            Err(e) => Err(e),
        }
    }

    fn send(&self, message: &str) -> (frame: Result<OutboundFrame, SendError>) {
        if self.open {
            Ok(
                OutboundFrame {
                    channel: Channel::BidirectionalStream,
                    payload: message.as_bytes_vec(),
                },
            )
        } else {
            Err(SendError::Closed)
        }
    }

    fn close(&mut self) {
        self.open = false;
    }
}

} // verus!
