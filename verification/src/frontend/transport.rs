//! The transport contract: what every concrete transport offers, and the
//! values that cross it.
//!
//! A transport is asked to connect once and, when that succeeded, to send
//! text messages, one frame per message. The handshake and the writes happen
//! outside this library; a transport here decides what a handshake's report
//! means and what goes on the wire.

use vstd::prelude::*;
use vstd::string::StringSliceAdditionalSpecFns;

verus! {

/// The transport that a negotiation settled on.
#[derive(Debug, Clone, Copy, PartialEq, Eq, Structural)]
pub enum ActiveTransport {
    /// The preferred, multiplexed transport.
    WebTransport,
    /// The widely supported fallback.
    WebSocket,
}

/// The name under which a transport is shown.
pub open spec fn label_spec(transport: ActiveTransport) -> Seq<char> {
    match transport {
        ActiveTransport::WebTransport => "webtransport"@,
        ActiveTransport::WebSocket => "websocket"@,
    }
}

impl ActiveTransport {
    /// The lower-case name of the transport, for display.
    pub fn label(&self) -> (name: &'static str)
        ensures
            name@ == label_spec(*self),
    {
        match self {
            ActiveTransport::WebTransport => "webtransport",
            ActiveTransport::WebSocket => "websocket",
        }
    }
}

/// Why a connection attempt failed.
#[derive(Debug, Clone, Copy, PartialEq, Eq, Structural)]
pub enum ConnectErrorKind {
    /// The peer closed or failed the connection before it opened.
    HandshakeRejected,
    /// The attempt could not be started: the capability is missing or the
    /// address is not one it accepts.
    Unsupported,
    /// The attempt ended without any report.
    Io,
}

/// A failed connection attempt.
#[derive(Debug, PartialEq, Eq)]
pub struct ConnectError {
    pub kind: ConnectErrorKind,
    /// What the environment said about the failure.
    pub detail: String,
}

/// [`ConnectError`] as a mathematical value.
pub struct ConnectErrorView {
    pub kind: ConnectErrorKind,
    pub detail: Seq<char>,
}

impl View for ConnectError {
    type V = ConnectErrorView;

    open spec fn view(&self) -> ConnectErrorView {
        ConnectErrorView { kind: self.kind, detail: self.detail@ }
    }
}

/// What a handshake came to.
#[derive(Debug, PartialEq, Eq)]
pub enum HandshakeReport {
    /// The connection is open.
    Opened,
    /// The connection was closed, or failed, before it opened.
    Refused { reason: String },
    /// The attempt could not be started.
    Unsupported { detail: String },
    /// Nothing was ever reported.
    Abandoned,
}

/// [`HandshakeReport`] as a mathematical value.
pub enum HandshakeReportView {
    Opened,
    Refused { reason: Seq<char> },
    Unsupported { detail: Seq<char> },
    Abandoned,
}

impl View for HandshakeReport {
    type V = HandshakeReportView;

    open spec fn view(&self) -> HandshakeReportView {
        match self {
            HandshakeReport::Opened => HandshakeReportView::Opened,
            HandshakeReport::Refused { reason } => HandshakeReportView::Refused { reason: reason@ },
            HandshakeReport::Unsupported { detail } => HandshakeReportView::Unsupported {
                detail: detail@,
            },
            HandshakeReport::Abandoned => HandshakeReportView::Abandoned,
        }
    }
}

/// The error that a report other than `Opened` stands for.
pub open spec fn failure_of(report: HandshakeReportView) -> ConnectErrorView {
    match report {
        HandshakeReportView::Refused { reason } => ConnectErrorView {
            kind: ConnectErrorKind::HandshakeRejected,
            detail: reason,
        },
        HandshakeReportView::Unsupported { detail } => ConnectErrorView {
            kind: ConnectErrorKind::Unsupported,
            detail,
        },
        _ => ConnectErrorView { kind: ConnectErrorKind::Io, detail: Seq::empty() },
    }
}

/// Turns a report into the outcome of the attempt: success for `Opened`, else
/// the error that the report stands for.
pub fn outcome_of(report: HandshakeReport) -> (outcome: Result<(), ConnectError>)
    ensures
        outcome is Ok <==> report is Opened,
        outcome matches Err(e) ==> e@ == failure_of(report@),
{
    match report {
        HandshakeReport::Opened => Ok(()),
        HandshakeReport::Refused { reason } => Err(
            ConnectError { kind: ConnectErrorKind::HandshakeRejected, detail: reason },
        ),
        HandshakeReport::Unsupported { detail } => Err(
            ConnectError { kind: ConnectErrorKind::Unsupported, detail },
        ),
        HandshakeReport::Abandoned => Err(
            ConnectError { kind: ConnectErrorKind::Io, detail: String::new() },
        ),
    }
}

/// The single-use completion signal of one handshake. The callbacks of a
/// connection all notify the same signal; the first notification settles it
/// and every later one is dropped.
pub struct ConnectSignal {
    report: Option<HandshakeReport>,
}

impl View for ConnectSignal {
    type V = Option<HandshakeReportView>;

    closed spec fn view(&self) -> Option<HandshakeReportView> {
        match self.report {
            Some(report) => Some(report@),
            None => None,
        }
    }
}

/// What a signal holds once `report` has notified it: what it held before,
/// if it held anything, else the report.
pub open spec fn notify_spec(
    held: Option<HandshakeReportView>,
    report: HandshakeReportView,
) -> Option<HandshakeReportView> {
    if held is Some {
        held
    } else {
        Some(report)
    }
}

/// What a signal holds once every one of `reports` has notified it, in order.
pub open spec fn notified(
    start: Option<HandshakeReportView>,
    reports: Seq<HandshakeReportView>,
) -> Option<HandshakeReportView>
    decreases reports.len(),
{
    if reports.len() == 0 {
        start
    } else {
        notify_spec(notified(start, reports.drop_last()), reports.last())
    }
}

/// The first notification wins: however many follow, a signal that was
/// unsettled holds the report that reached it first, and a signal that was
/// settled holds what it held.
pub proof fn lemma_first_notification_wins(
    start: Option<HandshakeReportView>,
    reports: Seq<HandshakeReportView>,
)
    ensures
        start is Some ==> notified(start, reports) == start,
        start is None && reports.len() > 0 ==> notified(start, reports) == Some(reports[0]),
    decreases reports.len(),
{
    if reports.len() > 0 {
        lemma_first_notification_wins(start, reports.drop_last());
        if reports.len() > 1 {
            assert(reports.drop_last()[0] == reports[0]);
        }
    }
}

/// What a handshake came to when its signal is read: the report that settled
/// it, or `Abandoned` when none did.
pub open spec fn report_of(signal: Option<HandshakeReportView>) -> HandshakeReportView {
    match signal {
        Some(report) => report,
        None => HandshakeReportView::Abandoned,
    }
}

impl ConnectSignal {
    /// A signal that nothing has settled yet.
    pub fn new() -> (signal: ConnectSignal)
        ensures
            signal@ is None,
    {
        ConnectSignal { report: None }
    }

    /// Whether a notification has settled the signal.
    pub fn is_settled(&self) -> (settled: bool)
        ensures
            settled == (self@ is Some),
    {
        self.report.is_some()
    }

    /// Notifies the signal. The first notification settles it; a later one
    /// changes nothing. Returns whether this notification was the first.
    pub fn notify(&mut self, report: HandshakeReport) -> (first: bool)
        ensures
            first == (old(self)@ is None),
            final(self)@ == notify_spec(old(self)@, report@),
    {
        if self.report.is_some() {
            false
        } else {
            self.report = Some(report);
            true
        }
    }

    /// Reads the signal when the handshake is over.
    pub fn finish(self) -> (report: HandshakeReport)
        ensures
            report@ == report_of(self@),
    {
        match self.report {
            Some(report) => report,
            None => HandshakeReport::Abandoned,
        }
    }
}

/// Why a message was not sent.
#[derive(Debug, PartialEq, Eq)]
pub enum SendError {
    /// The connection is closed; nothing was written.
    Closed,
    /// The write was attempted and refused.
    Rejected { detail: String },
}

/// [`SendError`] as a mathematical value.
pub enum SendErrorView {
    Closed,
    Rejected { detail: Seq<char> },
}

impl View for SendError {
    type V = SendErrorView;

    open spec fn view(&self) -> SendErrorView {
        match self {
            SendError::Closed => SendErrorView::Closed,
            SendError::Rejected { detail } => SendErrorView::Rejected { detail: detail@ },
        }
    }
}

/// The channel of a connection that carries its messages.
#[derive(Debug, Clone, Copy, PartialEq, Eq, Structural)]
pub enum Channel {
    /// A bidirectional stream of a WebTransport session.
    BidirectionalStream,
    /// A text message of a WebSocket.
    TextMessage,
}

/// The channel that messages take on each transport.
pub open spec fn channel_of(transport: ActiveTransport) -> Channel {
    match transport {
        ActiveTransport::WebTransport => Channel::BidirectionalStream,
        ActiveTransport::WebSocket => Channel::TextMessage,
    }
}

/// One frame to put on the wire.
#[derive(Debug, PartialEq, Eq)]
pub struct OutboundFrame {
    pub channel: Channel,
    /// The message, UTF-8 encoded.
    pub payload: Vec<u8>,
}

/// [`OutboundFrame`] as a mathematical value.
pub struct OutboundFrameView {
    pub channel: Channel,
    pub payload: Seq<u8>,
}

impl View for OutboundFrame {
    type V = OutboundFrameView;

    open spec fn view(&self) -> OutboundFrameView {
        OutboundFrameView { channel: self.channel, payload: self.payload@ }
    }
}

/// One connection as a mathematical value: the transport it runs over, the
/// number that stands for the underlying socket or session, the address it
/// was opened to, and whether it is still open.
pub struct LinkView {
    pub transport: ActiveTransport,
    pub id: u64,
    pub server_url: Seq<char>,
    pub open: bool,
}

/// The connection that a successful handshake yields.
pub open spec fn opened_link(transport: ActiveTransport, server_url: Seq<char>, id: u64) -> LinkView {
    LinkView { transport, id, server_url, open: true }
}

/// What sending `message` over `link` comes to: on an open connection exactly
/// one frame that holds the message's bytes, on the transport's channel; on a
/// closed one an error.
pub open spec fn send_spec(link: LinkView, message: Seq<u8>) -> Result<
    OutboundFrameView,
    SendErrorView,
> {
    if link.open {
        Ok(OutboundFrameView { channel: channel_of(link.transport), payload: message })
    } else {
        Err(SendErrorView::Closed)
    }
}

/// The capability that each concrete transport implements.
pub trait Transport: Sized {
    /// The connection as a mathematical value.
    spec fn link(&self) -> LinkView;

    /// The transport this type stands for.
    spec fn transport() -> ActiveTransport;

    /// Concludes one connection attempt to `server_url`. `id` names the
    /// socket or session that the attempt used, `report` is what the
    /// handshake came to. The attempt succeeded exactly if the report is
    /// `Opened`; nothing is retried.
    fn connect(server_url: &str, id: u64, report: HandshakeReport) -> (connected: Result<
        Self,
        ConnectError,
    >)
        ensures
            connected is Ok <==> report is Opened,
            connected matches Ok(transport) ==> transport.link() == opened_link(
                Self::transport(),
                server_url@,
                id,
            ),
            connected matches Err(e) ==> e@ == failure_of(report@),
    ;

    /// Frames `message` for the wire: one frame per call, nothing buffered.
    fn send(&self, message: &str) -> (frame: Result<OutboundFrame, SendError>)
        ensures
            frame is Ok <==> self.link().open,
            frame matches Ok(f) ==> Ok::<OutboundFrameView, SendErrorView>(f@) == send_spec(
                self.link(),
                message.spec_bytes(),
            ),
            frame matches Err(e) ==> Err::<OutboundFrameView, SendErrorView>(e@) == send_spec(
                self.link(),
                message.spec_bytes(),
            ),
    ;

    /// Records that the connection has closed.
    fn close(&mut self)
        ensures
            final(self).link() == (LinkView { open: false, ..old(self).link() }),
    ;
}

/// Concludes a write: what the caller of `send` is told once the frame was
/// handed to the connection. A refused write is an error of that one call.
pub fn write_outcome(written: Result<(), String>) -> (outcome: Result<(), SendError>)
    ensures
        outcome is Ok <==> written is Ok,
        outcome matches Err(e) ==> written matches Err(detail) && e@ == (SendErrorView::Rejected {
            detail: detail@,
        }),
{
    match written {
        Ok(()) => Ok(()),
        Err(detail) => Err(SendError::Rejected { detail }),
    }
}

} // verus!
