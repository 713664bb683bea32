//! Negotiation: WebTransport first, WebSocket when that fails, strictly one
//! attempt after the other.
//!
//! A [`TransportManager`] always has exactly one attempt outstanding. Telling
//! it how that attempt ended uses it up; what comes back is either the
//! manager of the next attempt or the end of the negotiation.

use crate::frontend::transport::{
    failure_of, opened_link, send_spec, ActiveTransport, ConnectError, ConnectErrorView,
    HandshakeReport, HandshakeReportView, LinkView, OutboundFrame, OutboundFrameView, SendError,
    SendErrorView, Transport,
};
use crate::frontend::websocket_transport::WebSocketTransport;
use crate::frontend::webtransport_transport::WebTransportTransport;
use vstd::prelude::*;
use vstd::string::StringSliceAdditionalSpecFns;

verus! {

/// An established connection over one of the two transports. Whoever holds
/// the handle is the only one who can use the connection.
#[derive(Debug)]
pub enum ConnectionHandle {
    WebTransport(WebTransportTransport),
    WebSocket(WebSocketTransport),
}

impl View for ConnectionHandle {
    type V = LinkView;

    open spec fn view(&self) -> LinkView {
        match self {
            ConnectionHandle::WebTransport(transport) => transport@,
            ConnectionHandle::WebSocket(transport) => transport@,
        }
    }
}

impl ConnectionHandle {
    /// The transport the connection runs over.
    pub fn transport(&self) -> (transport: ActiveTransport)
        ensures
            transport == self@.transport,
    {
        match self {
            ConnectionHandle::WebTransport(t) => {
                proof {
                    t.lemma_transport();
                }
                ActiveTransport::WebTransport
            },
            ConnectionHandle::WebSocket(t) => {
                proof {
                    t.lemma_transport();
                }
                ActiveTransport::WebSocket
            },
        }
    }

    /// The number that stands for the underlying socket or session.
    pub fn id(&self) -> (id: u64)
        ensures
            id == self@.id,
    {
        match self {
            ConnectionHandle::WebTransport(t) => t.id(),
            ConnectionHandle::WebSocket(t) => t.id(),
        }
    }

    /// Whether the connection is still open.
    pub fn is_open(&self) -> (open: bool)
        ensures
            open == self@.open,
    {
        match self {
            ConnectionHandle::WebTransport(t) => t.is_open(),
            ConnectionHandle::WebSocket(t) => t.is_open(),
        }
    }

    /// Frames `message` for the wire, as the transport of the connection
    /// does.
    pub fn send(&self, message: &str) -> (frame: Result<OutboundFrame, SendError>)
        ensures
            frame is Ok <==> self@.open,
            frame matches Ok(f) ==> Ok::<OutboundFrameView, SendErrorView>(f@) == send_spec(
                self@,
                message.spec_bytes(),
            ),
            frame matches Err(e) ==> Err::<OutboundFrameView, SendErrorView>(e@) == send_spec(
                self@,
                message.spec_bytes(),
            ),
    {
        match self {
            ConnectionHandle::WebTransport(t) => {
                proof {
                    t.lemma_transport();
                }
                t.send(message)
            },
            ConnectionHandle::WebSocket(t) => {
                proof {
                    t.lemma_transport();
                }
                t.send(message)
            },
        }
    }

    /// Records that the connection has closed.
    pub fn close(&mut self)
        ensures
            final(self)@ == (LinkView { open: false, ..old(self)@ }),
    {
        match self {
            ConnectionHandle::WebTransport(t) => {
                proof {
                    t.lemma_transport();
                }
                t.close();
                proof {
                    t.lemma_transport();
                }
            },
            ConnectionHandle::WebSocket(t) => {
                proof {
                    t.lemma_transport();
                }
                t.close();
                proof {
                    t.lemma_transport();
                }
            },
        }
    }
}

/// Both transports failed. The WebSocket failure ended the negotiation; the
/// WebTransport failure that came before it is kept beside it.
#[derive(Debug, PartialEq, Eq)]
pub struct NegotiationError {
    pub modern: ConnectError,
    pub fallback: ConnectError,
}

/// [`NegotiationError`] as a mathematical value.
pub struct NegotiationErrorView {
    pub modern: ConnectErrorView,
    pub fallback: ConnectErrorView,
}

impl View for NegotiationError {
    type V = NegotiationErrorView;

    open spec fn view(&self) -> NegotiationErrorView {
        NegotiationErrorView { modern: self.modern@, fallback: self.fallback@ }
    }
}

/// A negotiation with one attempt outstanding: the WebTransport attempt
/// until it has failed, the WebSocket attempt from then on.
#[derive(Debug)]
pub struct TransportManager {
    server_url: String,
    modern_failure: Option<ConnectError>,
}

/// [`TransportManager`] as a mathematical value.
pub struct ManagerView {
    pub server_url: Seq<char>,
    /// How the WebTransport attempt failed, once it has.
    pub modern_failure: Option<ConnectErrorView>,
}

impl View for TransportManager {
    type V = ManagerView;

    closed spec fn view(&self) -> ManagerView {
        ManagerView {
            server_url: self.server_url@,
            modern_failure: match self.modern_failure {
                Some(e) => Some(e@),
                None => None,
            },
        }
    }
}

/// How one step of a negotiation ends.
#[derive(Debug)]
pub enum Negotiation {
    /// The attempt failed and another transport is left: connect over
    /// `pending()` of this manager next.
    Attempt(TransportManager),
    /// The attempt succeeded: the connection, and the transport it runs over.
    Established(ConnectionHandle, ActiveTransport),
    /// The last attempt failed too.
    Failed(NegotiationError),
}

/// [`Negotiation`] as a mathematical value.
pub enum NegotiationView {
    Attempt(ManagerView),
    Established(LinkView, ActiveTransport),
    Failed(NegotiationErrorView),
}

impl View for Negotiation {
    type V = NegotiationView;

    open spec fn view(&self) -> NegotiationView {
        match self {
            Negotiation::Attempt(manager) => NegotiationView::Attempt(manager@),
            Negotiation::Established(handle, transport) => NegotiationView::Established(
                handle@,
                *transport,
            ),
            Negotiation::Failed(error) => NegotiationView::Failed(error@),
        }
    }
}

/// The transport whose attempt is outstanding: WebSocket once the
/// WebTransport attempt has failed, and not before.
pub open spec fn pending_spec(manager: ManagerView) -> ActiveTransport {
    if manager.modern_failure is Some {
        ActiveTransport::WebSocket
    } else {
        ActiveTransport::WebTransport
    }
}

/// The manager a negotiation with `server_url` starts from: nothing has
/// failed yet.
pub open spec fn start_spec(server_url: Seq<char>) -> ManagerView {
    ManagerView { server_url, modern_failure: None }
}

/// The step of a negotiation: what follows when the outstanding attempt of
/// `manager` ends with `report`, on the socket or session `id`.
pub open spec fn attempt_finished_spec(
    manager: ManagerView,
    id: u64,
    report: HandshakeReportView,
) -> NegotiationView {
    if report is Opened {
        NegotiationView::Established(
            opened_link(pending_spec(manager), manager.server_url, id),
            pending_spec(manager),
        )
    } else {
        match manager.modern_failure {
            None => NegotiationView::Attempt(
                ManagerView {
                    server_url: manager.server_url,
                    modern_failure: Some(failure_of(report)),
                },
            ),
            Some(modern) => NegotiationView::Failed(
                NegotiationErrorView { modern, fallback: failure_of(report) },
            ),
        }
    }
}

/// A whole negotiation: what comes of it when the WebTransport attempt ends
/// as `modern` says and the WebSocket attempt, if it is made, as `fallback`
/// says. Each is the number of the socket or session and the report of its
/// handshake.
pub open spec fn negotiate_spec(
    server_url: Seq<char>,
    modern: (u64, HandshakeReportView),
    fallback: (u64, HandshakeReportView),
) -> NegotiationView {
    match attempt_finished_spec(start_spec(server_url), modern.0, modern.1) {
        NegotiationView::Attempt(manager) => attempt_finished_spec(manager, fallback.0, fallback.1),
        done => done,
    }
}

impl TransportManager {
    /// Starts a negotiation for `server_url`. The first attempt to make is
    /// the WebTransport one.
    pub fn new(server_url: &str) -> (manager: TransportManager)
        ensures
            manager@ == start_spec(server_url@),
    {
        TransportManager { server_url: server_url.to_owned(), modern_failure: None }
    }

    /// The transport over which to connect now.
    pub fn pending(&self) -> (pending: ActiveTransport)
        ensures
            pending == pending_spec(self@),
    {
        if self.modern_failure.is_some() {
            ActiveTransport::WebSocket
        } else {
            ActiveTransport::WebTransport
        }
    }

    /// The address to connect to.
    pub fn server_url(&self) -> (server_url: &str)
        ensures
            server_url@ == self@.server_url,
    {
        self.server_url.as_str()
    }

    /// How the WebTransport attempt failed, once it has.
    pub fn modern_failure(&self) -> (failure: Option<&ConnectError>)
        ensures
            failure is Some <==> self@.modern_failure is Some,
            failure matches Some(e) ==> Some(e@) == self@.modern_failure,
    {
        self.modern_failure.as_ref()
    }

    /// Concludes the outstanding attempt. `id` names the socket or session
    /// that the attempt used, `report` is what its handshake came to.
    ///
    /// A success ends the negotiation with a connection over the transport
    /// that was pending. A failure of WebTransport asks for the WebSocket
    /// attempt; a failure of WebSocket ends the negotiation with both
    /// failures.
    pub fn attempt_finished(self, id: u64, report: HandshakeReport) -> (next: Negotiation)
        ensures
            next@ == attempt_finished_spec(self@, id, report@),
    {
        let TransportManager { server_url, modern_failure } = self;
        match modern_failure {
            None => {
                match WebTransportTransport::connect(server_url.as_str(), id, report) {
                    Ok(transport) => {
                        proof {
                            transport.lemma_transport();
                        }
                        Negotiation::Established(
                            ConnectionHandle::WebTransport(transport),
                            ActiveTransport::WebTransport,
                        )
                    },
                    Err(e) => Negotiation::Attempt(
                        TransportManager { server_url, modern_failure: Some(e) },
                    ),
                }
            },
            Some(modern) => {
                match WebSocketTransport::connect(server_url.as_str(), id, report) {
                    Ok(transport) => {
                        proof {
                            transport.lemma_transport();
                        }
                        Negotiation::Established(
                            ConnectionHandle::WebSocket(transport),
                            ActiveTransport::WebSocket,
                        )
                    },
                    Err(fallback) => Negotiation::Failed(NegotiationError { modern, fallback }),
                }
            },
        }
    }
}

/// A negotiation starts with the WebTransport attempt.
pub proof fn lemma_modern_attempt_comes_first(server_url: Seq<char>)
    ensures
        pending_spec(start_spec(server_url)) == ActiveTransport::WebTransport,
{
}

/// The WebSocket attempt is asked for only by the failure of the WebTransport
/// attempt: a step yields a manager that waits for WebSocket only from a
/// manager that waited for WebTransport, on a report other than `Opened`, and
/// the new manager holds that failure.
pub proof fn lemma_fallback_follows_modern_failure(
    manager: ManagerView,
    id: u64,
    report: HandshakeReportView,
)
    ensures
        attempt_finished_spec(manager, id, report) matches NegotiationView::Attempt(next) ==> {
            &&& pending_spec(manager) == ActiveTransport::WebTransport
            &&& !(report is Opened)
            &&& pending_spec(next) == ActiveTransport::WebSocket
            &&& next.modern_failure == Some(failure_of(report))
        },
{
}

/// The attempts that a negotiation makes, in order, when it starts from
/// `manager` and its attempts end as `outcomes` say, one after the other: the
/// attempt that is outstanding, and after each failure that leaves a
/// transport to try, the attempt over that transport.
pub open spec fn attempts(
    manager: ManagerView,
    outcomes: Seq<(u64, HandshakeReportView)>,
) -> Seq<ActiveTransport>
    decreases outcomes.len(),
{
    if outcomes.len() == 0 {
        seq![pending_spec(manager)]
    } else {
        match attempt_finished_spec(manager, outcomes[0].0, outcomes[0].1) {
            NegotiationView::Attempt(next) => seq![pending_spec(manager)] + attempts(
                next,
                outcomes.drop_first(),
            ),
            _ => seq![pending_spec(manager)],
        }
    }
}

/// However its attempts end, a negotiation attempts WebTransport first, and
/// WebSocket second or not at all: WebSocket is attempted exactly when the
/// WebTransport attempt has ended, and ended in failure. No third attempt
/// is made.
pub proof fn lemma_attempts_in_order(
    server_url: Seq<char>,
    outcomes: Seq<(u64, HandshakeReportView)>,
)
    ensures
        attempts(start_spec(server_url), outcomes) == if outcomes.len() > 0 && !(
        outcomes[0].1 is Opened) {
            seq![ActiveTransport::WebTransport, ActiveTransport::WebSocket]
        } else {
            seq![ActiveTransport::WebTransport]
        },
{
    let start = start_spec(server_url);
    if outcomes.len() > 0 && !(outcomes[0].1 is Opened) {
        let next = ManagerView {
            server_url,
            modern_failure: Some(failure_of(outcomes[0].1)),
        };
        let rest = outcomes.drop_first();
        assert(attempt_finished_spec(start, outcomes[0].0, outcomes[0].1)
            == NegotiationView::Attempt(next));
        assert(attempts(next, rest) =~= seq![ActiveTransport::WebSocket]) by {
            if rest.len() > 0 {
                assert(!(attempt_finished_spec(next, rest[0].0, rest[0].1) is Attempt));
            }
        }
        assert(attempts(start, outcomes) =~= seq![
            ActiveTransport::WebTransport,
            ActiveTransport::WebSocket,
        ]);
    }
}

/// When the WebTransport attempt succeeds the negotiation ends there, with a
/// connection over WebTransport, whatever the WebSocket attempt would have
/// come to.
pub proof fn lemma_modern_success_decides(
    server_url: Seq<char>,
    modern: (u64, HandshakeReportView),
    fallback: (u64, HandshakeReportView),
)
    requires
        modern.1 is Opened,
    ensures
        negotiate_spec(server_url, modern, fallback) == NegotiationView::Established(
            opened_link(ActiveTransport::WebTransport, server_url, modern.0),
            ActiveTransport::WebTransport,
        ),
{
}

/// When the WebTransport attempt fails and the WebSocket attempt succeeds,
/// the negotiation ends with a connection over WebSocket.
pub proof fn lemma_fallback_success_decides(
    server_url: Seq<char>,
    modern: (u64, HandshakeReportView),
    fallback: (u64, HandshakeReportView),
)
    requires
        !(modern.1 is Opened),
        fallback.1 is Opened,
    ensures
        negotiate_spec(server_url, modern, fallback) == NegotiationView::Established(
            opened_link(ActiveTransport::WebSocket, server_url, fallback.0),
            ActiveTransport::WebSocket,
        ),
{
}

/// When both attempts fail the negotiation ends with an error that holds
/// both failures, and with no connection.
pub proof fn lemma_both_failures_fail(
    server_url: Seq<char>,
    modern: (u64, HandshakeReportView),
    fallback: (u64, HandshakeReportView),
)
    requires
        !(modern.1 is Opened),
        !(fallback.1 is Opened),
    ensures
        negotiate_spec(server_url, modern, fallback) == NegotiationView::Failed(
            NegotiationErrorView { modern: failure_of(modern.1), fallback: failure_of(fallback.1) },
        ),
{
}

/// The kind that a negotiation reports is that of the connection it hands
/// over, and the connection is open.
pub proof fn lemma_established_kind_matches(
    server_url: Seq<char>,
    modern: (u64, HandshakeReportView),
    fallback: (u64, HandshakeReportView),
)
    ensures
        negotiate_spec(server_url, modern, fallback) matches NegotiationView::Established(
            link,
            transport,
        ) ==> link.transport == transport && link.open && link.server_url == server_url,
        !(negotiate_spec(server_url, modern, fallback) is Attempt),
{
}

} // verus!
