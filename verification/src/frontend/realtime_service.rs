//! The realtime service: the one place through which the rest of an
//! application talks to the negotiated connection.

use crate::frontend::transport::{
    send_spec, ActiveTransport, LinkView, OutboundFrame, OutboundFrameView, SendError,
    SendErrorView,
};
use crate::frontend::transport_manager::ConnectionHandle;
use vstd::prelude::*;
use vstd::std_specs::cmp::PartialEqSpecImpl;
use vstd::string::StringSliceAdditionalSpecFns;

verus! {

/// Holds the negotiated connection and forwards messages to it. A service
/// has exactly one connection, and no two services share one.
#[derive(Debug)]
pub struct RealtimeService {
    transport: ConnectionHandle,
}

impl View for RealtimeService {
    type V = LinkView;

    closed spec fn view(&self) -> LinkView {
        self.transport@
    }
}

impl RealtimeService {
    /// Takes over the connection that a negotiation established.
    pub fn new(transport: ConnectionHandle) -> (service: RealtimeService)
        ensures
            service@ == transport@,
    {
        RealtimeService { transport }
    }

    /// The transport that was negotiated.
    pub fn active_transport(&self) -> (transport: ActiveTransport)
        ensures
            transport == self@.transport,
    {
        self.transport.transport()
    }

    /// The number that stands for the underlying socket or session.
    pub fn connection_id(&self) -> (id: u64)
        ensures
            id == self@.id,
    {
        self.transport.id()
    }

    /// Frames `message` for the connection: exactly one frame that holds the
    /// message's bytes, or `SendError::Closed` when the connection is closed.
    /// Nothing is retried and nothing renegotiated.
    pub fn send(&self, message: &str) -> (frame: Result<OutboundFrame, SendError>)
        ensures
            frame is Ok <==> self@.open,
            frame matches Ok(f) ==> Ok::<OutboundFrameView, SendErrorView>(f@) == send_spec(
                self@,
                message.spec_bytes(),
            ),
            frame matches Err(e) ==> Err::<OutboundFrameView, SendErrorView>(e@) == send_spec(
                self@,
                message.spec_bytes(),
            ),
    {
        self.transport.send(message)
    }

    /// Records that the connection has closed. Every later `send` fails.
    pub fn connection_closed(&mut self)
        ensures
            final(self)@ == (LinkView { open: false, ..old(self)@ }),
    {
        self.transport.close()
    }
}

impl PartialEq for RealtimeService {
    /// Two services are the same if they hold the same connection.
    fn eq(&self, other: &Self) -> (same: bool) {
        self.transport.id() == other.transport.id() && self.transport.transport()
            == other.transport.transport()
    }
}

impl PartialEqSpecImpl for RealtimeService {
    open spec fn obeys_eq_spec() -> bool {
        true
    }

    open spec fn eq_spec(&self, other: &Self) -> bool {
        self@.id == other@.id && self@.transport == other@.transport
    }
}

} // verus!
