//! The server's WebTransport side: the listener that numbers incoming
//! sessions, and the per-connection multiplexer that answers every stream and
//! datagram with the acknowledgment frame.
//!
//! A connection is serviced by feeding [`Session::step`] the outcome of the
//! operation it asked for last and performing the operation it asks for next.
//! Only one operation is ever outstanding, and the scratch buffer travels
//! with it: it leaves the session inside [`Action::Read`] and comes back
//! inside [`Event::ReadCompleted`].

use crate::frame::{
    ack, ack_frame, clip, clipped, decode_frame, valid_prefix_len, ProtocolDecodeError,
    MAX_FRAME_LEN,
};
use vstd::prelude::*;
use vstd::slice::slice_subrange;
use vstd::utf8::valid_utf8;

verus! {

/// The UDP port the listener binds.
pub const WEBTRANSPORT_PORT: u16 = 4433;

/// Seconds between keep-alive packets on an idle connection.
pub const KEEP_ALIVE_SECS: u64 = 3;

/// The two kinds of stream a client can open.
#[derive(Debug, Clone, Copy, PartialEq, Eq, Structural)]
pub enum StreamKind {
    /// Both peers can write; the reply goes back on the same stream.
    Bidirectional,
    /// Only the opener can write; the reply needs a stream of its own.
    Unidirectional,
}

/// The life cycle of one connection.
#[derive(Debug, Clone, Copy, PartialEq, Eq, Structural)]
pub enum ConnectionState {
    /// The session request has not arrived yet.
    AwaitingSession,
    /// The request was inspected and is being accepted.
    Accepted,
    /// The connection answers streams and datagrams.
    Servicing,
    /// The connection has ended.
    Closed,
}

/// Where a connection stands: its state, and within `Servicing` the operation
/// that is outstanding.
#[derive(Debug, Clone, Copy, PartialEq, Eq, Structural)]
pub enum Phase {
    /// Waiting for the session request.
    AwaitingSession,
    /// Waiting for the acceptance of the session to complete.
    Accepted,
    /// Racing the three sources: a new bidirectional stream, a new
    /// unidirectional stream, a datagram.
    Idle,
    /// Reading from an accepted stream; the scratch buffer is with the read.
    Reading(StreamKind),
    /// Opening the stream that will carry the reply to a unidirectional
    /// stream.
    OpeningReply,
    /// Writing the acknowledgment to a stream.
    Writing(StreamKind),
    /// Sending the acknowledgment datagram.
    SendingDatagram,
    /// Finished.
    Closed,
}

/// Why a connection was closed.
#[derive(Debug, PartialEq, Eq)]
pub enum SessionError {
    /// The transport reported a failure.
    Io { detail: String },
    /// A payload was not valid UTF-8.
    Decode(ProtocolDecodeError),
    /// An event arrived that the outstanding operation cannot produce.
    OutOfTurn,
}

/// The outcome of the operation a session asked for.
#[derive(Debug, PartialEq, Eq)]
pub enum Event {
    /// The session request arrived, for this authority and this path.
    SessionRequested { authority: String, path: String },
    /// The session was accepted.
    SessionAccepted,
    /// The race was won by a new stream of this kind.
    StreamAccepted(StreamKind),
    /// The read finished. `bytes_read` is the number of bytes now at the
    /// front of `buffer`, or `None` when the stream ended before it gave any:
    /// that is how an empty payload arrives.
    ReadCompleted { buffer: Vec<u8>, bytes_read: Option<usize> },
    /// The reply stream is open.
    ReplyStreamOpened,
    /// The acknowledgment was written to the stream.
    ReplyWritten,
    /// The race was won by a datagram with this payload.
    DatagramReceived(Vec<u8>),
    /// The acknowledgment datagram was handed to the transport.
    DatagramSent,
    /// The operation failed.
    Failed { detail: String },
}

/// The operation a session asks for next.
#[derive(Debug, PartialEq, Eq)]
pub enum Action {
    /// Accept the session request.
    AcceptSession,
    /// Wait for whichever comes first: a new bidirectional stream, a new
    /// unidirectional stream, or a datagram.
    AwaitNext,
    /// Read once from the stream just accepted, into `buffer`.
    Read { kind: StreamKind, buffer: Vec<u8> },
    /// Open a new server-initiated unidirectional stream.
    OpenReplyStream,
    /// Write `payload` to the stream that carries the reply: for
    /// `Bidirectional` the stream the frame came on, for `Unidirectional` the
    /// reply stream just opened.
    Write { on: StreamKind, payload: Vec<u8> },
    /// Send one datagram holding `payload`.
    SendDatagram { payload: Vec<u8> },
    /// Stop servicing the connection and release its streams.
    Close { error: SessionError },
}

/// [`SessionError`] as a mathematical value.
pub enum SessionErrorView {
    Io { detail: Seq<char> },
    Decode(ProtocolDecodeError),
    OutOfTurn,
}

/// [`Event`] as a mathematical value.
pub enum EventView {
    SessionRequested { authority: Seq<char>, path: Seq<char> },
    SessionAccepted,
    StreamAccepted(StreamKind),
    ReadCompleted { buffer: Seq<u8>, bytes_read: Option<usize> },
    ReplyStreamOpened,
    ReplyWritten,
    DatagramReceived(Seq<u8>),
    DatagramSent,
    Failed { detail: Seq<char> },
}

/// [`Action`] as a mathematical value. Of a buffer that is lent out only the
/// length matters.
pub enum ActionView {
    AcceptSession,
    AwaitNext,
    Read { kind: StreamKind, capacity: nat },
    OpenReplyStream,
    Write { on: StreamKind, payload: Seq<u8> },
    SendDatagram { payload: Seq<u8> },
    Close { error: SessionErrorView },
}

impl View for SessionError {
    type V = SessionErrorView;

    open spec fn view(&self) -> SessionErrorView {
        match self {
            SessionError::Io { detail } => SessionErrorView::Io { detail: detail@ },
            SessionError::Decode(e) => SessionErrorView::Decode(*e),
            SessionError::OutOfTurn => SessionErrorView::OutOfTurn,
        }
    }
}

impl View for Event {
    type V = EventView;

    open spec fn view(&self) -> EventView {
        match self {
            Event::SessionRequested { authority, path } => EventView::SessionRequested {
                authority: authority@,
                path: path@,
            },
            Event::SessionAccepted => EventView::SessionAccepted,
            Event::StreamAccepted(kind) => EventView::StreamAccepted(*kind),
            Event::ReadCompleted { buffer, bytes_read } => EventView::ReadCompleted {
                buffer: buffer@,
                bytes_read: *bytes_read,
            },
            Event::ReplyStreamOpened => EventView::ReplyStreamOpened,
            Event::ReplyWritten => EventView::ReplyWritten,
            Event::DatagramReceived(payload) => EventView::DatagramReceived(payload@),
            Event::DatagramSent => EventView::DatagramSent,
            Event::Failed { detail } => EventView::Failed { detail: detail@ },
        }
    }
}

impl View for Action {
    type V = ActionView;

    open spec fn view(&self) -> ActionView {
        match self {
            Action::AcceptSession => ActionView::AcceptSession,
            Action::AwaitNext => ActionView::AwaitNext,
            Action::Read { kind, buffer } => ActionView::Read {
                kind: *kind,
                capacity: buffer@.len(),
            },
            Action::OpenReplyStream => ActionView::OpenReplyStream,
            Action::Write { on, payload } => ActionView::Write { on: *on, payload: payload@ },
            Action::SendDatagram { payload } => ActionView::SendDatagram { payload: payload@ },
            Action::Close { error } => ActionView::Close { error: error@ },
        }
    }
}

/// The state a phase belongs to.
pub open spec fn state_of(phase: Phase) -> ConnectionState {
    match phase {
        Phase::AwaitingSession => ConnectionState::AwaitingSession,
        Phase::Accepted => ConnectionState::Accepted,
        Phase::Closed => ConnectionState::Closed,
        _ => ConnectionState::Servicing,
    }
}

/// The frame that a completed read delivered: the first `bytes_read` bytes of
/// the buffer, never more than the buffer holds nor than a frame can; and the
/// empty frame when the stream ended before it gave any byte.
pub open spec fn frame_read(buffer: Seq<u8>, bytes_read: Option<usize>) -> Seq<u8> {
    match bytes_read {
        None => Seq::empty(),
        Some(n) => if n <= buffer.len() {
            clipped(buffer.subrange(0, n as int))
        } else {
            clipped(buffer)
        },
    }
}

/// What follows the arrival of a frame from `source`: the acknowledgment when
/// the frame is valid UTF-8, else the end of the connection. The reply to a
/// bidirectional stream is written at once; the reply to a unidirectional
/// stream first needs a stream to go on.
pub open spec fn reply_spec(source: Option<StreamKind>, frame: Seq<u8>) -> (Phase, ActionView) {
    if valid_utf8(frame) {
        match source {
            Some(StreamKind::Bidirectional) => (
                Phase::Writing(StreamKind::Bidirectional),
                ActionView::Write { on: StreamKind::Bidirectional, payload: ack_frame() },
            ),
            Some(StreamKind::Unidirectional) => (Phase::OpeningReply, ActionView::OpenReplyStream),
            None => (Phase::SendingDatagram, ActionView::SendDatagram { payload: ack_frame() }),
        }
    } else {
        (
            Phase::Closed,
            ActionView::Close {
                error: SessionErrorView::Decode(
                    ProtocolDecodeError { valid_up_to: valid_prefix_len(frame) as usize },
                ),
            },
        )
    }
}

/// The transition function of a connection: the phase that follows `phase`
/// on `event`, and the operation to perform next.
///
/// A session request is accepted whatever authority and path it names. Each
/// stream is read once and answered once, also when it ended without a
/// byte: the empty payload is a payload. An event that the outstanding
/// operation cannot have produced closes the connection.
pub open spec fn step_spec(phase: Phase, event: EventView) -> (Phase, ActionView) {
    match (phase, event) {
        (Phase::Closed, _) => (
            Phase::Closed,
            ActionView::Close { error: SessionErrorView::OutOfTurn },
        ),
        (_, EventView::Failed { detail }) => (
            Phase::Closed,
            ActionView::Close { error: SessionErrorView::Io { detail } },
        ),
        (Phase::AwaitingSession, EventView::SessionRequested { authority, path }) => (
            Phase::Accepted,
            ActionView::AcceptSession,
        ),
        (Phase::Accepted, EventView::SessionAccepted) => (Phase::Idle, ActionView::AwaitNext),
        (Phase::Idle, EventView::StreamAccepted(kind)) => (
            Phase::Reading(kind),
            ActionView::Read { kind, capacity: MAX_FRAME_LEN as nat },
        ),
        (Phase::Idle, EventView::DatagramReceived(payload)) => reply_spec(None, payload),
        (Phase::Reading(kind), EventView::ReadCompleted { buffer, bytes_read }) => reply_spec(
            Some(kind),
            frame_read(buffer, bytes_read),
        ),
        (Phase::OpeningReply, EventView::ReplyStreamOpened) => (
            Phase::Writing(StreamKind::Unidirectional),
            ActionView::Write { on: StreamKind::Unidirectional, payload: ack_frame() },
        ),
        (Phase::Writing(_), EventView::ReplyWritten) => (Phase::Idle, ActionView::AwaitNext),
        (Phase::SendingDatagram, EventView::DatagramSent) => (Phase::Idle, ActionView::AwaitNext),
        _ => (Phase::Closed, ActionView::Close { error: SessionErrorView::OutOfTurn }),
    }
}

/// Decides the answer to a frame that arrived from `source` (`None` for a
/// datagram): the phase to enter and the operation to perform.
fn decide_reply(source: Option<StreamKind>, frame: &[u8]) -> (next: (Phase, Action))
    ensures
        (next.0, next.1@) == reply_spec(source, frame@),
{
    match decode_frame(frame) {
        Ok(_) => match source {
            Some(StreamKind::Bidirectional) => (
                Phase::Writing(StreamKind::Bidirectional),
                Action::Write { on: StreamKind::Bidirectional, payload: ack() },
            ),
            Some(StreamKind::Unidirectional) => (Phase::OpeningReply, Action::OpenReplyStream),
            None => (Phase::SendingDatagram, Action::SendDatagram { payload: ack() }),
        },
        Err(e) => (Phase::Closed, Action::Close { error: SessionError::Decode(e) }),
    }
}

/// One accepted connection: its phase, and its scratch buffer while no read
/// holds it.
#[derive(Debug)]
pub struct Session {
    phase: Phase,
    scratch: Option<Vec<u8>>,
}

impl View for Session {
    type V = Phase;

    closed spec fn view(&self) -> Phase {
        self.phase
    }
}

impl Session {
    /// The scratch buffer is at home, `MAX_FRAME_LEN` bytes long, in every
    /// phase from which a read can still be started.
    #[verifier::type_invariant]
    spec fn wf(&self) -> bool {
        match self.phase {
            Phase::Reading(_) | Phase::Closed => true,
            _ => self.scratch matches Some(buffer) && buffer@.len() == MAX_FRAME_LEN,
        }
    }

    /// A session for a connection whose request has yet to arrive, with a
    /// scratch buffer of its own.
    pub fn new() -> (session: Session)
        ensures
            session@ == Phase::AwaitingSession,
    {
        Session { phase: Phase::AwaitingSession, scratch: Some(vec![0u8; MAX_FRAME_LEN]) }
    }

    /// The phase the session is in.
    pub fn phase(&self) -> (phase: Phase)
        ensures
            phase == self@,
    {
        self.phase
    }

    /// The state the session is in.
    pub fn state(&self) -> (state: ConnectionState)
        ensures
            state == state_of(self@),
    {
        match self.phase {
            Phase::AwaitingSession => ConnectionState::AwaitingSession,
            Phase::Accepted => ConnectionState::Accepted,
            Phase::Closed => ConnectionState::Closed,
            _ => ConnectionState::Servicing,
        }
    }

    /// Ends the connection with `error`.
    fn close(&mut self, error: SessionError) -> (action: Action)
        ensures
            final(self)@ == Phase::Closed,
            action@ == (ActionView::Close { error: error@ }),
    {
        self.phase = Phase::Closed;
        self.scratch = None;
        Action::Close { error }
    }

    /// Advances the connection by one event and says what to do next.
    ///
    /// The transport's failure of any operation, and a payload that is not
    /// valid UTF-8, close the connection; so does an event that the
    /// outstanding operation cannot have produced. A closed connection stays
    /// closed.
    pub fn step(&mut self, event: Event) -> (action: Action)
        ensures
            (final(self)@, action@) == step_spec(old(self)@, event@),
    {
        proof {
            use_type_invariant(&*self);
        }
        let phase = self.phase;
        if phase == Phase::Closed {
            return self.close(SessionError::OutOfTurn);
        }
        match event {
            Event::Failed { detail } => self.close(SessionError::Io { detail }),
            Event::SessionRequested { authority: _, path: _ } => {
                if phase == Phase::AwaitingSession {
                    self.phase = Phase::Accepted;
                    Action::AcceptSession
                } else {
                    self.close(SessionError::OutOfTurn)
                }
            },
            Event::SessionAccepted => {
                if phase == Phase::Accepted {
                    self.phase = Phase::Idle;
                    Action::AwaitNext
                } else {
                    self.close(SessionError::OutOfTurn)
                }
            },
            Event::StreamAccepted(kind) => {
                if phase == Phase::Idle {
                    self.phase = Phase::Reading(kind);
                    let mut lent: Option<Vec<u8>> = None;
                    std::mem::swap(&mut self.scratch, &mut lent);
                    Action::Read { kind, buffer: lent.unwrap() }
                } else {
                    self.close(SessionError::OutOfTurn)
                }
            },
            Event::DatagramReceived(payload) => {
                if phase == Phase::Idle {
                    let (next, action) = decide_reply(None, payload.as_slice());
                    self.phase = next;
                    action
                } else {
                    self.close(SessionError::OutOfTurn)
                }
            },
            Event::ReadCompleted { buffer, bytes_read } => {
                match phase {
                    Phase::Reading(kind) => {
                        let mut buffer = buffer;
                        let delivered = match bytes_read {
                            None => slice_subrange(buffer.as_slice(), 0, 0),
                            Some(n) => if n <= buffer.len() {
                                slice_subrange(buffer.as_slice(), 0, n)
                            } else {
                                buffer.as_slice()
                            },
                        };
                        let (next, action) = decide_reply(Some(kind), clip(delivered));
                        if buffer.len() != MAX_FRAME_LEN {
                            buffer.resize(MAX_FRAME_LEN, 0u8);
                        }
                        self.scratch = Some(buffer);
                        self.phase = next;
                        action
                    },
                    _ => self.close(SessionError::OutOfTurn),
                }
            },
            Event::ReplyStreamOpened => {
                if phase == Phase::OpeningReply {
                    self.phase = Phase::Writing(StreamKind::Unidirectional);
                    Action::Write { on: StreamKind::Unidirectional, payload: ack() }
                } else {
                    self.close(SessionError::OutOfTurn)
                }
            },
            Event::ReplyWritten => {
                match phase {
                    Phase::Writing(_) => {
                        self.phase = Phase::Idle;
                        Action::AwaitNext
                    },
                    _ => self.close(SessionError::OutOfTurn),
                }
            },
            Event::DatagramSent => {
                if phase == Phase::SendingDatagram {
                    self.phase = Phase::Idle;
                    Action::AwaitNext
                } else {
                    self.close(SessionError::OutOfTurn)
                }
            },
        }
    }
}

/// The accept loop's own state: the number that the next connection gets.
/// Connections share nothing else.
#[derive(Debug)]
pub struct Listener {
    next_id: u64,
}

impl View for Listener {
    type V = u64;

    closed spec fn view(&self) -> u64 {
        self.next_id
    }
}

/// The number after `id`; after the largest comes 0 again.
pub open spec fn id_after(id: u64) -> u64 {
    if id == u64::MAX {
        0
    } else {
        (id + 1) as u64
    }
}

/// The listener before its first connection: the next connection is number 0.
pub fn start_webtransport_server() -> (listener: Listener)
    ensures
        listener@ == 0,
{
    Listener { next_id: 0 }
}

impl Listener {
    /// The number that the next connection will get.
    pub fn next_id(&self) -> (id: u64)
        ensures
            id == self@,
    {
        self.next_id
    }

    /// Takes in one incoming connection: gives it the next number and a
    /// session of its own, which starts out waiting for the session request.
    pub fn accept(&mut self) -> (accepted: (u64, Session))
        ensures
            accepted.0 == old(self)@,
            final(self)@ == id_after(old(self)@),
            accepted.1@ == Phase::AwaitingSession,
    {
        let id = self.next_id;
        self.next_id = if id == u64::MAX {
            0
        } else {
            id + 1
        };
        (id, Session::new())
    }
}

/// The events of one trace, applied in order from `phase`: the phase reached
/// and the operations asked for on the way.
pub open spec fn run(phase: Phase, events: Seq<EventView>) -> (Phase, Seq<ActionView>)
    decreases events.len(),
{
    if events.len() == 0 {
        (phase, Seq::empty())
    } else {
        let before = run(phase, events.drop_last());
        let last = step_spec(before.0, events.last());
        (last.0, before.1.push(last.1))
    }
}

/// The phase in which the event at `n` finds a connection that started in
/// `phase` and has seen the events before it.
pub open spec fn phase_before(phase: Phase, events: Seq<EventView>, n: int) -> Phase {
    run(phase, events.take(n)).0
}

/// Running one more event is taking one more step.
pub proof fn lemma_run_push(phase: Phase, events: Seq<EventView>, event: EventView)
    ensures
        run(phase, events.push(event)) == (
            step_spec(run(phase, events).0, event).0,
            run(phase, events).1.push(step_spec(run(phase, events).0, event).1),
        ),
{
    assert(events.push(event).drop_last() =~= events);
}

/// A run asks for one operation per event: the one that the step from the
/// phase before the event asks for.
pub proof fn lemma_run_actions(phase: Phase, events: Seq<EventView>, n: int)
    requires
        0 <= n < events.len(),
    ensures
        run(phase, events).1.len() == events.len(),
        run(phase, events).1[n] == step_spec(phase_before(phase, events, n), events[n]).1,
        phase_before(phase, events, n + 1) == step_spec(
            phase_before(phase, events, n),
            events[n],
        ).0,
    decreases events.len(),
{
    let shorter = events.drop_last();
    assert(events.take(n + 1).drop_last() =~= events.take(n));
    if n + 1 < events.len() {
        lemma_run_actions(phase, shorter, n);
        assert(shorter.take(n) =~= events.take(n));
        assert(shorter.take(n + 1) =~= events.take(n + 1));
    } else {
        assert(events.take(n) =~= shorter);
        lemma_run_len(phase, shorter);
    }
}

/// A run asks for as many operations as it sees events.
pub proof fn lemma_run_len(phase: Phase, events: Seq<EventView>)
    ensures
        run(phase, events).1.len() == events.len(),
    decreases events.len(),
{
    if events.len() > 0 {
        lemma_run_len(phase, events.drop_last());
    }
}

/// A read completion that delivers `bytes`: at the front of the buffer, or,
/// where there are none, by reporting the end of the stream.
pub open spec fn delivers(event: EventView, bytes: Seq<u8>) -> bool {
    event matches EventView::ReadCompleted { buffer, bytes_read } && match bytes_read {
        Some(n) => n == bytes.len() && n <= buffer.len() && buffer.subrange(0, n as int) == bytes,
        None => bytes.len() == 0,
    }
}

/// Every valid UTF-8 payload of at most `MAX_FRAME_LEN` bytes that arrives on
/// a bidirectional stream is answered on that stream with exactly the
/// acknowledgment frame, after which the connection is ready for the next
/// stream or datagram. That holds of the empty payload too, which arrives as
/// the end of the stream. The one read that is made may deliver the payload
/// whole or only a front part of it; the law holds whenever that part does
/// not end inside a character.
pub proof fn lemma_bidirectional_payload_acknowledged(
    payload: Seq<u8>,
    delivered: Seq<u8>,
    completion: EventView,
)
    requires
        valid_utf8(payload),
        payload.len() <= MAX_FRAME_LEN,
        delivered.is_prefix_of(payload),
        valid_utf8(delivered),
        delivers(completion, delivered),
    ensures
        run(
            Phase::Idle,
            seq![
                EventView::StreamAccepted(StreamKind::Bidirectional),
                completion,
                EventView::ReplyWritten,
            ],
        ) == (
            Phase::Idle,
            seq![
                ActionView::Read { kind: StreamKind::Bidirectional, capacity: MAX_FRAME_LEN as nat },
                ActionView::Write { on: StreamKind::Bidirectional, payload: ack_frame() },
                ActionView::AwaitNext,
            ],
        ),
{
    let accepted = EventView::StreamAccepted(StreamKind::Bidirectional);
    let none = Seq::<EventView>::empty();
    lemma_run_push(Phase::Idle, none, accepted);
    lemma_run_push(Phase::Idle, none.push(accepted), completion);
    lemma_run_push(Phase::Idle, none.push(accepted).push(completion), EventView::ReplyWritten);
    assert(seq![accepted, completion, EventView::ReplyWritten] =~= none.push(accepted).push(
        completion,
    ).push(EventView::ReplyWritten));
    assert(run(Phase::Idle, seq![accepted, completion, EventView::ReplyWritten]).1 =~= seq![
        ActionView::Read { kind: StreamKind::Bidirectional, capacity: MAX_FRAME_LEN as nat },
        ActionView::Write { on: StreamKind::Bidirectional, payload: ack_frame() },
        ActionView::AwaitNext,
    ]);
}

/// Every valid UTF-8 payload of at most `MAX_FRAME_LEN` bytes that arrives on
/// a unidirectional stream is answered with exactly the acknowledgment
/// frame, on a stream that the server opens for the reply. As on a
/// bidirectional stream, the part that the read delivers must not end inside
/// a character.
pub proof fn lemma_unidirectional_payload_acknowledged(
    payload: Seq<u8>,
    delivered: Seq<u8>,
    completion: EventView,
)
    requires
        valid_utf8(payload),
        payload.len() <= MAX_FRAME_LEN,
        delivered.is_prefix_of(payload),
        valid_utf8(delivered),
        delivers(completion, delivered),
    ensures
        run(
            Phase::Idle,
            seq![
                EventView::StreamAccepted(StreamKind::Unidirectional),
                completion,
                EventView::ReplyStreamOpened,
                EventView::ReplyWritten,
            ],
        ) == (
            Phase::Idle,
            seq![
                ActionView::Read { kind: StreamKind::Unidirectional, capacity: MAX_FRAME_LEN as nat },
                ActionView::OpenReplyStream,
                ActionView::Write { on: StreamKind::Unidirectional, payload: ack_frame() },
                ActionView::AwaitNext,
            ],
        ),
{
    let accepted = EventView::StreamAccepted(StreamKind::Unidirectional);
    let opened = EventView::ReplyStreamOpened;
    let written = EventView::ReplyWritten;
    let none = Seq::<EventView>::empty();
    lemma_run_push(Phase::Idle, none, accepted);
    lemma_run_push(Phase::Idle, none.push(accepted), completion);
    lemma_run_push(Phase::Idle, none.push(accepted).push(completion), opened);
    lemma_run_push(Phase::Idle, none.push(accepted).push(completion).push(opened), written);
    assert(seq![accepted, completion, opened, written] =~= none.push(accepted).push(
        completion,
    ).push(opened).push(written));
    assert(run(Phase::Idle, seq![accepted, completion, opened, written]).1 =~= seq![
        ActionView::Read { kind: StreamKind::Unidirectional, capacity: MAX_FRAME_LEN as nat },
        ActionView::OpenReplyStream,
        ActionView::Write { on: StreamKind::Unidirectional, payload: ack_frame() },
        ActionView::AwaitNext,
    ]);
}

/// Every valid UTF-8 payload that arrives as a datagram, whatever its
/// length, is answered with one datagram that holds exactly the
/// acknowledgment frame.
pub proof fn lemma_datagram_acknowledged(payload: Seq<u8>)
    requires
        valid_utf8(payload),
    ensures
        run(Phase::Idle, seq![EventView::DatagramReceived(payload), EventView::DatagramSent]) == (
            Phase::Idle,
            seq![ActionView::SendDatagram { payload: ack_frame() }, ActionView::AwaitNext],
        ),
{
    let received = EventView::DatagramReceived(payload);
    let none = Seq::<EventView>::empty();
    lemma_run_push(Phase::Idle, none, received);
    lemma_run_push(Phase::Idle, none.push(received), EventView::DatagramSent);
    assert(seq![received, EventView::DatagramSent] =~= none.push(received).push(
        EventView::DatagramSent,
    ));
    assert(run(Phase::Idle, seq![received, EventView::DatagramSent]).1 =~= seq![
        ActionView::SendDatagram { payload: ack_frame() },
        ActionView::AwaitNext,
    ]);
}

/// A payload that is not valid UTF-8 ends the connection it arrived on, from
/// whichever source it came.
pub proof fn lemma_invalid_payload_closes(source: Option<StreamKind>, frame: Seq<u8>)
    requires
        !valid_utf8(frame),
    ensures
        reply_spec(source, frame).0 == Phase::Closed,
        reply_spec(source, frame).1 matches ActionView::Close {
            error: SessionErrorView::Decode(_),
        },
{
}

/// A payload that is longer than a frame is cut to a frame's length, not
/// refused: of the bytes that a read completion reports, the first
/// `MAX_FRAME_LEN` decide the answer, and the rest is never looked at.
pub proof fn lemma_read_is_clipped(kind: StreamKind, delivered: Seq<u8>, completion: EventView)
    requires
        delivers(completion, delivered),
    ensures
        step_spec(Phase::Reading(kind), completion) == reply_spec(Some(kind), clipped(delivered)),
        clipped(delivered).len() <= MAX_FRAME_LEN,
        clipped(delivered).is_prefix_of(delivered),
        delivered.len() <= MAX_FRAME_LEN ==> clipped(delivered) == delivered,
        delivered.len() > MAX_FRAME_LEN ==> clipped(delivered) == delivered.take(
            MAX_FRAME_LEN as int,
        ),
{
}

/// The transport's failure of the outstanding operation ends a connection
/// that has not ended already.
pub proof fn lemma_failure_closes(phase: Phase, detail: Seq<char>)
    requires
        phase != Phase::Closed,
    ensures
        step_spec(phase, EventView::Failed { detail }) == (
            Phase::Closed,
            ActionView::Close { error: SessionErrorView::Io { detail } },
        ),
{
}

/// A connection that has ended stays ended, whatever events still arrive.
pub proof fn lemma_closed_is_final(events: Seq<EventView>)
    ensures
        run(Phase::Closed, events).0 == Phase::Closed,
    decreases events.len(),
{
    if events.len() > 0 {
        lemma_closed_is_final(events.drop_last());
    }
}

/// The place of a state in the life of a connection.
pub open spec fn rank(state: ConnectionState) -> int {
    match state {
        ConnectionState::AwaitingSession => 0,
        ConnectionState::Accepted => 1,
        ConnectionState::Servicing => 2,
        ConnectionState::Closed => 3,
    }
}

/// A connection moves through its states in order: a step leaves it in its
/// state, or takes it to the next state, or closes it.
pub proof fn lemma_states_in_order(phase: Phase, event: EventView)
    ensures
        ({
            let before = rank(state_of(phase));
            let after = rank(state_of(step_spec(phase, event).0));
            after == before || after == before + 1 || after == 3
        }),
{
}

/// A read is started only by a new stream, when no operation is
/// outstanding; and while a read is outstanding only its completion lets the
/// connection go on: any other event closes it.
pub proof fn lemma_read_is_exclusive(phase: Phase, event: EventView)
    ensures
        step_spec(phase, event).1 is Read ==> phase == Phase::Idle && event is StreamAccepted
            && step_spec(phase, event).0 is Reading,
        phase is Reading && !(event is ReadCompleted) ==> step_spec(phase, event).0
            == Phase::Closed,
        phase is Reading ==> !(step_spec(phase, event).1 is Read),
{
}

/// Without a read completion, a connection that is reading stays reading
/// until an event closes it.
proof fn lemma_reading_until_completion(phase: Phase, events: Seq<EventView>, i: int, n: int)
    requires
        0 <= i < n <= events.len(),
        phase_before(phase, events, i + 1) is Reading,
        forall|k: int| i < k < n ==> !(#[trigger] events[k] is ReadCompleted),
    ensures
        phase_before(phase, events, n) is Reading || phase_before(phase, events, n)
            == Phase::Closed,
    decreases n - i,
{
    if n > i + 1 {
        lemma_reading_until_completion(phase, events, i, n - 1);
        lemma_run_actions(phase, events, n - 1);
        lemma_read_is_exclusive(phase_before(phase, events, n - 1), events[n - 1]);
    }
}

/// The scratch buffer is never with two reads at once: between any two reads
/// that a connection starts, the first one completes.
pub proof fn lemma_one_read_at_a_time(phase: Phase, events: Seq<EventView>, i: int, j: int)
    requires
        0 <= i < j < events.len(),
        run(phase, events).1[i] is Read,
        run(phase, events).1[j] is Read,
    ensures
        exists|k: int| i < k < j && #[trigger] events[k] is ReadCompleted,
{
    lemma_run_actions(phase, events, i);
    lemma_run_actions(phase, events, j);
    lemma_read_is_exclusive(phase_before(phase, events, i), events[i]);
    lemma_read_is_exclusive(phase_before(phase, events, j), events[j]);
    if forall|k: int| i < k < j ==> !(#[trigger] events[k] is ReadCompleted) {
        lemma_reading_until_completion(phase, events, i, j);
        assert(false);
    }
}

} // verus!
