//! The session handler: one connection from the attempt to connect to the
//! failure that ends it.
//!
//! The session itself touches no socket. It is told what happened (a
//! `SessionEvent`) and answers what to do next (a `SessionAction`); whoever
//! drives it performs the action and reports the outcome as the next event.

use vstd::prelude::*;
use crate::v1::dispatch::{
    dispatch, dispatch_of, DispatchError, DispatchErrorView, SinkPoint, SinkPointView,
};
use crate::v1::message::{decode_frame, frame_message, InboundMessage, InboundMessageView};

verus! {

/// How long a read may wait for the next frame, in seconds.
pub const READ_TIMEOUT_SECONDS: u64 = 10;

/// The `type` of the frame with which the server confirms a subscription.
pub const ACKNOWLEDGEMENT: &'static str = "connection_ack";

/// Why a session ended. Each of these ends the session, not the process:
/// the caller connects again.
#[derive(Clone, Copy, Debug, PartialEq, Eq, Structural)]
pub enum SessionError {
    /// The connection could not be established.
    ConnectFailed,
    /// A read failed after the connection was established.
    ReadFailed,
    /// No frame arrived within `READ_TIMEOUT_SECONDS`.
    Timeout,
}

/// The two frames of the handshake, in the order in which they are sent.
#[derive(Clone, Copy, Debug, PartialEq, Eq, Structural)]
pub enum Outbound {
    Connection,
    Subscription,
}

/// Where a session stands.
#[derive(Clone, Copy, Debug, PartialEq, Eq, Structural)]
pub enum SessionState {
    /// The connection attempt is under way.
    Connecting,
    /// The frame named is being sent.
    Handshaking(Outbound),
    /// A read is waiting for the next frame.
    Streaming,
    /// The session is over, for the reason given.
    Closed(SessionError),
}

/// What happened to the action that the session asked for last.
#[derive(Debug, PartialEq, Eq)]
pub enum SessionEvent {
    ConnectSucceeded,
    ConnectFailed,
    /// The frame went out.
    Sent,
    /// The frame could not be sent. The session goes on as if it had been.
    SendFailed,
    /// A frame arrived, with this text.
    FrameReceived(String),
    /// No frame arrived in time.
    ReadTimedOut,
    ReadFailed,
}

/// A `SessionEvent` as the contracts see it.
pub enum SessionEventView {
    ConnectSucceeded,
    ConnectFailed,
    Sent,
    SendFailed,
    FrameReceived(Seq<char>),
    ReadTimedOut,
    ReadFailed,
}

impl View for SessionEvent {
    type V = SessionEventView;

    open spec fn view(&self) -> SessionEventView {
        match self {
            SessionEvent::ConnectSucceeded => SessionEventView::ConnectSucceeded,
            SessionEvent::ConnectFailed => SessionEventView::ConnectFailed,
            SessionEvent::Sent => SessionEventView::Sent,
            SessionEvent::SendFailed => SessionEventView::SendFailed,
            SessionEvent::FrameReceived(text) => SessionEventView::FrameReceived(text@),
            SessionEvent::ReadTimedOut => SessionEventView::ReadTimedOut,
            SessionEvent::ReadFailed => SessionEventView::ReadFailed,
        }
    }
}

/// Why a frame led to no write.
#[derive(Debug, PartialEq, Eq)]
pub enum Skipped {
    /// The frame is no JSON document.
    Unparseable,
    /// The server confirmed the subscription.
    Acknowledged,
    /// The frame has a `type` other than the acknowledgement's.
    Anomalous(String),
    /// The frame has neither a measurement nor a `type`.
    Unrecognized,
}

/// A `Skipped` as the contracts see it.
pub enum SkippedView {
    Unparseable,
    Acknowledged,
    Anomalous(Seq<char>),
    Unrecognized,
}

impl View for Skipped {
    type V = SkippedView;

    open spec fn view(&self) -> SkippedView {
        match self {
            Skipped::Unparseable => SkippedView::Unparseable,
            Skipped::Acknowledged => SkippedView::Acknowledged,
            Skipped::Anomalous(kind) => SkippedView::Anomalous(kind@),
            Skipped::Unrecognized => SkippedView::Unrecognized,
        }
    }
}

/// What the driver of a session is to do next.
#[derive(Debug, PartialEq, Eq)]
pub enum SessionAction {
    /// Send this text as one frame, and report `Sent` or `SendFailed`.
    Send(String),
    /// Wait for the next frame, `READ_TIMEOUT_SECONDS` at most, and report
    /// `FrameReceived`, `ReadTimedOut` or `ReadFailed`.
    Read,
    /// Write these points to the sink, then read as for `Read`. A write that
    /// fails is the sink's to report; the session does not hear of it.
    Forward(Vec<SinkPoint>),
    /// Write nothing, then read as for `Read`.
    Skip(Skipped),
    /// A measurement held something that is no number. The session is still
    /// streaming; whether to go on is the driver's decision.
    Fault(DispatchError),
    /// Stop, and hand this error to the caller.
    Close(SessionError),
}

/// A `SessionAction` as the contracts see it.
pub enum SessionActionView {
    Send(Seq<char>),
    Read,
    Forward(Seq<SinkPointView>),
    Skip(SkippedView),
    Fault(DispatchErrorView),
    Close(SessionError),
}

impl View for SessionAction {
    type V = SessionActionView;

    open spec fn view(&self) -> SessionActionView {
        match self {
            SessionAction::Send(text) => SessionActionView::Send(text@),
            SessionAction::Read => SessionActionView::Read,
            SessionAction::Forward(points) => SessionActionView::Forward(points.deep_view()),
            SessionAction::Skip(reason) => SessionActionView::Skip(reason@),
            SessionAction::Fault(error) => SessionActionView::Fault(error@),
            SessionAction::Close(error) => SessionActionView::Close(*error),
        }
    }
}

/// The view of an action that may be absent.
pub open spec fn action_view(action: Option<SessionAction>) -> Option<SessionActionView> {
    match action {
        Some(action) => Some(action@),
        None => None,
    }
}

/// One session: where it stands, and the two frames of its handshake.
#[derive(Debug)]
pub struct Session {
    state: SessionState,
    connection_message: String,
    subscription_message: String,
}

/// A `Session` as the contracts see it.
pub struct SessionView {
    pub state: SessionState,
    pub connection_message: Seq<char>,
    pub subscription_message: Seq<char>,
}

impl View for Session {
    type V = SessionView;

    closed spec fn view(&self) -> SessionView {
        SessionView {
            state: self.state,
            connection_message: self.connection_message@,
            subscription_message: self.subscription_message@,
        }
    }
}

/// A state and the action that goes with entering it.
pub struct SessionStep {
    pub state: SessionState,
    pub action: Option<SessionActionView>,
}

/// What a parsed frame leads to. A measurement is dispatched; a typed frame
/// is the acknowledgement or an anomaly; anything else is passed over.
pub open spec fn message_action(message: InboundMessageView) -> SessionActionView {
    match message {
        InboundMessageView::Data(readings) => match dispatch_of(readings) {
            Ok(points) => SessionActionView::Forward(points),
            Err(error) => SessionActionView::Fault(error),
        },
        InboundMessageView::Typed(kind) => if kind == ACKNOWLEDGEMENT@ {
            SessionActionView::Skip(SkippedView::Acknowledged)
        } else {
            SessionActionView::Skip(SkippedView::Anomalous(kind))
        },
        InboundMessageView::Unrecognized => SessionActionView::Skip(SkippedView::Unrecognized),
    }
}

/// What a frame leads to: what its message leads to, and a skip where it is
/// no JSON document.
pub open spec fn frame_action(text: Seq<char>) -> SessionActionView {
    match frame_message(text) {
        Some(message) => message_action(message),
        None => SessionActionView::Skip(SkippedView::Unparseable),
    }
}

/// The transition of a session. An event that the state does not wait for
/// changes nothing and asks for nothing.
pub open spec fn step_of(session: SessionView, event: SessionEventView) -> SessionStep {
    match (session.state, event) {
        (SessionState::Connecting, SessionEventView::ConnectSucceeded) => SessionStep {
            state: SessionState::Handshaking(Outbound::Connection),
            action: Some(SessionActionView::Send(session.connection_message)),
        },
        (SessionState::Connecting, SessionEventView::ConnectFailed) => SessionStep {
            state: SessionState::Closed(SessionError::ConnectFailed),
            action: Some(SessionActionView::Close(SessionError::ConnectFailed)),
        },
        (SessionState::Handshaking(Outbound::Connection), SessionEventView::Sent)
        | (SessionState::Handshaking(Outbound::Connection), SessionEventView::SendFailed) => {
            SessionStep {
                state: SessionState::Handshaking(Outbound::Subscription),
                action: Some(SessionActionView::Send(session.subscription_message)),
            }
        },
        (SessionState::Handshaking(Outbound::Subscription), SessionEventView::Sent)
        | (SessionState::Handshaking(Outbound::Subscription), SessionEventView::SendFailed) => {
            SessionStep { state: SessionState::Streaming, action: Some(SessionActionView::Read) }
        },
        (SessionState::Streaming, SessionEventView::FrameReceived(text)) => SessionStep {
            state: SessionState::Streaming,
            action: Some(frame_action(text)),
        },
        (SessionState::Streaming, SessionEventView::ReadTimedOut) => SessionStep {
            state: SessionState::Closed(SessionError::Timeout),
            action: Some(SessionActionView::Close(SessionError::Timeout)),
        },
        (SessionState::Streaming, SessionEventView::ReadFailed) => SessionStep {
            state: SessionState::Closed(SessionError::ReadFailed),
            action: Some(SessionActionView::Close(SessionError::ReadFailed)),
        },
        _ => SessionStep { state: session.state, action: None },
    }
}

/// Decides what a parsed frame leads to.
pub fn on_message(message: InboundMessage) -> (action: SessionAction)
    ensures
        action@ == message_action(message@),
{
    match message {
        InboundMessage::Data(readings) => match dispatch(&readings) {
            Ok(points) => SessionAction::Forward(points),
            Err(error) => SessionAction::Fault(error),
        },
        InboundMessage::Typed(kind) => {
            if kind == String::from_str(ACKNOWLEDGEMENT) {
                SessionAction::Skip(Skipped::Acknowledged)
            } else {
                SessionAction::Skip(Skipped::Anomalous(kind))
            }
        },
        InboundMessage::Unrecognized => SessionAction::Skip(Skipped::Unrecognized),
    }
}

/// Decides what a frame leads to. No frame ends the session: one that
/// cannot be read is passed over.
pub fn on_frame(frame: &str) -> (action: SessionAction)
    ensures
        action@ == frame_action(frame@),
{
    match decode_frame(frame) {
        Some(message) => on_message(message),
        None => SessionAction::Skip(Skipped::Unparseable),
    }
}

impl Session {
    /// A session that is about to connect. The two messages are sent, in this
    /// order, once the connection stands.
    pub fn new(connection_message: String, subscription_message: String) -> (session: Session)
        ensures
            session@ == (SessionView {
                state: SessionState::Connecting,
                connection_message: connection_message@,
                subscription_message: subscription_message@,
            }),
    {
        Session { state: SessionState::Connecting, connection_message, subscription_message }
    }

    /// Where the session stands.
    pub fn state(&self) -> (state: SessionState)
        ensures
            state == self@.state,
    {
        self.state
    }

    /// Takes the session one step on: records what `event` changes, and says
    /// what to do next. `None` says that the event was not waited for.
    pub fn step(&mut self, event: SessionEvent) -> (action: Option<SessionAction>)
        ensures
            final(self)@ == (SessionView { state: step_of(old(self)@, event@).state, ..old(self)@ }),
            action_view(action) == step_of(old(self)@, event@).action,
    {
        match (self.state, event) {
            (SessionState::Connecting, SessionEvent::ConnectSucceeded) => {
                self.state = SessionState::Handshaking(Outbound::Connection);
                Some(SessionAction::Send(self.connection_message.clone()))
            },
            (SessionState::Connecting, SessionEvent::ConnectFailed) => {
                self.state = SessionState::Closed(SessionError::ConnectFailed);
                Some(SessionAction::Close(SessionError::ConnectFailed))
            },
            (SessionState::Handshaking(Outbound::Connection), SessionEvent::Sent)
            | (SessionState::Handshaking(Outbound::Connection), SessionEvent::SendFailed) => {
                self.state = SessionState::Handshaking(Outbound::Subscription);
                Some(SessionAction::Send(self.subscription_message.clone()))
            },
            (SessionState::Handshaking(Outbound::Subscription), SessionEvent::Sent)
            | (SessionState::Handshaking(Outbound::Subscription), SessionEvent::SendFailed) => {
                self.state = SessionState::Streaming;
                Some(SessionAction::Read)
            },
            (SessionState::Streaming, SessionEvent::FrameReceived(text)) => {
                Some(on_frame(text.as_str()))
            },
            (SessionState::Streaming, SessionEvent::ReadTimedOut) => {
                self.state = SessionState::Closed(SessionError::Timeout);
                Some(SessionAction::Close(SessionError::Timeout))
            },
            (SessionState::Streaming, SessionEvent::ReadFailed) => {
                self.state = SessionState::Closed(SessionError::ReadFailed);
                Some(SessionAction::Close(SessionError::ReadFailed))
            },
            _ => None,
        }
    }
}

/// The points that an action hands over for writing.
pub open spec fn points_of_action(action: Option<SessionActionView>) -> Seq<SinkPointView> {
    match action {
        Some(SessionActionView::Forward(points)) => points,
        Some(SessionActionView::Fault(DispatchErrorView::NonNumericField { preceding, .. })) => {
            preceding
        },
        _ => Seq::empty(),
    }
}

/// Where a session stands after a run of events, and the points that were
/// handed over for writing on the way.
pub struct SessionRun {
    pub state: SessionState,
    pub written: Seq<SinkPointView>,
}

/// The run of `session` over `events`, one step for each event in turn.
pub open spec fn run_of(session: SessionView, events: Seq<SessionEventView>) -> SessionRun
    decreases events.len(),
{
    if events.len() == 0 {
        SessionRun { state: session.state, written: Seq::empty() }
    } else {
        let step = step_of(session, events[0]);
        let rest = run_of(SessionView { state: step.state, ..session }, events.drop_first());
        SessionRun { state: rest.state, written: points_of_action(step.action) + rest.written }
    }
}

/// Points are handed over in one place only: while streaming, on a frame.
/// Neither the connection attempt nor the handshake nor a failure writes.
pub proof fn lemma_only_frames_write(session: SessionView, event: SessionEventView)
    requires
        points_of_action(step_of(session, event).action).len() > 0,
    ensures
        session.state == SessionState::Streaming,
        event is FrameReceived,
{
}

/// A frame never ends a session, whatever it holds: the session streams on.
pub proof fn lemma_frames_keep_streaming(session: SessionView, text: Seq<char>)
    requires
        session.state == SessionState::Streaming,
    ensures
        step_of(session, SessionEventView::FrameReceived(text)).state == SessionState::Streaming,
        step_of(session, SessionEventView::FrameReceived(text)).action == Some(frame_action(text)),
{
}

/// The acknowledgement of the subscription leads to no write and no error.
pub proof fn lemma_acknowledgement_is_skipped(session: SessionView, text: Seq<char>)
    requires
        session.state == SessionState::Streaming,
        frame_message(text) == Some(InboundMessageView::Typed(ACKNOWLEDGEMENT@)),
    ensures
        step_of(session, SessionEventView::FrameReceived(text)) == (SessionStep {
            state: SessionState::Streaming,
            action: Some(SessionActionView::Skip(SkippedView::Acknowledged)),
        }),
        points_of_action(step_of(session, SessionEventView::FrameReceived(text)).action)
            == Seq::<SinkPointView>::empty(),
{
}

/// A frame that is no JSON document leads to no write and no error.
pub proof fn lemma_unparseable_frame_is_skipped(session: SessionView, text: Seq<char>)
    requires
        session.state == SessionState::Streaming,
        frame_message(text) is None,
    ensures
        step_of(session, SessionEventView::FrameReceived(text)) == (SessionStep {
            state: SessionState::Streaming,
            action: Some(SessionActionView::Skip(SkippedView::Unparseable)),
        }),
        points_of_action(step_of(session, SessionEventView::FrameReceived(text)).action)
            == Seq::<SinkPointView>::empty(),
{
}

/// A closed session stays closed and writes nothing, whatever is reported to
/// it.
pub proof fn lemma_closed_session_is_silent(session: SessionView, events: Seq<SessionEventView>)
    requires
        session.state is Closed,
    ensures
        run_of(session, events) == (SessionRun {
            state: session.state,
            written: Seq::empty(),
        }),
    decreases events.len(),
{
    if events.len() > 0 {
        lemma_closed_session_is_silent(session, events.drop_first());
        assert(Seq::<SinkPointView>::empty() + Seq::<SinkPointView>::empty() =~= Seq::<
            SinkPointView,
        >::empty());
    }
}

/// A read that times out ends the session with `Timeout`, and nothing is
/// written for that session afterwards.
pub proof fn lemma_timeout_ends_session(session: SessionView, later: Seq<SessionEventView>)
    requires
        session.state == SessionState::Streaming,
    ensures
        step_of(session, SessionEventView::ReadTimedOut) == (SessionStep {
            state: SessionState::Closed(SessionError::Timeout),
            action: Some(SessionActionView::Close(SessionError::Timeout)),
        }),
        run_of(session, seq![SessionEventView::ReadTimedOut] + later) == (SessionRun {
            state: SessionState::Closed(SessionError::Timeout),
            written: Seq::empty(),
        }),
{
    let events = seq![SessionEventView::ReadTimedOut] + later;
    let closed = SessionView { state: SessionState::Closed(SessionError::Timeout), ..session };
    assert(events.drop_first() =~= later);
    lemma_closed_session_is_silent(closed, later);
    assert(Seq::<SinkPointView>::empty() + Seq::<SinkPointView>::empty() =~= Seq::<
        SinkPointView,
    >::empty());
}

/// A read that fails ends the session with `ReadFailed`, and nothing is
/// written for that session afterwards.
pub proof fn lemma_read_failure_ends_session(session: SessionView, later: Seq<SessionEventView>)
    requires
        session.state == SessionState::Streaming,
    ensures
        step_of(session, SessionEventView::ReadFailed) == (SessionStep {
            state: SessionState::Closed(SessionError::ReadFailed),
            action: Some(SessionActionView::Close(SessionError::ReadFailed)),
        }),
        run_of(session, seq![SessionEventView::ReadFailed] + later) == (SessionRun {
            state: SessionState::Closed(SessionError::ReadFailed),
            written: Seq::empty(),
        }),
{
    let events = seq![SessionEventView::ReadFailed] + later;
    let closed = SessionView { state: SessionState::Closed(SessionError::ReadFailed), ..session };
    assert(events.drop_first() =~= later);
    lemma_closed_session_is_silent(closed, later);
    assert(Seq::<SinkPointView>::empty() + Seq::<SinkPointView>::empty() =~= Seq::<
        SinkPointView,
    >::empty());
}

/// A connection attempt that fails ends the session with `ConnectFailed`
/// before anything was sent, and nothing is ever dispatched for it.
pub proof fn lemma_connect_failure_ends_session(
    session: SessionView,
    later: Seq<SessionEventView>,
)
    requires
        session.state == SessionState::Connecting,
    ensures
        step_of(session, SessionEventView::ConnectFailed) == (SessionStep {
            state: SessionState::Closed(SessionError::ConnectFailed),
            action: Some(SessionActionView::Close(SessionError::ConnectFailed)),
        }),
        run_of(session, seq![SessionEventView::ConnectFailed] + later) == (SessionRun {
            state: SessionState::Closed(SessionError::ConnectFailed),
            written: Seq::empty(),
        }),
{
    let events = seq![SessionEventView::ConnectFailed] + later;
    let closed = SessionView {
        state: SessionState::Closed(SessionError::ConnectFailed),
        ..session
    };
    assert(events.drop_first() =~= later);
    lemma_closed_session_is_silent(closed, later);
    assert(Seq::<SinkPointView>::empty() + Seq::<SinkPointView>::empty() =~= Seq::<
        SinkPointView,
    >::empty());
}

/// The handshake sends the connection message first and the subscription
/// message second, and a frame that could not be sent holds nothing up: after
/// the two reports the session streams.
pub proof fn lemma_handshake_order(
    session: SessionView,
    first: SessionEventView,
    second: SessionEventView,
)
    requires
        session.state == SessionState::Connecting,
        first is Sent || first is SendFailed,
        second is Sent || second is SendFailed,
    ensures
        ({
            let connected = step_of(session, SessionEventView::ConnectSucceeded);
            let one = step_of(SessionView { state: connected.state, ..session }, first);
            let two = step_of(SessionView { state: one.state, ..session }, second);
            &&& connected.action == Some(SessionActionView::Send(session.connection_message))
            &&& one.action == Some(SessionActionView::Send(session.subscription_message))
            &&& two.action == Some(SessionActionView::Read)
            &&& two.state == SessionState::Streaming
        }),
{
}

} // verus!
