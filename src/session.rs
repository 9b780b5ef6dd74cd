//! The decisions of a connection's background session worker. The worker
//! owns the socket and performs each action; this machine says, for each
//! thing that happens, what the worker does next. A session ends on the
//! first failure or when the simulation side drops its end of the channel,
//! and never reconnects by itself.

use vstd::prelude::*;

verus! {

#[derive(Clone, Copy, Debug, PartialEq, Eq, Structural)]
pub enum SessionPhase {
    /// Opening the socket.
    Connecting,
    /// Socket open; authenticating and exchanging the handshake.
    Handshaking,
    /// Relaying messages both ways.
    Running,
    /// Finished: the worker has exited.
    Closed,
}

#[derive(Clone, Copy, Debug, PartialEq, Eq, Structural)]
pub enum SessionEvent {
    SocketOpened,
    HandshakeDone,
    /// The simulation side queued a message for the server.
    Outbound,
    /// A whole message arrived from the server.
    Inbound,
    /// Reading, writing or opening the socket failed.
    IoError,
    /// A frame from the server could not be decoded.
    FrameCorrupt,
    /// The simulation side dropped its end of the channel.
    ChannelClosed,
}

#[derive(Clone, Copy, Debug, PartialEq, Eq, Structural)]
pub enum SessionAction {
    Idle,
    StartHandshake,
    /// Tell the simulation side the connection is up.
    ReportConnected,
    WriteToSocket,
    /// Hand the decoded message to the simulation side.
    DeliverInbound,
    /// Tell the simulation side the connection is gone, then exit.
    ReportDisconnected,
    /// Exit quietly: nobody is listening any more.
    Exit,
}

/// The worker's next phase and action.
pub open spec fn spec_session_step(phase: SessionPhase, event: SessionEvent) -> (
    SessionPhase,
    SessionAction,
) {
    match (phase, event) {
        (SessionPhase::Closed, _) => (SessionPhase::Closed, SessionAction::Idle),
        (_, SessionEvent::ChannelClosed) => (SessionPhase::Closed, SessionAction::Exit),
        (SessionPhase::Connecting, SessionEvent::SocketOpened) => (
            SessionPhase::Handshaking,
            SessionAction::StartHandshake,
        ),
        (SessionPhase::Handshaking, SessionEvent::HandshakeDone) => (
            SessionPhase::Running,
            SessionAction::ReportConnected,
        ),
        (SessionPhase::Running, SessionEvent::Outbound) => (
            SessionPhase::Running,
            SessionAction::WriteToSocket,
        ),
        (SessionPhase::Running, SessionEvent::Inbound) => (
            SessionPhase::Running,
            SessionAction::DeliverInbound,
        ),
        // Messages queued before the session runs wait in the channel.
        (SessionPhase::Connecting, SessionEvent::Outbound) => (
            SessionPhase::Connecting,
            SessionAction::Idle,
        ),
        (SessionPhase::Handshaking, SessionEvent::Outbound) => (
            SessionPhase::Handshaking,
            SessionAction::Idle,
        ),
        // Any failure, or anything out of order, ends the session.
        _ => (SessionPhase::Closed, SessionAction::ReportDisconnected),
    }
}

pub fn session_step(phase: SessionPhase, event: SessionEvent) -> (r: (SessionPhase, SessionAction))
    ensures
        r == spec_session_step(phase, event),
{
    match (phase, event) {
        (SessionPhase::Closed, _) => (SessionPhase::Closed, SessionAction::Idle),
        (_, SessionEvent::ChannelClosed) => (SessionPhase::Closed, SessionAction::Exit),
        (SessionPhase::Connecting, SessionEvent::SocketOpened) => (
            SessionPhase::Handshaking,
            SessionAction::StartHandshake,
        ),
        (SessionPhase::Handshaking, SessionEvent::HandshakeDone) => (
            SessionPhase::Running,
            SessionAction::ReportConnected,
        ),
        (SessionPhase::Running, SessionEvent::Outbound) => (
            SessionPhase::Running,
            SessionAction::WriteToSocket,
        ),
        (SessionPhase::Running, SessionEvent::Inbound) => (
            SessionPhase::Running,
            SessionAction::DeliverInbound,
        ),
        (SessionPhase::Connecting, SessionEvent::Outbound) => (
            SessionPhase::Connecting,
            SessionAction::Idle,
        ),
        (SessionPhase::Handshaking, SessionEvent::Outbound) => (
            SessionPhase::Handshaking,
            SessionAction::Idle,
        ),
        _ => (SessionPhase::Closed, SessionAction::ReportDisconnected),
    }
}

/// The phase after a sequence of events from `phase`.
pub open spec fn spec_session_run(phase: SessionPhase, events: Seq<SessionEvent>) -> SessionPhase
    decreases events.len(),
{
    if events.len() == 0 {
        phase
    } else {
        spec_session_run(spec_session_step(phase, events[0]).0, events.drop_first())
    }
}

/// A finished session stays finished whatever happens next: there is no
/// automatic reconnect, and it reports nothing more.
pub proof fn lemma_closed_is_final(events: Seq<SessionEvent>)
    ensures
        spec_session_run(SessionPhase::Closed, events) == SessionPhase::Closed,
    decreases events.len(),
{
    if events.len() > 0 {
        lemma_closed_is_final(events.drop_first());
    }
}

/// Failures end the session with a disconnect report; the channel being
/// dropped ends it quietly; the connection is reported up only when the
/// handshake completes.
pub proof fn lemma_session_outcomes(phase: SessionPhase, event: SessionEvent)
    ensures
        phase != SessionPhase::Closed && (event == SessionEvent::IoError || event
            == SessionEvent::FrameCorrupt) ==> spec_session_step(phase, event) == (
            SessionPhase::Closed,
            SessionAction::ReportDisconnected,
        ),
        phase != SessionPhase::Closed && event == SessionEvent::ChannelClosed ==> spec_session_step(
            phase,
            event,
        ) == (SessionPhase::Closed, SessionAction::Exit),
        spec_session_step(phase, event).1 == SessionAction::ReportConnected <==> (phase
            == SessionPhase::Handshaking && event == SessionEvent::HandshakeDone),
        spec_session_step(phase, event).1 == SessionAction::WriteToSocket ==> phase
            == SessionPhase::Running,
{
}

} // verus!
