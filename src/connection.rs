//! The simulation side of a server connection: whether it is connected, and
//! the FIFO queue of outbound messages that the session worker drains.

use vstd::prelude::*;

use crate::messages::ClientMessage;

verus! {

/// The three server roles a client talks to, one at a time.
#[derive(Clone, Copy, Debug, PartialEq, Eq, Structural)]
pub enum ConnectionRole {
    Login,
    World,
    Game,
}

#[derive(Clone, Copy, Debug, PartialEq, Eq, Structural)]
pub enum SendError {
    /// There is no live session: the message was dropped.
    NotConnected,
}

pub enum ConnectionState {
    Disconnected,
    Connecting,
    /// A live session, with the messages not yet handed to its worker.
    Connected(Vec<ClientMessage>),
}

pub struct Connection {
    pub role: ConnectionRole,
    pub state: ConnectionState,
}

impl Connection {
    pub open spec fn spec_is_connected(&self) -> bool {
        self.state is Connected
    }

    /// Messages queued and not yet drained; empty unless connected.
    pub open spec fn pending(&self) -> Seq<ClientMessage> {
        match self.state {
            ConnectionState::Connected(queue) => queue@,
            _ => Seq::empty(),
        }
    }

    pub fn new(role: ConnectionRole) -> (r: Self)
        ensures
            r.role == role,
            r.state is Disconnected,
    {
        Connection { role, state: ConnectionState::Disconnected }
    }

    pub fn is_connected(&self) -> (r: bool)
        ensures
            r == self.spec_is_connected(),
    {
        matches!(self.state, ConnectionState::Connected(_))
    }

    /// Starts a connection attempt. Returns whether one was started: only a
    /// disconnected connection starts one; reconnecting is always an
    /// explicit new request.
    pub fn request_connect(&mut self) -> (r: bool)
        ensures
            r == (old(self).state is Disconnected),
            final(self).role == old(self).role,
            r ==> final(self).state is Connecting,
            !r ==> final(self).state == old(self).state,
    {
        if matches!(self.state, ConnectionState::Disconnected) {
            self.state = ConnectionState::Connecting;
            true
        } else {
            false
        }
    }

    /// The worker finished its handshake.
    pub fn on_connected(&mut self)
        ensures
            final(self).role == old(self).role,
            old(self).state is Connecting ==> final(self).spec_is_connected() && final(self).pending().len() == 0,
            !(old(self).state is Connecting) ==> final(self).state == old(self).state,
    {
        if matches!(self.state, ConnectionState::Connecting) {
            self.state = ConnectionState::Connected(Vec::new());
        }
    }

    /// The worker stopped (socket error, logout or explicit disconnect): the
    /// connection is gone, with whatever was still queued.
    pub fn on_disconnected(&mut self)
        ensures
            final(self).role == old(self).role,
            final(self).state is Disconnected,
    {
        self.state = ConnectionState::Disconnected;
    }

    /// Queues `message` for the worker. Without a live session the message
    /// is dropped and `NotConnected` is returned; nothing else changes.
    pub fn send(&mut self, message: ClientMessage) -> (r: Result<(), SendError>)
        ensures
            final(self).role == old(self).role,
            r is Ok <==> old(self).spec_is_connected(),
            r is Ok ==> final(self).spec_is_connected() && final(self).pending() == old(self).pending().push(message),
            r is Ok ==> final(self).pending().len() == old(self).pending().len() + 1
                && final(self).pending().drop_last() == old(self).pending()
                && final(self).pending().last() == message,
            r is Err ==> final(self).state == old(self).state && r == Err::<(), SendError>(
                SendError::NotConnected,
            ),
    {
        match &mut self.state {
            ConnectionState::Connected(queue) => {
                queue.push(message);
                assert(queue@.drop_last() =~= old(self).pending());
                Ok(())
            },
            _ => Err(SendError::NotConnected),
        }
    }

    /// Hands every queued message to the caller, oldest first.
    pub fn drain(&mut self) -> (r: Vec<ClientMessage>)
        ensures
            final(self).role == old(self).role,
            r@ == old(self).pending(),
            final(self).spec_is_connected() == old(self).spec_is_connected(),
            final(self).pending().len() == 0,
            !old(self).spec_is_connected() ==> final(self).state == old(self).state,
    {
        match &mut self.state {
            ConnectionState::Connected(queue) => {
                let mut out: Vec<ClientMessage> = Vec::new();
                std::mem::swap(&mut out, queue);
                out
            },
            _ => Vec::new(),
        }
    }
}

} // verus!
