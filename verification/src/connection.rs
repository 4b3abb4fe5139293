//! The handler of one client connection on a stream: read a frame, read the
//! message in it, forward; then, with the upstream's outcome, write the
//! framed reply and read the next frame. Anything that goes wrong closes the
//! connection. One request is in flight at a time, so the reply that is
//! written always belongs to the request that was read last.

use crate::error::RelayError;
use crate::exchange::{outcome_view, plan, planned, settle, settled};
use crate::framing::{
    after_first, append, first_payload, frame, framed, has_frame, take_frame, MAX_PAYLOAD,
};
use vstd::prelude::*;

verus! {

/// Where a connection stands.
#[derive(Clone, Copy, Debug, PartialEq, Eq, Structural)]
pub enum Phase {
    /// Waiting for the rest of a frame from the client.
    ReadFrame,
    /// A query with the identifier `id` is with the upstream.
    Forward { id: u16 },
    /// A framed reply is being written to the client.
    WriteFrame,
    /// The connection is over.
    Closed,
}

/// What to do next on a connection.
#[derive(Debug, PartialEq, Eq)]
pub enum StreamAction {
    /// Read more bytes from the client.
    Read,
    /// Send `query` upstream and come back with the outcome.
    Forward { query: Vec<u8> },
    /// Write `frame` to the client.
    Write { frame: Vec<u8> },
    /// Close the connection to the client.
    Close,
}

/// The state of one client connection.
pub struct Connection {
    inbox: Vec<u8>,
    phase: Phase,
}

/// A connection as a mathematical value: the bytes received and not yet
/// used, and the phase.
pub struct ConnectionView {
    pub inbox: Seq<u8>,
    pub phase: Phase,
}

impl View for Connection {
    type V = ConnectionView;

    closed spec fn view(&self) -> ConnectionView {
        ConnectionView { inbox: self.inbox@, phase: self.phase }
    }
}

/// Whether `after` and `action` are what follows when a connection with the
/// unused bytes `inbox` turns to its next request. Without a whole frame it
/// reads on. A frame whose message can be forwarded is taken off the front
/// and its query goes upstream; any other frame closes the connection.
pub open spec fn turns_to(inbox: Seq<u8>, after: ConnectionView, action: StreamAction) -> bool {
    if !has_frame(inbox) {
        after.inbox == inbox && after.phase == Phase::ReadFrame && action is Read
    } else {
        match planned(first_payload(inbox)) {
            Ok((id, upstream)) => {
                &&& after.inbox == after_first(inbox)
                &&& after.phase == Phase::Forward { id }
                &&& action matches StreamAction::Forward { query }
                &&& query@ == upstream
            },
            Err(_) => closes(after, action),
        }
    }
}

/// Whether `after` and `action` are the end of a connection.
pub open spec fn closes(after: ConnectionView, action: StreamAction) -> bool {
    after.inbox == Seq::<u8>::empty() && after.phase == Phase::Closed && action is Close
}

impl Connection {
    /// Whether the connection holds no whole frame while it waits for bytes,
    /// and nothing once it is closed.
    pub open spec fn wf(&self) -> bool {
        &&& self@.phase == Phase::ReadFrame ==> !has_frame(self@.inbox)
        &&& self@.phase == Phase::Closed ==> self@.inbox == Seq::<u8>::empty()
    }

    /// A connection that has just been accepted.
    pub fn new() -> (c: Connection)
        ensures
            c@.inbox == Seq::<u8>::empty(),
            c@.phase == Phase::ReadFrame,
            c.wf(),
    {
        Connection { inbox: Vec::new(), phase: Phase::ReadFrame }
    }

    /// The phase of the connection.
    pub fn phase(&self) -> (p: Phase)
        ensures
            p == self@.phase,
    {
        self.phase
    }

    /// The number of bytes received and not yet used.
    pub fn buffered(&self) -> (n: usize)
        ensures
            n == self@.inbox.len(),
    {
        self.inbox.len()
    }

    fn close(&mut self) -> (action: StreamAction)
        ensures
            closes(final(self)@, action),
            final(self).wf(),
    {
        self.inbox = Vec::new();
        self.phase = Phase::Closed;
        StreamAction::Close
    }

    fn turn(&mut self) -> (action: StreamAction)
        ensures
            turns_to(old(self)@.inbox, final(self)@, action),
            final(self).wf(),
    {
        match take_frame(&mut self.inbox) {
            None => {
                self.phase = Phase::ReadFrame;
                StreamAction::Read
            },
            Some(message) => match plan(message.as_slice()) {
                Ok(f) => {
                    self.phase = Phase::Forward { id: f.id };
                    StreamAction::Forward { query: f.query }
                },
                Err(_) => self.close(),
            },
        }
    }

    /// Takes bytes that the client has sent. While the connection waits for
    /// a frame they are added to what came before, and the connection turns
    /// to its next request. In any other phase no bytes are expected, and
    /// the connection is closed.
    pub fn on_bytes(&mut self, chunk: &[u8]) -> (action: StreamAction)
        ensures
            final(self).wf(),
            old(self)@.phase == Phase::ReadFrame ==> turns_to(
                old(self)@.inbox + chunk@,
                final(self)@,
                action,
            ),
            old(self)@.phase != Phase::ReadFrame ==> closes(final(self)@, action),
    {
        match self.phase {
            Phase::ReadFrame => {
                append(&mut self.inbox, chunk);
                self.turn()
            },
            _ => self.close(),
        }
    }

    /// Takes the end of the client's stream: the client has closed the
    /// connection or reading from it has failed. The connection is closed.
    pub fn on_end(&mut self) -> (action: StreamAction)
        ensures
            closes(final(self)@, action),
            final(self).wf(),
    {
        self.close()
    }

    /// Takes the outcome of the upstream round trip. A reply that answers
    /// the query in flight is framed, byte for byte, for the client. Any
    /// other outcome, and an outcome that no query waits for, closes the
    /// connection.
    pub fn on_upstream(&mut self, outcome: Result<Vec<u8>, RelayError>) -> (action: StreamAction)
        ensures
            final(self).wf(),
            match old(self)@.phase {
                Phase::Forward { id } => match settled(id, outcome_view(outcome)) {
                    Ok(response) => if response.len() <= MAX_PAYLOAD {
                        &&& final(self)@.inbox == old(self)@.inbox
                        &&& final(self)@.phase == Phase::WriteFrame
                        &&& action matches StreamAction::Write { frame }
                        &&& frame@ == framed(response)
                    } else {
                        closes(final(self)@, action)
                    },
                    Err(_) => closes(final(self)@, action),
                },
                _ => closes(final(self)@, action),
            },
    {
        match self.phase {
            Phase::Forward { id } => match settle(id, outcome) {
                Ok(response) => match frame(response.as_slice()) {
                    Ok(framed_reply) => {
                        self.phase = Phase::WriteFrame;
                        StreamAction::Write { frame: framed_reply }
                    },
                    Err(_) => self.close(),
                },
                Err(_) => self.close(),
            },
            _ => self.close(),
        }
    }

    /// Takes the end of a write to the client. After a reply has been
    /// written in full the connection turns to its next request. A failed
    /// write, and a report that no write waits for, closes the connection.
    pub fn on_written(&mut self, ok: bool) -> (action: StreamAction)
        ensures
            final(self).wf(),
            old(self)@.phase == Phase::WriteFrame && ok ==> turns_to(
                old(self)@.inbox,
                final(self)@,
                action,
            ),
            !(old(self)@.phase == Phase::WriteFrame && ok) ==> closes(final(self)@, action),
    {
        match self.phase {
            Phase::WriteFrame => {
                if ok {
                    self.turn()
                } else {
                    self.close()
                }
            },
            _ => self.close(),
        }
    }
}

} // verus!
