//! Round trips to the upstream resolver.
//!
//! By datagram a round trip is one send and one receive on a socket of its
//! own. On the shared stream it is: take the session, connect if there is no
//! usable connection, write the framed query, read exactly one framed reply,
//! give the session back. The driver does the reading and writing and
//! reports how each step went; every decision is taken here.

use crate::error::RelayError;
use crate::framing::{after_first, feed, first_payload, frame, framed, has_frame, MAX_PAYLOAD};
use crate::session::{
    acquire_answer, after, may_send, Grant, Request, Session, SessionView, NOBODY,
};
use vstd::prelude::*;

verus! {

/// How a round trip by datagram went.
#[derive(Debug, PartialEq, Eq)]
pub enum DatagramAttempt {
    /// The query could not be sent.
    NotSent,
    /// The query was sent and nothing came back in time.
    NoReply,
    /// The query was sent and `bytes` came back.
    Reply { bytes: Vec<u8> },
}

/// The outcome of a round trip by datagram: the bytes that came back as they
/// are, `UpstreamUnreachable` where the query could not be sent, and
/// `UpstreamTimeout` where no reply came in time.
pub fn datagram_outcome(attempt: DatagramAttempt) -> (outcome: Result<Vec<u8>, RelayError>)
    ensures
        match attempt {
            DatagramAttempt::NotSent => outcome matches Err(e) && e
                == RelayError::UpstreamUnreachable,
            DatagramAttempt::NoReply => outcome matches Err(e) && e == RelayError::UpstreamTimeout,
            DatagramAttempt::Reply { bytes } => outcome matches Ok(reply) && reply@ == bytes@,
        },
{
    match attempt {
        DatagramAttempt::NotSent => Err(RelayError::UpstreamUnreachable),
        DatagramAttempt::NoReply => Err(RelayError::UpstreamTimeout),
        DatagramAttempt::Reply { bytes } => Ok(bytes),
    }
}

/// Where a round trip on the shared stream stands.
#[derive(Clone, Copy, Debug, PartialEq, Eq, Structural)]
pub enum TripPhase {
    /// A connection to the upstream is being made.
    Connecting,
    /// The framed query is being written.
    Sending,
    /// The reply is being read.
    Receiving,
    /// The round trip is over and the session is given back.
    Finished,
}

/// What the driver of a round trip on the shared stream does next.
#[derive(Debug, PartialEq, Eq)]
pub enum Step {
    /// Make a new connection to the upstream, then call `on_connected`.
    Connect,
    /// Write all of `frame` to the upstream, then call `on_sent`.
    Send { frame: Vec<u8> },
    /// Read from the upstream, then call `on_received`, or `on_failed` if
    /// nothing came in time.
    Receive,
    /// Nothing more: the round trip has ended with `outcome`.
    Done { outcome: Result<Vec<u8>, RelayError> },
}

/// A round trip on the shared stream. It acts under the ticket that the
/// session has given it, or under `NOBODY` if it was given none.
pub struct RoundTrip {
    who: u64,
    request: Vec<u8>,
    inbox: Vec<u8>,
    phase: TripPhase,
}

/// A round trip as a mathematical value.
pub struct RoundTripView {
    /// The ticket under which the round trip acts.
    pub who: u64,
    /// The framed query.
    pub request: Seq<u8>,
    /// The bytes of the reply that have arrived.
    pub inbox: Seq<u8>,
    pub phase: TripPhase,
}

impl View for RoundTrip {
    type V = RoundTripView;

    closed spec fn view(&self) -> RoundTripView {
        RoundTripView {
            who: self.who,
            request: self.request@,
            inbox: self.inbox@,
            phase: self.phase,
        }
    }
}

/// Whether `step` ends a round trip with the failure `e`.
pub open spec fn fails_with(step: Step, e: RelayError) -> bool {
    step matches Step::Done { outcome } && outcome matches Err(x) && x == e
}

/// Whether `step` ends a round trip with the reply `response`.
pub open spec fn succeeds_with(step: Step, response: Seq<u8>) -> bool {
    step matches Step::Done { outcome } && outcome matches Ok(bytes) && bytes@ == response
}

/// Whether a round trip that stood at `trip` has been broken off with the
/// failure `e`: it is finished, and if it owned the session it has given it
/// back with the connection marked as broken.
pub open spec fn broken_off(
    before: SessionView,
    trip: RoundTripView,
    session: SessionView,
    trip_after: RoundTripView,
    step: Step,
    e: RelayError,
) -> bool {
    &&& goes_on(trip, trip_after, TripPhase::Finished, trip.inbox)
    &&& fails_with(step, e)
    &&& session == if trip.phase == TripPhase::Finished {
        before
    } else {
        after(before, Request::Release { who: trip.who, healthy: false })
    }
}

/// Whether a round trip goes on from `trip` to the phase `phase` with the
/// bytes `inbox` of the reply at hand.
pub open spec fn goes_on(
    trip: RoundTripView,
    trip_after: RoundTripView,
    phase: TripPhase,
    inbox: Seq<u8>,
) -> bool {
    trip_after == (RoundTripView { who: trip.who, request: trip.request, inbox, phase })
}

impl RoundTrip {
    /// The phase of the round trip.
    pub fn phase(&self) -> (p: TripPhase)
        ensures
            p == self@.phase,
    {
        self.phase
    }

    /// The ticket under which the round trip acts.
    pub fn who(&self) -> (w: u64)
        ensures
            w == self@.who,
    {
        self.who
    }

    /// Starts a round trip with the query `query`. A query too long for a
    /// frame fails with `Encode`, and a session that another exchange owns
    /// with `UpstreamBusy`; neither touches the session. Otherwise the round
    /// trip owns the session from now on, under the ticket it is given, and
    /// the next step is to connect, or to send the framed query where the
    /// connection is up.
    pub fn start(session: &mut Session, query: &[u8]) -> (r: (RoundTrip, Step))
        ensures
            r.0@.inbox == Seq::<u8>::empty(),
            query@.len() > MAX_PAYLOAD ==> {
                &&& final(session)@ == old(session)@
                &&& r.0@.who == NOBODY
                &&& r.0@.request == Seq::<u8>::empty()
                &&& r.0@.phase == TripPhase::Finished
                &&& fails_with(r.1, RelayError::Encode)
            },
            query@.len() <= MAX_PAYLOAD ==> {
                &&& final(session)@ == after(old(session)@, Request::Acquire)
                &&& r.0@.request == framed(query@)
                &&& match acquire_answer(old(session)@) {
                    Err(e) => {
                        &&& r.0@.who == NOBODY
                        &&& r.0@.phase == TripPhase::Finished
                        &&& fails_with(r.1, e)
                    },
                    Ok((ticket, Grant::Connect)) => {
                        &&& r.0@.who == ticket
                        &&& r.0@.phase == TripPhase::Connecting
                        &&& r.1 is Connect
                    },
                    Ok((ticket, Grant::Proceed)) => {
                        &&& r.0@.who == ticket
                        &&& r.0@.phase == TripPhase::Sending
                        &&& r.1 matches Step::Send { frame }
                        &&& frame@ == framed(query@)
                        &&& may_send(final(session)@, ticket)
                    },
                }
            },
    {
        let request = match frame(query) {
            Ok(f) => f,
            Err(e) => {
                let trip = RoundTrip {
                    who: NOBODY,
                    request: Vec::new(),
                    inbox: Vec::new(),
                    phase: TripPhase::Finished,
                };
                return (trip, Step::Done { outcome: Err(e) });
            },
        };
        match session.acquire() {
            Err(e) => {
                let trip = RoundTrip {
                    who: NOBODY,
                    request,
                    inbox: Vec::new(),
                    phase: TripPhase::Finished,
                };
                (trip, Step::Done { outcome: Err(e) })
            },
            Ok((who, Grant::Connect)) => {
                let trip = RoundTrip {
                    who,
                    request,
                    inbox: Vec::new(),
                    phase: TripPhase::Connecting,
                };
                (trip, Step::Connect)
            },
            Ok((who, Grant::Proceed)) => {
                let to_send = request.clone();
                let trip = RoundTrip {
                    who,
                    request,
                    inbox: Vec::new(),
                    phase: TripPhase::Sending,
                };
                (trip, Step::Send { frame: to_send })
            },
        }
    }

    /// Breaks the round trip off with the failure `error`: nothing came in
    /// time, or reading failed. The session is given back with the
    /// connection marked as broken, so that the next exchange makes a new
    /// one.
    pub fn on_failed(&mut self, session: &mut Session, error: RelayError) -> (step: Step)
        ensures
            broken_off(old(session)@, old(self)@, final(session)@, final(self)@, step, error),
    {
        if self.phase != TripPhase::Finished {
            session.release(self.who, false);
            self.phase = TripPhase::Finished;
        }
        Step::Done { outcome: Err(error) }
    }

    /// Takes the driver's report on the connection it was told to make.
    /// With a new connection the framed query is sent next. Without one the
    /// round trip fails with `UpstreamUnreachable`, and the session is free
    /// for the next exchange to try again.
    pub fn on_connected(&mut self, session: &mut Session, ok: bool) -> (step: Step)
        ensures
            old(self)@.phase == TripPhase::Connecting && old(session)@.holder == Some(
                old(self)@.who,
            ) && ok ==> {
                &&& final(session)@ == after(
                    old(session)@,
                    Request::Connected { who: old(self)@.who, ok: true },
                )
                &&& goes_on(old(self)@, final(self)@, TripPhase::Sending, old(self)@.inbox)
                &&& step matches Step::Send { frame }
                &&& frame@ == old(self)@.request
                &&& may_send(final(session)@, old(self)@.who)
            },
            !(old(self)@.phase == TripPhase::Connecting && old(session)@.holder == Some(
                old(self)@.who,
            ) && ok) ==> broken_off(
                old(session)@,
                old(self)@,
                final(session)@,
                final(self)@,
                step,
                RelayError::UpstreamUnreachable,
            ),
    {
        match self.phase {
            TripPhase::Connecting => match session.connected(self.who, ok) {
                Ok(()) => {
                    self.phase = TripPhase::Sending;
                    Step::Send { frame: self.request.clone() }
                },
                Err(_) => self.on_failed(session, RelayError::UpstreamUnreachable),
            },
            _ => self.on_failed(session, RelayError::UpstreamUnreachable),
        }
    }

    /// Takes the driver's report on the write of the framed query. After a
    /// write in full the reply is read next. A failed write breaks the round
    /// trip off with `UpstreamUnreachable`.
    pub fn on_sent(&mut self, session: &mut Session, ok: bool) -> (step: Step)
        ensures
            old(self)@.phase == TripPhase::Sending && ok ==> {
                &&& final(session)@ == old(session)@
                &&& goes_on(old(self)@, final(self)@, TripPhase::Receiving, old(self)@.inbox)
                &&& step is Receive
            },
            !(old(self)@.phase == TripPhase::Sending && ok) ==> broken_off(
                old(session)@,
                old(self)@,
                final(session)@,
                final(self)@,
                step,
                RelayError::UpstreamUnreachable,
            ),
    {
        match self.phase {
            TripPhase::Sending => {
                if ok {
                    self.phase = TripPhase::Receiving;
                    Step::Receive
                } else {
                    self.on_failed(session, RelayError::UpstreamUnreachable)
                }
            },
            _ => self.on_failed(session, RelayError::UpstreamUnreachable),
        }
    }

    /// Takes bytes that were read from the upstream; none means that the
    /// upstream has closed the connection. Once a whole frame has arrived
    /// the round trip ends with the message in it, and the session is given
    /// back: as healthy if nothing but that frame arrived, as broken if
    /// more did, since what follows belongs to no query. Until then the
    /// driver reads on. A closed connection breaks the round trip off with
    /// `UpstreamUnreachable`.
    pub fn on_received(&mut self, session: &mut Session, chunk: &[u8]) -> (step: Step)
        ensures
            ({
                let all = old(self)@.inbox + chunk@;
                if old(self)@.phase != TripPhase::Receiving || chunk@.len() == 0 {
                    broken_off(
                        old(session)@,
                        old(self)@,
                        final(session)@,
                        final(self)@,
                        step,
                        RelayError::UpstreamUnreachable,
                    )
                } else if has_frame(all) {
                    &&& final(session)@ == after(
                        old(session)@,
                        Request::Release {
                            who: old(self)@.who,
                            healthy: after_first(all).len() == 0,
                        },
                    )
                    &&& goes_on(old(self)@, final(self)@, TripPhase::Finished, after_first(all))
                    &&& succeeds_with(step, first_payload(all))
                } else {
                    &&& final(session)@ == old(session)@
                    &&& goes_on(old(self)@, final(self)@, TripPhase::Receiving, all)
                    &&& step is Receive
                }
            }),
    {
        match self.phase {
            TripPhase::Receiving => {
                if chunk.len() == 0 {
                    return self.on_failed(session, RelayError::UpstreamUnreachable);
                }
                match feed(&mut self.inbox, chunk) {
                    Some(response) => {
                        session.release(self.who, self.inbox.len() == 0);
                        self.phase = TripPhase::Finished;
                        Step::Done { outcome: Ok(response) }
                    },
                    None => Step::Receive,
                }
            },
            _ => self.on_failed(session, RelayError::UpstreamUnreachable),
        }
    }
}

} // verus!
