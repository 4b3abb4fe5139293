//! The one connection to the upstream resolver that all client connections
//! on a stream share. The upstream answers one query at a time, so an
//! exchange owns the connection from the first byte of its query to the last
//! byte of the reply, and every other exchange is turned away meanwhile. A
//! connection that has failed is not used again: the next exchange makes a
//! new one.

use crate::error::RelayError;
use vstd::prelude::*;

verus! {

/// The state of the connection to the upstream.
#[derive(Clone, Copy, Debug, PartialEq, Eq, Structural)]
pub enum Link {
    /// No connection has been made yet.
    Unconnected,
    /// The connection is up.
    Connected,
    /// The connection has failed and must not be used again.
    Broken,
}

/// What an exchange that has been given the session does first.
#[derive(Clone, Copy, Debug, PartialEq, Eq, Structural)]
pub enum Grant {
    /// The connection is up: send the query.
    Proceed,
    /// There is no usable connection: make one, then report how it went.
    Connect,
}

/// The ticket that no exchange is ever given.
pub const NOBODY: u64 = u64::MAX;

/// A session as a mathematical value.
pub struct SessionView {
    /// The state of the connection.
    pub link: Link,
    /// The ticket of the exchange that owns the session, if any.
    pub holder: Option<u64>,
    /// The number of tickets given out so far, which is the next ticket.
    pub issued: u64,
}

/// The shared upstream session. An exchange that is given the session gets
/// a ticket with it, by which the session knows its owner.
pub struct Session {
    link: Link,
    holder: Option<u64>,
    issued: u64,
}

impl View for Session {
    type V = SessionView;

    closed spec fn view(&self) -> SessionView {
        SessionView { link: self.link, holder: self.holder, issued: self.issued }
    }
}

/// Something that an exchange asks of the session, or does with it. But for
/// the first, a request names the ticket of the exchange that makes it.
pub enum Request {
    /// An exchange that has no ticket yet asks for the session.
    Acquire,
    /// The exchange reports whether it could make a new connection.
    Connected { who: u64, ok: bool },
    /// The exchange wants to write `bytes` to the upstream.
    Send { who: u64, bytes: Seq<u8> },
    /// The exchange gives the session back, and says whether the connection
    /// still works.
    Release { who: u64, healthy: bool },
}

impl Request {
    /// The ticket under which the request is made, if it is made under one.
    pub open spec fn who(self) -> Option<u64> {
        match self {
            Request::Acquire => None,
            Request::Connected { who, .. } => Some(who),
            Request::Send { who, .. } => Some(who),
            Request::Release { who, .. } => Some(who),
        }
    }

    /// Whether the request, made by the owner, takes the session from it.
    pub open spec fn gives_up(self) -> bool {
        match self {
            Request::Connected { ok, .. } => !ok,
            Request::Release { .. } => true,
            _ => false,
        }
    }
}

/// Whether the exchange with the ticket `who` may write to the upstream: it
/// owns the session and the connection is up.
pub open spec fn may_send(s: SessionView, who: u64) -> bool {
    s.holder == Some(who) && s.link == Link::Connected
}

/// Whether the session has come into being by the operations of this
/// module: its owner, if it has one, holds a ticket that was given out.
pub open spec fn well_formed(s: SessionView) -> bool {
    s.holder matches Some(t) ==> t < s.issued
}

/// The answer to a request for the session. A free session goes to whoever
/// asks, with a ticket that nobody had before; a session that is owned is
/// refused, and so is every request once the tickets have run out.
pub open spec fn acquire_answer(s: SessionView) -> Result<(u64, Grant), RelayError> {
    if s.holder is Some || s.issued == NOBODY {
        Err(RelayError::UpstreamBusy)
    } else if s.link == Link::Connected {
        Ok((s.issued, Grant::Proceed))
    } else {
        Ok((s.issued, Grant::Connect))
    }
}

/// The session after a request. Only a free session can be acquired, and
/// only the owner's reports and release change anything.
pub open spec fn after(s: SessionView, request: Request) -> SessionView {
    match request {
        Request::Acquire => if acquire_answer(s) is Err {
            s
        } else {
            SessionView { link: s.link, holder: Some(s.issued), issued: (s.issued + 1) as u64 }
        },
        Request::Connected { who, ok } => if s.holder != Some(who) {
            s
        } else if ok {
            SessionView { link: Link::Connected, holder: s.holder, issued: s.issued }
        } else {
            SessionView { link: Link::Broken, holder: None, issued: s.issued }
        },
        Request::Send { .. } => s,
        Request::Release { who, healthy } => if s.holder != Some(who) {
            s
        } else if healthy {
            SessionView { link: s.link, holder: None, issued: s.issued }
        } else {
            SessionView { link: Link::Broken, holder: None, issued: s.issued }
        },
    }
}

/// The bytes that a request puts on the wire to the upstream: those of a
/// write by an exchange that may write, and nothing else.
pub open spec fn written(s: SessionView, request: Request) -> Seq<u8> {
    match request {
        Request::Send { who, bytes } => if may_send(s, who) {
            bytes
        } else {
            Seq::empty()
        },
        _ => Seq::empty(),
    }
}

/// The session after a run of requests, taken in order.
pub open spec fn after_all(s: SessionView, requests: Seq<Request>) -> SessionView
    decreases requests.len(),
{
    if requests.len() == 0 {
        s
    } else {
        after(after_all(s, requests.drop_last()), requests.last())
    }
}

/// Everything that a run of requests puts on the wire, in order.
pub open spec fn wire(s: SessionView, requests: Seq<Request>) -> Seq<u8>
    decreases requests.len(),
{
    if requests.len() == 0 {
        Seq::empty()
    } else {
        wire(s, requests.drop_last()) + written(
            after_all(s, requests.drop_last()),
            requests.last(),
        )
    }
}

/// The requests of `requests` that are made under the ticket `who`, in
/// order.
pub open spec fn requests_of(requests: Seq<Request>, who: u64) -> Seq<Request>
    decreases requests.len(),
{
    if requests.len() == 0 {
        Seq::empty()
    } else if requests.last().who() == Some(who) {
        requests_of(requests.drop_last(), who).push(requests.last())
    } else {
        requests_of(requests.drop_last(), who)
    }
}

impl Session {
    /// A session without a connection and without an owner, which has
    /// given out no ticket.
    pub fn new() -> (s: Session)
        ensures
            s@ == (SessionView { link: Link::Unconnected, holder: None, issued: 0 }),
            well_formed(s@),
    {
        Session { link: Link::Unconnected, holder: None, issued: 0 }
    }

    /// The state of the connection.
    pub fn link(&self) -> (l: Link)
        ensures
            l == self@.link,
    {
        self.link
    }

    /// The ticket of the exchange that owns the session, if any.
    pub fn holder(&self) -> (h: Option<u64>)
        ensures
            h == self@.holder,
    {
        self.holder
    }

    /// Asks for the session on behalf of an exchange. While another
    /// exchange owns it the answer is `UpstreamBusy` and nothing changes.
    /// Otherwise the exchange owns it from now on: it is given its ticket
    /// and told whether it must make a connection first.
    pub fn acquire(&mut self) -> (r: Result<(u64, Grant), RelayError>)
        ensures
            r == acquire_answer(old(self)@),
            final(self)@ == after(old(self)@, Request::Acquire),
            well_formed(old(self)@) ==> well_formed(final(self)@),
    {
        if self.holder.is_some() || self.issued == NOBODY {
            return Err(RelayError::UpstreamBusy);
        }
        let ticket: u64 = self.issued;
        self.issued = ticket + 1;
        self.holder = Some(ticket);
        match self.link {
            Link::Connected => Ok((ticket, Grant::Proceed)),
            _ => Ok((ticket, Grant::Connect)),
        }
    }

    /// Takes the owner's report on the connection it was told to make. With
    /// a new connection the exchange goes on. Without one the exchange has
    /// failed with `UpstreamUnreachable`: the session is free again and
    /// still without a usable connection. A report by anyone but the owner
    /// changes nothing and is answered with `UpstreamBusy`.
    pub fn connected(&mut self, who: u64, ok: bool) -> (r: Result<(), RelayError>)
        ensures
            final(self)@ == after(old(self)@, Request::Connected { who, ok }),
            well_formed(old(self)@) ==> well_formed(final(self)@),
            r is Ok <==> old(self)@.holder == Some(who) && ok,
            r matches Err(e) ==> e == (if old(self)@.holder == Some(who) {
                RelayError::UpstreamUnreachable
            } else {
                RelayError::UpstreamBusy
            }),
    {
        if self.holder != Some(who) {
            return Err(RelayError::UpstreamBusy);
        }
        if ok {
            self.link = Link::Connected;
            Ok(())
        } else {
            self.link = Link::Broken;
            self.holder = None;
            Err(RelayError::UpstreamUnreachable)
        }
    }

    /// Whether the exchange with the ticket `who` may write to the upstream
    /// now.
    pub fn may_send(&self, who: u64) -> (b: bool)
        ensures
            b == may_send(self@, who),
    {
        self.holder == Some(who) && self.link == Link::Connected
    }

    /// Gives the session back at the end of the exchange with the ticket
    /// `who`. After an exchange in which reading or writing failed the
    /// connection is marked as broken. A release by anyone but the owner
    /// changes nothing.
    pub fn release(&mut self, who: u64, healthy: bool)
        ensures
            final(self)@ == after(old(self)@, Request::Release { who, healthy }),
            well_formed(old(self)@) ==> well_formed(final(self)@),
    {
        if self.holder == Some(who) {
            self.holder = None;
            if !healthy {
                self.link = Link::Broken;
            }
        }
    }
}

/// While an exchange owns the session, the requests of all others change
/// nothing and put nothing on the wire: the session and the wire are what
/// they would be had the owner acted alone. So the bytes of one exchange are
/// never mixed with those of another.
pub proof fn lemma_owner_acts_alone(s: SessionView, requests: Seq<Request>, owner: u64)
    requires
        s.holder == Some(owner),
        forall|i: int|
            0 <= i < requests.len() && (#[trigger] requests[i]).who() == Some(owner)
                ==> !requests[i].gives_up(),
    ensures
        after_all(s, requests).holder == Some(owner),
        after_all(s, requests) == after_all(s, requests_of(requests, owner)),
        wire(s, requests) == wire(s, requests_of(requests, owner)),
    decreases requests.len(),
{
    if requests.len() > 0 {
        let front = requests.drop_last();
        let last = requests.last();
        assert forall|i: int| 0 <= i < front.len() && (#[trigger] front[i]).who() == Some(owner)
            implies !front[i].gives_up() by {
            assert(front[i] == requests[i]);
        }
        lemma_owner_acts_alone(s, front, owner);
        let own = requests_of(front, owner);
        if last.who() == Some(owner) {
            assert(own.push(last).drop_last() =~= own);
            assert(own.push(last).last() == last);
        }
    }
}

/// Nothing reaches the wire unless the exchange that writes owns the
/// session at that moment.
pub proof fn lemma_only_owner_writes(s: SessionView, request: Request)
    ensures
        written(s, request).len() > 0 ==> s.holder is Some && s.holder == request.who(),
{
}

/// At most one exchange owns the session: while it is owned, every request
/// for it is refused and leaves it as it is.
pub proof fn lemma_owned_session_is_refused(s: SessionView)
    requires
        s.holder is Some,
    ensures
        acquire_answer(s) == Err::<(u64, Grant), RelayError>(RelayError::UpstreamBusy),
        after(s, Request::Acquire) == s,
{
}

/// Whatever is asked of a session, it stays well formed and takes back no
/// ticket that it has given out.
pub proof fn lemma_tickets_only_grow(s: SessionView, requests: Seq<Request>)
    requires
        well_formed(s),
    ensures
        well_formed(after_all(s, requests)),
        after_all(s, requests).issued >= s.issued,
    decreases requests.len(),
{
    if requests.len() > 0 {
        lemma_tickets_only_grow(s, requests.drop_last());
    }
}

/// No two exchanges are given the same ticket: a ticket that is given out
/// after another one is greater. So an exchange that has given the session
/// back can never pass for a later owner.
pub proof fn lemma_tickets_differ(s: SessionView, requests: Seq<Request>)
    requires
        well_formed(s),
        acquire_answer(s) is Ok,
        acquire_answer(after_all(after(s, Request::Acquire), requests)) is Ok,
    ensures
        acquire_answer(s)->Ok_0.0 < acquire_answer(
            after_all(after(s, Request::Acquire), requests),
        )->Ok_0.0,
{
    lemma_tickets_only_grow(after(s, Request::Acquire), requests);
}

/// A failed connection is not used again. After an exchange has given the
/// session back as unhealthy, the session is free and broken; the next
/// exchange is granted the session and told to connect; nobody may write
/// until a connection has been made. If that works, the exchange may write
/// on the new connection. If not, only that exchange fails, and the session
/// is left free and broken as the exchange found it, for the next one to try
/// again.
pub proof fn lemma_broken_session_recovers(s: SessionView, failed: u64, other: u64)
    requires
        s.holder == Some(failed),
        s.issued < NOBODY,
    ensures
        ({
            let broken = after(s, Request::Release { who: failed, healthy: false });
            let next = broken.issued;
            let granted = after(broken, Request::Acquire);
            let up = after(granted, Request::Connected { who: next, ok: true });
            let down = after(granted, Request::Connected { who: next, ok: false });
            &&& broken == SessionView { link: Link::Broken, holder: None, issued: s.issued }
            &&& acquire_answer(broken) == Ok::<(u64, Grant), RelayError>((next, Grant::Connect))
            &&& !may_send(broken, other)
            &&& !may_send(granted, other)
            &&& may_send(up, next)
            &&& down.link == Link::Broken && down.holder is None
            &&& acquire_answer(down) is Ok ==> acquire_answer(down)->Ok_0.1 == Grant::Connect
        }),
{
}

} // verus!
