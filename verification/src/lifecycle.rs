//! When the relay stops. A stop request closes the door to new work; the
//! work already under way may finish, and the relay may exit once none is
//! left.

use vstd::prelude::*;

verus! {

/// The lifecycle as a mathematical value.
pub struct LifecycleView {
    /// Whether a stop has been requested.
    pub stopping: bool,
    /// The number of exchanges and connections that are being handled.
    pub in_flight: nat,
}

/// The switch that stops the relay, and the count of the work under way.
pub struct Lifecycle {
    stopping: bool,
    in_flight: usize,
}

impl View for Lifecycle {
    type V = LifecycleView;

    closed spec fn view(&self) -> LifecycleView {
        LifecycleView { stopping: self.stopping, in_flight: self.in_flight as nat }
    }
}

/// Something that happens to the relay as a whole.
pub enum Event {
    /// A stop is requested.
    Stop,
    /// New work arrives: a datagram, or a connection to accept.
    Arrive,
    /// A piece of work is done.
    Finish,
}

/// Whether new work is taken on: no stop has been requested, and the count
/// of work under way can still grow.
pub open spec fn accepts(s: LifecycleView) -> bool {
    !s.stopping && s.in_flight < usize::MAX
}

/// The lifecycle after an event.
pub open spec fn after(s: LifecycleView, event: Event) -> LifecycleView {
    match event {
        Event::Stop => LifecycleView { stopping: true, in_flight: s.in_flight },
        Event::Arrive => if accepts(s) {
            LifecycleView { stopping: s.stopping, in_flight: s.in_flight + 1 }
        } else {
            s
        },
        Event::Finish => if s.in_flight > 0 {
            LifecycleView { stopping: s.stopping, in_flight: (s.in_flight - 1) as nat }
        } else {
            s
        },
    }
}

/// The lifecycle after a run of events, taken in order.
pub open spec fn after_all(s: LifecycleView, events: Seq<Event>) -> LifecycleView
    decreases events.len(),
{
    if events.len() == 0 {
        s
    } else {
        after(after_all(s, events.drop_last()), events.last())
    }
}

impl Lifecycle {
    /// A relay that has just started: it takes on work, and none is under
    /// way.
    pub fn new() -> (l: Lifecycle)
        ensures
            l@ == (LifecycleView { stopping: false, in_flight: 0 }),
    {
        Lifecycle { stopping: false, in_flight: 0 }
    }

    /// Requests the stop. From now on no new work is taken on.
    pub fn request_stop(&mut self)
        ensures
            final(self)@ == after(old(self)@, Event::Stop),
    {
        self.stopping = true;
    }

    /// Whether a stop has been requested.
    pub fn is_stopping(&self) -> (b: bool)
        ensures
            b == self@.stopping,
    {
        self.stopping
    }

    /// The number of pieces of work under way.
    pub fn in_flight(&self) -> (n: usize)
        ensures
            n == self@.in_flight,
    {
        self.in_flight
    }

    /// Asks whether a piece of work that has arrived is taken on. If so, it
    /// counts as under way until `finish` is called for it.
    pub fn take_on(&mut self) -> (taken: bool)
        ensures
            taken == accepts(old(self)@),
            final(self)@ == after(old(self)@, Event::Arrive),
    {
        if self.stopping || self.in_flight == usize::MAX {
            false
        } else {
            self.in_flight = self.in_flight + 1;
            true
        }
    }

    /// Records that a piece of work is done.
    pub fn finish(&mut self)
        ensures
            final(self)@ == after(old(self)@, Event::Finish),
    {
        if self.in_flight > 0 {
            self.in_flight = self.in_flight - 1;
        }
    }

    /// Whether the relay may exit: a stop has been requested and no work is
    /// under way.
    pub fn may_exit(&self) -> (b: bool)
        ensures
            b == (self@.stopping && self@.in_flight == 0),
    {
        self.stopping && self.in_flight == 0
    }
}

/// A stop is final. Whatever happens after it, the relay keeps refusing new
/// work, and the work under way only becomes less.
pub proof fn lemma_stop_is_final(s: LifecycleView, events: Seq<Event>)
    requires
        s.stopping,
    ensures
        after_all(s, events).stopping,
        !accepts(after_all(s, events)),
        after_all(s, events).in_flight <= s.in_flight,
    decreases events.len(),
{
    if events.len() > 0 {
        lemma_stop_is_final(s, events.drop_last());
    }
}

/// Once a stop has been requested and as many pieces of work have finished
/// as were under way, the relay may exit.
pub proof fn lemma_drains(s: LifecycleView, n: nat)
    requires
        s.stopping,
        s.in_flight == n,
    ensures
        after_all(s, Seq::new(n, |i: int| Event::Finish)) == (LifecycleView {
            stopping: true,
            in_flight: 0,
        }),
{
    lemma_finishes_count(s, n);
}

/// After `k` pieces of work have finished, `k` fewer are under way.
proof fn lemma_finishes_count(s: LifecycleView, k: nat)
    requires
        k <= s.in_flight,
    ensures
        after_all(s, Seq::new(k, |i: int| Event::Finish)) == (LifecycleView {
            stopping: s.stopping,
            in_flight: (s.in_flight - k) as nat,
        }),
    decreases k,
{
    let events = Seq::new(k, |i: int| Event::Finish);
    if k > 0 {
        let fewer = Seq::new((k - 1) as nat, |i: int| Event::Finish);
        assert(events.drop_last() =~= fewer);
        lemma_finishes_count(s, (k - 1) as nat);
    }
}

} // verus!
