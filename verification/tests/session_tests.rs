use dns_relay::error::RelayError;
use dns_relay::framing::frame;
use dns_relay::lifecycle::Lifecycle;
use dns_relay::session::{Grant, Link, Session, NOBODY};
use dns_relay::upstream::{datagram_outcome, DatagramAttempt, RoundTrip, Step, TripPhase};

#[test]
fn new_session_is_free_and_unconnected() {
    let s = Session::new();
    assert_eq!(s.link(), Link::Unconnected);
    assert_eq!(s.holder(), None);
    assert!(!s.may_send(0));
}

#[test]
fn first_exchange_is_told_to_connect() {
    let mut s = Session::new();
    assert_eq!(s.acquire(), Ok((0, Grant::Connect)));
    assert_eq!(s.holder(), Some(0));
    assert!(!s.may_send(0));
    assert_eq!(s.connected(0, true), Ok(()));
    assert_eq!(s.link(), Link::Connected);
    assert!(s.may_send(0));
}

#[test]
fn owned_session_is_busy_for_everyone() {
    let mut s = Session::new();
    let (owner, _) = s.acquire().unwrap();
    s.connected(owner, true).unwrap();
    assert_eq!(s.acquire(), Err(RelayError::UpstreamBusy));
    assert_eq!(s.acquire(), Err(RelayError::UpstreamBusy));
    assert_eq!(s.holder(), Some(owner));
    assert!(!s.may_send(owner + 1));
    assert!(!s.may_send(NOBODY));
    assert!(s.may_send(owner));
}

#[test]
fn only_the_owner_gives_the_session_back() {
    let mut s = Session::new();
    let (owner, _) = s.acquire().unwrap();
    s.connected(owner, true).unwrap();
    s.release(owner + 1, false);
    assert_eq!(s.holder(), Some(owner));
    assert_eq!(s.link(), Link::Connected);
    assert_eq!(s.connected(owner + 1, false), Err(RelayError::UpstreamBusy));
    assert_eq!(s.link(), Link::Connected);
    s.release(owner, true);
    assert_eq!(s.holder(), None);
    assert_eq!(s.link(), Link::Connected);
}

#[test]
fn healthy_connection_is_used_again() {
    let mut s = Session::new();
    let (first, _) = s.acquire().unwrap();
    s.connected(first, true).unwrap();
    s.release(first, true);
    assert_eq!(s.acquire(), Ok((1, Grant::Proceed)));
    assert!(s.may_send(1));
    assert!(!s.may_send(first));
}

#[test]
fn every_exchange_gets_a_ticket_of_its_own() {
    let mut s = Session::new();
    let mut seen = Vec::new();
    for _ in 0..5 {
        let (ticket, _) = s.acquire().unwrap();
        assert!(!seen.contains(&ticket));
        seen.push(ticket);
        s.release(ticket, true);
    }
    assert_eq!(seen, vec![0, 1, 2, 3, 4]);
    let (owner, _) = s.acquire().unwrap();
    s.connected(owner, true).unwrap();
    for earlier in seen {
        assert!(!s.may_send(earlier));
        s.release(earlier, false);
        assert_eq!(s.holder(), Some(owner));
    }
    assert_eq!(s.link(), Link::Connected);
}

#[test]
fn broken_connection_is_made_anew() {
    let mut s = Session::new();
    let (first, _) = s.acquire().unwrap();
    s.connected(first, true).unwrap();
    s.release(first, false);
    assert_eq!(s.link(), Link::Broken);
    assert_eq!(s.holder(), None);
    assert_eq!(s.acquire(), Ok((1, Grant::Connect)));
    assert!(!s.may_send(1));
    assert_eq!(s.connected(1, true), Ok(()));
    assert!(s.may_send(1));
}

#[test]
fn failed_connect_fails_one_exchange_only() {
    let mut s = Session::new();
    let (first, _) = s.acquire().unwrap();
    s.connected(first, true).unwrap();
    s.release(first, false);
    assert_eq!(s.acquire(), Ok((1, Grant::Connect)));
    assert_eq!(s.connected(1, false), Err(RelayError::UpstreamUnreachable));
    assert_eq!(s.link(), Link::Broken);
    assert_eq!(s.holder(), None);
    assert_eq!(s.acquire(), Ok((2, Grant::Connect)));
    assert_eq!(s.connected(2, true), Ok(()));
    assert!(s.may_send(2));
}

#[test]
fn round_trip_connects_sends_and_receives() {
    let mut s = Session::new();
    let query = vec![1u8, 2, 3];
    let (mut trip, step) = RoundTrip::start(&mut s, &query);
    assert_eq!(step, Step::Connect);
    assert_eq!(trip.phase(), TripPhase::Connecting);
    assert_eq!(trip.who(), 0);
    assert_eq!(s.holder(), Some(0));

    assert_eq!(trip.on_connected(&mut s, true), Step::Send { frame: vec![0, 3, 1, 2, 3] });
    assert!(s.may_send(trip.who()));
    assert_eq!(trip.on_sent(&mut s, true), Step::Receive);
    assert_eq!(trip.phase(), TripPhase::Receiving);

    assert_eq!(trip.on_received(&mut s, &[0]), Step::Receive);
    assert_eq!(trip.on_received(&mut s, &[2, 9]), Step::Receive);
    assert_eq!(s.holder(), Some(0));
    assert_eq!(trip.on_received(&mut s, &[8]), Step::Done { outcome: Ok(vec![9, 8]) });
    assert_eq!(trip.phase(), TripPhase::Finished);
    assert_eq!(s.holder(), None);
    assert_eq!(s.link(), Link::Connected);
}

#[test]
fn round_trip_on_a_live_connection_sends_at_once() {
    let mut s = Session::new();
    let (first, _) = s.acquire().unwrap();
    s.connected(first, true).unwrap();
    s.release(first, true);
    let (trip, step) = RoundTrip::start(&mut s, &[5, 6]);
    assert_eq!(step, Step::Send { frame: frame(&[5, 6]).unwrap() });
    assert_eq!(trip.phase(), TripPhase::Sending);
    assert_eq!(trip.who(), 1);
    assert!(s.may_send(1));
}

#[test]
fn round_trips_do_not_overlap() {
    let mut s = Session::new();
    let (mut first, _) = RoundTrip::start(&mut s, &[1]);
    first.on_connected(&mut s, true);

    let (mut second, step) = RoundTrip::start(&mut s, &[2]);
    assert_eq!(step, Step::Done { outcome: Err(RelayError::UpstreamBusy) });
    assert_eq!(second.phase(), TripPhase::Finished);
    assert_eq!(second.who(), NOBODY);
    assert_eq!(s.holder(), Some(first.who()));
    assert!(!s.may_send(second.who()));
    assert_eq!(
        second.on_sent(&mut s, true),
        Step::Done { outcome: Err(RelayError::UpstreamUnreachable) }
    );
    assert_eq!(s.holder(), Some(first.who()));
    assert_eq!(s.link(), Link::Connected);

    first.on_sent(&mut s, true);
    assert_eq!(first.on_received(&mut s, &[0, 1, 7]), Step::Done { outcome: Ok(vec![7]) });

    let (third, step) = RoundTrip::start(&mut s, &[2]);
    assert_eq!(step, Step::Send { frame: vec![0, 1, 2] });
    assert!(third.who() != first.who());
    assert_eq!(
        first.on_failed(&mut s, RelayError::UpstreamTimeout),
        Step::Done { outcome: Err(RelayError::UpstreamTimeout) }
    );
    assert_eq!(s.holder(), Some(third.who()));
    assert_eq!(s.link(), Link::Connected);
}

#[test]
fn round_trip_without_a_connection_fails_alone() {
    let mut s = Session::new();
    let (mut trip, _) = RoundTrip::start(&mut s, &[1]);
    assert_eq!(
        trip.on_connected(&mut s, false),
        Step::Done { outcome: Err(RelayError::UpstreamUnreachable) }
    );
    assert_eq!(trip.phase(), TripPhase::Finished);
    assert_eq!(s.holder(), None);
    assert_eq!(s.link(), Link::Broken);

    let (mut next, step) = RoundTrip::start(&mut s, &[2]);
    assert_eq!(step, Step::Connect);
    assert_eq!(next.on_connected(&mut s, true), Step::Send { frame: vec![0, 1, 2] });
}

#[test]
fn failed_write_breaks_the_connection() {
    let mut s = Session::new();
    let (mut trip, _) = RoundTrip::start(&mut s, &[1]);
    trip.on_connected(&mut s, true);
    assert_eq!(
        trip.on_sent(&mut s, false),
        Step::Done { outcome: Err(RelayError::UpstreamUnreachable) }
    );
    assert_eq!(s.link(), Link::Broken);
    assert_eq!(s.holder(), None);
}

#[test]
fn reset_while_reading_breaks_the_connection_and_the_next_exchange_recovers() {
    let mut s = Session::new();
    let (mut trip, _) = RoundTrip::start(&mut s, &[1]);
    trip.on_connected(&mut s, true);
    trip.on_sent(&mut s, true);
    trip.on_received(&mut s, &[0, 9, 1]);
    assert_eq!(
        trip.on_received(&mut s, &[]),
        Step::Done { outcome: Err(RelayError::UpstreamUnreachable) }
    );
    assert_eq!(s.link(), Link::Broken);
    assert_eq!(s.holder(), None);

    let (mut next, step) = RoundTrip::start(&mut s, &[4, 4]);
    assert_eq!(step, Step::Connect);
    assert_eq!(next.on_connected(&mut s, true), Step::Send { frame: vec![0, 2, 4, 4] });
    next.on_sent(&mut s, true);
    assert_eq!(next.on_received(&mut s, &[0, 1, 6]), Step::Done { outcome: Ok(vec![6]) });
    assert_eq!(s.link(), Link::Connected);
}

#[test]
fn timeout_breaks_the_round_trip_off() {
    let mut s = Session::new();
    let (mut trip, _) = RoundTrip::start(&mut s, &[1]);
    trip.on_connected(&mut s, true);
    trip.on_sent(&mut s, true);
    assert_eq!(
        trip.on_failed(&mut s, RelayError::UpstreamTimeout),
        Step::Done { outcome: Err(RelayError::UpstreamTimeout) }
    );
    assert_eq!(trip.phase(), TripPhase::Finished);
    assert_eq!(s.link(), Link::Broken);
    assert_eq!(s.holder(), None);
    assert_eq!(
        trip.on_failed(&mut s, RelayError::UpstreamTimeout),
        Step::Done { outcome: Err(RelayError::UpstreamTimeout) }
    );
}

#[test]
fn bytes_behind_the_reply_break_the_connection() {
    let mut s = Session::new();
    let (mut trip, _) = RoundTrip::start(&mut s, &[1]);
    trip.on_connected(&mut s, true);
    trip.on_sent(&mut s, true);
    assert_eq!(trip.on_received(&mut s, &[0, 1, 7, 0]), Step::Done { outcome: Ok(vec![7]) });
    assert_eq!(s.holder(), None);
    assert_eq!(s.link(), Link::Broken);
}

#[test]
fn query_too_long_for_a_frame_leaves_the_session_alone() {
    let mut s = Session::new();
    let query = vec![0u8; 65536];
    let (trip, step) = RoundTrip::start(&mut s, &query);
    assert_eq!(step, Step::Done { outcome: Err(RelayError::Encode) });
    assert_eq!(trip.phase(), TripPhase::Finished);
    assert_eq!(trip.who(), NOBODY);
    assert_eq!(s.holder(), None);
    assert_eq!(s.link(), Link::Unconnected);
    assert_eq!(s.acquire(), Ok((0, Grant::Connect)));
}

#[test]
fn steps_out_of_turn_break_the_round_trip_off() {
    let mut s = Session::new();
    let (mut trip, _) = RoundTrip::start(&mut s, &[1]);
    assert_eq!(
        trip.on_received(&mut s, &[0, 1, 7]),
        Step::Done { outcome: Err(RelayError::UpstreamUnreachable) }
    );
    assert_eq!(s.holder(), None);
    assert_eq!(s.link(), Link::Broken);
}

#[test]
fn relay_takes_on_work_until_it_is_stopped() {
    let mut l = Lifecycle::new();
    assert!(!l.is_stopping());
    assert!(!l.may_exit());
    assert!(l.take_on());
    assert!(l.take_on());
    assert_eq!(l.in_flight(), 2);
    l.request_stop();
    assert!(l.is_stopping());
    assert!(!l.take_on());
    assert_eq!(l.in_flight(), 2);
    assert!(!l.may_exit());
    l.finish();
    assert!(!l.may_exit());
    l.finish();
    assert!(l.may_exit());
    l.finish();
    assert_eq!(l.in_flight(), 0);
    assert!(!l.take_on());
    l.request_stop();
    assert!(l.may_exit());
}

#[test]
fn idle_relay_may_exit_as_soon_as_it_is_stopped() {
    let mut l = Lifecycle::new();
    l.finish();
    assert_eq!(l.in_flight(), 0);
    l.request_stop();
    assert!(l.may_exit());
}

#[test]
fn datagram_round_trip_ends_as_it_went() {
    assert_eq!(datagram_outcome(DatagramAttempt::NotSent), Err(RelayError::UpstreamUnreachable));
    assert_eq!(datagram_outcome(DatagramAttempt::NoReply), Err(RelayError::UpstreamTimeout));
    assert_eq!(
        datagram_outcome(DatagramAttempt::Reply { bytes: vec![4, 5, 6] }),
        Ok(vec![4, 5, 6])
    );
    assert_eq!(datagram_outcome(DatagramAttempt::Reply { bytes: vec![] }), Ok(vec![]));
}
