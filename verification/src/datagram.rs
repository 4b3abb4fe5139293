//! The path of a datagram through the relay: wait for a datagram, read it,
//! forward or drop; then, with the upstream's outcome, reply or drop. Each
//! datagram is handled on its own, and nothing of it is kept once its reply
//! has been decided.

use crate::error::RelayError;
use crate::exchange::{outcome_view, plan, planned, settle, settled};
use vstd::prelude::*;

verus! {

/// An exchange that waits for the upstream: who asked, and under which
/// identifier. `E` is whatever names a client, such as a socket address.
#[derive(Debug, PartialEq, Eq)]
pub struct Pending<E> {
    pub client: E,
    pub id: u16,
}

/// What to do next for one datagram.
#[derive(Debug, PartialEq, Eq)]
pub enum DatagramAction<E> {
    /// Send `query` upstream and come back with the outcome.
    Forward { pending: Pending<E>, query: Vec<u8> },
    /// Send `bytes` to the client `to`.
    Reply { to: E, bytes: Vec<u8> },
    /// Send nothing to anyone.
    Drop { reason: RelayError },
}

/// Takes a datagram that `from` has sent. The sender is recorded before
/// anything goes upstream. A datagram that is no DNS message, one without a
/// question, and one whose query cannot be built are dropped.
pub fn on_datagram<E>(from: E, datagram: &[u8]) -> (action: DatagramAction<E>)
    ensures
        match planned(datagram@) {
            Ok((id, upstream)) => action matches DatagramAction::Forward { pending, query }
                && pending.client == from && pending.id == id && query@ == upstream,
            Err(e) => action matches DatagramAction::Drop { reason } && reason == e,
        },
{
    match plan(datagram) {
        Ok(f) => DatagramAction::Forward {
            pending: Pending { client: from, id: f.id },
            query: f.query,
        },
        Err(e) => DatagramAction::Drop { reason: e },
    }
}

/// Ends an exchange with the outcome of the upstream round trip. A reply
/// that answers the pending query goes, byte for byte, to the client that
/// sent the query; in every other case the client gets nothing.
pub fn on_upstream<E>(pending: Pending<E>, outcome: Result<Vec<u8>, RelayError>) -> (action:
    DatagramAction<E>)
    ensures
        match settled(pending.id, outcome_view(outcome)) {
            Ok(response) => action matches DatagramAction::Reply { to, bytes } && to
                == pending.client && bytes@ == response,
            Err(e) => action matches DatagramAction::Drop { reason } && reason == e,
        },
        action matches DatagramAction::Reply { to, bytes } ==> (outcome matches Ok(response)
            && bytes@ == response@),
{
    match settle(pending.id, outcome) {
        Ok(bytes) => DatagramAction::Reply { to: pending.client, bytes },
        Err(e) => DatagramAction::Drop { reason: e },
    }
}

} // verus!
