//! Framing of DNS messages on a stream: each message is preceded by its
//! length as two bytes, most significant first.

use crate::error::RelayError;
use crate::wire::{be16, read_be16};
use vstd::prelude::*;

verus! {

/// The longest message that a two-byte length can announce.
pub const MAX_PAYLOAD: usize = 65535;

/// The two bytes that announce a message of `n` bytes.
pub open spec fn length_prefix(n: int) -> Seq<u8> {
    be16(n)
}

/// A message as it travels on a stream: its length, then its bytes.
pub open spec fn framed(payload: Seq<u8>) -> Seq<u8> {
    length_prefix(payload.len() as int) + payload
}

/// The length that the first two bytes of `buf` announce.
pub open spec fn announced_len(buf: Seq<u8>) -> int
    recommends
        buf.len() >= 2,
{
    read_be16(buf, 0)
}

/// Whether `buf` starts with a whole frame.
pub open spec fn has_frame(buf: Seq<u8>) -> bool {
    buf.len() >= 2 && buf.len() >= 2 + announced_len(buf)
}

/// The message in the first frame of `buf`.
pub open spec fn first_payload(buf: Seq<u8>) -> Seq<u8>
    recommends
        has_frame(buf),
{
    buf.subrange(2, 2 + announced_len(buf))
}

/// What follows the first frame of `buf`.
pub open spec fn after_first(buf: Seq<u8>) -> Seq<u8>
    recommends
        has_frame(buf),
{
    buf.subrange(2 + announced_len(buf), buf.len() as int)
}

/// The frames of a sequence of messages, one after the other.
pub open spec fn framed_all(messages: Seq<Seq<u8>>) -> Seq<u8>
    decreases messages.len(),
{
    if messages.len() == 0 {
        Seq::empty()
    } else {
        framed(messages[0]) + framed_all(messages.skip(1))
    }
}

/// The messages of the whole frames at the start of `buf`, in order.
pub open spec fn whole_frames(buf: Seq<u8>) -> Seq<Seq<u8>>
    decreases buf.len(),
{
    if has_frame(buf) {
        seq![first_payload(buf)] + whole_frames(after_first(buf))
    } else {
        Seq::empty()
    }
}

/// What is left of `buf` behind its whole frames: the start of a frame that
/// has not arrived in full.
pub open spec fn unframed_rest(buf: Seq<u8>) -> Seq<u8>
    decreases buf.len(),
{
    if has_frame(buf) {
        unframed_rest(after_first(buf))
    } else {
        buf
    }
}

/// Puts the length in front of a message. A message too long for the two
/// length bytes is refused.
pub fn frame(payload: &[u8]) -> (r: Result<Vec<u8>, RelayError>)
    ensures
        payload@.len() <= MAX_PAYLOAD ==> (r matches Ok(v) && v@ == framed(payload@)),
        payload@.len() > MAX_PAYLOAD ==> r == Err::<Vec<u8>, RelayError>(RelayError::Encode),
{
    let n: usize = payload.len();
    if n > MAX_PAYLOAD {
        return Err(RelayError::Encode);
    }
    let mut out: Vec<u8> = Vec::with_capacity(n + 2);
    out.push((n / 256) as u8);
    out.push((n % 256) as u8);
    let mut i: usize = 0;
    while i < n
        invariant
            i <= n,
            n == payload@.len(),
            out@ == length_prefix(n as int) + payload@.subrange(0, i as int),
        decreases n - i,
    {
        out.push(payload[i]);
        i = i + 1;
    }
    assert(payload@.subrange(0, n as int) == payload@);
    Ok(out)
}

/// Takes the first whole frame off the front of `buf` and returns its
/// message. While the frame has not arrived in full, `buf` is left as it is.
pub fn take_frame(buf: &mut Vec<u8>) -> (r: Option<Vec<u8>>)
    ensures
        has_frame(old(buf)@) ==> (r matches Some(p) && p@ == first_payload(old(buf)@)
            && final(buf)@ == after_first(old(buf)@)),
        !has_frame(old(buf)@) ==> r is None && final(buf)@ == old(buf)@,
{
    let total: usize = buf.len();
    if total < 2 {
        return None;
    }
    let n: usize = (buf[0] as usize) * 256 + (buf[1] as usize);
    if total - 2 < n {
        return None;
    }
    let rest: Vec<u8> = buf.split_off(n + 2);
    let payload: Vec<u8> = buf.split_off(2);
    *buf = rest;
    Some(payload)
}

/// Adds `chunk` to the end of `buf`.
pub fn append(buf: &mut Vec<u8>, chunk: &[u8])
    ensures
        final(buf)@ == old(buf)@ + chunk@,
{
    let mut i: usize = 0;
    while i < chunk.len()
        invariant
            i <= chunk@.len(),
            buf@ == old(buf)@ + chunk@.subrange(0, i as int),
        decreases chunk@.len() - i,
    {
        buf.push(chunk[i]);
        i = i + 1;
    }
    assert(chunk@.subrange(0, i as int) =~= chunk@);
}

/// Adds bytes that have arrived on a stream to those that came before, and
/// takes the first whole frame off the front, if there is one by now.
pub fn feed(buf: &mut Vec<u8>, chunk: &[u8]) -> (r: Option<Vec<u8>>)
    ensures
        has_frame(old(buf)@ + chunk@) ==> (r matches Some(p) && p@ == first_payload(
            old(buf)@ + chunk@,
        ) && final(buf)@ == after_first(old(buf)@ + chunk@)),
        !has_frame(old(buf)@ + chunk@) ==> r is None && final(buf)@ == old(buf)@ + chunk@,
{
    append(buf, chunk);
    take_frame(buf)
}

/// A frame followed by anything is read back as the message that was framed,
/// and what followed is left.
pub proof fn lemma_frame_then_take(payload: Seq<u8>, rest: Seq<u8>)
    requires
        payload.len() <= MAX_PAYLOAD,
    ensures
        has_frame(framed(payload) + rest),
        first_payload(framed(payload) + rest) == payload,
        after_first(framed(payload) + rest) == rest,
{
    let buf = framed(payload) + rest;
    let n = payload.len() as int;
    assert(buf[0] == (n / 256) as u8);
    assert(buf[1] == (n % 256) as u8);
    assert(announced_len(buf) == n);
    assert(buf.subrange(2, 2 + n) =~= payload);
    assert(buf.subrange(2 + n, buf.len() as int) =~= rest);
}

/// Messages framed one after the other are read back as the same messages in
/// the same order, with nothing left over.
pub proof fn lemma_frames_round_trip(messages: Seq<Seq<u8>>)
    requires
        forall|i: int| 0 <= i < messages.len() ==> (#[trigger] messages[i]).len() <= MAX_PAYLOAD,
    ensures
        whole_frames(framed_all(messages)) == messages,
        unframed_rest(framed_all(messages)) == Seq::<u8>::empty(),
    decreases messages.len(),
{
    if messages.len() == 0 {
        assert(!has_frame(Seq::<u8>::empty()));
        assert(whole_frames(framed_all(messages)) =~= messages);
    } else {
        let tail = messages.skip(1);
        assert forall|i: int| 0 <= i < tail.len() implies (#[trigger] tail[i]).len()
            <= MAX_PAYLOAD by {
            assert(tail[i] == messages[i + 1]);
        }
        lemma_frames_round_trip(tail);
        lemma_frame_then_take(messages[0], framed_all(tail));
        assert(seq![messages[0]] + tail =~= messages);
    }
}

} // verus!
