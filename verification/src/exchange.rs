//! One exchange: a client's query, the query sent upstream for it, and the
//! reply that is relayed back. The decisions here are the same for every
//! transport.

use crate::codec::{build_query, message_in, parse_message, Message, MessageView};
use crate::error::RelayError;
use crate::wire::{
    encodable, lemma_query_wire_header, lemma_query_wire_injective, query_wire, read_be16,
    HEADER_LEN,
};
use vstd::prelude::*;
use vstd::string::*;
use vstd::utf8::{encode_utf8, encode_utf8_decode_utf8};

verus! {

/// The query to send upstream for a message: one that carries the message's
/// identifier and asks for the name of its first question. A message without
/// a question gives the relay nothing to forward.
pub open spec fn upstream_query(m: MessageView) -> Result<Seq<u8>, RelayError> {
    if m.questions.len() == 0 {
        Err(RelayError::Parse)
    } else if !encodable(encode_utf8(m.questions[0].name)) {
        Err(RelayError::Encode)
    } else {
        Ok(query_wire(m.id, encode_utf8(m.questions[0].name)))
    }
}

/// What the relay does with the bytes of an inbound message: the identifier
/// to remember and the query to send upstream, or the reason to give up.
pub open spec fn planned(data: Seq<u8>) -> Result<(u16, Seq<u8>), RelayError> {
    match message_in(data) {
        None => Err(RelayError::Parse),
        Some(m) => match upstream_query(m) {
            Ok(query) => Ok((m.id, query)),
            Err(e) => Err(e),
        },
    }
}

/// Whether `response` is a DNS message that carries the identifier `id`.
pub open spec fn answers(id: u16, response: Seq<u8>) -> bool {
    message_in(response) matches Some(m) && m.id == id
}

/// What is relayed to the client once the upstream round trip has ended:
/// the upstream's bytes as they came, where they answer the query with the
/// identifier `id`; otherwise the reason why the client gets nothing.
pub open spec fn settled(id: u16, outcome: Result<Seq<u8>, RelayError>) -> Result<
    Seq<u8>,
    RelayError,
> {
    match outcome {
        Ok(response) => if answers(id, response) {
            Ok(response)
        } else {
            Err(RelayError::Parse)
        },
        Err(e) => Err(e),
    }
}

/// The view of an upstream outcome: the bytes received, or the failure.
pub open spec fn outcome_view(outcome: Result<Vec<u8>, RelayError>) -> Result<
    Seq<u8>,
    RelayError,
> {
    match outcome {
        Ok(response) => Ok(response@),
        Err(e) => Err(e),
    }
}

/// A query that is ready to go upstream.
#[derive(Clone, Debug, PartialEq, Eq)]
pub struct Forward {
    /// The identifier of the client's query, which the reply must carry.
    pub id: u16,
    /// The bytes to send upstream.
    pub query: Vec<u8>,
}

/// Builds the query to send upstream for a message that was read.
pub fn query_for(message: &Message) -> (r: Result<Vec<u8>, RelayError>)
    ensures
        match r {
            Ok(query) => upstream_query(message@) == Ok::<Seq<u8>, RelayError>(query@),
            Err(e) => upstream_query(message@) == Err::<Seq<u8>, RelayError>(e),
        },
{
    if message.questions.len() == 0 {
        return Err(RelayError::Parse);
    }
    let first = &message.questions[0];
    assert(message@.questions[0] == first@);
    build_query(message.id, first.name.as_str())
}

/// Reads an inbound message and prepares the query to send upstream for it.
/// Bytes that are no DNS message, and so anything shorter than a header,
/// are refused.
pub fn plan(data: &[u8]) -> (r: Result<Forward, RelayError>)
    ensures
        match r {
            Ok(f) => planned(data@) == Ok::<(u16, Seq<u8>), RelayError>((f.id, f.query@)),
            Err(e) => planned(data@) == Err::<(u16, Seq<u8>), RelayError>(e),
        },
{
    let message = match parse_message(data) {
        Ok(m) => m,
        Err(e) => {
            return Err(e);
        },
    };
    match query_for(&message) {
        Ok(query) => Ok(Forward { id: message.id, query }),
        Err(e) => Err(e),
    }
}

/// Decides what is relayed to the client that asked under the identifier
/// `id`. A reply is relayed only if it is a DNS message with that identifier,
/// and then byte for byte.
pub fn settle(id: u16, outcome: Result<Vec<u8>, RelayError>) -> (r: Result<Vec<u8>, RelayError>)
    ensures
        match r {
            Ok(bytes) => settled(id, outcome_view(outcome)) == Ok::<Seq<u8>, RelayError>(bytes@),
            Err(e) => settled(id, outcome_view(outcome)) == Err::<Seq<u8>, RelayError>(e),
        },
        r matches Ok(bytes) ==> (outcome matches Ok(response) && bytes@ == response@),
{
    match outcome {
        Ok(response) => {
            match parse_message(response.as_slice()) {
                Ok(m) => {
                    if m.id == id {
                        Ok(response)
                    } else {
                        Err(RelayError::Parse)
                    }
                },
                Err(e) => Err(e),
            }
        },
        Err(e) => Err(e),
    }
}

/// The query that goes upstream for a message carries the identifier of
/// that message and exactly one question: whatever message is read from its
/// bytes has that identifier and one question.
pub proof fn lemma_upstream_query_keeps_id(m: MessageView, query: Seq<u8>, read_back: MessageView)
    requires
        upstream_query(m) == Ok::<Seq<u8>, RelayError>(query),
        message_in(query) == Some(read_back),
    ensures
        read_be16(query, 0) == m.id,
        read_back.id == m.id,
        read_back.questions.len() == 1,
{
    lemma_query_wire_header(m.id, encode_utf8(m.questions[0].name));
}

/// The query that goes upstream tells what was asked: messages for which
/// the same query goes upstream have the same identifier and ask, in their
/// first question, for the same name.
pub proof fn lemma_upstream_query_tells_the_question(m1: MessageView, m2: MessageView)
    requires
        upstream_query(m1) is Ok,
        upstream_query(m1) == upstream_query(m2),
    ensures
        m1.id == m2.id,
        m1.questions[0].name == m2.questions[0].name,
{
    let name1 = m1.questions[0].name;
    let name2 = m2.questions[0].name;
    lemma_query_wire_injective(m1.id, encode_utf8(name1), m2.id, encode_utf8(name2));
    encode_utf8_decode_utf8(name1);
    encode_utf8_decode_utf8(name2);
}

/// Datagrams and frames that are shorter than a header are never forwarded.
pub proof fn lemma_short_message_is_refused(data: Seq<u8>)
    requires
        data.len() < HEADER_LEN,
    ensures
        planned(data) == Err::<(u16, Seq<u8>), RelayError>(RelayError::Parse),
{
}

/// A reply is relayed only if its header carries the identifier of the
/// query, and then unchanged.
pub proof fn lemma_relayed_reply_is_upstreams(id: u16, outcome: Result<Seq<u8>, RelayError>)
    ensures
        settled(id, outcome) matches Ok(bytes) ==> (outcome == Ok::<Seq<u8>, RelayError>(bytes)
            && bytes.len() >= HEADER_LEN && read_be16(bytes, 0) == id),
{
}

} // verus!
