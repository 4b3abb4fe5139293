//! Reading and writing DNS messages. The wire format itself is the work of
//! the `dns_parser` crate; this module states what the relay relies on and
//! builds the relay's own operations on top of it.

use crate::error::RelayError;
use crate::wire::{
    encodable, label_len, labels_fit, lemma_query_wire_len, query_header, query_wire,
    question_count, question_wire, read_be16, with_question_count, DOT, HEADER_LEN, MAX_LABEL,
    MAX_MESSAGE, MAX_NAME,
};
use vstd::prelude::*;
use vstd::string::*;

verus! {

/// One entry of the question section of a message.
#[derive(Clone, Debug, PartialEq, Eq)]
pub struct Question {
    /// The name asked for, as text with dots between the labels.
    pub name: String,
    /// The code of the record type asked for.
    pub qtype: u16,
    /// The code of the class asked for.
    pub qclass: u16,
}

/// A question as a mathematical value.
pub struct QuestionView {
    pub name: Seq<char>,
    pub qtype: u16,
    pub qclass: u16,
}

impl View for Question {
    type V = QuestionView;

    open spec fn view(&self) -> QuestionView {
        QuestionView { name: self.name@, qtype: self.qtype, qclass: self.qclass }
    }
}

/// What the relay reads of a DNS message: the transaction identifier, by
/// which a client matches replies to its requests, and the questions in the
/// order in which the message holds them.
#[derive(Clone, Debug, PartialEq, Eq)]
pub struct Message {
    pub id: u16,
    pub questions: Vec<Question>,
}

/// A message as a mathematical value.
pub struct MessageView {
    pub id: u16,
    pub questions: Seq<QuestionView>,
}

impl View for Message {
    type V = MessageView;

    open spec fn view(&self) -> MessageView {
        MessageView { id: self.id, questions: self.questions@.map_values(|q: Question| q@) }
    }
}

/// The builder of `dns_parser`, which holds the bytes of a message that is
/// being put together.
#[verifier::external_type_specification]
#[verifier::external_body]
pub struct ExBuilder(dns_parser::Builder);

/// The error with which `dns_parser` refuses bytes that are no DNS message.
#[verifier::external_type_specification]
#[verifier::external_body]
pub struct ExDecodeError(dns_parser::Error);

/// The bytes that a builder holds so far.
pub uninterp spec fn builder_bytes(b: dns_parser::Builder) -> Seq<u8>;

/// What `dns_parser` reads from `data`: the message, or nothing where it
/// refuses the bytes.
pub uninterp spec fn decoded(data: Seq<u8>) -> Option<MessageView>;

/// Whether `a` and `b` are equally long and agree in every byte but the two
/// flag bytes of the header.
pub open spec fn same_but_flags(a: Seq<u8>, b: Seq<u8>) -> bool {
    a.len() == b.len() && forall|i: int| 0 <= i < a.len() && !(2 <= i < 4) ==> a[i] == b[i]
}

/// Whether the message `m` agrees with the header at the start of `data`:
/// in its identifier and in the number of its questions.
pub open spec fn agrees_with_header(data: Seq<u8>, m: MessageView) -> bool {
    m.id == read_be16(data, 0) && m.questions.len() == question_count(data)
}

/// The message that the relay reads from `data`. Bytes shorter than a
/// header hold none; otherwise it is the message that `dns_parser` reads,
/// which agrees with the header.
pub open spec fn message_in(data: Seq<u8>) -> Option<MessageView> {
    if data.len() < HEADER_LEN {
        None
    } else {
        match decoded(data) {
            Some(m) => if agrees_with_header(data, m) {
                Some(m)
            } else {
                None
            },
            None => None,
        }
    }
}

/// `dns_parser::Builder::new_query` starts a message with the header of a
/// standard query: the given identifier, the "recursion desired" flag as
/// given, every other flag clear and all four sections empty.
pub assume_specification[ dns_parser::Builder::new_query ](id: u16, recursion: bool) -> (b: dns_parser::Builder)
    ensures
        builder_bytes(b) == query_header(id, recursion, 0),
;

/// `dns_parser::Builder::build` hands out the bytes of the finished message.
/// A message of more than `MAX_MESSAGE` bytes comes back as an error; the
/// error holds the same bytes but for the two flag bytes of the header.
pub assume_specification[ dns_parser::Builder::build ](b: dns_parser::Builder) -> (r: Result<Vec<u8>, Vec<u8>>)
    ensures
        r is Ok <==> builder_bytes(b).len() <= MAX_MESSAGE,
        r matches Ok(v) ==> v@ == builder_bytes(b),
        r matches Err(v) ==> same_but_flags(v@, builder_bytes(b)),
;

/// Calls `dns_parser::Builder::add_question` with a question for the address
/// (type A, class IN, no preference for unicast) of `name`. The call appends
/// the name, label by label, and the type and class to the message and
/// raises the number of questions in the header by one. It panics once other
/// sections have been written, at 65535 questions, and on a label of more
/// than `MAX_LABEL` bytes; the precondition leaves those out.
#[verifier::external_body]
fn add_address_question(b: &mut dns_parser::Builder, name: &str)
    requires
        builder_bytes(*old(b)).len() >= HEADER_LEN,
        forall|i: int| 6 <= i < 12 ==> builder_bytes(*old(b))[i] == 0,
        question_count(builder_bytes(*old(b))) < 65535,
        labels_fit(name.spec_bytes()),
    ensures
        builder_bytes(*final(b)) == with_question_count(
            builder_bytes(*old(b)),
            question_count(builder_bytes(*old(b))) + 1,
        ) + question_wire(name.spec_bytes()),
{
    b.add_question(name, false, dns_parser::QueryType::A, dns_parser::QueryClass::IN);
}

/// Calls `dns_parser::Packet::parse` and copies out the identifier and the
/// questions, each name written as text by the crate's own `to_string`. The
/// result depends on the bytes alone. The crate refuses anything shorter
/// than a header, reads the identifier from the first two bytes, and returns
/// as many questions as the header announces.
#[verifier::external_body]
fn decode_packet(data: &[u8]) -> (r: Result<Message, dns_parser::Error>)
    ensures
        match r {
            Ok(m) => decoded(data@) == Some(m@),
            Err(_) => decoded(data@) is None,
        },
        data@.len() < HEADER_LEN ==> r is Err,
        r matches Ok(m) ==> agrees_with_header(data@, m@),
{
    let packet = dns_parser::Packet::parse(data)?;
    let questions = packet.questions.iter().map(
        |q| Question { name: q.qname.to_string(), qtype: q.qtype as u16, qclass: q.qclass as u16 },
    ).collect();
    Ok(Message { id: packet.header.id, questions })
}

/// Checks that every label of `name` is short enough for a query.
pub fn check_labels(name: &[u8]) -> (ok: bool)
    ensures
        ok == labels_fit(name@),
{
    let mut i: usize = name.len();
    let mut run: usize = 0;
    assert(name@.skip(i as int) =~= Seq::<u8>::empty());
    while i > 0
        invariant
            i <= name@.len(),
            run == label_len(name@.skip(i as int)),
            run <= MAX_LABEL,
            forall|j: int| i <= j <= name@.len() ==> #[trigger] label_len(name@.skip(j)) <= MAX_LABEL,
        decreases i,
    {
        i = i - 1;
        assert(name@.skip(i as int).skip(1) =~= name@.skip(i as int + 1));
        assert(name@.skip(i as int)[0] == name@[i as int]);
        if name[i] == DOT {
            run = 0;
        } else {
            run = run + 1;
        }
        assert(run == label_len(name@.skip(i as int)));
        if run > MAX_LABEL {
            return false;
        }
    }
    true
}

/// Builds the query that the relay sends upstream: a standard query with
/// recursion desired that asks, under the identifier `packet_id`, for the
/// address of `domain`. A name with a label of more than `MAX_LABEL` bytes,
/// or one so long that the message would pass `MAX_MESSAGE` bytes, is
/// refused.
pub fn build_query(packet_id: u16, domain: &str) -> (r: Result<Vec<u8>, RelayError>)
    ensures
        match r {
            Ok(query) => encodable(domain.spec_bytes()) && query@ == query_wire(
                packet_id,
                domain.spec_bytes(),
            ),
            Err(e) => e == RelayError::Encode && !encodable(domain.spec_bytes()),
        },
{
    let text: &[u8] = domain.as_bytes();
    if text.len() > MAX_NAME || !check_labels(text) {
        return Err(RelayError::Encode);
    }
    let mut builder = dns_parser::Builder::new_query(packet_id, true);
    proof {
        let start = query_header(packet_id, true, 0);
        assert(start.len() == 12);
        assert(question_count(start) == 0);
        assert(with_question_count(start, 1) =~= query_header(packet_id, true, 1));
        lemma_query_wire_len(packet_id, text@);
    }
    add_address_question(&mut builder, domain);
    match builder.build() {
        Ok(query) => Ok(query),
        Err(_) => Err(RelayError::Encode),
    }
}

/// Reads a DNS message. Bytes that are no DNS message are refused.
pub fn parse_message(data: &[u8]) -> (r: Result<Message, RelayError>)
    ensures
        match r {
            Ok(m) => message_in(data@) == Some(m@),
            Err(e) => e == RelayError::Parse && message_in(data@) is None,
        },
{
    match decode_packet(data) {
        Ok(m) => Ok(m),
        Err(_) => Err(RelayError::Parse),
    }
}

} // verus!
