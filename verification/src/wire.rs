//! The layout of the query that the relay sends upstream, as byte sequences.
//!
//! A query is a header of twelve bytes, the name in question as a run of
//! labels, and the type and class asked for. Names are given as the bytes of
//! their text, labels separated by dots.

use vstd::prelude::*;

verus! {

/// The byte that separates the labels of a name in text.
pub const DOT: u8 = 0x2e;

/// The number of bytes in a message header.
pub const HEADER_LEN: usize = 12;

/// The longest label that a query can carry.
pub const MAX_LABEL: usize = 62;

/// The longest message that is sent without being marked as truncated.
pub const MAX_MESSAGE: usize = 512;

/// The longest name whose query still fits in `MAX_MESSAGE` bytes.
pub const MAX_NAME: usize = 494;

/// A 16-bit number as two bytes, most significant first.
pub open spec fn be16(n: int) -> Seq<u8> {
    seq![(n / 256) as u8, (n % 256) as u8]
}

/// The 16-bit number held in the two bytes of `s` at `at`.
pub open spec fn read_be16(s: Seq<u8>, at: int) -> int
    recommends
        0 <= at,
        at + 2 <= s.len(),
{
    s[at] as int * 256 + s[at + 1] as int
}

/// The header of a standard query that has `questions` questions and no
/// other records: the identifier, the flags (only "recursion desired" may be
/// set), and the four section counts.
pub open spec fn query_header(id: u16, recursion: bool, questions: int) -> Seq<u8> {
    be16(id as int) + seq![if recursion { 1u8 } else { 0u8 }, 0u8] + be16(questions)
        + seq![0u8, 0u8, 0u8, 0u8, 0u8, 0u8]
}

/// The number of questions that the header of `message` announces.
pub open spec fn question_count(message: Seq<u8>) -> int
    recommends
        message.len() >= HEADER_LEN,
{
    read_be16(message, 4)
}

/// `message` with the number of questions in its header set to `questions`.
pub open spec fn with_question_count(message: Seq<u8>, questions: int) -> Seq<u8>
    recommends
        message.len() >= HEADER_LEN,
{
    message.subrange(0, 4) + be16(questions) + message.subrange(6, message.len() as int)
}

/// The length of the first label of `name`: the number of bytes in front of
/// its first dot, or all of them where it has none.
pub open spec fn label_len(name: Seq<u8>) -> int
    decreases name.len(),
{
    if name.len() == 0 || name[0] == DOT {
        0
    } else {
        1 + label_len(name.skip(1))
    }
}

/// Whether every label of `name` is short enough for a query: wherever one
/// starts reading, the next dot or the end comes within `MAX_LABEL` bytes.
pub open spec fn labels_fit(name: Seq<u8>) -> bool {
    forall|i: int| 0 <= i <= name.len() ==> #[trigger] label_len(name.skip(i)) <= MAX_LABEL
}

/// The bytes of `name` with each dot replaced by the length of the label
/// behind it, and a zero at the end.
pub open spec fn labels_body(name: Seq<u8>) -> Seq<u8>
    decreases name.len(),
{
    if name.len() == 0 {
        seq![0u8]
    } else if name[0] == DOT {
        seq![label_len(name.skip(1)) as u8] + labels_body(name.skip(1))
    } else {
        seq![name[0]] + labels_body(name.skip(1))
    }
}

/// A name on the wire: each label preceded by its length, then a zero.
pub open spec fn name_wire(name: Seq<u8>) -> Seq<u8> {
    seq![label_len(name) as u8] + labels_body(name)
}

/// A question for the address (type A, class IN) of `name`.
pub open spec fn question_wire(name: Seq<u8>) -> Seq<u8> {
    name_wire(name) + seq![0u8, 1u8, 0u8, 1u8]
}

/// The query that asks, under the identifier `id` and with recursion
/// desired, for the address of `name`.
pub open spec fn query_wire(id: u16, name: Seq<u8>) -> Seq<u8> {
    query_header(id, true, 1) + question_wire(name)
}

/// Whether a query for `name` can be built: its labels are short enough and
/// the whole message stays within `MAX_MESSAGE` bytes.
pub open spec fn encodable(name: Seq<u8>) -> bool {
    labels_fit(name) && name.len() <= MAX_NAME
}

/// A label is never longer than the name it starts.
pub proof fn lemma_label_len_bounds(name: Seq<u8>)
    ensures
        0 <= label_len(name) <= name.len(),
    decreases name.len(),
{
    if name.len() != 0 && name[0] != DOT {
        lemma_label_len_bounds(name.skip(1));
    }
}

/// On the wire a name takes two bytes more than its text.
pub proof fn lemma_name_wire_len(name: Seq<u8>)
    ensures
        labels_body(name).len() == name.len() + 1,
        name_wire(name).len() == name.len() + 2,
    decreases name.len(),
{
    if name.len() != 0 {
        lemma_name_wire_len(name.skip(1));
    }
}

/// Whether `label` holds no dot, and so is a single label.
pub open spec fn is_label(label: Seq<u8>) -> bool {
    forall|i: int| 0 <= i < label.len() ==> label[i] != DOT
}

/// In front of a dot, and at the end of a name, the first label is all
/// there is.
pub proof fn lemma_label_len_of_label(label: Seq<u8>, rest: Seq<u8>)
    requires
        is_label(label),
    ensures
        label_len(label) == label.len(),
        label_len(label + seq![DOT] + rest) == label.len(),
    decreases label.len(),
{
    let name = label + seq![DOT] + rest;
    if label.len() == 0 {
        assert(name[0] == DOT);
    } else {
        let tail = label.skip(1);
        assert(name[0] == label[0]);
        assert(name.skip(1) =~= tail + seq![DOT] + rest);
        lemma_label_len_of_label(tail, rest);
    }
}

/// The bytes of a label stay as they are, and the dot behind it gives way
/// to the length of the next label.
proof fn lemma_labels_body_of_label(label: Seq<u8>, rest: Seq<u8>)
    requires
        is_label(label),
    ensures
        labels_body(label) == label + seq![0u8],
        labels_body(label + seq![DOT] + rest) == label + name_wire(rest),
    decreases label.len(),
{
    let name = label + seq![DOT] + rest;
    if label.len() == 0 {
        assert(name[0] == DOT);
        assert(name.skip(1) =~= rest);
        assert(labels_body(name) =~= label + name_wire(rest));
        assert(labels_body(label) =~= label + seq![0u8]);
    } else {
        let tail = label.skip(1);
        assert(name[0] == label[0]);
        assert(name.skip(1) =~= tail + seq![DOT] + rest);
        lemma_labels_body_of_label(tail, rest);
        assert(labels_body(name) =~= label + name_wire(rest));
        assert(labels_body(label) =~= label + seq![0u8]);
    }
}

/// A name goes on the wire label by label: a name of one label is the
/// length of the label, the label and a zero; a longer name is the length of
/// its first label, that label, and then the rest of the name in the same
/// way.
pub proof fn lemma_name_wire_label_by_label(label: Seq<u8>, rest: Seq<u8>)
    requires
        is_label(label),
    ensures
        name_wire(label) == seq![label.len() as u8] + label + seq![0u8],
        name_wire(label + seq![DOT] + rest) == seq![label.len() as u8] + label + name_wire(rest),
{
    lemma_label_len_of_label(label, rest);
    lemma_labels_body_of_label(label, rest);
    assert(name_wire(label) =~= seq![label.len() as u8] + label + seq![0u8]);
    assert(name_wire(label + seq![DOT] + rest) =~= seq![label.len() as u8] + label + name_wire(
        rest,
    ));
}

/// A query is eighteen bytes longer than the name it asks for, so it fits in
/// `MAX_MESSAGE` bytes exactly when the name is at most `MAX_NAME` long.
pub proof fn lemma_query_wire_len(id: u16, name: Seq<u8>)
    ensures
        query_wire(id, name).len() == name.len() + 18,
        query_wire(id, name).len() <= MAX_MESSAGE <==> name.len() <= MAX_NAME,
{
    lemma_name_wire_len(name);
}

/// The header of a query carries the identifier it was built with and
/// announces one question.
pub proof fn lemma_query_wire_header(id: u16, name: Seq<u8>)
    ensures
        query_wire(id, name).len() >= HEADER_LEN,
        read_be16(query_wire(id, name), 0) == id,
        question_count(query_wire(id, name)) == 1,
        query_wire(id, name).subrange(0, HEADER_LEN as int) == query_header(id, true, 1),
{
    let q = query_wire(id, name);
    let h = query_header(id, true, 1);
    assert(h.len() == 12);
    assert(q.subrange(0, 12) =~= h);
    assert(q[0] == h[0] && q[1] == h[1] && q[4] == h[4] && q[5] == h[5]);
    let n = id as int;
    assert(((n / 256) as u8) as int * 256 + ((n % 256) as u8) as int == n);
}

/// Two names whose first labels are equally long and whose bytes behind the
/// first length byte agree are the same name.
proof fn lemma_labels_body_injective(a: Seq<u8>, b: Seq<u8>)
    requires
        labels_fit(a),
        labels_fit(b),
        label_len(a) == label_len(b),
        labels_body(a) == labels_body(b),
    ensures
        a == b,
    decreases a.len(),
{
    lemma_name_wire_len(a);
    lemma_name_wire_len(b);
    assert(a.len() == b.len());
    if a.len() == 0 {
        assert(a =~= b);
    } else {
        let ta = a.skip(1);
        let tb = b.skip(1);
        assert(labels_body(a)[0] == labels_body(b)[0]);
        assert(labels_body(a).skip(1) =~= labels_body(ta));
        assert(labels_body(b).skip(1) =~= labels_body(tb));
        assert forall|i: int| 0 <= i <= ta.len() implies #[trigger] label_len(ta.skip(i))
            <= MAX_LABEL by {
            assert(ta.skip(i) =~= a.skip(i + 1));
        }
        assert forall|i: int| 0 <= i <= tb.len() implies #[trigger] label_len(tb.skip(i))
            <= MAX_LABEL by {
            assert(tb.skip(i) =~= b.skip(i + 1));
        }
        lemma_label_len_bounds(ta);
        lemma_label_len_bounds(tb);
        assert(ta.skip(0) =~= ta);
        assert(tb.skip(0) =~= tb);
        assert(label_len(ta) <= MAX_LABEL && label_len(tb) <= MAX_LABEL);
        if label_len(a) == 0 {
            assert(a[0] == DOT && b[0] == DOT);
            assert(labels_body(a)[0] == label_len(ta) as u8);
            assert(labels_body(b)[0] == label_len(tb) as u8);
            assert(label_len(ta) == label_len(tb));
        } else {
            assert(a[0] != DOT && b[0] != DOT);
            assert(labels_body(a)[0] == a[0]);
            assert(labels_body(b)[0] == b[0]);
            assert(a[0] == b[0]);
        }
        lemma_labels_body_injective(ta, tb);
        assert(a =~= seq![a[0]] + ta);
        assert(b =~= seq![b[0]] + tb);
    }
}

/// A query determines what was asked: two queries with the same bytes carry
/// the same identifier and ask for the same name.
pub proof fn lemma_query_wire_injective(id1: u16, name1: Seq<u8>, id2: u16, name2: Seq<u8>)
    requires
        labels_fit(name1),
        labels_fit(name2),
        query_wire(id1, name1) == query_wire(id2, name2),
    ensures
        id1 == id2,
        name1 == name2,
{
    lemma_query_wire_header(id1, name1);
    lemma_query_wire_header(id2, name2);
    let q1 = query_wire(id1, name1);
    let q2 = query_wire(id2, name2);
    lemma_name_wire_len(name1);
    lemma_name_wire_len(name2);
    assert(name1.len() == name2.len());
    let n = name1.len() as int;
    assert(q1.subrange(12, 12 + n + 2) =~= name_wire(name1));
    assert(q2.subrange(12, 12 + n + 2) =~= name_wire(name2));
    assert(name_wire(name1)[0] == name_wire(name2)[0]);
    assert(name_wire(name1).skip(1) =~= labels_body(name1));
    assert(name_wire(name2).skip(1) =~= labels_body(name2));
    lemma_label_len_bounds(name1);
    lemma_label_len_bounds(name2);
    assert(name1.skip(0) =~= name1);
    assert(name2.skip(0) =~= name2);
    assert(label_len(name1) <= MAX_LABEL && label_len(name2) <= MAX_LABEL);
    lemma_labels_body_injective(name1, name2);
}

} // verus!
