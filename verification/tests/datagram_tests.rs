use dns_relay::codec::build_query;
use dns_relay::datagram::{on_datagram, on_upstream, DatagramAction, Pending};
use dns_relay::error::RelayError;

fn address_reply(id: u16, name_wire: &[u8], address: [u8; 4]) -> Vec<u8> {
    let mut bytes = vec![(id >> 8) as u8, (id & 0xff) as u8, 0x81, 0x80, 0, 1, 0, 1, 0, 0, 0, 0];
    bytes.extend_from_slice(name_wire);
    bytes.extend_from_slice(&[0, 1, 0, 1]);
    bytes.extend_from_slice(&[0xc0, 0x0c, 0, 1, 0, 1, 0, 0, 0x0e, 0x10, 0, 4]);
    bytes.extend_from_slice(&address);
    bytes
}

fn client_query(id: u16, name: &str) -> Vec<u8> {
    let mut builder = dns_parser::Builder::new_query(id, false);
    builder.add_question(name, false, dns_parser::QueryType::A, dns_parser::QueryClass::IN);
    builder.build().unwrap()
}

#[test]
fn datagram_with_a_query_is_forwarded() {
    let action = on_datagram("10.0.0.7:4242", &client_query(0x1234, "example.com"));
    assert_eq!(
        action,
        DatagramAction::Forward {
            pending: Pending { client: "10.0.0.7:4242", id: 0x1234 },
            query: build_query(0x1234, "example.com").unwrap(),
        }
    );
}

#[test]
fn forwarded_query_asks_for_recursion_whatever_the_client_asked() {
    let inbound = client_query(7, "a.b");
    assert_eq!(inbound[2], 0);
    match on_datagram(1u8, &inbound) {
        DatagramAction::Forward { query, .. } => {
            assert_eq!(query[2], 1);
            assert_eq!(&query[..2], &inbound[..2]);
            assert_eq!(&query[4..], &inbound[4..]);
        }
        other => panic!("not forwarded: {:?}", other),
    }
}

#[test]
fn short_datagram_is_dropped() {
    for len in 0..12usize {
        let datagram = vec![0xffu8; len];
        assert_eq!(
            on_datagram(1u32, &datagram),
            DatagramAction::Drop { reason: RelayError::Parse }
        );
    }
}

#[test]
fn malformed_datagram_is_dropped() {
    let mut datagram = client_query(1, "example.com");
    datagram.truncate(20);
    assert_eq!(on_datagram((), &datagram), DatagramAction::Drop { reason: RelayError::Parse });
}

#[test]
fn datagram_without_a_question_is_dropped() {
    let datagram = [0, 5, 1, 0, 0, 0, 0, 0, 0, 0, 0, 0];
    assert_eq!(on_datagram((), &datagram), DatagramAction::Drop { reason: RelayError::Parse });
}

#[test]
fn datagram_with_a_label_too_long_is_dropped() {
    let mut datagram = vec![0, 9, 1, 0, 0, 1, 0, 0, 0, 0, 0, 0, 63];
    datagram.extend_from_slice("a".repeat(63).as_bytes());
    datagram.extend_from_slice(b"\x00\x00\x01\x00\x01");
    assert_eq!(on_datagram((), &datagram), DatagramAction::Drop { reason: RelayError::Encode });
}

#[test]
fn reply_goes_to_the_client_that_asked() {
    let reply = address_reply(0x1234, b"\x07example\x03com\x00", [93, 184, 216, 34]);
    let pending = Pending { client: "10.0.0.7:4242".to_string(), id: 0x1234 };
    assert_eq!(
        on_upstream(pending, Ok(reply.clone())),
        DatagramAction::Reply { to: "10.0.0.7:4242".to_string(), bytes: reply }
    );
}

#[test]
fn reply_to_another_query_is_dropped() {
    let reply = address_reply(0x4321, b"\x07example\x03com\x00", [93, 184, 216, 34]);
    let pending = Pending { client: 5u16, id: 0x1234 };
    assert_eq!(on_upstream(pending, Ok(reply)), DatagramAction::Drop { reason: RelayError::Parse });
}

#[test]
fn malformed_reply_is_dropped() {
    let pending = Pending { client: 5u16, id: 0x1234 };
    assert_eq!(
        on_upstream(pending, Ok(vec![0x12, 0x34, 0x81])),
        DatagramAction::Drop { reason: RelayError::Parse }
    );
}

#[test]
fn upstream_failure_drops_the_exchange() {
    for e in [RelayError::UpstreamUnreachable, RelayError::UpstreamTimeout] {
        let pending = Pending { client: 5u16, id: 0x1234 };
        assert_eq!(on_upstream(pending, Err(e)), DatagramAction::Drop { reason: e });
    }
}

#[test]
fn query_for_example_com_is_answered_end_to_end() {
    let client = "127.0.0.1:40000";
    let inbound = client_query(0x1234, "example.com");

    let (pending, query) = match on_datagram(client, &inbound) {
        DatagramAction::Forward { pending, query } => (pending, query),
        other => panic!("not forwarded: {:?}", other),
    };

    let seen = dns_parser::Packet::parse(&query).unwrap();
    assert_eq!(seen.header.id, 0x1234);
    assert_eq!(seen.questions.len(), 1);
    assert_eq!(seen.questions[0].qname.to_string(), "example.com");
    assert_eq!(seen.questions[0].qtype, dns_parser::QueryType::A);
    assert_eq!(seen.questions[0].qclass, dns_parser::QueryClass::IN);
    let upstream_reply = address_reply(seen.header.id, b"\x07example\x03com\x00", [93, 184, 216, 34]);

    let (to, bytes) = match on_upstream(pending, Ok(upstream_reply.clone())) {
        DatagramAction::Reply { to, bytes } => (to, bytes),
        other => panic!("no reply: {:?}", other),
    };
    assert_eq!(to, client);
    assert_eq!(bytes, upstream_reply);

    let decoded = dns_parser::Packet::parse(&bytes).unwrap();
    assert_eq!(decoded.header.id, 0x1234);
    assert_eq!(decoded.answers.len(), 1);
    match decoded.answers[0].data {
        dns_parser::RData::A(record) => {
            assert_eq!(record.0.octets(), [93, 184, 216, 34])
        }
        ref other => panic!("not an address: {:?}", other),
    }
}

#[test]
fn concurrent_exchanges_keep_their_clients_apart() {
    let first = match on_datagram("client-a", &client_query(1, "a.example")) {
        DatagramAction::Forward { pending, .. } => pending,
        other => panic!("not forwarded: {:?}", other),
    };
    let second = match on_datagram("client-b", &client_query(2, "b.example")) {
        DatagramAction::Forward { pending, .. } => pending,
        other => panic!("not forwarded: {:?}", other),
    };
    let reply_b = address_reply(2, b"\x01b\x07example\x00", [10, 0, 0, 2]);
    let reply_a = address_reply(1, b"\x01a\x07example\x00", [10, 0, 0, 1]);
    assert_eq!(
        on_upstream(second, Ok(reply_b.clone())),
        DatagramAction::Reply { to: "client-b", bytes: reply_b }
    );
    assert_eq!(
        on_upstream(first, Ok(reply_a.clone())),
        DatagramAction::Reply { to: "client-a", bytes: reply_a }
    );
}
