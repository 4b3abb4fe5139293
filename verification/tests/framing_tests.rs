use dns_relay::error::RelayError;
use dns_relay::framing::{append, feed, frame, take_frame, MAX_PAYLOAD};

#[test]
fn frame_puts_the_length_in_front() {
    assert_eq!(frame(&[7, 9]), Ok(vec![0, 2, 7, 9]));
    assert_eq!(frame(&[]), Ok(vec![0, 0]));
}

#[test]
fn frame_writes_the_length_most_significant_byte_first() {
    let payload = vec![0x5a; 0x0123];
    let framed = frame(&payload).unwrap();
    assert_eq!(framed.len(), 0x0125);
    assert_eq!(&framed[..2], &[0x01, 0x23]);
    assert_eq!(&framed[2..], &payload[..]);
}

#[test]
fn frame_takes_the_longest_payload_and_no_longer_one() {
    assert_eq!(MAX_PAYLOAD, 65535);
    let longest = vec![1u8; 65535];
    let framed = frame(&longest).unwrap();
    assert_eq!(&framed[..2], &[0xff, 0xff]);
    assert_eq!(framed.len(), 65537);
    let too_long = vec![1u8; 65536];
    assert_eq!(frame(&too_long), Err(RelayError::Encode));
}

#[test]
fn take_frame_waits_for_the_whole_frame() {
    let mut buf: Vec<u8> = vec![];
    assert_eq!(take_frame(&mut buf), None);
    let mut buf = vec![0];
    assert_eq!(take_frame(&mut buf), None);
    assert_eq!(buf, vec![0]);
    let mut buf = vec![0, 3, 1, 2];
    assert_eq!(take_frame(&mut buf), None);
    assert_eq!(buf, vec![0, 3, 1, 2]);
}

#[test]
fn take_frame_takes_one_frame_and_leaves_the_rest() {
    let mut buf = vec![0, 3, 1, 2, 3, 0, 1, 9, 0];
    assert_eq!(take_frame(&mut buf), Some(vec![1, 2, 3]));
    assert_eq!(buf, vec![0, 1, 9, 0]);
    assert_eq!(take_frame(&mut buf), Some(vec![9]));
    assert_eq!(buf, vec![0]);
    assert_eq!(take_frame(&mut buf), None);
    assert_eq!(buf, vec![0]);
}

#[test]
fn take_frame_takes_an_empty_frame() {
    let mut buf = vec![0, 0, 5];
    assert_eq!(take_frame(&mut buf), Some(vec![]));
    assert_eq!(buf, vec![5]);
}

#[test]
fn take_frame_reads_a_two_byte_length() {
    let mut buf = vec![1, 2];
    buf.extend(std::iter::repeat(7u8).take(258));
    buf.push(8);
    assert_eq!(take_frame(&mut buf), Some(vec![7u8; 258]));
    assert_eq!(buf, vec![8]);
}

#[test]
fn framed_messages_come_back_in_order() {
    let messages: Vec<Vec<u8>> = vec![vec![1, 2, 3], vec![], vec![9; 300], vec![4]];
    let mut stream = Vec::new();
    for m in &messages {
        stream.extend(frame(m).unwrap());
    }
    let mut back = Vec::new();
    while let Some(m) = take_frame(&mut stream) {
        back.push(m);
    }
    assert_eq!(back, messages);
    assert!(stream.is_empty());
}

#[test]
fn append_adds_at_the_end() {
    let mut buf = vec![1, 2];
    append(&mut buf, &[3, 4, 5]);
    assert_eq!(buf, vec![1, 2, 3, 4, 5]);
    append(&mut buf, &[]);
    assert_eq!(buf, vec![1, 2, 3, 4, 5]);
}

#[test]
fn feed_puts_a_frame_together_from_pieces() {
    let mut buf = Vec::new();
    assert_eq!(feed(&mut buf, &[0]), None);
    assert_eq!(feed(&mut buf, &[2, 7]), None);
    assert_eq!(buf, vec![0, 2, 7]);
    assert_eq!(feed(&mut buf, &[9, 0, 1]), Some(vec![7, 9]));
    assert_eq!(buf, vec![0, 1]);
    assert_eq!(feed(&mut buf, &[]), None);
    assert_eq!(feed(&mut buf, &[5]), Some(vec![5]));
    assert!(buf.is_empty());
}
