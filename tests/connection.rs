use ivory::connection::{encode_frame, FrameBuffer, StreamEnd, INITIAL_BUFFER_CAPACITY};

#[test]
fn encode_prefixes_big_endian_length() {
    assert_eq!(encode_frame(&b"hi".to_vec()), vec![0, 0, 0, 2, b'h', b'i']);
    assert_eq!(encode_frame(&Vec::new()), vec![0, 0, 0, 0]);
    let big = vec![7u8; 0x0102];
    let framed = encode_frame(&big);
    assert_eq!(&framed[..4], &[0, 0, 1, 2]);
    assert_eq!(framed.len(), 4 + 0x0102);
}

#[test]
fn frame_round_trip_with_trailing_bytes() {
    let mut buf = FrameBuffer::new();
    let mut wire = encode_frame(&b"hello".to_vec());
    wire.extend_from_slice(&encode_frame(&b"world!".to_vec()));
    wire.extend_from_slice(&[0, 0]);
    buf.extend(&wire);
    assert_eq!(buf.next_frame(), Some(b"hello".to_vec()));
    assert_eq!(buf.next_frame(), Some(b"world!".to_vec()));
    assert_eq!(buf.next_frame(), None);
    assert_eq!(buf.end_of_stream(), StreamEnd::Truncated);
}

#[test]
fn incomplete_frame_waits_for_more_bytes() {
    let mut buf = FrameBuffer::new();
    buf.extend(&[0, 0, 0, 3, b'a']);
    assert_eq!(buf.next_frame(), None);
    buf.extend(&[b'b', b'c']);
    assert_eq!(buf.next_frame(), Some(b"abc".to_vec()));
    assert_eq!(buf.end_of_stream(), StreamEnd::Clean);
}

#[test]
fn frames_larger_than_initial_capacity() {
    let body = vec![9u8; INITIAL_BUFFER_CAPACITY * 2 + 1];
    let mut buf = FrameBuffer::new();
    buf.extend(&encode_frame(&body));
    assert_eq!(buf.next_frame(), Some(body));
    assert_eq!(buf.end_of_stream(), StreamEnd::Clean);
}

#[test]
fn empty_buffer_ends_cleanly() {
    let buf = FrameBuffer::new();
    assert_eq!(buf.end_of_stream(), StreamEnd::Clean);
}
