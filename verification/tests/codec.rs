use veritas_core::codec::{decode_frame, encode_frame, FramingError};

fn round_trip(n: usize) {
    let payload: Vec<u8> = (0..n).map(|i| (i % 251) as u8).collect();
    let framed = encode_frame(&payload);
    assert_eq!(framed.len(), 4 + n);
    let (decoded, consumed) = decode_frame(&framed).expect("complete frame must decode");
    assert_eq!(decoded, payload);
    assert_eq!(consumed, framed.len());
}

#[test]
fn frame_round_trip_empty() {
    round_trip(0);
}

#[test]
fn frame_round_trip_single_byte() {
    round_trip(1);
}

#[test]
fn frame_round_trip_4096() {
    round_trip(4096);
}

#[test]
fn frame_round_trip_large() {
    // a payload size near the top of what is safe to allocate here; the
    // codec's round-trip law covers every length up to u32::MAX
    round_trip(16 * 1024 * 1024);
}

#[test]
fn frame_layout_is_little_endian_length_then_payload() {
    let framed = encode_frame(&[9, 8, 7]);
    assert_eq!(framed, vec![3, 0, 0, 0, 9, 8, 7]);
}

#[test]
fn truncated_payload_is_a_framing_error() {
    // a length prefix announcing 100 bytes, followed by only 50
    let mut buf = vec![100, 0, 0, 0];
    buf.extend(std::iter::repeat(0xAAu8).take(50));
    assert_eq!(decode_frame(&buf), Err(FramingError::Truncated));
}

#[test]
fn short_header_is_a_framing_error() {
    assert_eq!(decode_frame(&[1, 0]), Err(FramingError::Truncated));
    assert_eq!(decode_frame(&[]), Err(FramingError::Truncated));
}

#[test]
fn trailing_bytes_are_left_for_the_next_frame() {
    let mut buf = encode_frame(&[1, 2]);
    buf.extend_from_slice(&[5, 0, 0, 0]);
    let (payload, consumed) = decode_frame(&buf).unwrap();
    assert_eq!(payload, vec![1, 2]);
    assert_eq!(consumed, 6);
}
