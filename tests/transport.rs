use trustvault::transport::{decode_frame, encode_frame, frame_length};

#[test]
fn frame_prefix_is_big_endian_length() {
    let f = encode_frame(&[7u8, 8, 9]);
    assert_eq!(f, vec![0, 0, 0, 3, 7, 8, 9]);
}

#[test]
fn frame_of_empty_payload() {
    assert_eq!(encode_frame(&[]), vec![0, 0, 0, 0]);
    assert_eq!(decode_frame(&[0, 0, 0, 0]), Some(vec![]));
}

#[test]
fn frame_length_reads_big_endian() {
    assert_eq!(frame_length(&[0x01, 0x02, 0x03, 0x04]), 0x0102_0304);
    assert_eq!(frame_length(&[0xff, 0xff, 0xff, 0xff]), u32::MAX);
}

#[test]
fn frame_round_trip_of_long_payload() {
    let payload: Vec<u8> = (0..70000u32).map(|i| (i % 251) as u8).collect();
    let f = encode_frame(&payload);
    assert_eq!(&f[..4], &[0x00, 0x01, 0x11, 0x70]);
    assert_eq!(frame_length(&[f[0], f[1], f[2], f[3]]) as usize, payload.len());
    assert_eq!(decode_frame(&f), Some(payload));
}

#[test]
fn short_frame_is_refused() {
    assert_eq!(decode_frame(&[0, 0]), None);
    assert_eq!(decode_frame(&[0, 0, 0, 5, 1, 2, 3, 4]), None);
}

#[test]
fn bytes_after_frame_are_left() {
    assert_eq!(decode_frame(&[0, 0, 0, 2, 1, 2, 3]), Some(vec![1, 2]));
}
