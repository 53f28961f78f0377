use fractal_worker::connexion::{
    decode_frame, decode_header, encode_frame, encode_request, encode_result, split_body,
    FrameHeader,
};
use fractal_worker::{PixelIntensity, ProtocolError};

#[test]
fn request_frame_repeats_the_json_length() {
    let frame = encode_request("{\"a\":1}").unwrap();
    assert_eq!(
        frame,
        vec![0, 0, 0, 7, 0, 0, 0, 7, b'{', b'"', b'a', b'"', b':', b'1', b'}']
    );
}

#[test]
fn request_frame_counts_bytes_not_characters() {
    let frame = encode_request("é").unwrap();
    assert_eq!(frame, vec![0, 0, 0, 2, 0, 0, 0, 2, 0xc3, 0xa9]);
}

#[test]
fn empty_request_is_two_zero_lengths() {
    assert_eq!(encode_request("").unwrap(), vec![0u8; 8]);
}

#[test]
fn lengths_are_big_endian() {
    let json = vec![b' '; 0x0102];
    let trailing = vec![7u8; 0x0304];
    let frame = encode_frame(&json, &trailing).unwrap();
    assert_eq!(&frame[0..4], &[0, 0, 0x04, 0x06]);
    assert_eq!(&frame[4..8], &[0, 0, 0x01, 0x02]);
    assert_eq!(frame.len(), 8 + 0x0102 + 0x0304);
}

#[test]
fn result_frame_layout_is_exact() {
    let one = 1.0f32.to_bits();
    let half = 0.5f32.to_bits();
    let pixels = [PixelIntensity::new(one, half), PixelIntensity::new(0, u32::MAX)];
    let frame = encode_result("{}", &[9, 8, 7], &pixels).unwrap();
    let expected: Vec<u8> = vec![
        0, 0, 0, 21, // total: 2 + 3 + 2 * 8
        0, 0, 0, 2, // json
        b'{', b'}', // text
        9, 8, 7, // id
        0x3f, 0x80, 0, 0, // zn of the first pixel
        0x3f, 0, 0, 0, // count of the first pixel
        0, 0, 0, 0, // zn of the second pixel
        0xff, 0xff, 0xff, 0xff, // count of the second pixel
    ];
    assert_eq!(frame, expected);
}

#[test]
fn result_total_is_the_number_of_bytes_after_the_lengths() {
    let pixels: Vec<PixelIntensity> = (0..5).map(|i| PixelIntensity::new(i, i + 1)).collect();
    let frame = encode_result("{\"k\":0}", &[1, 2, 3, 4], &pixels).unwrap();
    let total = u32::from_be_bytes([frame[0], frame[1], frame[2], frame[3]]) as usize;
    let json = u32::from_be_bytes([frame[4], frame[5], frame[6], frame[7]]) as usize;
    assert_eq!(total, frame.len() - 8);
    assert_eq!(json, 7);
    assert_eq!(total, 7 + 4 + 5 * 8);
}

#[test]
fn pixel_bytes_match_the_float_encoding() {
    let zn = 3.25f32;
    let count = 0.125f32;
    let frame = encode_result("", &[], &[PixelIntensity::new(zn.to_bits(), count.to_bits())])
        .unwrap();
    assert_eq!(&frame[8..12], &zn.to_be_bytes());
    assert_eq!(&frame[12..16], &count.to_be_bytes());
}

#[test]
fn header_needs_eight_bytes() {
    assert_eq!(decode_header(&[]), Err(ProtocolError::Truncated));
    assert_eq!(decode_header(&[0, 0, 0, 1, 0, 0, 0]), Err(ProtocolError::Truncated));
}

#[test]
fn header_refuses_json_longer_than_total() {
    assert_eq!(
        decode_header(&[0, 0, 0, 1, 0, 0, 0, 2]),
        Err(ProtocolError::LengthMismatch)
    );
}

#[test]
fn header_reads_both_lengths() {
    let header = decode_header(&[0x01, 0x02, 0x03, 0x04, 0x00, 0x00, 0x01, 0x00, 0xaa]).unwrap();
    assert_eq!(header, FrameHeader { total_len: 0x0102_0304, json_len: 0x100 });
    assert_eq!(header.data_len(), 0x0102_0304 - 0x100);
}

#[test]
fn header_reads_the_largest_lengths() {
    let header = decode_header(&[0xff; 8]).unwrap();
    assert_eq!(header, FrameHeader { total_len: u32::MAX, json_len: u32::MAX });
}

#[test]
fn body_splits_at_the_json_length() {
    let header = FrameHeader { total_len: 5, json_len: 2 };
    let (json, data) = split_body(&header, &[b'{', b'}', 1, 2, 3]).unwrap();
    assert_eq!(json, vec![b'{', b'}']);
    assert_eq!(data, vec![1, 2, 3]);
}

#[test]
fn body_leaves_bytes_beyond_the_total_alone() {
    let header = FrameHeader { total_len: 3, json_len: 1 };
    let (json, data) = split_body(&header, &[b'1', 5, 6, 7, 8]).unwrap();
    assert_eq!(json, vec![b'1']);
    assert_eq!(data, vec![5, 6]);
}

#[test]
fn short_body_is_truncated() {
    let header = FrameHeader { total_len: 4, json_len: 2 };
    assert_eq!(split_body(&header, &[1, 2, 3]), Err(ProtocolError::Truncated));
}

#[test]
fn body_refuses_an_inconsistent_header() {
    let header = FrameHeader { total_len: 1, json_len: 2 };
    assert_eq!(split_body(&header, &[1, 2, 3]), Err(ProtocolError::LengthMismatch));
}

#[test]
fn task_frame_round_trip() {
    let json = b"{\"FragmentTask\":{}}".to_vec();
    let id = vec![0xde, 0xad, 0xbe, 0xef];
    let frame = encode_frame(&json, &id).unwrap();
    let (got_json, got_id) = decode_frame(&frame).unwrap();
    assert_eq!(got_json, json);
    assert_eq!(got_id, id);
}

#[test]
fn request_frame_round_trip() {
    let text = "{\"FragmentRequest\":{\"maximal_work_load\":10,\"worker_name\":\"w\"}}";
    let frame = encode_request(text).unwrap();
    let (json, data) = decode_frame(&frame).unwrap();
    assert_eq!(json, text.as_bytes());
    assert!(data.is_empty());
}

#[test]
fn result_frame_round_trip() {
    let pixels = [PixelIntensity::new(1, 2), PixelIntensity::new(3, 4)];
    let frame = encode_result("{\"r\":1}", &[5, 6], &pixels).unwrap();
    let (json, data) = decode_frame(&frame).unwrap();
    assert_eq!(json, b"{\"r\":1}");
    assert_eq!(data, vec![5, 6, 0, 0, 0, 1, 0, 0, 0, 2, 0, 0, 0, 3, 0, 0, 0, 4]);
}

#[test]
fn truncated_frame_is_refused() {
    let mut frame = encode_frame(b"abc", &[1, 2]).unwrap();
    frame.pop();
    assert_eq!(decode_frame(&frame), Err(ProtocolError::Truncated));
    assert_eq!(decode_frame(&frame[..5]), Err(ProtocolError::Truncated));
}

#[test]
fn mismatched_frame_is_refused() {
    assert_eq!(
        decode_frame(&[0, 0, 0, 0, 0, 0, 0, 1, b'x']),
        Err(ProtocolError::LengthMismatch)
    );
}
