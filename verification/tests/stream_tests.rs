use espcam::stream::{boundary_marker_vec, decimal_bytes, demux_stream, encode_part, header_prefix_vec};

fn expected_part(payload: &[u8]) -> Vec<u8> {
    let mut v = format!(
        "\r\n--123456789000000000000987654321\r\nContent-Type: image/jpeg\r\nContent-Length: {}\r\n\r\n",
        payload.len()
    )
    .into_bytes();
    v.extend_from_slice(payload);
    v
}

#[test]
fn boundary_and_header_constants_are_byte_exact() {
    assert_eq!(
        boundary_marker_vec(),
        b"\r\n--123456789000000000000987654321\r\n".to_vec()
    );
    assert_eq!(
        header_prefix_vec(),
        b"Content-Type: image/jpeg\r\nContent-Length: ".to_vec()
    );
}

#[test]
fn decimal_rendering_is_exact() {
    assert_eq!(decimal_bytes(0), b"0".to_vec());
    assert_eq!(decimal_bytes(7), b"7".to_vec());
    assert_eq!(decimal_bytes(12345), b"12345".to_vec());
    assert_eq!(decimal_bytes(u64::MAX), b"18446744073709551615".to_vec());
}

#[test]
fn one_part_is_byte_exact() {
    let payload = vec![0xAA, 0xBB, 0xCC];
    assert_eq!(encode_part(&payload), expected_part(&payload));
}

#[test]
fn empty_payload_part_is_byte_exact() {
    let payload: Vec<u8> = Vec::new();
    assert_eq!(encode_part(&payload), expected_part(&[]));
}

#[test]
fn stream_demuxes_to_the_captured_payloads() {
    let payloads: Vec<Vec<u8>> = vec![
        vec![0xFF, 0xD8, 0xFF, 0xD9],
        (0..=255).collect(),
        Vec::new(),
        vec![42; 1000],
    ];
    let mut stream: Vec<u8> = Vec::new();
    for p in &payloads {
        stream.extend_from_slice(&encode_part(p));
    }
    let parts = demux_stream(&stream).unwrap();
    assert_eq!(parts, payloads);
}

#[test]
fn empty_stream_demuxes_to_no_parts() {
    let parts = demux_stream(&[]).unwrap();
    assert!(parts.is_empty());
}

#[test]
fn demux_rejects_garbage() {
    assert!(demux_stream(b"hello world").is_none());
}

#[test]
fn demux_rejects_truncated_stream() {
    let whole = encode_part(&vec![1, 2, 3, 4, 5]);
    let truncated = &whole[..whole.len() - 2];
    assert!(demux_stream(truncated).is_none());
}

#[test]
fn demux_rejects_wrong_boundary() {
    let mut part = encode_part(&vec![1, 2, 3]);
    part[4] = b'9';
    assert!(demux_stream(&part).is_none());
}

#[test]
fn payload_may_contain_the_boundary_bytes() {
    // the demuxer cuts by the length header, so boundary bytes inside a
    // payload do not split it
    let payload = b"\r\n--123456789000000000000987654321\r\n".to_vec();
    let stream = encode_part(&payload);
    let parts = demux_stream(&stream).unwrap();
    assert_eq!(parts, vec![payload]);
}
