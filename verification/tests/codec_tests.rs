use bytes::BytesMut;
use plotctl::codec::{actuator_decode, actuator_encode, is_ack, makeval, sensor_decode, ProtocolError};
use plotctl::utf8::is_valid_utf8;

fn buf_of(data: &[u8]) -> BytesMut {
    let mut b = BytesMut::new();
    b.extend_from_slice(data);
    b
}

fn drain_sensor(b: &mut BytesMut) -> Vec<u32> {
    let mut out = Vec::new();
    loop {
        let before = b.len();
        match sensor_decode(b) {
            Some(v) => out.push(v),
            None => {
                if b.len() == before {
                    break;
                }
            }
        }
    }
    out
}

#[test]
fn makeval_composes_high_low() {
    assert_eq!(makeval(2, 100), 612);
    assert_eq!(makeval(0, 0), 0);
    assert_eq!(makeval(255, 255), 65535);
}

#[test]
fn correctly_spaced_packet_yields_value() {
    // A leading marker, five bytes with (high, low) at offsets 2-3, a marker.
    let mut b = buf_of(&[0xa5, 0x5a, 1, 2, 0x02, 0x64, 9, 0xa5, 0x5a]);
    assert_eq!(sensor_decode(&mut b), None);
    assert_eq!(sensor_decode(&mut b), Some(612));
    assert_eq!(b.len(), 0);
}

#[test]
fn misframed_packet_yields_no_item() {
    // Only three bytes between the markers: consumed and discarded.
    let mut b = buf_of(&[0xa5, 0x5a, 1, 2, 3, 0xa5, 0x5a]);
    assert_eq!(sensor_decode(&mut b), None);
    assert_eq!(sensor_decode(&mut b), None);
    assert_eq!(b.len(), 0);
}

#[test]
fn no_marker_leaves_buffer_untouched() {
    let mut b = buf_of(&[1, 2, 3, 0xa5]);
    assert_eq!(sensor_decode(&mut b), None);
    assert_eq!(&b[..], &[1, 2, 3, 0xa5]);
}

#[test]
fn marker_split_across_feeds_still_found() {
    let mut b = buf_of(&[0, 0, 2, 100, 0, 0xa5]);
    assert_eq!(sensor_decode(&mut b), None);
    b.extend_from_slice(&[0x5a]);
    assert_eq!(sensor_decode(&mut b), Some(612));
}

#[test]
fn byte_at_a_time_equals_whole_buffer() {
    let stream: Vec<u8> = {
        let mut s = vec![0xa5, 0x5a];
        for k in 0..6u8 {
            s.extend_from_slice(&[7, 8, k, 2 * k, 9, 0xa5, 0x5a]);
        }
        // Garbage and a misframed packet in the middle.
        s.extend_from_slice(&[1, 2, 3, 0xa5, 0x5a]);
        s.extend_from_slice(&[7, 8, 42, 43, 9, 0xa5, 0x5a]);
        s.extend_from_slice(&[0xa5, 1, 2]);
        s
    };
    let mut whole = buf_of(&stream);
    let all_at_once = drain_sensor(&mut whole);

    let mut incremental = BytesMut::new();
    let mut one_by_one = Vec::new();
    for byte in &stream {
        incremental.extend_from_slice(&[*byte]);
        one_by_one.extend(drain_sensor(&mut incremental));
    }
    assert_eq!(one_by_one, all_at_once);
    assert_eq!(&incremental[..], &whole[..]);
}

#[test]
fn actuator_decode_splits_lines() {
    let mut b = buf_of(b"OK\r\nSTATUS,1\npartial");
    assert_eq!(actuator_decode(&mut b), Ok(Some(b"OK\r\n".to_vec())));
    assert_eq!(actuator_decode(&mut b), Ok(Some(b"STATUS,1\n".to_vec())));
    assert_eq!(actuator_decode(&mut b), Ok(None));
    assert_eq!(&b[..], b"partial");
}

#[test]
fn actuator_decode_rejects_invalid_utf8() {
    let mut b = buf_of(&[0xff, 0xfe, b'\n', b'O', b'K']);
    assert_eq!(actuator_decode(&mut b), Err(ProtocolError::InvalidEncoding));
    // The bad line was consumed either way.
    assert_eq!(&b[..], b"OK");
}

#[test]
fn actuator_encode_appends_line_and_newline() {
    let mut b = BytesMut::new();
    actuator_encode(b"XM,4,4,0", &mut b);
    assert_eq!(&b[..], b"XM,4,4,0\n");
    actuator_encode(b"SP,0", &mut b);
    assert_eq!(&b[..], b"XM,4,4,0\nSP,0\n");
}

#[test]
fn ack_filter_matches_exact_line_only() {
    assert!(is_ack(b"OK\r\n"));
    assert!(!is_ack(b"OK\n"));
    assert!(!is_ack(b"OK\r\nX"));
    assert!(!is_ack(b""));
    assert!(!is_ack(b"KO\r\n"));
}

#[test]
fn utf8_validator_agrees_with_std() {
    let cases: Vec<Vec<u8>> = vec![
        b"".to_vec(),
        b"OK\r\n".to_vec(),
        "héllo wörld".as_bytes().to_vec(),
        "日本語".as_bytes().to_vec(),
        "🙂".as_bytes().to_vec(),
        vec![0xc3],
        vec![0xc3, 0x28],
        vec![0xc0, 0xaf],
        vec![0xe0, 0x80, 0x80],
        vec![0xed, 0xa0, 0x80],
        vec![0xf0, 0x90, 0x80, 0x80],
        vec![0xf4, 0x90, 0x80, 0x80],
        vec![0xf8, 0x80],
        vec![0x80],
        vec![0x7f],
    ];
    for c in cases {
        assert_eq!(
            is_valid_utf8(&c),
            std::str::from_utf8(&c).is_ok(),
            "disagreement on {:?}",
            c
        );
    }
}
