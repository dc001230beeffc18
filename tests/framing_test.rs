use vox_gui::framing::{encode_record, parse_record, FramingError, ParsedRecord, MAX_RECORD_LEN};

fn complete(r: ParsedRecord) -> (Vec<u8>, usize) {
    match r {
        ParsedRecord::Complete { payload, consumed } => (payload, consumed),
        other => panic!("expected a whole record, got {:?}", other),
    }
}

#[test]
fn record_header_is_big_endian_length() {
    let rec = encode_record(&[0xAA; 258]).unwrap();
    assert_eq!(&rec[..4], &[0, 0, 1, 2]);
    assert_eq!(rec.len(), 262);
    assert_eq!(encode_record(&[]).unwrap(), vec![0, 0, 0, 0]);
}

#[test]
fn record_round_trips() {
    let payload: Vec<u8> = (0..=255u8).collect();
    let rec = encode_record(&payload).unwrap();
    let (back, used) = complete(parse_record(&rec));
    assert_eq!(back, payload);
    assert_eq!(used, rec.len());
}

#[test]
fn adjacent_records_parse_one_at_a_time() {
    let mut stream = encode_record(b"first").unwrap();
    stream.extend(encode_record(b"").unwrap());
    stream.extend(encode_record(b"third record").unwrap());
    let (a, n) = complete(parse_record(&stream));
    assert_eq!(a, b"first".to_vec());
    let rest = &stream[n..];
    let (b, m) = complete(parse_record(rest));
    assert!(b.is_empty());
    let (c, k) = complete(parse_record(&rest[m..]));
    assert_eq!(c, b"third record".to_vec());
    assert_eq!(n + m + k, stream.len());
}

#[test]
fn partial_record_is_incomplete() {
    let rec = encode_record(b"hello").unwrap();
    assert!(matches!(parse_record(&rec[..3]), ParsedRecord::Incomplete));
    assert!(matches!(parse_record(&rec[..7]), ParsedRecord::Incomplete));
}

#[test]
fn oversized_record_is_refused() {
    assert!(matches!(parse_record(&[0x01, 0x00, 0x00, 0x01]), ParsedRecord::Oversized));
    assert!(matches!(parse_record(&[0x01, 0x00, 0x00, 0x00]), ParsedRecord::Incomplete));
    let big = vec![0u8; MAX_RECORD_LEN + 1];
    assert_eq!(encode_record(&big), Err(FramingError::ProtocolViolation));
}
