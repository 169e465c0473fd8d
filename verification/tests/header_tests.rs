use mediabox::header::{encode_header, encode_header_extended, FourCc, MediaBox, Outcome};

fn tag(s: &[u8; 4]) -> FourCc {
    FourCc { bytes: *s }
}

#[test]
fn ftyp_ordinary_header() {
    let input = [
        0x00u8, 0x00, 0x00, 0x10, b'f', b't', b'y', b'p', 0xaa, 0xbb, 0xcc, 0xdd,
    ];
    match MediaBox::parse(&input) {
        Outcome::Parsed { header, consumed, remainder } => {
            assert_eq!(header.size, 16);
            assert_eq!(header.ty.bytes, *b"ftyp");
            assert_eq!(consumed, 8);
            assert_eq!(remainder, &[0xaa, 0xbb, 0xcc, 0xdd]);
        }
        other => panic!("expected Parsed, got {:?}", other),
    }
}

#[test]
fn moov_extended_header() {
    let input = [
        0x00u8, 0x00, 0x00, 0x01, b'm', b'o', b'o', b'v', 0x00, 0x00, 0x00, 0x00, 0x00, 0x00,
        0x01, 0x00,
    ];
    match MediaBox::parse(&input) {
        Outcome::Parsed { header, consumed, remainder } => {
            assert_eq!(header.size, 256);
            assert_eq!(header.ty.bytes, *b"moov");
            assert_eq!(consumed, 16);
            assert!(remainder.is_empty());
        }
        other => panic!("expected Parsed, got {:?}", other),
    }
}

#[test]
fn declared_size_five_is_malformed() {
    let input = [0x00u8, 0x00, 0x00, 0x05, b'f', b'r', b'e', b'e'];
    assert_eq!(MediaBox::parse(&input), Outcome::Malformed);
}

#[test]
fn three_bytes_are_incomplete() {
    let input = [0x00u8, 0x00, 0x00];
    assert_eq!(MediaBox::parse(&input), Outcome::Incomplete { needed: 1 });
}

#[test]
fn short_buffers_never_parse_or_reject() {
    // Every buffer shorter than a full 8-byte header is Incomplete, with
    // the exact shortfall of the field being read.
    let bytes = [0x00u8, 0x00, 0x00, 0x10, b'f', b't', b'y'];
    for n in 0..4 {
        assert_eq!(
            MediaBox::parse(&bytes[..n]),
            Outcome::Incomplete { needed: 4 - n }
        );
    }
    for n in 4..8 {
        assert_eq!(
            MediaBox::parse(&bytes[..n]),
            Outcome::Incomplete { needed: 8 - n }
        );
    }
    // The same holds of arbitrary junk bytes.
    let junk = [0xffu8, 0x17, 0x80, 0x42, 0x00, 0x99, 0x7f];
    for n in 0..8 {
        assert!(matches!(
            MediaBox::parse(&junk[..n.min(junk.len())]),
            Outcome::Incomplete { .. }
        ));
    }
}

#[test]
fn truncated_extended_size_is_incomplete() {
    // Size field 1 announces an 8-byte extended size; anything short of
    // the full 16-byte header is Incomplete.
    let bytes = [
        0x00u8, 0x00, 0x00, 0x01, b'm', b'd', b'a', b't', 0x00, 0x00, 0x00, 0x00, 0x00, 0x01,
        0x02,
    ];
    for n in 4..16 {
        assert!(matches!(
            MediaBox::parse(&bytes[..n]),
            Outcome::Incomplete { .. }
        ));
    }
    assert_eq!(
        MediaBox::parse(&bytes[..8]),
        Outcome::Incomplete { needed: 8 }
    );
    assert_eq!(
        MediaBox::parse(&bytes[..15]),
        Outcome::Incomplete { needed: 1 }
    );
}

#[test]
fn every_forbidden_raw_size_is_malformed() {
    for raw in 2u8..=7 {
        let input = [0x00u8, 0x00, 0x00, raw, b's', b'k', b'i', b'p', 0x01, 0x02];
        assert_eq!(MediaBox::parse(&input), Outcome::Malformed, "raw size {}", raw);
    }
}

#[test]
fn parse_is_idempotent() {
    let buffers: [&[u8]; 4] = [
        &[0x00, 0x00, 0x00, 0x10, b'f', b't', b'y', b'p', 0x01],
        &[0x00, 0x00, 0x00, 0x03, b'a', b'b', b'c', b'd'],
        &[0x00, 0x00],
        &[0x00, 0x00, 0x00, 0x01, b'm', b'o', b'o', b'v', 0, 0, 0, 0, 0, 0, 0, 32],
    ];
    for input in buffers {
        let first = MediaBox::parse(input);
        let second = MediaBox::parse(input);
        assert_eq!(first, second);
    }
}

#[test]
fn round_trip_ordinary() {
    for size in [8u32, 16, 0x1234, u32::MAX] {
        let encoded = encode_header(size, &tag(b"trak"));
        assert_eq!(encoded.len(), 8);
        match MediaBox::parse(&encoded) {
            Outcome::Parsed { header, consumed, remainder } => {
                assert_eq!(header.size, size as u64);
                assert_eq!(header.ty.bytes, *b"trak");
                assert_eq!(consumed, 8);
                assert!(remainder.is_empty());
            }
            other => panic!("expected Parsed for size {}, got {:?}", size, other),
        }
    }
}

#[test]
fn round_trip_extended() {
    for size in [16u64, 256, 1 << 32, u64::MAX] {
        let mut encoded = encode_header_extended(size, &tag(b"mdat"));
        assert_eq!(encoded.len(), 16);
        encoded.push(0x55);
        match MediaBox::parse(&encoded) {
            Outcome::Parsed { header, consumed, remainder } => {
                assert_eq!(header.size, size);
                assert_eq!(header.ty.bytes, *b"mdat");
                assert_eq!(consumed, 16);
                assert_eq!(remainder, &[0x55]);
            }
            other => panic!("expected Parsed for size {}, got {:?}", size, other),
        }
    }
}

#[test]
fn encoders_write_big_endian_fields() {
    let encoded = encode_header(0x0102_0304, &tag(b"ftyp"));
    assert_eq!(
        encoded,
        vec![0x01, 0x02, 0x03, 0x04, b'f', b't', b'y', b'p']
    );
    let extended = encode_header_extended(0x0102_0304_0506_0708, &tag(b"moov"));
    assert_eq!(
        extended,
        vec![
            0x00, 0x00, 0x00, 0x01, b'm', b'o', b'o', b'v', 0x01, 0x02, 0x03, 0x04, 0x05, 0x06,
            0x07, 0x08
        ]
    );
}

#[test]
fn size_zero_sentinel_is_handed_to_caller() {
    // Raw size 0 ("box extends to the end of the stream") is not resolved
    // here: it parses with size 0 and the caller special-cases it.
    let input = [0x00u8, 0x00, 0x00, 0x00, b'm', b'd', b'a', b't', 0x09];
    match MediaBox::parse(&input) {
        Outcome::Parsed { header, consumed, remainder } => {
            assert_eq!(header.size, 0);
            assert_eq!(header.ty.bytes, *b"mdat");
            assert_eq!(consumed, 8);
            assert_eq!(remainder, &[0x09]);
        }
        other => panic!("expected Parsed, got {:?}", other),
    }
}

#[test]
fn exact_eight_byte_header_leaves_empty_remainder() {
    let input = [0x00u8, 0x00, 0x01, 0x00, b'u', b'd', b't', b'a'];
    match MediaBox::parse(&input) {
        Outcome::Parsed { header, consumed, remainder } => {
            assert_eq!(header.size, 256);
            assert_eq!(consumed, 8);
            assert!(remainder.is_empty());
        }
        other => panic!("expected Parsed, got {:?}", other),
    }
}
