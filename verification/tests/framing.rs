use dm::error::{Error, ErrorKind};
use dm::frame::{declared_length, decode_frame, encode_frame, length_prefix, HEADER_LEN};
use dm::mask::apply_mask;
use dm::text::decode_text;

#[test]
fn header_is_eight_bytes() {
    assert_eq!(HEADER_LEN, 8);
}

#[test]
fn length_prefix_is_big_endian() {
    assert_eq!(length_prefix(0), vec![0, 0, 0, 0, 0, 0, 0, 0]);
    assert_eq!(length_prefix(5), vec![0, 0, 0, 0, 0, 0, 0, 5]);
    assert_eq!(length_prefix(258), vec![0, 0, 0, 0, 0, 0, 1, 2]);
    assert_eq!(length_prefix(0x0102_0304_0506_0708), vec![1, 2, 3, 4, 5, 6, 7, 8]);
    assert_eq!(length_prefix(u64::MAX), vec![255; 8]);
}

#[test]
fn length_prefix_agrees_with_std() {
    for n in [0u64, 1, 255, 256, 65_535, 1_000_000, 1 << 40, u64::MAX - 1] {
        assert_eq!(length_prefix(n), n.to_be_bytes().to_vec());
        assert_eq!(declared_length(&n.to_be_bytes()), n);
    }
}

#[test]
fn declared_length_reads_big_endian() {
    assert_eq!(declared_length(&[0, 0, 0, 0, 0, 0, 0, 0]), 0);
    assert_eq!(declared_length(&[0, 0, 0, 0, 0, 0, 1, 2]), 258);
    assert_eq!(declared_length(&[1, 2, 3, 4, 5, 6, 7, 8]), 0x0102_0304_0506_0708);
    assert_eq!(declared_length(&[255; 8]), u64::MAX);
}

#[test]
fn frame_is_prefix_then_payload() {
    assert_eq!(encode_frame(b"hello"), vec![0, 0, 0, 0, 0, 0, 0, 5, b'h', b'e', b'l', b'l', b'o']);
}

#[test]
fn empty_payload_round_trips() {
    let wire = encode_frame(&[]);
    assert_eq!(wire, vec![0u8; 8]);
    assert_eq!(decode_frame(&wire), Ok((Vec::new(), 8)));
}

#[test]
fn million_byte_payload_round_trips() {
    let mut payload = Vec::with_capacity(1_000_000);
    for i in 0..1_000_000u32 {
        payload.push((i % 251) as u8);
    }
    let wire = encode_frame(&payload);
    assert_eq!(wire.len(), 1_000_008);
    assert_eq!(&wire[..8], &[0, 0, 0, 0, 0, 0x0f, 0x42, 0x40]);
    assert_eq!(decode_frame(&wire), Ok((payload, 1_000_008)));
}

#[test]
fn frames_come_off_a_stream_one_by_one() {
    let mut wire = encode_frame(b"first");
    wire.extend_from_slice(&encode_frame(b""));
    wire.extend_from_slice(&encode_frame(b"third one"));
    let (a, used_a) = decode_frame(&wire).unwrap();
    assert_eq!((a.as_slice(), used_a), (&b"first"[..], 13));
    let (b, used_b) = decode_frame(&wire[used_a..]).unwrap();
    assert_eq!((b.as_slice(), used_b), (&b""[..], 8));
    let (c, used_c) = decode_frame(&wire[used_a + used_b..]).unwrap();
    assert_eq!((c.as_slice(), used_c), (&b"third one"[..], 17));
    assert_eq!(used_a + used_b + used_c, wire.len());
    assert_eq!(decode_frame(&wire[wire.len()..]), Err(Error::Truncated));
}

#[test]
fn short_header_is_truncated() {
    assert_eq!(decode_frame(&[]), Err(Error::Truncated));
    assert_eq!(decode_frame(&[0, 0, 0, 0, 0, 0, 0]), Err(Error::Truncated));
}

#[test]
fn short_payload_is_truncated() {
    let wire = encode_frame(b"hello");
    for cut in 0..wire.len() {
        assert_eq!(decode_frame(&wire[..cut]), Err(Error::Truncated));
    }
    assert!(decode_frame(&wire).is_ok());
}

#[test]
fn huge_declared_length_is_truncated() {
    let mut wire = vec![255u8; 8];
    wire.extend_from_slice(b"abc");
    assert_eq!(decode_frame(&wire), Err(Error::Truncated));
}

#[test]
fn mask_xors_with_the_repeated_mask() {
    assert_eq!(apply_mask(&[1, 2, 3, 4, 5], &[0xff, 0x0f]), vec![0xfe, 0x0d, 0xfc, 0x0b, 0xfa]);
    assert_eq!(apply_mask(&[0x41, 0x42], &[0x20, 0x00, 0x99]), vec![0x61, 0x42]);
    assert_eq!(apply_mask(&[], &[1, 2, 3]), Vec::<u8>::new());
    assert_eq!(apply_mask(&[], &[]), Vec::<u8>::new());
}

#[test]
fn masking_twice_gives_the_bytes_back() {
    let bytes: Vec<u8> = (0..=255u8).collect();
    let mask = "Alice".as_bytes();
    let once = apply_mask(&bytes, mask);
    assert_ne!(once, bytes);
    assert_eq!(apply_mask(&once, mask), bytes);
}

#[test]
fn text_is_decoded_from_utf8() {
    assert_eq!(decode_text(b"hello".to_vec()), Ok("hello".to_string()));
    assert_eq!(decode_text(vec![0x68, 0xc3, 0xa9]), Ok("h\u{e9}".to_string()));
    assert_eq!(decode_text(Vec::new()), Ok(String::new()));
}

#[test]
fn bytes_that_are_not_utf8_are_invalid_text() {
    assert_eq!(decode_text(vec![0xff]), Err(Error::InvalidText));
    assert_eq!(decode_text(vec![0x68, 0xc3]), Err(Error::InvalidText));
    assert_eq!(decode_text(vec![0xed, 0xa0, 0x80]), Err(Error::InvalidText));
}

#[test]
fn every_error_has_its_kind() {
    assert_eq!(Error::Truncated.kind(), ErrorKind::Io);
    assert_eq!(Error::MalformedPublicKey.kind(), ErrorKind::Protocol);
    assert_eq!(Error::MalformedNonce.kind(), ErrorKind::Protocol);
    assert_eq!(Error::InvalidText.kind(), ErrorKind::Protocol);
    assert_eq!(Error::IncorrectRecipient.kind(), ErrorKind::Protocol);
    assert_eq!(Error::Unexpected.kind(), ErrorKind::Protocol);
    assert_eq!(Error::AuthenticationFailed.kind(), ErrorKind::Crypto);
}
