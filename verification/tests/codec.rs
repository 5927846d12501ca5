use wise::codec::{apply_xor, decode_frame, decode_text, encode_frame, DEFAULT_MAX_PAYLOAD};
use wise::error::{IoErrorKind, RconError};

#[test]
fn xor_with_an_empty_key_is_the_identity() {
    let mut buffer = vec![1u8, 2, 3, 250];
    apply_xor(&mut buffer, &[]);
    assert_eq!(buffer, vec![1u8, 2, 3, 250]);
}

#[test]
fn xor_repeats_the_key() {
    let mut buffer = vec![0u8, 0, 0, 0, 0];
    apply_xor(&mut buffer, &[0x61, 0x62]);
    assert_eq!(buffer, vec![0x61u8, 0x62, 0x61, 0x62, 0x61]);
}

#[test]
fn frame_layout_is_id_length_payload() {
    let bytes = encode_frame(0x01020304, b"ab", &[]).unwrap();
    assert_eq!(bytes, vec![4u8, 3, 2, 1, 2, 0, 0, 0, b'a', b'b']);
}

#[test]
fn decode_inverts_encode() {
    let key = [0x61u8, 0x62, 0x63, 0x64];
    let payload = b"{\"name\":\"x\"}".to_vec();
    let bytes = encode_frame(7, &payload, &key).unwrap();
    assert_ne!(&bytes[8..], &payload[..]);
    let (id, decoded) = decode_frame(&bytes, &key, DEFAULT_MAX_PAYLOAD).unwrap();
    assert_eq!(id, 7);
    assert_eq!(decoded, payload);
}

#[test]
fn a_message_of_length_zero_is_valid_and_decodes_to_the_empty_text() {
    let bytes = encode_frame(1, &[], &[9, 9]).unwrap();
    assert_eq!(bytes.len(), 8);
    let (id, payload) = decode_frame(&bytes, &[9, 9], DEFAULT_MAX_PAYLOAD).unwrap();
    assert_eq!(id, 1);
    assert!(payload.is_empty());
    assert_eq!(decode_text(&payload), "");
}

#[test]
fn a_short_read_is_an_io_error() {
    assert_eq!(
        decode_frame(&[1, 0, 0], &[], DEFAULT_MAX_PAYLOAD),
        Err(RconError::IoError(IoErrorKind::UnexpectedEof))
    );
    assert_eq!(
        decode_frame(&[1, 0, 0, 0, 5, 0, 0, 0, 1, 2], &[], DEFAULT_MAX_PAYLOAD),
        Err(RconError::IoError(IoErrorKind::UnexpectedEof))
    );
}

#[test]
fn a_length_above_the_cap_is_invalid_data() {
    let r = decode_frame(&[1, 0, 0, 0, 1, 0, 16, 0], &[], DEFAULT_MAX_PAYLOAD);
    assert!(matches!(r, Err(RconError::InvalidData(_))));
    let r = decode_frame(&[1, 0, 0, 0, 0, 0, 16, 0], &[], DEFAULT_MAX_PAYLOAD);
    assert_eq!(r, Err(RconError::IoError(IoErrorKind::UnexpectedEof)));
}

#[test]
fn layout_characters_are_stripped_and_bad_bytes_replaced() {
    assert_eq!(decode_text(b"{\r\n\t\"a\": 1\n}"), "{\"a\": 1}");
    assert_eq!(decode_text(&[b'a', 0xff, b'b']), "a\u{fffd}b");
}

#[test]
fn valid_text_is_decoded_as_it_is_but_for_its_layout() {
    assert_eq!(decode_text("{\"k\":\t\"\u{e9}\u{1F600}\"}\r\n".as_bytes()), "{\"k\":\"\u{e9}\u{1F600}\"}");
}
