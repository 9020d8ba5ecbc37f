use jremote::protocol::{
    encode_frame, frame_length, registration_payload, require_compatible, Message, ProtocolError,
    MAX_MESSAGE_BYTES, PROTOCOL_VERSION,
};

#[test]
fn round_trip() {
    let payload = br#"{"type":"PING","nonce":22}"#.to_vec();
    let frame = encode_frame(&payload).unwrap();
    let header = [frame[0], frame[1], frame[2], frame[3]];
    let length = frame_length(header).unwrap();
    assert_eq!(length, payload.len());
    assert_eq!(&frame[4..], &payload[..]);
}

#[test]
fn rejects_oversized_prefix_without_allocating() {
    let announced = ((MAX_MESSAGE_BYTES + 1) as u32).to_be_bytes();
    assert!(matches!(frame_length(announced), Err(ProtocolError::TooLarge)));
}

#[test]
fn frame_header_is_big_endian_length() {
    let frame = encode_frame(&[7, 8, 9]).unwrap();
    assert_eq!(frame, vec![0, 0, 0, 3, 7, 8, 9]);
    assert_eq!(frame_length([0, 1, 0, 0]), Ok(65_536));
    assert_eq!(frame_length([0, 1, 0, 1]), Err(ProtocolError::TooLarge));
}

#[test]
fn oversized_payload_is_not_framed() {
    let payload = vec![0u8; MAX_MESSAGE_BYTES + 1];
    assert_eq!(encode_frame(&payload), Err(ProtocolError::TooLarge));
    let largest = vec![1u8; MAX_MESSAGE_BYTES];
    assert_eq!(encode_frame(&largest).unwrap().len(), MAX_MESSAGE_BYTES + 4);
}

#[test]
fn only_the_current_protocol_is_compatible() {
    assert_eq!(require_compatible(PROTOCOL_VERSION), Ok(()));
    assert_eq!(require_compatible(2), Err(ProtocolError::IncompatibleVersion));
}

#[test]
fn registration_payload_layout() {
    let payload = registration_payload(&[0xaa, 0xbb], 123_456_789);
    let mut expected = b"JREMOTE/1 REGISTER".to_vec();
    expected.extend_from_slice(&[0xaa, 0xbb]);
    expected.extend_from_slice(&123_456_789u32.to_be_bytes());
    assert_eq!(payload, expected);
}

#[test]
fn messages_compare_by_value() {
    assert_eq!(Message::Ping { nonce: 22 }, Message::Ping { nonce: 22 });
    assert_ne!(Message::Ping { nonce: 22 }, Message::Pong { nonce: 22 });
}
