use hello_world::message::is_readable;
use hello_world::{HelloWorldMessage, MessageError, HELLO_MESSAGE_MAX_LENGTH};

fn program_id() -> [u8; 32] {
    let mut id = [0u8; 32];
    for (i, b) in id.iter_mut().enumerate() {
        *b = (i as u8) + 100;
    }
    id
}

#[test]
fn alive_payload_is_id_then_address() {
    let msg = HelloWorldMessage::Alive { program_id: program_id() };
    let mut out = Vec::new();
    assert_eq!(msg.serialize(&mut out), Ok(()));
    let mut expected = vec![0u8];
    expected.extend_from_slice(&program_id());
    assert_eq!(out, expected);
    assert_eq!(out.len(), 33);
}

#[test]
fn hello_payload_has_big_endian_length() {
    let msg = HelloWorldMessage::Hello { message: b"Hello, World!".to_vec() };
    let bytes = msg.try_to_vec().unwrap();
    let mut expected = vec![1u8, 0, 13];
    expected.extend_from_slice(b"Hello, World!");
    assert_eq!(bytes, expected);
}

#[test]
fn hello_length_above_255_uses_both_bytes() {
    let msg = HelloWorldMessage::Hello { message: vec![7u8; 300] };
    let bytes = msg.try_to_vec().unwrap();
    assert_eq!(&bytes[..3], &[1u8, 1, 44]);
    assert_eq!(bytes.len(), 303);
}

#[test]
fn serialize_appends_to_what_is_there() {
    let msg = HelloWorldMessage::Hello { message: vec![9, 8] };
    let mut out = vec![42u8];
    msg.serialize(&mut out).unwrap();
    assert_eq!(out, vec![42, 1, 0, 2, 9, 8]);
}

#[test]
fn longest_hello_is_written() {
    let msg = HelloWorldMessage::Hello { message: vec![1u8; HELLO_MESSAGE_MAX_LENGTH] };
    let bytes = msg.try_to_vec().unwrap();
    assert_eq!(&bytes[..3], &[1u8, 2, 0]);
    assert_eq!(bytes.len(), 515);
}

#[test]
fn too_long_hello_is_refused_and_nothing_written() {
    let msg = HelloWorldMessage::Hello { message: vec![1u8; HELLO_MESSAGE_MAX_LENGTH + 1] };
    let mut out = vec![5u8, 6];
    assert_eq!(msg.serialize(&mut out), Err(MessageError::MessageTooLong));
    assert_eq!(out, vec![5, 6]);
    assert_eq!(msg.try_to_vec().unwrap_err(), MessageError::MessageTooLong);
}

#[test]
fn empty_hello_round_trips() {
    let msg = HelloWorldMessage::Hello { message: vec![] };
    let bytes = msg.try_to_vec().unwrap();
    assert_eq!(bytes, vec![1, 0, 0]);
    let mut buf: &[u8] = &bytes;
    match HelloWorldMessage::deserialize(&mut buf).unwrap() {
        HelloWorldMessage::Hello { message } => assert!(message.is_empty()),
        _ => panic!("expected a Hello message"),
    }
}

#[test]
fn alive_round_trips() {
    let bytes = HelloWorldMessage::Alive { program_id: program_id() }.try_to_vec().unwrap();
    let mut buf: &[u8] = &bytes;
    match HelloWorldMessage::deserialize(&mut buf).unwrap() {
        HelloWorldMessage::Alive { program_id: id } => assert_eq!(id, program_id()),
        _ => panic!("expected an Alive message"),
    }
    assert_eq!(buf.len(), 33);
}

#[test]
fn hello_round_trips_with_trailing_bytes() {
    let mut bytes = HelloWorldMessage::Hello { message: b"gm".to_vec() }.try_to_vec().unwrap();
    bytes.extend_from_slice(&[0xff, 0xee]);
    let mut buf: &[u8] = &bytes;
    match HelloWorldMessage::deserialize(&mut buf).unwrap() {
        HelloWorldMessage::Hello { message } => assert_eq!(message, b"gm".to_vec()),
        _ => panic!("expected a Hello message"),
    }
    assert_eq!(buf, &bytes[..]);
}

#[test]
fn unknown_payload_id_is_refused() {
    let bytes = [2u8, 0, 0];
    let mut buf: &[u8] = &bytes;
    assert_eq!(HelloWorldMessage::deserialize(&mut buf).unwrap_err(), MessageError::InvalidPayloadId);
}

#[test]
fn announced_length_above_limit_is_refused() {
    let bytes = [1u8, 2, 1];
    let mut buf: &[u8] = &bytes;
    assert_eq!(HelloWorldMessage::deserialize(&mut buf).unwrap_err(), MessageError::MessageTooLong);
}

#[test]
fn readable_payloads() {
    assert!(!is_readable(&[]));
    assert!(is_readable(&[7]));
    assert!(!is_readable(&[0; 32]));
    assert!(is_readable(&[0; 33]));
    assert!(!is_readable(&[1, 0]));
    assert!(!is_readable(&[1, 0, 3, 1, 2]));
    assert!(is_readable(&[1, 0, 3, 1, 2, 3]));
    assert!(is_readable(&[1, 2, 1]));
}
