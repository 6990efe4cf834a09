use zkrust::error::Error;
use zkrust::packet::HEADER_SIZE;
use zkrust::Command;
use zkrust::Packet;

#[test]
fn test_packet_new() {
    let packet = Packet::new(Command::Connect, 0, 0);
    assert_eq!(packet.command, Command::Connect);
    assert_eq!(packet.session_id, 0);
    assert_eq!(packet.reply_id, 0);
    assert_eq!(packet.payload.len(), 0);
}

#[test]
fn test_packet_with_payload() {
    let payload = vec![1, 2, 3, 4];
    let packet = Packet::with_payload(Command::Auth, 1234, 65534, payload.clone());

    assert_eq!(packet.command, Command::Auth);
    assert_eq!(packet.payload.as_slice(), payload.as_slice());
}

#[test]
fn test_packet_encode_decode() {
    let original = Packet::with_payload(Command::Connect, 0, 0, vec![1, 2, 3, 4]);

    let encoded = original.encode();
    let decoded = Packet::decode(&encoded).unwrap();

    assert_eq!(original.command, decoded.command);
    assert_eq!(original.session_id, decoded.session_id);
    assert_eq!(original.reply_id, decoded.reply_id);
    assert_eq!(original.payload, decoded.payload);
}

#[test]
fn test_packet_checksum_verification() {
    let packet = Packet::new(Command::Connect, 0, 65534);
    let mut encoded = packet.encode();

    // Corrupt checksum (bytes 2-3)
    encoded[2] ^= 0xFF;
    encoded[3] ^= 0xFF;

    let result = Packet::decode(&encoded);
    assert!(result.is_err());

    if let Err(Error::ChecksumMismatch { expected, received }) = result {
        assert_ne!(expected, received);
    } else {
        panic!("Expected ChecksumMismatch error");
    }
}

#[test]
fn test_packet_corrupt_low_checksum_byte() {
    let packet = Packet::with_payload(Command::Auth, 77, 65534, vec![9, 8, 7]);
    let mut encoded = packet.encode();
    encoded[2] = encoded[2].wrapping_add(1);
    assert!(matches!(Packet::decode(&encoded), Err(Error::ChecksumMismatch { .. })));
}

#[test]
fn test_packet_corrupt_high_checksum_byte() {
    let packet = Packet::with_payload(Command::Auth, 77, 65534, vec![9, 8, 7]);
    let mut encoded = packet.encode();
    encoded[3] = encoded[3].wrapping_add(1);
    assert!(matches!(Packet::decode(&encoded), Err(Error::ChecksumMismatch { .. })));
}

#[test]
fn test_packet_too_short() {
    let buf = [1, 2, 3];
    let result = Packet::decode(&buf);

    assert!(matches!(result, Err(Error::PacketTooShort { .. })));
}

#[test]
fn test_packet_empty() {
    let packet = Packet::new(Command::Connect, 0, 0);
    let encoded = packet.encode();

    assert_eq!(encoded.len(), HEADER_SIZE);

    let decoded = Packet::decode(&encoded).unwrap();
    assert_eq!(decoded.payload.len(), 0);
}

#[test]
fn test_packet_large_payload() {
    let payload = vec![0xAB; 1000];
    let packet = Packet::with_payload(Command::Auth, 100, 200, payload.clone());

    let encoded = packet.encode();
    let decoded = Packet::decode(&encoded).unwrap();

    assert_eq!(decoded.payload.as_slice(), payload.as_slice());
}

#[test]
fn test_is_response() {
    assert!(Packet::new(Command::AckOk, 0, 0).is_response());
    assert!(Packet::new(Command::AckError, 0, 0).is_response());
    assert!(!Packet::new(Command::Connect, 0, 0).is_response());
}

#[test]
fn test_is_success() {
    assert!(Packet::new(Command::AckOk, 0, 0).is_success());
    assert!(Packet::new(Command::AckData, 0, 0).is_success());
    assert!(!Packet::new(Command::AckError, 0, 0).is_success());
}

#[test]
fn test_packet_decode_unknown_command() {
    // A well-formed buffer whose command code 9999 (0x270F) is outside
    // the closed set fails before the checksum is even considered.
    let buf = [0x0F, 0x27, 0, 0, 0, 0, 0, 0];
    assert!(matches!(Packet::decode(&buf), Err(Error::UnknownCommand(9999))));
}

#[test]
fn test_packet_checksum_field_value() {
    // The checksum written at bytes 2-3 is the one computed over the
    // packet's own fields.
    let packet = Packet::with_payload(Command::Connect, 10, 20, vec![1, 2]);
    let encoded = packet.encode();
    let cs = packet.checksum();
    assert_eq!(encoded[2], (cs % 256) as u8);
    assert_eq!(encoded[3], (cs / 256) as u8);
    assert!(zkrust::checksum::verify(1000, 10, 20, &[1, 2], cs));
}

#[test]
fn test_packet_size() {
    let packet = Packet::with_payload(Command::Connect, 0, 0, vec![1, 2, 3]);
    assert_eq!(packet.size(), 11);
}
