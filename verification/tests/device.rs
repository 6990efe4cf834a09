use zkrust::auth::make_commkey;
use zkrust::device::build_command_packet;
use zkrust::device::connect_request;
use zkrust::device::handle_auth_response;
use zkrust::device::handle_connect_response;
use zkrust::device::AuthStep;
use zkrust::device::ConnectStep;
use zkrust::Command;
use zkrust::Packet;
use zkrust::Session;

#[test]
fn test_connect_request_shape() {
    let p = connect_request();
    assert_eq!(p.command, Command::Connect);
    assert_eq!(p.session_id, 0);
    assert_eq!(p.reply_id, 0);
    assert!(p.payload.is_empty());
}

#[test]
fn test_connect_packet_roundtrip() {
    // The connect packet encodes to an 8-byte buffer with no payload and
    // decodes back to an identical logical packet.
    let p = connect_request();
    let encoded = p.encode();
    assert_eq!(encoded.len(), 8);

    let decoded = Packet::decode(&encoded).unwrap();
    assert_eq!(decoded.command, Command::Connect);
    assert_eq!(decoded.session_id, 0);
    assert_eq!(decoded.reply_id, 0);
    assert!(decoded.payload.is_empty());
}

#[test]
fn test_handle_connect_response_success() {
    let response = Packet::new(Command::AckOk, 4321, 0);
    match handle_connect_response(&response, 0) {
        ConnectStep::Established { session_id } => assert_eq!(session_id, 4321),
        _ => panic!("expected Established"),
    }
}

#[test]
fn test_handle_connect_response_challenge() {
    // The unauthorized response carries the session id; the returned
    // authentication request is built on it, with the derived key as its
    // payload and reply id 0.
    let response = Packet::new(Command::AckUnauth, 32031, 0);
    match handle_connect_response(&response, 0) {
        ConnectStep::Challenge { auth } => {
            assert_eq!(auth.command, Command::Auth);
            assert_eq!(auth.session_id, 32031);
            assert_eq!(auth.reply_id, 0);
            assert_eq!(auth.payload, make_commkey(0, 32031, 50));
        }
        _ => panic!("expected Challenge"),
    }
}

#[test]
fn test_handle_connect_response_refused() {
    let response = Packet::new(Command::AckError, 0, 0);
    assert!(matches!(handle_connect_response(&response, 0), ConnectStep::Refused));
}

#[test]
fn test_handle_connect_response_unexpected() {
    let response = Packet::new(Command::AckData, 0, 0);
    match handle_connect_response(&response, 0) {
        ConnectStep::Unexpected { command } => assert_eq!(command, Command::AckData),
        _ => panic!("expected Unexpected"),
    }
}

#[test]
fn test_handle_auth_response_outcomes() {
    let ok = Packet::new(Command::AckOk, 555, 0);
    match handle_auth_response(&ok) {
        AuthStep::Established { session_id } => assert_eq!(session_id, 555),
        _ => panic!("expected Established"),
    }

    let denied = Packet::new(Command::AckError, 555, 0);
    assert!(matches!(handle_auth_response(&denied), AuthStep::Denied));

    let other = Packet::new(Command::AckUnauth, 555, 0);
    match handle_auth_response(&other) {
        AuthStep::Unexpected { command } => assert_eq!(command, Command::AckUnauth),
        _ => panic!("expected Unexpected"),
    }
}

#[test]
fn test_build_command_packet_consumes_reply_id() {
    let mut session = Session::new();
    session.initialize(42).unwrap();

    let p1 = build_command_packet(&mut session, Command::GetVersion, Vec::new());
    assert_eq!(p1.command, Command::GetVersion);
    assert_eq!(p1.session_id, 42);
    assert_eq!(p1.reply_id, 65534);

    let p2 = build_command_packet(&mut session, Command::Exit, vec![1]);
    assert_eq!(p2.reply_id, 65535);
    assert_eq!(p2.payload, vec![1]);

    let p3 = build_command_packet(&mut session, Command::Exit, Vec::new());
    assert_eq!(p3.reply_id, 0);
}
