use zkrust::Command;

#[test]
fn test_command_conversion() {
    assert_eq!(Command::Connect.to_code(), 1000);
    assert_eq!(Command::from_code(1000).unwrap(), Command::Connect);
}

#[test]
fn test_command_is_response() {
    assert!(Command::AckOk.is_response());
    assert!(!Command::Connect.is_response());
}

#[test]
fn test_command_is_success() {
    assert!(Command::AckOk.is_success());
    assert!(Command::AckData.is_success());
    assert!(!Command::AckError.is_success());
}

#[test]
fn test_unknown_command() {
    let result = Command::from_code(9999);
    assert!(result.is_err());
}

#[test]
fn test_unknown_command_error_value() {
    match Command::from_code(9999) {
        Err(zkrust::error::Error::UnknownCommand(code)) => assert_eq!(code, 9999),
        _ => panic!("expected UnknownCommand"),
    }
}

#[test]
fn test_command_roundtrip_all_response_codes() {
    let codes: [u16; 10] = [2000, 2001, 2002, 2003, 2004, 2005, 0xFFFF, 0xFFFD, 0xFFFC, 0xFFFB];
    for code in codes {
        let cmd = Command::from_code(code).unwrap();
        assert_eq!(cmd.to_code(), code);
        assert!(cmd.is_response());
        assert!(!cmd.is_request());
    }
}

#[test]
fn test_command_is_error() {
    assert!(Command::AckError.is_error());
    assert!(Command::AckErrorCmd.is_error());
    assert!(Command::AckErrorInit.is_error());
    assert!(Command::AckErrorData.is_error());
    assert!(!Command::AckOk.is_error());
    assert!(!Command::AckUnauth.is_error());
}

#[test]
fn test_command_name() {
    assert_eq!(Command::Connect.name(), "CMD_CONNECT");
    assert_eq!(Command::Auth.name(), "CMD_AUTH");
    assert_eq!(Command::AckOk.name(), "CMD_ACK_OK");
    // A known code without a documented label gets the default label.
    assert_eq!(Command::AckRetry.name(), "CMD_UNKNOWN");
}
