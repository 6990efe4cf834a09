use zkrust::constants::PunchType;
use zkrust::constants::VerifyMode;
use zkrust::error::Error;
use zkrust::DeviceInfo;

#[test]
fn test_device_info_new() {
    let info = DeviceInfo::new(String::from("SN123"), String::from("Ver 6.60"));
    assert_eq!(info.serial_number, "SN123");
    assert_eq!(info.firmware_version, "Ver 6.60");
    assert!(info.model.is_none());
    assert!(info.platform.is_none());
    assert!(info.device_name.is_none());
    assert!(info.mac_address.is_none());
}

#[test]
fn test_error_is_recoverable() {
    assert!(Error::Timeout { seconds: 5 }.is_recoverable());
    assert!(Error::DeviceError { command: zkrust::Command::AckError }.is_recoverable());
    assert!(Error::Io(std::io::Error::new(std::io::ErrorKind::Other, "io")).is_recoverable());
    assert!(!Error::SessionNotInitialized.is_recoverable());
    assert!(!Error::UnknownCommand(9999).is_recoverable());
}

#[test]
fn test_error_requires_reconnect() {
    assert!(Error::SessionNotInitialized.requires_reconnect());
    assert!(Error::InvalidSessionState(zkrust::SessionState::Connected).requires_reconnect());
    assert!(Error::Io(std::io::Error::new(std::io::ErrorKind::Other, "io")).requires_reconnect());
    assert!(!Error::Timeout { seconds: 5 }.requires_reconnect());
    assert!(!Error::AuthenticationFailed.requires_reconnect());
}

#[test]
fn test_verify_mode_codes() {
    assert_eq!(VerifyMode::Password.code(), 0);
    assert_eq!(VerifyMode::Fingerprint.code(), 1);
    assert_eq!(VerifyMode::Card.code(), 3);
    assert_eq!(VerifyMode::Face.code(), 15);
}

#[test]
fn test_punch_type_codes() {
    assert_eq!(PunchType::CheckIn.code(), 0);
    assert_eq!(PunchType::CheckOut.code(), 1);
    assert_eq!(PunchType::OvertimeIn.code(), 2);
    assert_eq!(PunchType::OvertimeOut.code(), 3);
}
