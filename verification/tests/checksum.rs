use zkrust::checksum::calculate;
use zkrust::checksum::verify;

#[test]
fn test_checksum_empty_payload() {
    // CMD_CONNECT (1000), session=0, reply=0, no payload
    let checksum = calculate(1000, 0, 0, &[]);

    // Checksum should be consistent
    assert_eq!(checksum, calculate(1000, 0, 0, &[]));
}

#[test]
fn test_checksum_with_payload() {
    let payload = vec![1, 2, 3, 4];
    let checksum = calculate(1000, 100, 200, &payload);

    // Verify is consistent
    assert_eq!(checksum, calculate(1000, 100, 200, &payload));
}

#[test]
fn test_checksum_verify() {
    let payload = vec![0xAB, 0xCD];
    let checksum = calculate(1000, 50, 100, &payload);

    assert!(verify(1000, 50, 100, &payload, checksum));
    assert!(!verify(1000, 50, 100, &payload, checksum.wrapping_add(1)));
}

#[test]
fn test_checksum_different_commands() {
    // Different commands should produce different checksums
    let cs1 = calculate(1000, 0, 0, &[]);
    let cs2 = calculate(1001, 0, 0, &[]);

    assert_ne!(cs1, cs2);
}

#[test]
fn test_checksum_different_sessions() {
    let cs1 = calculate(1000, 100, 0, &[]);
    let cs2 = calculate(1000, 200, 0, &[]);

    assert_ne!(cs1, cs2);
}

#[test]
fn test_checksum_odd_payload_length() {
    // Test with odd-length payload
    let payload = vec![1, 2, 3];
    let checksum = calculate(1000, 0, 0, &payload);

    // Should not panic and should be consistent
    assert_eq!(checksum, calculate(1000, 0, 0, &payload));
}

#[test]
fn test_checksum_large_payload() {
    let payload = vec![0xFF; 1000];
    let checksum = calculate(1000, 0, 0, &payload);

    // Should handle large payloads
    assert_eq!(checksum, calculate(1000, 0, 0, &payload));
}

#[test]
fn test_checksum_exact_value() {
    // The stream for (1000, 0, 0, []) is [0xE8, 0x03, 0, 0, 0, 0, 0, 0];
    // its word sum is 1000, so the checksum is !1000 = 0xFC17.
    assert_eq!(calculate(1000, 0, 0, &[]), 0xFC17);
}

#[test]
fn test_checksum_fold_quirk() {
    // A sum above 0xFFFF folds by subtracting 0xFFFF, not 0x10000: the
    // words 0x8000 and 0x8001 sum to 0x10001, which folds to 0x0002, so
    // the checksum is !0x0002 = 0xFFFD. Session and reply contribute the
    // words here; the command word is 0.
    assert_eq!(calculate(0, 0x8000, 0x8001, &[]), 0xFFFD);
}
