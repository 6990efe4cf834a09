use zkrust::auth::make_commkey;

#[test]
fn test_make_commkey_basic() {
    // Test with password=0, session_id=0, ticks=50
    let key = make_commkey(0, 0, 50);
    assert_eq!(key.len(), 4);
}

#[test]
fn test_make_commkey_with_session() {
    // Test with password=0, session_id=32031, ticks=50
    let key = make_commkey(0, 32031, 50);
    assert_eq!(key.len(), 4);

    // The result should be deterministic
    let key2 = make_commkey(0, 32031, 50);
    assert_eq!(key, key2);
}

#[test]
fn test_make_commkey_different_passwords() {
    let key1 = make_commkey(0, 100, 50);
    let key2 = make_commkey(12345, 100, 50);

    // Different passwords should produce different keys
    assert_ne!(key1, key2);
}

#[test]
fn test_make_commkey_different_sessions() {
    // Session ids that differ in the high byte of the scrambled value
    // produce different keys. (The low byte lands in the output position
    // that the final step overwrites with ticks, so session ids that
    // differ only there - such as 100 and 200 - collide by design.)
    let key1 = make_commkey(0, 100, 50);
    let key2 = make_commkey(0, 300, 50);

    // Different session IDs should produce different keys
    assert_ne!(key1, key2);
}

#[test]
fn test_make_commkey_exact_value() {
    // password=0 reverses to 0; adding session 32031 gives 0x7D1F; its
    // little-endian bytes [0x1F, 0x7D, 0, 0] XOR 'Z','K','S','O' give
    // [0x45, 0x36, 0x53, 0x4F]; swapping the halves gives
    // [0x53, 0x4F, 0x45, 0x36]; ticks 0x32 then XORs bytes 0, 1 and 3 and
    // overwrites byte 2.
    let key = make_commkey(0, 32031, 50);
    assert_eq!(key, vec![0x61, 0x7D, 0x32, 0x04]);
}

#[test]
fn test_make_commkey_bit_reversal() {
    // password=1 bit-reverses to 0x80000000, so with session 0 the
    // little-endian bytes are [0, 0, 0, 0x80]; XOR with 'Z','K','S','O'
    // gives [0x5A, 0x4B, 0x53, 0xCF]; swapping halves gives
    // [0x53, 0xCF, 0x5A, 0x4B]; ticks 0x32 finishes the key.
    let key = make_commkey(1, 0, 50);
    assert_eq!(key, vec![0x61, 0xFD, 0x32, 0x79]);
}
