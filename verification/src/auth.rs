//! The CommKey authentication algorithm: scrambles the password with the
//! session id to produce the 4-byte key that answers an authentication
//! challenge.
//!
//! The steps, in order: reverse the bit order of the 32-bit password; add
//! the session id with 32-bit wraparound; XOR the little-endian bytes with
//! 'Z', 'K', 'S', 'O'; swap the two little-endian 16-bit halves; then XOR
//! bytes 0, 1 and 3 with the ticks constant and overwrite byte 2 with it
//! (an overwrite, not an XOR: this matches the device firmware exactly).

use vstd::prelude::*;

verus! {

/// Ticks constant used by the handshake (protocol default).
pub const DEFAULT_TICKS: u8 = 50;

/// The low `i` bits of the password in reversed order: bit 0 of the
/// password ends up highest, exactly as the accumulating shift loop
/// builds it.
pub open spec fn reverse_bits_upto(password: u32, i: int) -> u32
    decreases i,
{
    if i <= 0 {
        0
    } else {
        (reverse_bits_upto(password, i - 1) << 1) | (
        if password & (1u32 << ((i - 1) as u32)) != 0 {
            1u32
        } else {
            0u32
        })
    }
}

/// The 32-bit password with its bit order reversed (bit 0 becomes bit 31).
pub open spec fn reverse_bits(password: u32) -> u32 {
    reverse_bits_upto(password, 32)
}

/// Byte `k` of the little-endian representation of a 32-bit value.
pub open spec fn u32_byte(x: u32, k: int) -> u8 {
    (((x as int) / pow256(k)) % 256) as u8
}

/// 256 to the power `k`, for selecting little-endian bytes.
pub open spec fn pow256(k: int) -> int
    decreases k,
{
    if k <= 0 {
        1
    } else {
        256 * pow256(k - 1)
    }
}

/// The 4-byte authentication key derived from password, session id, and
/// ticks.
pub open spec fn commkey_spec(password: u32, session_id: u16, ticks: u8) -> Seq<u8> {
    let k = vstd::wrapping::u32_specs::wrapping_add(reverse_bits(password), session_id as u32);
    let x0 = u32_byte(k, 0) ^ 0x5A;  // 'Z'
    let x1 = u32_byte(k, 1) ^ 0x4B;  // 'K'
    let x2 = u32_byte(k, 2) ^ 0x53;  // 'S'
    let x3 = u32_byte(k, 3) ^ 0x4F;  // 'O'
    // The 16-bit halves [x0, x1] and [x2, x3] swap places, then bytes 0, 1
    // and 3 are XORed with ticks while byte 2 is overwritten by it.
    seq![x2 ^ ticks, x3 ^ ticks, ticks, x1 ^ ticks]
}

/// Create the authentication key from password and session id.
///
/// `password` is the CommKey (0 by default), `session_id` the id carried
/// by the device's unauthorized response, and `ticks` the protocol
/// constant (default 50). The returned key is sent as the payload of the
/// authentication request.
pub fn make_commkey(password: u32, session_id: u16, ticks: u8) -> (key: Vec<u8>)
    ensures
        key@ == commkey_spec(password, session_id, ticks),
        key@.len() == 4,
{
    // Reverse the bit order of the password.
    let mut k: u32 = 0;
    let mut i: u32 = 0;
    while i < 32
        invariant
            i <= 32,
            k == reverse_bits_upto(password, i as int),
        decreases 32 - i,
    {
        let bit: u32 = if password & (1u32 << i) != 0 {
            1
        } else {
            0
        };
        k = (k << 1) | bit;
        i = i + 1;
    }

    // Add the session id with 32-bit wraparound.
    k = k.wrapping_add(session_id as u32);

    // Split into little-endian bytes and XOR with 'Z', 'K', 'S', 'O'.
    let x0 = ((k % 0x100) as u8) ^ 0x5A;
    let x1 = (((k / 0x100) % 0x100) as u8) ^ 0x4B;
    let x2 = (((k / 0x10000) % 0x100) as u8) ^ 0x53;
    let x3 = (((k / 0x1000000) % 0x100) as u8) ^ 0x4F;

    proof {
        assert(pow256(0) == 1);
        assert(pow256(1) == 256);
        assert(pow256(2) == 0x10000);
        assert(pow256(3) == 0x1000000);
    }

    // Swap the 16-bit halves, then apply ticks: XOR bytes 0, 1 and 3,
    // overwrite byte 2.
    let mut key: Vec<u8> = Vec::new();
    key.push(x2 ^ ticks);
    key.push(x3 ^ ticks);
    key.push(ticks);
    key.push(x1 ^ ticks);

    assert(key@ =~= commkey_spec(password, session_id, ticks));
    key
}

/// The key is a function of password, session id and ticks alone: equal
/// inputs give equal keys.
pub proof fn lemma_make_commkey_deterministic(
    password1: u32,
    password2: u32,
    session_id: u16,
    ticks: u8,
)
    requires
        password1 == password2,
    ensures
        commkey_spec(password1, session_id, ticks) == commkey_spec(password2, session_id, ticks),
{
}

} // verus!
