//! Transport-level errors and the TCP wrapper framing.
//!
//! Two framing strategies exist over the underlying channel: raw (bytes
//! pass through unmodified, used for UDP and for TCP devices that need no
//! wrapping) and wrapped (an 8-byte envelope of two magic markers and a
//! little-endian length is added on send and stripped on receive). On
//! receive, bytes that do not start with the magic markers pass through
//! unmodified, tolerating devices that omit wrapping.

use vstd::prelude::*;

verus! {

/// First TCP wrapper magic marker.
pub const TCP_MAGIC_1: u16 = 0x5050;

/// Second TCP wrapper magic marker.
pub const TCP_MAGIC_2: u16 = 0x8272;

/// Transport errors.
#[derive(Debug)]
pub enum Error {
    /// No active connection exists.
    NotConnected,
    /// A connection already exists.
    AlreadyConnected,
    /// Connection establishment timed out.
    ConnectionTimeout,
    /// No data arrived within the read timeout.
    ReadTimeout,
    /// A zero-length read: the peer closed the connection.
    ConnectionClosed,
    /// I/O error passthrough.
    Io(std::io::Error),
    /// The remote address could not be resolved.
    InvalidAddress(String),
}

/// Byte `k` of the little-endian representation of a length value.
pub open spec fn len_byte(n: int, k: int) -> u8
    decreases k,
{
    if k <= 0 {
        (n % 256) as u8
    } else {
        len_byte(n / 256, k - 1)
    }
}

/// The wrapped form of a buffer: the two magic markers, the 32-bit
/// little-endian length of the inner payload, then the payload unmodified.
pub open spec fn wrap_spec(data: Seq<u8>) -> Seq<u8> {
    let n = data.len() as int;
    seq![
        0x50u8,
        0x50u8,
        0x72u8,
        0x82u8,
        len_byte(n, 0),
        len_byte(n, 1),
        len_byte(n, 2),
        len_byte(n, 3),
    ] + data
}

/// Whether a received buffer carries the TCP wrapper: it is at least 8
/// bytes long and starts with both magic markers.
pub open spec fn is_wrapped(data: Seq<u8>) -> bool {
    &&& data.len() >= 8
    &&& data[0] == 0x50u8
    &&& data[1] == 0x50u8
    &&& data[2] == 0x72u8
    &&& data[3] == 0x82u8
}

/// Wrap packet bytes in the TCP envelope: magic markers, the 32-bit
/// little-endian payload length, then the payload.
pub fn wrap_tcp_packet(data: &[u8]) -> (r: Vec<u8>)
    requires
        data@.len() <= u32::MAX,
    ensures
        r@ == wrap_spec(data@),
        r@.len() == 8 + data@.len(),
{
    let mut buf: Vec<u8> = Vec::new();

    // Magic markers, little-endian.
    buf.push(0x50);
    buf.push(0x50);
    buf.push(0x72);
    buf.push(0x82);

    // Payload length, 4 bytes little-endian.
    let n = data.len();
    buf.push((n % 0x100) as u8);
    buf.push(((n / 0x100) % 0x100) as u8);
    buf.push(((n / 0x10000) % 0x100) as u8);
    buf.push(((n / 0x1000000) % 0x100) as u8);

    proof {
        lemma_len_bytes(n as int);
    }

    let ghost header = buf@;
    let mut j: usize = 0;
    while j < data.len()
        invariant
            j <= data@.len(),
            buf@ == header + data@.take(j as int),
        decreases data@.len() - j,
    {
        buf.push(data[j]);
        assert(data@.take(j + 1) =~= data@.take(j as int).push(data@[j as int]));
        j = j + 1;
    }
    assert(buf@ =~= wrap_spec(data@));
    buf
}

/// The little-endian length bytes of `n` are its base-256 digits.
proof fn lemma_len_bytes(n: int)
    requires
        n >= 0,
    ensures
        len_byte(n, 0) == (n % 256) as u8,
        len_byte(n, 1) == ((n / 0x100) % 256) as u8,
        len_byte(n, 2) == ((n / 0x10000) % 256) as u8,
        len_byte(n, 3) == ((n / 0x1000000) % 256) as u8,
{
    assert(n / 256 / 256 == n / 0x10000) by {
        vstd::arithmetic::div_mod::lemma_div_denominator(n, 256, 256);
    }
    assert(n / 0x10000 / 256 == n / 0x1000000) by {
        vstd::arithmetic::div_mod::lemma_div_denominator(n, 0x10000, 256);
    }
    assert(len_byte(n, 1) == len_byte(n / 256, 0));
    assert(len_byte(n, 2) == len_byte(n / 256, 1) == len_byte(n / 256 / 256, 0));
    assert(len_byte(n, 3) == len_byte(n / 256, 2) == len_byte(n / 256 / 256, 1) == len_byte(
        n / 256 / 256 / 256,
        0,
    ));
    assert(n / 0x10000 / 256 == n / 256 / 256 / 256);
}

/// Strip the TCP envelope from received bytes, if it is present: a buffer
/// starting with both magic markers loses its 8-byte header (the declared
/// length is informational and not cross-checked); any other buffer is
/// passed through unmodified.
pub fn unwrap_tcp_packet(data: Vec<u8>) -> (r: Vec<u8>)
    ensures
        is_wrapped(data@) ==> r@ == data@.skip(8),
        !is_wrapped(data@) ==> r@ == data@,
{
    if data.len() < 8 {
        // Not wrapped or incomplete.
        return data;
    }

    if data[0] == 0x50 && data[1] == 0x50 && data[2] == 0x72 && data[3] == 0x82 {
        // Wrapped: drop the 8-byte envelope.
        let mut inner = data;
        let tail = inner.split_off(8);
        assert(tail@ =~= inner@.add(tail@).skip(8));
        tail
    } else {
        data
    }
}

/// Wrapping then unwrapping returns the original bytes: the wrapped form
/// always starts with the magic markers, its length field is the inner
/// payload length in little-endian, and stripping its 8-byte header
/// recovers the payload exactly.
pub proof fn lemma_wrap_unwrap_roundtrip(data: Seq<u8>)
    requires
        data.len() <= u32::MAX,
    ensures
        is_wrapped(wrap_spec(data)),
        wrap_spec(data).len() == 8 + data.len(),
        wrap_spec(data).skip(8) == data,
        word32(wrap_spec(data), 4) == data.len(),
{
    let wrapped = wrap_spec(data);
    let n = data.len() as int;
    assert(wrapped.skip(8) =~= data);
    lemma_len_bytes(n);
    assert(n % 256 + 256 * ((n / 0x100) % 256) + 0x10000 * ((n / 0x10000) % 256) + 0x1000000 * ((n
        / 0x1000000) % 256) == n) by {
        vstd::arithmetic::div_mod::lemma_fundamental_div_mod(n, 256);
        vstd::arithmetic::div_mod::lemma_fundamental_div_mod(n / 0x100, 256);
        vstd::arithmetic::div_mod::lemma_fundamental_div_mod(n / 0x10000, 256);
        vstd::arithmetic::div_mod::lemma_div_denominator(n, 256, 256);
        vstd::arithmetic::div_mod::lemma_div_denominator(n, 0x10000, 256);
        assert(n / 0x1000000 % 256 == n / 0x1000000) by {
            vstd::arithmetic::div_mod::lemma_basic_div(n / 0x1000000, 256);
            assert(n / 0x1000000 < 256) by {
                vstd::arithmetic::div_mod::lemma_div_is_ordered(n, 0xFFFFFFFFi64 as int, 0x1000000);
            }
        }
    }
}

/// The 32-bit value stored little-endian at offset `i` of a byte sequence.
pub open spec fn word32(s: Seq<u8>, i: int) -> int {
    s[i] as int + 0x100 * (s[i + 1] as int) + 0x10000 * (s[i + 2] as int) + 0x1000000 * (s[i
        + 3] as int)
}

} // verus!
