//! The protocol's ones-complement 16-bit checksum.
//!
//! The checksum covers the logical byte stream
//! `[command_lo, command_hi, 0x00, 0x00, session_lo, session_hi,
//! reply_lo, reply_hi, ...payload]` (the checksum field itself is zeroed
//! for the computation). The stream is summed as consecutive little-endian
//! 16-bit words; a trailing odd byte is summed as the low byte of a word
//! whose high byte is 0. Whenever the running sum exceeds 0xFFFF, 0xFFFF is
//! subtracted (a protocol quirk: not the usual 0x10000 carry fold). The
//! checksum is the bitwise complement of the final 16-bit sum.

use vstd::prelude::*;

verus! {

/// Low byte of a 16-bit value in its little-endian representation.
pub open spec fn byte_lo(x: u16) -> u8 {
    (x % 256) as u8
}

/// High byte of a 16-bit value in its little-endian representation.
pub open spec fn byte_hi(x: u16) -> u8 {
    (x / 256) as u8
}

/// One step of the running sum: add a 16-bit word, then subtract 0xFFFF
/// if the sum exceeds 0xFFFF. For `acc` and `word` both at most 0xFFFF a
/// single subtraction suffices.
pub open spec fn fold_word(acc: int, word: int) -> int {
    if acc + word > 0xFFFF {
        acc + word - 0xFFFF
    } else {
        acc + word
    }
}

/// The folded sum of a byte stream read as consecutive little-endian
/// 16-bit words, starting from the accumulator `acc`; a final odd byte is
/// taken as a word with high byte 0.
pub open spec fn sum_words(stream: Seq<u8>, acc: int) -> int
    decreases stream.len(),
{
    if stream.len() == 0 {
        acc
    } else if stream.len() == 1 {
        fold_word(acc, stream[0] as int)
    } else {
        sum_words(stream.skip(2), fold_word(acc, stream[0] as int + 256 * (stream[1] as int)))
    }
}

/// The logical byte stream the checksum is computed over: the 8-byte
/// header with the checksum field zeroed, followed by the payload.
pub open spec fn checksum_stream(command: u16, session_id: u16, reply_id: u16, payload: Seq<u8>) -> Seq<u8> {
    seq![
        byte_lo(command),
        byte_hi(command),
        0u8,
        0u8,
        byte_lo(session_id),
        byte_hi(session_id),
        byte_lo(reply_id),
        byte_hi(reply_id),
    ] + payload
}

/// The packet checksum: the ones-complement of the folded 16-bit word sum
/// of the logical byte stream.
pub open spec fn checksum_spec(command: u16, session_id: u16, reply_id: u16, payload: Seq<u8>) -> u16 {
    (0xFFFF - sum_words(checksum_stream(command, session_id, reply_id, payload), 0)) as u16
}

/// The folded sum stays within a 16-bit range when it starts there.
pub proof fn lemma_sum_words_bound(stream: Seq<u8>, acc: int)
    requires
        0 <= acc <= 0xFFFF,
    ensures
        0 <= sum_words(stream, acc) <= 0xFFFF,
    decreases stream.len(),
{
    if stream.len() >= 2 {
        lemma_sum_words_bound(
            stream.skip(2),
            fold_word(acc, stream[0] as int + 256 * (stream[1] as int)),
        );
    }
}

/// Calculate the packet checksum over the given header fields and payload.
pub fn calculate(command: u16, session_id: u16, reply_id: u16, payload: &[u8]) -> (checksum: u16)
    ensures
        checksum == checksum_spec(command, session_id, reply_id, payload@),
{
    // Build the logical byte stream (checksum field zeroed).
    let mut buf: Vec<u8> = Vec::new();
    buf.push((command % 256) as u8);
    buf.push((command / 256) as u8);
    buf.push(0);
    buf.push(0);
    buf.push((session_id % 256) as u8);
    buf.push((session_id / 256) as u8);
    buf.push((reply_id % 256) as u8);
    buf.push((reply_id / 256) as u8);

    let ghost header = buf@;
    assert(header =~= checksum_stream(command, session_id, reply_id, payload@).take(8));

    let mut j: usize = 0;
    while j < payload.len()
        invariant
            j <= payload@.len(),
            buf@ == header + payload@.take(j as int),
        decreases payload@.len() - j,
    {
        buf.push(payload[j]);
        assert(payload@.take(j + 1) =~= payload@.take(j as int).push(payload@[j as int]));
        j = j + 1;
    }
    assert(buf@ =~= checksum_stream(command, session_id, reply_id, payload@));

    let ghost stream = buf@;
    assert(stream.skip(0) =~= stream);

    // Sum the stream as little-endian 16-bit words with the protocol's fold.
    let mut sum: u32 = 0;
    let mut i: usize = 0;
    while i < buf.len()
        invariant
            buf@ == stream,
            i <= stream.len(),
            sum <= 0xFFFF,
            sum_words(stream, 0) == sum_words(stream.skip(i as int), sum as int),
        decreases stream.len() - i,
    {
        let word: u32;
        let next: usize;
        if i + 1 < buf.len() {
            word = buf[i] as u32 + 256 * (buf[i + 1] as u32);
            next = i + 2;
            assert(stream.skip(i as int).skip(2) =~= stream.skip(i + 2));
        } else {
            word = buf[i] as u32;
            next = buf.len();
            assert(stream.skip(i as int).len() == 1);
        }
        sum = sum + word;
        if sum > 0xFFFF {
            sum = sum - 0xFFFF;
        }
        i = next;
    }
    assert(stream.skip(stream.len() as int).len() == 0);

    proof {
        lemma_sum_words_bound(stream, 0);
    }

    // Ones-complement of a value that is at most 0xFFFF, as a 16-bit value.
    (0xFFFF - sum) as u16
}

/// Recompute the checksum over the given fields and compare it with
/// `expected`.
pub fn verify(command: u16, session_id: u16, reply_id: u16, payload: &[u8], expected: u16) -> (r: bool)
    ensures
        r == (checksum_spec(command, session_id, reply_id, payload@) == expected),
{
    let calculated = calculate(command, session_id, reply_id, payload);
    calculated == expected
}

/// The checksum is a function of the header fields and payload alone:
/// equal inputs give equal checksums.
pub proof fn lemma_calculate_deterministic(
    command: u16,
    session_id: u16,
    reply_id: u16,
    payload1: Seq<u8>,
    payload2: Seq<u8>,
)
    requires
        payload1 == payload2,
    ensures
        checksum_spec(command, session_id, reply_id, payload1)
            == checksum_spec(command, session_id, reply_id, payload2),
{
}

/// `verify` accepts exactly the checksum that `calculate` produces and
/// rejects that checksum plus one: a 16-bit value never equals itself
/// plus one (with wraparound).
pub proof fn lemma_verify_exact(command: u16, session_id: u16, reply_id: u16, payload: Seq<u8>)
    ensures
        vstd::wrapping::u16_specs::wrapping_add(
            checksum_spec(command, session_id, reply_id, payload),
            1,
        ) != checksum_spec(command, session_id, reply_id, payload),
{
}

} // verus!
