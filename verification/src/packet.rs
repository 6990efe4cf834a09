//! The protocol packet and its wire codec.
//!
//! Wire layout, all fields little-endian 16-bit:
//! `[command:2][checksum:2][session_id:2][reply_id:2][payload:N]`.
//! The checksum written on encode is always freshly computed from the
//! packet's own fields; on decode it is recomputed over the resolved
//! fields and compared with the one received.

use vstd::prelude::*;

use crate::checksum;
use crate::checksum::byte_hi;
use crate::checksum::byte_lo;
use crate::checksum::checksum_spec;
use crate::command::code_spec;
use crate::command::from_code_spec;
use crate::command::is_error_spec;
use crate::command::is_response_spec;
use crate::command::is_success_spec;
use crate::command::lemma_code_roundtrip;
use crate::command::Command;
use crate::error::Error;

verus! {

/// Packet header size in bytes.
pub const HEADER_SIZE: usize = 8;

/// Maximum payload size: the maximum frame size less the header.
pub const MAX_PAYLOAD_SIZE: usize = 65535 - 8;

/// The 16-bit value stored little-endian at offset `i` of a byte sequence.
pub open spec fn word16(s: Seq<u8>, i: int) -> u16 {
    (s[i] as int + 256 * (s[i + 1] as int)) as u16
}

/// A protocol packet: a command, the session and reply ids, and the
/// command-specific payload.
#[derive(Debug, Clone, PartialEq, Eq)]
pub struct Packet {
    /// Command code.
    pub command: Command,
    /// Session identifier (assigned by the device on connect).
    pub session_id: u16,
    /// Reply number (increments per command in a session).
    pub reply_id: u16,
    /// Packet payload (command-specific data).
    pub payload: Vec<u8>,
}

/// The encoded form of a packet with the given raw command code: the
/// 8-byte little-endian header carrying the freshly computed checksum,
/// then the payload verbatim.
pub open spec fn packet_bytes(code: u16, session_id: u16, reply_id: u16, payload: Seq<u8>) -> Seq<u8> {
    let cs = checksum_spec(code, session_id, reply_id, payload);
    seq![
        byte_lo(code),
        byte_hi(code),
        byte_lo(cs),
        byte_hi(cs),
        byte_lo(session_id),
        byte_hi(session_id),
        byte_lo(reply_id),
        byte_hi(reply_id),
    ] + payload
}

/// A byte buffer decodes to a packet exactly when it is at least 8 bytes
/// long, its command code is in the closed command set, and the checksum
/// it carries matches the one recomputed over its own fields.
pub open spec fn decode_ok(buf: Seq<u8>) -> bool {
    &&& buf.len() >= 8
    &&& from_code_spec(word16(buf, 0)) is Some
    &&& word16(buf, 2) == checksum_spec(word16(buf, 0), word16(buf, 4), word16(buf, 6), buf.skip(8))
}

/// The error decoding a byte buffer fails with, checked in order: a
/// too-short buffer, then an unknown command code, then a checksum
/// mismatch.
pub open spec fn decode_err_spec(buf: Seq<u8>) -> Error {
    if buf.len() < 8 {
        Error::PacketTooShort { expected: 8, actual: buf.len() as usize }
    } else if from_code_spec(word16(buf, 0)) is None {
        Error::UnknownCommand(word16(buf, 0))
    } else {
        Error::ChecksumMismatch {
            expected: checksum_spec(word16(buf, 0), word16(buf, 4), word16(buf, 6), buf.skip(8)),
            received: word16(buf, 2),
        }
    }
}

/// Read the little-endian 16-bit value at offset `i`.
fn read_u16_le(buf: &[u8], i: usize) -> (r: u16)
    requires
        i + 1 < buf@.len(),
    ensures
        r == word16(buf@, i as int),
{
    buf[i] as u16 + 256 * (buf[i + 1] as u16)
}

/// Append the little-endian bytes of a 16-bit value.
fn push_u16_le(buf: &mut Vec<u8>, x: u16)
    ensures
        final(buf)@ == old(buf)@ + seq![byte_lo(x), byte_hi(x)],
{
    buf.push((x % 256) as u8);
    buf.push((x / 256) as u8);
    assert(buf@ =~= old(buf)@ + seq![byte_lo(x), byte_hi(x)]);
}

impl Packet {
    /// Create a new packet with an empty payload.
    pub fn new(command: Command, session_id: u16, reply_id: u16) -> (p: Packet)
        ensures
            p.command == command,
            p.session_id == session_id,
            p.reply_id == reply_id,
            p.payload@ == Seq::<u8>::empty(),
    {
        Packet { command, session_id, reply_id, payload: Vec::new() }
    }

    /// Create a packet with a payload.
    pub fn with_payload(command: Command, session_id: u16, reply_id: u16, payload: Vec<u8>) -> (p: Packet)
        ensures
            p.command == command,
            p.session_id == session_id,
            p.reply_id == reply_id,
            p.payload@ == payload@,
    {
        Packet { command, session_id, reply_id, payload }
    }

    /// Calculate the checksum over this packet's own fields.
    pub fn checksum(&self) -> (cs: u16)
        ensures
            cs == checksum_spec(code_spec(self.command), self.session_id, self.reply_id, self.payload@),
    {
        checksum::calculate(
            self.command.to_code(),
            self.session_id,
            self.reply_id,
            self.payload.as_slice(),
        )
    }

    /// Encode the packet to its wire bytes: the 8-byte little-endian
    /// header with a freshly computed checksum, then the payload verbatim.
    pub fn encode(&self) -> (r: Vec<u8>)
        ensures
            r@ == packet_bytes(code_spec(self.command), self.session_id, self.reply_id, self.payload@),
            r@.len() == 8 + self.payload@.len(),
    {
        let code = self.command.to_code();
        let cs = self.checksum();

        let mut buf: Vec<u8> = Vec::new();
        push_u16_le(&mut buf, code);
        push_u16_le(&mut buf, cs);
        push_u16_le(&mut buf, self.session_id);
        push_u16_le(&mut buf, self.reply_id);

        let ghost header = buf@;
        let mut j: usize = 0;
        while j < self.payload.len()
            invariant
                j <= self.payload@.len(),
                buf@ == header + self.payload@.take(j as int),
            decreases self.payload@.len() - j,
        {
            buf.push(self.payload[j]);
            assert(self.payload@.take(j + 1) =~= self.payload@.take(j as int).push(
                self.payload@[j as int],
            ));
            j = j + 1;
        }
        assert(buf@ =~= packet_bytes(code_spec(self.command), self.session_id, self.reply_id, self.payload@));
        buf
    }

    /// Decode a packet from wire bytes.
    ///
    /// Fails with `PacketTooShort` on fewer than 8 bytes, `UnknownCommand`
    /// on a code outside the closed command set, and `ChecksumMismatch`
    /// when the received checksum differs from the one recomputed over the
    /// resolved fields. It never panics on malformed input.
    pub fn decode(buf: &[u8]) -> (r: Result<Packet, Error>)
        ensures
            r is Ok <==> decode_ok(buf@),
            r matches Ok(p) ==> {
                &&& Some(p.command) == from_code_spec(word16(buf@, 0))
                &&& p.session_id == word16(buf@, 4)
                &&& p.reply_id == word16(buf@, 6)
                &&& p.payload@ == buf@.skip(8)
            },
            r matches Err(e) ==> e == decode_err_spec(buf@),
    {
        if buf.len() < 8 {
            return Err(Error::PacketTooShort { expected: 8, actual: buf.len() });
        }

        let command_raw = read_u16_le(buf, 0);
        let checksum_received = read_u16_le(buf, 2);
        let session_id = read_u16_le(buf, 4);
        let reply_id = read_u16_le(buf, 6);

        let command = match Command::from_code(command_raw) {
            Ok(c) => c,
            Err(e) => {
                return Err(e);
            },
        };

        // The remaining bytes are the payload.
        let mut payload: Vec<u8> = Vec::new();
        let mut i: usize = 8;
        while i < buf.len()
            invariant
                8 <= i <= buf@.len(),
                payload@ == buf@.subrange(8, i as int),
            decreases buf@.len() - i,
        {
            payload.push(buf[i]);
            assert(buf@.subrange(8, i + 1) =~= buf@.subrange(8, i as int).push(buf@[i as int]));
            i = i + 1;
        }
        assert(payload@ =~= buf@.skip(8));

        let checksum_calculated = checksum::calculate(command_raw, session_id, reply_id, payload.as_slice());
        if checksum_calculated != checksum_received {
            return Err(Error::ChecksumMismatch {
                expected: checksum_calculated,
                received: checksum_received,
            });
        }

        Ok(Packet { command, session_id, reply_id, payload })
    }

    /// Check if this is a response packet (an acknowledgement).
    pub fn is_response(&self) -> (r: bool)
        ensures
            r == is_response_spec(self.command),
    {
        self.command.is_response()
    }

    /// Check if this is a success response.
    pub fn is_success(&self) -> (r: bool)
        ensures
            r == is_success_spec(self.command),
    {
        self.command.is_success()
    }

    /// Check if this is an error response.
    pub fn is_error(&self) -> (r: bool)
        ensures
            r == is_error_spec(self.command),
    {
        self.command.is_error()
    }

    /// Get the total encoded packet size.
    pub fn size(&self) -> (r: usize)
        requires
            self.payload@.len() <= MAX_PAYLOAD_SIZE,
        ensures
            r == 8 + self.payload@.len(),
    {
        HEADER_SIZE + self.payload.len()
    }
}

/// Every field of an encoded packet reads back as it was written: the
/// encoded bytes are long enough, their command code resolves to the
/// packet's command, the stored checksum matches the one recomputed over
/// the stored fields, and session id, reply id and payload are recovered
/// exactly. Together with the contract of `decode`, decoding an encoded
/// packet yields the original command, session id, reply id and payload.
pub proof fn lemma_packet_roundtrip(command: Command, session_id: u16, reply_id: u16, payload: Seq<u8>)
    ensures
        ({
            let bytes = packet_bytes(code_spec(command), session_id, reply_id, payload);
            &&& bytes.len() == 8 + payload.len()
            &&& decode_ok(bytes)
            &&& from_code_spec(word16(bytes, 0)) == Some(command)
            &&& word16(bytes, 4) == session_id
            &&& word16(bytes, 6) == reply_id
            &&& bytes.skip(8) == payload
        }),
{
    let code = code_spec(command);
    let bytes = packet_bytes(code, session_id, reply_id, payload);
    assert(bytes.skip(8) =~= payload);
    lemma_code_roundtrip(command);
    lemma_word16_bytes(bytes, 0, code);
    lemma_word16_bytes(bytes, 4, session_id);
    lemma_word16_bytes(bytes, 6, reply_id);
    lemma_word16_bytes(bytes, 2, checksum_spec(code, session_id, reply_id, payload));
}

/// A 16-bit value written little-endian at offset `i` reads back as
/// itself.
proof fn lemma_word16_bytes(s: Seq<u8>, i: int, x: u16)
    requires
        0 <= i,
        i + 1 < s.len(),
        s[i] == byte_lo(x),
        s[i + 1] == byte_hi(x),
    ensures
        word16(s, i) == x,
{
    assert(x % 256 + 256 * (x / 256) == x) by {
        vstd::arithmetic::div_mod::lemma_fundamental_div_mod(x as int, 256);
    }
}

/// Corrupting either checksum byte of an encoded packet is detected:
/// the corrupted buffer still parses as the same command, but its stored
/// checksum no longer matches the recomputed one, so decoding fails with
/// a checksum mismatch.
pub proof fn lemma_corrupt_checksum_detected(
    command: Command,
    session_id: u16,
    reply_id: u16,
    payload: Seq<u8>,
    i: int,
    b: u8,
)
    requires
        2 <= i < 4,
        b != packet_bytes(code_spec(command), session_id, reply_id, payload)[i],
    ensures
        ({
            let corrupted = packet_bytes(code_spec(command), session_id, reply_id, payload).update(i, b);
            &&& !decode_ok(corrupted)
            &&& corrupted.len() >= 8
            &&& from_code_spec(word16(corrupted, 0)) == Some(command)
            &&& decode_err_spec(corrupted) matches Error::ChecksumMismatch { expected, received }
                && expected != received
        }),
{
    let code = code_spec(command);
    let bytes = packet_bytes(code, session_id, reply_id, payload);
    let corrupted = bytes.update(i, b);
    let cs = checksum_spec(code, session_id, reply_id, payload);

    lemma_packet_roundtrip(command, session_id, reply_id, payload);
    assert(corrupted.skip(8) =~= bytes.skip(8));
    assert(word16(corrupted, 0) == word16(bytes, 0));
    assert(word16(corrupted, 4) == word16(bytes, 4));
    assert(word16(corrupted, 6) == word16(bytes, 6));

    // The recomputed checksum is unchanged, but the stored one is not:
    // a little-endian word differs when either of its bytes does.
    assert(word16(bytes, 2) == cs);
    assert(word16(corrupted, 2) != word16(bytes, 2));
}

} // verus!
