//! The connection handshake decisions and the device-level error type.
//!
//! The handshake is a small state machine over decoded response packets:
//! the caller sends the connect request, hands each decoded response to
//! the matching decision function here, and performs the action it
//! returns (adopt the session id, send the returned authentication
//! packet, or fail). The I/O around these decisions lives with the
//! caller; every decision itself is a pure function of the response.

use vstd::prelude::*;

use crate::auth;
use crate::auth::commkey_spec;
use crate::auth::DEFAULT_TICKS;
use crate::command::Command;
use crate::packet::Packet;
use crate::session::next_counter_spec;
use crate::session::Session;

verus! {

/// Device-level errors.
#[derive(Debug)]
pub enum Error {
    /// Core protocol error.
    Core(crate::error::Error),
    /// Transport error.
    Transport(crate::transport::Error),
    /// Type error.
    Types(crate::types::Error),
    /// Device not connected.
    NotConnected,
    /// Operation not supported.
    NotSupported(String),
    /// Invalid response from the device.
    InvalidResponse(String),
}

/// What the connect response asks for next.
pub enum ConnectStep {
    /// A success acknowledgement: adopt its session id, the handshake is
    /// complete and no authentication is required.
    Established { session_id: u16 },
    /// An unauthorized acknowledgement: send the returned authentication
    /// request, built on the session id the response carried.
    Challenge { auth: Packet },
    /// An explicit error acknowledgement: the device refused the
    /// connection.
    Refused,
    /// Any other response is unexpected; it carries the received command.
    Unexpected { command: Command },
}

/// What the authentication response decides.
pub enum AuthStep {
    /// A success acknowledgement: adopt its session id, the handshake is
    /// complete.
    Established { session_id: u16 },
    /// An explicit error acknowledgement: authentication failed, the
    /// password was not accepted.
    Denied,
    /// Any other response is unexpected; it carries the received command.
    Unexpected { command: Command },
}

/// The connect request that opens every handshake: session id 0, reply
/// id 0, no payload.
pub fn connect_request() -> (p: Packet)
    ensures
        p.command == Command::Connect,
        p.session_id == 0,
        p.reply_id == 0,
        p.payload@ == Seq::<u8>::empty(),
{
    Packet::new(Command::Connect, 0, 0)
}

/// Decide on the response to the initial connect request. A success
/// acknowledgement completes the handshake with the response's session
/// id; an unauthorized acknowledgement yields the authentication request
/// to send, carrying the key derived from the password, the session id of
/// that very response, and the default ticks constant; an explicit error
/// acknowledgement is a refusal; anything else is unexpected.
pub fn handle_connect_response(response: &Packet, password: u32) -> (step: ConnectStep)
    ensures
        response.command == Command::AckOk ==> step == (ConnectStep::Established {
            session_id: response.session_id,
        }),
        response.command == Command::AckUnauth ==> {
            &&& step matches ConnectStep::Challenge { auth }
            &&& auth.command == Command::Auth
            &&& auth.session_id == response.session_id
            &&& auth.reply_id == 0
            &&& auth.payload@ == commkey_spec(password, response.session_id, DEFAULT_TICKS)
        },
        response.command == Command::AckError ==> step == ConnectStep::Refused,
        response.command != Command::AckOk && response.command != Command::AckUnauth
            && response.command != Command::AckError ==> step == (ConnectStep::Unexpected {
            command: response.command,
        }),
{
    match response.command {
        Command::AckOk => ConnectStep::Established { session_id: response.session_id },
        Command::AckUnauth => {
            let auth_key = auth::make_commkey(password, response.session_id, DEFAULT_TICKS);
            let auth = Packet::with_payload(Command::Auth, response.session_id, 0, auth_key);
            ConnectStep::Challenge { auth }
        },
        Command::AckError => ConnectStep::Refused,
        c => ConnectStep::Unexpected { command: c },
    }
}

/// Decide on the response to the authentication request. A success
/// acknowledgement completes the handshake with the response's session
/// id; an explicit error acknowledgement means the password was wrong;
/// anything else is unexpected.
pub fn handle_auth_response(response: &Packet) -> (step: AuthStep)
    ensures
        response.command == Command::AckOk ==> step == (AuthStep::Established {
            session_id: response.session_id,
        }),
        response.command == Command::AckError ==> step == AuthStep::Denied,
        response.command != Command::AckOk && response.command != Command::AckError ==> step
            == (AuthStep::Unexpected { command: response.command }),
{
    match response.command {
        Command::AckOk => AuthStep::Established { session_id: response.session_id },
        Command::AckError => AuthStep::Denied,
        c => AuthStep::Unexpected { command: c },
    }
}

/// Build the next command packet of an established session: it carries
/// the session's id and consumes one reply id from its counter.
pub fn build_command_packet(session: &mut Session, command: Command, payload: Vec<u8>) -> (p: Packet)
    ensures
        p.command == command,
        p.session_id == old(session).session_id,
        p.reply_id == old(session).reply_counter,
        p.payload@ == payload@,
        final(session).reply_counter == next_counter_spec(old(session).reply_counter),
        final(session).session_id == old(session).session_id,
        final(session).state == old(session).state,
{
    let session_id = session.session_id();
    let reply_id = session.next_reply_id();
    Packet::with_payload(command, session_id, reply_id, payload)
}

} // verus!
