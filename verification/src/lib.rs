//! Client-side implementation of the ZKTeco binary device-communication
//! protocol: wire packet format and checksum, challenge-response
//! authentication key derivation, session/reply-id state machine, TCP
//! wrapper framing, and the connect/authenticate handshake decisions.

use vstd::prelude::*;

pub mod auth;
pub mod checksum;
pub mod command;
pub mod constants;
pub mod device;
pub mod error;
pub mod packet;
pub mod session;
pub mod transport;
pub mod types;

pub use command::Command;
pub use packet::Packet;
pub use session::Session;
pub use session::SessionState;
pub use types::DeviceInfo;

verus! {

/// Protocol version information.
pub const PROTOCOL_VERSION: &'static str = "1.0";

/// Default device port.
pub const DEFAULT_PORT: u16 = 4370;

/// Maximum packet size (64KB).
pub const MAX_PACKET_SIZE: usize = 65535;

/// Packet header size in bytes.
pub const HEADER_SIZE: usize = 8;

} // verus!
