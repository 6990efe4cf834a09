//! Protocol constants: timeouts, event flags, data-type flags, and the
//! small closed enumerations with fixed wire codes.

use vstd::prelude::*;

verus! {

/// Default connection timeout (seconds).
pub const DEFAULT_TIMEOUT: u64 = 5;

/// Default read timeout (seconds).
pub const DEFAULT_READ_TIMEOUT: u64 = 5;

/// Maximum retries for network operations.
pub const MAX_RETRIES: usize = 3;

/// Real-time event flag: attendance log event.
pub const EF_ATTLOG: u32 = 1;

/// Real-time event flag: fingerprint pressed.
pub const EF_FINGER: u32 = 1 << 1;

/// Real-time event flag: user enrolled.
pub const EF_ENROLLUSER: u32 = 1 << 2;

/// Real-time event flag: fingerprint enrolled.
pub const EF_ENROLLFINGER: u32 = 1 << 3;

/// Real-time event flag: button pressed.
pub const EF_BUTTON: u32 = 1 << 4;

/// Real-time event flag: door unlocked.
pub const EF_UNLOCK: u32 = 1 << 5;

/// Real-time event flag: verification event.
pub const EF_VERIFY: u32 = 1 << 7;

/// Real-time event flag: fingerprint minutiae captured.
pub const EF_FPFTR: u32 = 1 << 8;

/// Real-time event flag: alarm signal.
pub const EF_ALARM: u32 = 1 << 9;

/// Data type flag: attendance log.
pub const FCT_ATTLOG: u8 = 1;

/// Data type flag: fingerprint template.
pub const FCT_FINGERTMP: u8 = 2;

/// Data type flag: operation log.
pub const FCT_OPLOG: u8 = 4;

/// Data type flag: user record.
pub const FCT_USER: u8 = 5;

/// Data type flag: SMS.
pub const FCT_SMS: u8 = 6;

/// Data type flag: user data.
pub const FCT_UDATA: u8 = 7;

/// Data type flag: work code.
pub const FCT_WORKCODE: u8 = 8;

/// Verification modes.
#[derive(Debug, Clone, Copy, PartialEq, Eq, Structural)]
pub enum VerifyMode {
    Password,
    Fingerprint,
    Card,
    Face,
}

/// The wire code of each verification mode.
pub open spec fn verify_mode_code_spec(m: VerifyMode) -> u8 {
    match m {
        VerifyMode::Password => 0,
        VerifyMode::Fingerprint => 1,
        VerifyMode::Card => 3,
        VerifyMode::Face => 15,
    }
}

impl VerifyMode {
    /// The 8-bit code this mode is sent as on the wire.
    pub fn code(self) -> (code: u8)
        ensures
            code == verify_mode_code_spec(self),
    {
        match self {
            VerifyMode::Password => 0,
            VerifyMode::Fingerprint => 1,
            VerifyMode::Card => 3,
            VerifyMode::Face => 15,
        }
    }
}

/// Punch types.
#[derive(Debug, Clone, Copy, PartialEq, Eq, Structural)]
pub enum PunchType {
    CheckIn,
    CheckOut,
    OvertimeIn,
    OvertimeOut,
}

/// The wire code of each punch type.
pub open spec fn punch_type_code_spec(p: PunchType) -> u8 {
    match p {
        PunchType::CheckIn => 0,
        PunchType::CheckOut => 1,
        PunchType::OvertimeIn => 2,
        PunchType::OvertimeOut => 3,
    }
}

impl PunchType {
    /// The 8-bit code this punch type is sent as on the wire.
    pub fn code(self) -> (code: u8)
        ensures
            code == punch_type_code_spec(self),
    {
        match self {
            PunchType::CheckIn => 0,
            PunchType::CheckOut => 1,
            PunchType::OvertimeIn => 2,
            PunchType::OvertimeOut => 3,
        }
    }
}

} // verus!
