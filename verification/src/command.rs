//! The closed set of protocol command and response codes, with the
//! bidirectional numeric mapping and the classification predicates.

use vstd::prelude::*;

use crate::error::Error;

verus! {

/// Protocol command codes: requests (PC to device) and acknowledgement
/// responses (device to PC). Codes outside this closed set are rejected
/// by `from_code`, never silently accepted.
#[derive(Debug, Copy, Clone, PartialEq, Eq, Hash, Structural)]
pub enum Command {
    Connect,
    Exit,
    EnableDevice,
    DisableDevice,
    Restart,
    PowerOff,
    Sleep,
    Resume,
    CaptureFinger,
    TestTemp,
    CaptureImage,
    RefreshData,
    RefreshOption,
    TestVoice,
    GetVersion,
    ChangeSpeed,
    Auth,
    PrepareData,
    Data,
    FreeData,
    DbRrq,
    UserWrq,
    UserTempRrq,
    UserTempWrq,
    OptionsRrq,
    OptionsWrq,
    AttLogRrq,
    ClearData,
    ClearAttLog,
    DeleteUser,
    DeleteUserTemp,
    ClearAdmin,
    UserGrpRrq,
    UserGrpWrq,
    UserTzRrq,
    UserTzWrq,
    GrpTzRrq,
    GrpTzWrq,
    TzRrq,
    TzWrq,
    UlgRrq,
    UlgWrq,
    Unlock,
    ClearAcc,
    ClearOpLog,
    OpLogRrq,
    GetFreeSizes,
    EnableClock,
    StartVerify,
    StartEnroll,
    CancelCapture,
    StateRrq,
    WriteLcd,
    ClearLcd,
    GetPinWidth,
    SmsWrq,
    SmsRrq,
    DeleteSms,
    UDataWrq,
    DeleteUData,
    DoorStateRrq,
    WriteMifare,
    EmptyMifare,
    GetTime,
    SetTime,
    RegEvent,
    AckOk,
    AckError,
    AckData,
    AckRetry,
    AckRepeat,
    AckUnauth,
    AckUnknown,
    AckErrorCmd,
    AckErrorInit,
    AckErrorData,
}

/// The 16-bit wire code of each command.
pub open spec fn code_spec(c: Command) -> u16 {
    match c {
        Command::Connect => 1000,
        Command::Exit => 1001,
        Command::EnableDevice => 1002,
        Command::DisableDevice => 1003,
        Command::Restart => 1004,
        Command::PowerOff => 1005,
        Command::Sleep => 1006,
        Command::Resume => 1007,
        Command::CaptureFinger => 1009,
        Command::TestTemp => 1011,
        Command::CaptureImage => 1012,
        Command::RefreshData => 1013,
        Command::RefreshOption => 1014,
        Command::TestVoice => 1017,
        Command::GetVersion => 1100,
        Command::ChangeSpeed => 1101,
        Command::Auth => 1102,
        Command::PrepareData => 1500,
        Command::Data => 1501,
        Command::FreeData => 1502,
        Command::DbRrq => 7,
        Command::UserWrq => 8,
        Command::UserTempRrq => 9,
        Command::UserTempWrq => 10,
        Command::OptionsRrq => 11,
        Command::OptionsWrq => 12,
        Command::AttLogRrq => 13,
        Command::ClearData => 14,
        Command::ClearAttLog => 15,
        Command::DeleteUser => 18,
        Command::DeleteUserTemp => 19,
        Command::ClearAdmin => 20,
        Command::UserGrpRrq => 21,
        Command::UserGrpWrq => 22,
        Command::UserTzRrq => 23,
        Command::UserTzWrq => 24,
        Command::GrpTzRrq => 25,
        Command::GrpTzWrq => 26,
        Command::TzRrq => 27,
        Command::TzWrq => 28,
        Command::UlgRrq => 29,
        Command::UlgWrq => 30,
        Command::Unlock => 31,
        Command::ClearAcc => 32,
        Command::ClearOpLog => 33,
        Command::OpLogRrq => 34,
        Command::GetFreeSizes => 50,
        Command::EnableClock => 57,
        Command::StartVerify => 60,
        Command::StartEnroll => 61,
        Command::CancelCapture => 62,
        Command::StateRrq => 64,
        Command::WriteLcd => 66,
        Command::ClearLcd => 67,
        Command::GetPinWidth => 69,
        Command::SmsWrq => 70,
        Command::SmsRrq => 71,
        Command::DeleteSms => 72,
        Command::UDataWrq => 73,
        Command::DeleteUData => 74,
        Command::DoorStateRrq => 75,
        Command::WriteMifare => 76,
        Command::EmptyMifare => 78,
        Command::GetTime => 201,
        Command::SetTime => 202,
        Command::RegEvent => 500,
        Command::AckOk => 2000,
        Command::AckError => 2001,
        Command::AckData => 2002,
        Command::AckRetry => 2003,
        Command::AckRepeat => 2004,
        Command::AckUnauth => 2005,
        Command::AckUnknown => 0xFFFF,
        Command::AckErrorCmd => 0xFFFD,
        Command::AckErrorInit => 0xFFFC,
        Command::AckErrorData => 0xFFFB,
    }
}

/// The command a 16-bit wire code stands for, if any.
pub open spec fn from_code_spec(value: u16) -> Option<Command> {
    match value {
        1000 => Some(Command::Connect),
        1001 => Some(Command::Exit),
        1002 => Some(Command::EnableDevice),
        1003 => Some(Command::DisableDevice),
        1004 => Some(Command::Restart),
        1005 => Some(Command::PowerOff),
        1006 => Some(Command::Sleep),
        1007 => Some(Command::Resume),
        1009 => Some(Command::CaptureFinger),
        1011 => Some(Command::TestTemp),
        1012 => Some(Command::CaptureImage),
        1013 => Some(Command::RefreshData),
        1014 => Some(Command::RefreshOption),
        1017 => Some(Command::TestVoice),
        1100 => Some(Command::GetVersion),
        1101 => Some(Command::ChangeSpeed),
        1102 => Some(Command::Auth),
        1500 => Some(Command::PrepareData),
        1501 => Some(Command::Data),
        1502 => Some(Command::FreeData),
        7 => Some(Command::DbRrq),
        8 => Some(Command::UserWrq),
        9 => Some(Command::UserTempRrq),
        10 => Some(Command::UserTempWrq),
        11 => Some(Command::OptionsRrq),
        12 => Some(Command::OptionsWrq),
        13 => Some(Command::AttLogRrq),
        14 => Some(Command::ClearData),
        15 => Some(Command::ClearAttLog),
        18 => Some(Command::DeleteUser),
        19 => Some(Command::DeleteUserTemp),
        20 => Some(Command::ClearAdmin),
        21 => Some(Command::UserGrpRrq),
        22 => Some(Command::UserGrpWrq),
        23 => Some(Command::UserTzRrq),
        24 => Some(Command::UserTzWrq),
        25 => Some(Command::GrpTzRrq),
        26 => Some(Command::GrpTzWrq),
        27 => Some(Command::TzRrq),
        28 => Some(Command::TzWrq),
        29 => Some(Command::UlgRrq),
        30 => Some(Command::UlgWrq),
        31 => Some(Command::Unlock),
        32 => Some(Command::ClearAcc),
        33 => Some(Command::ClearOpLog),
        34 => Some(Command::OpLogRrq),
        50 => Some(Command::GetFreeSizes),
        57 => Some(Command::EnableClock),
        60 => Some(Command::StartVerify),
        61 => Some(Command::StartEnroll),
        62 => Some(Command::CancelCapture),
        64 => Some(Command::StateRrq),
        66 => Some(Command::WriteLcd),
        67 => Some(Command::ClearLcd),
        69 => Some(Command::GetPinWidth),
        70 => Some(Command::SmsWrq),
        71 => Some(Command::SmsRrq),
        72 => Some(Command::DeleteSms),
        73 => Some(Command::UDataWrq),
        74 => Some(Command::DeleteUData),
        75 => Some(Command::DoorStateRrq),
        76 => Some(Command::WriteMifare),
        78 => Some(Command::EmptyMifare),
        201 => Some(Command::GetTime),
        202 => Some(Command::SetTime),
        500 => Some(Command::RegEvent),
        2000 => Some(Command::AckOk),
        2001 => Some(Command::AckError),
        2002 => Some(Command::AckData),
        2003 => Some(Command::AckRetry),
        2004 => Some(Command::AckRepeat),
        2005 => Some(Command::AckUnauth),
        0xFFFF => Some(Command::AckUnknown),
        0xFFFD => Some(Command::AckErrorCmd),
        0xFFFC => Some(Command::AckErrorInit),
        0xFFFB => Some(Command::AckErrorData),
        _ => None,
    }
}

/// The classification of a command as a response (device to PC).
pub open spec fn is_response_spec(c: Command) -> bool {
    ||| c == Command::AckOk
    ||| c == Command::AckError
    ||| c == Command::AckData
    ||| c == Command::AckRetry
    ||| c == Command::AckRepeat
    ||| c == Command::AckUnauth
    ||| c == Command::AckUnknown
    ||| c == Command::AckErrorCmd
    ||| c == Command::AckErrorInit
    ||| c == Command::AckErrorData
}

/// The classification of a response as a success acknowledgement.
pub open spec fn is_success_spec(c: Command) -> bool {
    ||| c == Command::AckOk
    ||| c == Command::AckData
}

/// The classification of a response as an error acknowledgement.
pub open spec fn is_error_spec(c: Command) -> bool {
    ||| c == Command::AckError
    ||| c == Command::AckErrorCmd
    ||| c == Command::AckErrorInit
    ||| c == Command::AckErrorData
}

/// The canonical display label of a command; commands without a
/// documented label share a default label.
pub open spec fn name_spec(c: Command) -> Seq<char> {
    match c {
        Command::Connect => "CMD_CONNECT"@,
        Command::Exit => "CMD_EXIT"@,
        Command::EnableDevice => "CMD_ENABLEDEVICE"@,
        Command::DisableDevice => "CMD_DISABLEDEVICE"@,
        Command::Restart => "CMD_RESTART"@,
        Command::PowerOff => "CMD_POWEROFF"@,
        Command::Sleep => "CMD_SLEEP"@,
        Command::Resume => "CMD_RESUME"@,
        Command::CaptureFinger => "CMD_CAPTUREFINGER"@,
        Command::TestTemp => "CMD_TEST_TEMP"@,
        Command::CaptureImage => "CMD_CAPTUREIMAGE"@,
        Command::RefreshData => "CMD_REFRESHDATA"@,
        Command::RefreshOption => "CMD_REFRESHOPTION"@,
        Command::TestVoice => "CMD_TESTVOICE"@,
        Command::GetVersion => "CMD_GET_VERSION"@,
        Command::ChangeSpeed => "CMD_CHANGE_SPEED"@,
        Command::Auth => "CMD_AUTH"@,
        Command::PrepareData => "CMD_PREPARE_DATA"@,
        Command::Data => "CMD_DATA"@,
        Command::FreeData => "CMD_FREE_DATA"@,
        Command::DbRrq => "CMD_DB_RRQ"@,
        Command::UserWrq => "CMD_USER_WRQ"@,
        Command::UserTempRrq => "CMD_USERTEMP_RRQ"@,
        Command::UserTempWrq => "CMD_USERTEMP_WRQ"@,
        Command::OptionsRrq => "CMD_OPTIONS_RRQ"@,
        Command::OptionsWrq => "CMD_OPTIONS_WRQ"@,
        Command::AttLogRrq => "CMD_ATTLOG_RRQ"@,
        Command::ClearData => "CMD_CLEAR_DATA"@,
        Command::ClearAttLog => "CMD_CLEAR_ATTLOG"@,
        Command::DeleteUser => "CMD_DELETE_USER"@,
        Command::DeleteUserTemp => "CMD_DELETE_USERTEMP"@,
        Command::ClearAdmin => "CMD_CLEAR_ADMIN"@,
        Command::GetTime => "CMD_GET_TIME"@,
        Command::SetTime => "CMD_SET_TIME"@,
        Command::RegEvent => "CMD_REG_EVENT"@,
        Command::AckOk => "CMD_ACK_OK"@,
        Command::AckError => "CMD_ACK_ERROR"@,
        Command::AckData => "CMD_ACK_DATA"@,
        Command::AckUnauth => "CMD_ACK_UNAUTH"@,
        _ => "CMD_UNKNOWN"@,
    }
}

impl Command {
    /// The 16-bit code this command is sent as on the wire.
    pub fn to_code(self) -> (code: u16)
        ensures
            code == code_spec(self),
    {
        match self {
            Command::Connect => 1000,
            Command::Exit => 1001,
            Command::EnableDevice => 1002,
            Command::DisableDevice => 1003,
            Command::Restart => 1004,
            Command::PowerOff => 1005,
            Command::Sleep => 1006,
            Command::Resume => 1007,
            Command::CaptureFinger => 1009,
            Command::TestTemp => 1011,
            Command::CaptureImage => 1012,
            Command::RefreshData => 1013,
            Command::RefreshOption => 1014,
            Command::TestVoice => 1017,
            Command::GetVersion => 1100,
            Command::ChangeSpeed => 1101,
            Command::Auth => 1102,
            Command::PrepareData => 1500,
            Command::Data => 1501,
            Command::FreeData => 1502,
            Command::DbRrq => 7,
            Command::UserWrq => 8,
            Command::UserTempRrq => 9,
            Command::UserTempWrq => 10,
            Command::OptionsRrq => 11,
            Command::OptionsWrq => 12,
            Command::AttLogRrq => 13,
            Command::ClearData => 14,
            Command::ClearAttLog => 15,
            Command::DeleteUser => 18,
            Command::DeleteUserTemp => 19,
            Command::ClearAdmin => 20,
            Command::UserGrpRrq => 21,
            Command::UserGrpWrq => 22,
            Command::UserTzRrq => 23,
            Command::UserTzWrq => 24,
            Command::GrpTzRrq => 25,
            Command::GrpTzWrq => 26,
            Command::TzRrq => 27,
            Command::TzWrq => 28,
            Command::UlgRrq => 29,
            Command::UlgWrq => 30,
            Command::Unlock => 31,
            Command::ClearAcc => 32,
            Command::ClearOpLog => 33,
            Command::OpLogRrq => 34,
            Command::GetFreeSizes => 50,
            Command::EnableClock => 57,
            Command::StartVerify => 60,
            Command::StartEnroll => 61,
            Command::CancelCapture => 62,
            Command::StateRrq => 64,
            Command::WriteLcd => 66,
            Command::ClearLcd => 67,
            Command::GetPinWidth => 69,
            Command::SmsWrq => 70,
            Command::SmsRrq => 71,
            Command::DeleteSms => 72,
            Command::UDataWrq => 73,
            Command::DeleteUData => 74,
            Command::DoorStateRrq => 75,
            Command::WriteMifare => 76,
            Command::EmptyMifare => 78,
            Command::GetTime => 201,
            Command::SetTime => 202,
            Command::RegEvent => 500,
            Command::AckOk => 2000,
            Command::AckError => 2001,
            Command::AckData => 2002,
            Command::AckRetry => 2003,
            Command::AckRepeat => 2004,
            Command::AckUnauth => 2005,
            Command::AckUnknown => 0xFFFF,
            Command::AckErrorCmd => 0xFFFD,
            Command::AckErrorInit => 0xFFFC,
            Command::AckErrorData => 0xFFFB,
        }
    }

    /// Resolve a 16-bit wire code to a command; a code outside the
    /// closed set is rejected with `UnknownCommand`.
    pub fn from_code(value: u16) -> (r: Result<Command, Error>)
        ensures
            r matches Ok(c) ==> from_code_spec(value) == Some(c) && code_spec(c) == value,
            r is Ok <==> from_code_spec(value) is Some,
            r matches Err(e) ==> e == Error::UnknownCommand(value),
    {
        match value {
            1000 => Ok(Command::Connect),
            1001 => Ok(Command::Exit),
            1002 => Ok(Command::EnableDevice),
            1003 => Ok(Command::DisableDevice),
            1004 => Ok(Command::Restart),
            1005 => Ok(Command::PowerOff),
            1006 => Ok(Command::Sleep),
            1007 => Ok(Command::Resume),
            1009 => Ok(Command::CaptureFinger),
            1011 => Ok(Command::TestTemp),
            1012 => Ok(Command::CaptureImage),
            1013 => Ok(Command::RefreshData),
            1014 => Ok(Command::RefreshOption),
            1017 => Ok(Command::TestVoice),
            1100 => Ok(Command::GetVersion),
            1101 => Ok(Command::ChangeSpeed),
            1102 => Ok(Command::Auth),
            1500 => Ok(Command::PrepareData),
            1501 => Ok(Command::Data),
            1502 => Ok(Command::FreeData),
            7 => Ok(Command::DbRrq),
            8 => Ok(Command::UserWrq),
            9 => Ok(Command::UserTempRrq),
            10 => Ok(Command::UserTempWrq),
            11 => Ok(Command::OptionsRrq),
            12 => Ok(Command::OptionsWrq),
            13 => Ok(Command::AttLogRrq),
            14 => Ok(Command::ClearData),
            15 => Ok(Command::ClearAttLog),
            18 => Ok(Command::DeleteUser),
            19 => Ok(Command::DeleteUserTemp),
            20 => Ok(Command::ClearAdmin),
            21 => Ok(Command::UserGrpRrq),
            22 => Ok(Command::UserGrpWrq),
            23 => Ok(Command::UserTzRrq),
            24 => Ok(Command::UserTzWrq),
            25 => Ok(Command::GrpTzRrq),
            26 => Ok(Command::GrpTzWrq),
            27 => Ok(Command::TzRrq),
            28 => Ok(Command::TzWrq),
            29 => Ok(Command::UlgRrq),
            30 => Ok(Command::UlgWrq),
            31 => Ok(Command::Unlock),
            32 => Ok(Command::ClearAcc),
            33 => Ok(Command::ClearOpLog),
            34 => Ok(Command::OpLogRrq),
            50 => Ok(Command::GetFreeSizes),
            57 => Ok(Command::EnableClock),
            60 => Ok(Command::StartVerify),
            61 => Ok(Command::StartEnroll),
            62 => Ok(Command::CancelCapture),
            64 => Ok(Command::StateRrq),
            66 => Ok(Command::WriteLcd),
            67 => Ok(Command::ClearLcd),
            69 => Ok(Command::GetPinWidth),
            70 => Ok(Command::SmsWrq),
            71 => Ok(Command::SmsRrq),
            72 => Ok(Command::DeleteSms),
            73 => Ok(Command::UDataWrq),
            74 => Ok(Command::DeleteUData),
            75 => Ok(Command::DoorStateRrq),
            76 => Ok(Command::WriteMifare),
            78 => Ok(Command::EmptyMifare),
            201 => Ok(Command::GetTime),
            202 => Ok(Command::SetTime),
            500 => Ok(Command::RegEvent),
            2000 => Ok(Command::AckOk),
            2001 => Ok(Command::AckError),
            2002 => Ok(Command::AckData),
            2003 => Ok(Command::AckRetry),
            2004 => Ok(Command::AckRepeat),
            2005 => Ok(Command::AckUnauth),
            0xFFFF => Ok(Command::AckUnknown),
            0xFFFD => Ok(Command::AckErrorCmd),
            0xFFFC => Ok(Command::AckErrorInit),
            0xFFFB => Ok(Command::AckErrorData),
            _ => Err(Error::UnknownCommand(value)),
        }
    }

    /// Check if this is a request command (from PC to device).
    pub fn is_request(self) -> (r: bool)
        ensures
            r == !is_response_spec(self),
    {
        !self.is_response()
    }

    /// Check if this is a response command (from device to PC).
    pub fn is_response(self) -> (r: bool)
        ensures
            r == is_response_spec(self),
    {
        match self {
            Command::AckOk => true,
            Command::AckError => true,
            Command::AckData => true,
            Command::AckRetry => true,
            Command::AckRepeat => true,
            Command::AckUnauth => true,
            Command::AckUnknown => true,
            Command::AckErrorCmd => true,
            Command::AckErrorInit => true,
            Command::AckErrorData => true,
            _ => false,
        }
    }

    /// Check if this is a success response.
    pub fn is_success(self) -> (r: bool)
        ensures
            r == is_success_spec(self),
    {
        match self {
            Command::AckOk => true,
            Command::AckData => true,
            _ => false,
        }
    }

    /// Check if this is an error response.
    pub fn is_error(self) -> (r: bool)
        ensures
            r == is_error_spec(self),
    {
        match self {
            Command::AckError => true,
            Command::AckErrorCmd => true,
            Command::AckErrorInit => true,
            Command::AckErrorData => true,
            _ => false,
        }
    }

    /// Get the command name.
    pub fn name(self) -> (r: &'static str)
        ensures
            r@ == name_spec(self),
    {
        match self {
            Command::Connect => "CMD_CONNECT",
            Command::Exit => "CMD_EXIT",
            Command::EnableDevice => "CMD_ENABLEDEVICE",
            Command::DisableDevice => "CMD_DISABLEDEVICE",
            Command::Restart => "CMD_RESTART",
            Command::PowerOff => "CMD_POWEROFF",
            Command::Sleep => "CMD_SLEEP",
            Command::Resume => "CMD_RESUME",
            Command::CaptureFinger => "CMD_CAPTUREFINGER",
            Command::TestTemp => "CMD_TEST_TEMP",
            Command::CaptureImage => "CMD_CAPTUREIMAGE",
            Command::RefreshData => "CMD_REFRESHDATA",
            Command::RefreshOption => "CMD_REFRESHOPTION",
            Command::TestVoice => "CMD_TESTVOICE",
            Command::GetVersion => "CMD_GET_VERSION",
            Command::ChangeSpeed => "CMD_CHANGE_SPEED",
            Command::Auth => "CMD_AUTH",
            Command::PrepareData => "CMD_PREPARE_DATA",
            Command::Data => "CMD_DATA",
            Command::FreeData => "CMD_FREE_DATA",
            Command::DbRrq => "CMD_DB_RRQ",
            Command::UserWrq => "CMD_USER_WRQ",
            Command::UserTempRrq => "CMD_USERTEMP_RRQ",
            Command::UserTempWrq => "CMD_USERTEMP_WRQ",
            Command::OptionsRrq => "CMD_OPTIONS_RRQ",
            Command::OptionsWrq => "CMD_OPTIONS_WRQ",
            Command::AttLogRrq => "CMD_ATTLOG_RRQ",
            Command::ClearData => "CMD_CLEAR_DATA",
            Command::ClearAttLog => "CMD_CLEAR_ATTLOG",
            Command::DeleteUser => "CMD_DELETE_USER",
            Command::DeleteUserTemp => "CMD_DELETE_USERTEMP",
            Command::ClearAdmin => "CMD_CLEAR_ADMIN",
            Command::GetTime => "CMD_GET_TIME",
            Command::SetTime => "CMD_SET_TIME",
            Command::RegEvent => "CMD_REG_EVENT",
            Command::AckOk => "CMD_ACK_OK",
            Command::AckError => "CMD_ACK_ERROR",
            Command::AckData => "CMD_ACK_DATA",
            Command::AckUnauth => "CMD_ACK_UNAUTH",
            _ => "CMD_UNKNOWN",
        }
    }
}

/// The numeric mapping round-trips: resolving the wire code of a command
/// yields that command again.
pub proof fn lemma_code_roundtrip(c: Command)
    ensures
        from_code_spec(code_spec(c)) == Some(c),
{
}

} // verus!
