//! Device information structures and their errors.

use vstd::prelude::*;

verus! {

/// Device information.
#[derive(Debug, Clone, PartialEq, Eq)]
pub struct DeviceInfo {
    /// Device serial number.
    pub serial_number: String,
    /// Firmware version.
    pub firmware_version: String,
    /// Device model.
    pub model: Option<String>,
    /// Platform name.
    pub platform: Option<String>,
    /// Device name (user-assigned).
    pub device_name: Option<String>,
    /// MAC address.
    pub mac_address: Option<String>,
}

impl DeviceInfo {
    /// Create device information from the serial number and firmware
    /// version; the optional fields start out unknown.
    pub fn new(serial_number: String, firmware_version: String) -> (info: DeviceInfo)
        ensures
            info.serial_number@ == serial_number@,
            info.firmware_version@ == firmware_version@,
            info.model is None,
            info.platform is None,
            info.device_name is None,
            info.mac_address is None,
    {
        DeviceInfo {
            serial_number,
            firmware_version,
            model: None,
            platform: None,
            device_name: None,
            mac_address: None,
        }
    }
}

/// Errors of the device-information types.
#[derive(Debug)]
pub enum Error {
    /// Validation error.
    Validation(String),
    /// Parse error.
    Parse(String),
}

} // verus!
