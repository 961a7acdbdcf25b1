//! Pure parts of the fan's sysfs interface: mode codes and error text.
//! Reading and writing the sysfs files is left to the caller.

use vstd::prelude::*;
use vstd::string::*;
use crate::text::join;

verus! {

/// Base directory of hwmon devices.
pub const HWMON_PATH: &'static str = "/sys/class/hwmon";

/// Fan control mode as the `pwm1_enable` file holds it.
#[derive(Debug, Clone, Copy, PartialEq, Eq, Structural)]
pub enum FanMode {
    /// Firmware control (`2`).
    Auto,
    /// Manual PWM control (`1`).
    Manual,
}

impl FanMode {
    /// The code written to `pwm1_enable` for this mode.
    pub fn as_sysfs_value(&self) -> (r: u8)
        ensures
            r == (match *self {
                FanMode::Auto => 2u8,
                FanMode::Manual => 1u8,
            }),
    {
        match self {
            FanMode::Auto => 2,
            FanMode::Manual => 1,
        }
    }

    /// The mode that a `pwm1_enable` code stands for.
    pub fn from_sysfs_value(value: u8) -> (r: Option<Self>)
        ensures
            r == (if value == 1 {
                Some(FanMode::Manual)
            } else if value == 2 {
                Some(FanMode::Auto)
            } else {
                None::<FanMode>
            }),
    {
        match value {
            1 => Some(FanMode::Manual),
            2 => Some(FanMode::Auto),
            _ => None,
        }
    }
}

/// Declares `std::io::Error` to Verus as an opaque type, carried in error values.
#[verifier::external_type_specification]
#[verifier::external_body]
pub struct ExIoError(std::io::Error);

/// Errors of the fan's sysfs interface.
#[derive(Debug)]
pub enum HwmonError {
    /// No matching device.
    DeviceNotFound(String),
    /// A sysfs read or write failed.
    IoError(std::io::Error),
    /// A sysfs file held something unexpected.
    ParseError(String),
    /// Not running as root.
    PermissionDenied,
    /// The device lacks a needed feature.
    UnsupportedDevice(String),
}

/// Relies on `io::Error`'s `Display`: the error's own description.
#[verifier::external_body]
pub(crate) fn io_error_text(e: &std::io::Error) -> (r: String) {
    e.to_string()
}

impl HwmonError {
    /// A human-readable description of the error.
    pub fn message(&self) -> (r: String)
        ensures
            self matches HwmonError::DeviceNotFound(s) ==> r@ == "Hwmon device not found: "@ + s@,
            self matches HwmonError::ParseError(s) ==> r@ == "Parse error: "@ + s@,
            self matches HwmonError::PermissionDenied ==> r@ == "Permission denied (run as root)"@,
            self matches HwmonError::UnsupportedDevice(s) ==> r@ == "Unsupported device: "@ + s@,
    {
        match self {
            HwmonError::DeviceNotFound(s) => join("Hwmon device not found: ", s.as_str()),
            HwmonError::IoError(e) => {
                let t = io_error_text(e);
                join("I/O error: ", t.as_str())
            },
            HwmonError::ParseError(s) => join("Parse error: ", s.as_str()),
            HwmonError::PermissionDenied => String::from_str("Permission denied (run as root)"),
            HwmonError::UnsupportedDevice(s) => join("Unsupported device: ", s.as_str()),
        }
    }
}

/// Whether a device name is one of the handheld's fan controllers.
pub open spec fn is_fan_controller_name(name: Seq<char>) -> bool {
    name == "jupiter"@ || name == "galileo"@
}

/// Whether a device name is one of the handheld's fan controllers.
pub fn is_steam_deck_name(name: &str) -> (r: bool)
    ensures
        r == is_fan_controller_name(name@),
{
    crate::text::str_eq(name, "jupiter") || crate::text::str_eq(name, "galileo")
}

/// Converts a speed in percent (capped at 100) to a PWM value.
pub fn percent_to_pwm(percent: u8) -> (r: u8)
    ensures
        r as int == (if percent > 100 { 100 } else { percent as int }) * 255 / 100,
{
    let p: u16 = if percent > 100 { 100 } else { percent as u16 };
    ((p * 255) / 100) as u8
}

/// Converts a PWM value to a speed in percent, rounded down.
pub fn pwm_to_percent(pwm: u8) -> (r: u8)
    ensures
        r as int == (pwm as int) * 100 / 255,
{
    ((pwm as u16 * 100) / 255) as u8
}

/// Degrees Celsius from a reading in millidegrees, rounded toward zero.
pub fn millidegrees_to_c(raw: i32) -> (r: i32)
    ensures
        r as int == (if raw >= 0 { raw as int / 1000 } else { -((-(raw as int)) / 1000) }),
{
    if raw >= 0 {
        raw / 1000
    } else {
        let m: i64 = -(raw as i64);
        (-(m / 1000)) as i32
    }
}

} // verus!
