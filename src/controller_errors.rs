//! Errors of the frequency-driven and load-driven voltage controllers.

use vstd::prelude::*;
use vstd::string::*;
use crate::text::{decimal, decimal_string, join};
use crate::hwmon::io_error_text;

verus! {

/// Errors of the frequency-driven voltage controller.
#[derive(Debug)]
pub enum FrequencyControllerError {
    InvalidCoreId(usize),
    NoCurveLoaded(usize),
    IoError(std::io::Error),
    ParseError(String),
    InvalidCurve(String),
}

impl FrequencyControllerError {
    /// A human-readable description of the error.
    pub fn message(&self) -> (r: String)
        ensures
            self matches FrequencyControllerError::InvalidCoreId(id) ==> r@ == "Invalid core ID: "@ + decimal(id as nat),
            self matches FrequencyControllerError::NoCurveLoaded(id) ==> r@ == "No frequency curve loaded for core "@ + decimal(id as nat),
            self matches FrequencyControllerError::ParseError(m) ==> r@ == "Parse error: "@ + m@,
            self matches FrequencyControllerError::InvalidCurve(m) ==> r@ == "Invalid curve: "@ + m@,
    {
        match self {
            FrequencyControllerError::InvalidCoreId(id) => {
                let d = decimal_string(*id as u64);
                join("Invalid core ID: ", d.as_str())
            },
            FrequencyControllerError::NoCurveLoaded(id) => {
                let d = decimal_string(*id as u64);
                join("No frequency curve loaded for core ", d.as_str())
            },
            FrequencyControllerError::IoError(e) => {
                let t = io_error_text(e);
                join("I/O error: ", t.as_str())
            },
            FrequencyControllerError::ParseError(m) => join("Parse error: ", m.as_str()),
            FrequencyControllerError::InvalidCurve(m) => join("Invalid curve: ", m.as_str()),
        }
    }
}

/// Errors of the load-driven voltage controller.
#[derive(Debug)]
pub enum VoltageControllerError {
    InvalidCoreId(usize),
    InvalidConfig(String),
    IoError(std::io::Error),
    NotStarted,
    AlreadyStarted,
    SafetyViolation(String),
}

impl VoltageControllerError {
    /// A human-readable description of the error.
    pub fn message(&self) -> (r: String)
        ensures
            self matches VoltageControllerError::InvalidCoreId(id) ==> r@ == "Invalid core ID: "@ + decimal(id as nat),
            self matches VoltageControllerError::InvalidConfig(m) ==> r@ == "Invalid configuration: "@ + m@,
            self matches VoltageControllerError::NotStarted ==> r@ == "Controller not started"@,
            self matches VoltageControllerError::AlreadyStarted ==> r@ == "Controller already started"@,
            self matches VoltageControllerError::SafetyViolation(m) ==> r@ == "Safety violation: "@ + m@,
    {
        match self {
            VoltageControllerError::InvalidCoreId(id) => {
                let d = decimal_string(*id as u64);
                join("Invalid core ID: ", d.as_str())
            },
            VoltageControllerError::InvalidConfig(m) => join("Invalid configuration: ", m.as_str()),
            VoltageControllerError::IoError(e) => {
                let t = io_error_text(e);
                join("I/O error: ", t.as_str())
            },
            VoltageControllerError::NotStarted => String::from_str("Controller not started"),
            VoltageControllerError::AlreadyStarted => String::from_str("Controller already started"),
            VoltageControllerError::SafetyViolation(m) => join("Safety violation: ", m.as_str()),
        }
    }
}

} // verus!
