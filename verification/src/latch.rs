//! The operation mode that the first generation of the latch driver
//! reports.

use vstd::prelude::*;
use crate::error::ErrorKind;

verus! {

/// The form factor of the device.
#[derive(Debug, Clone, Copy, PartialEq, Eq, Structural)]
pub enum OpMode {
    Tablet,
    Laptop,
    Studio,
}

impl OpMode {
    /// The name of the mode.
    pub open spec fn name(self) -> Seq<char> {
        match self {
            OpMode::Tablet => "Tablet"@,
            OpMode::Laptop => "Laptop"@,
            OpMode::Studio => "Studio"@,
        }
    }

    /// The mode that a raw value of the driver stands for.
    pub open spec fn decode(raw: u32) -> Result<OpMode, ErrorKind> {
        if raw == 0 {
            Ok(OpMode::Tablet)
        } else if raw == 1 {
            Ok(OpMode::Laptop)
        } else if raw == 2 {
            Ok(OpMode::Studio)
        } else {
            Err(ErrorKind::InvalidData)
        }
    }

    /// The name of the mode.
    pub fn as_str(&self) -> (text: &'static str)
        ensures
            text@ == self.name(),
    {
        match self {
            OpMode::Tablet => "Tablet",
            OpMode::Laptop => "Laptop",
            OpMode::Studio => "Studio",
        }
    }

    /// Decodes the raw value that the driver returns for its operation
    /// mode. A value that names no mode is invalid data.
    pub fn from_raw(raw: u32) -> (mode: Result<OpMode, ErrorKind>)
        ensures
            mode == OpMode::decode(raw),
    {
        if raw == 0 {
            Ok(OpMode::Tablet)
        } else if raw == 1 {
            Ok(OpMode::Laptop)
        } else if raw == 2 {
            Ok(OpMode::Studio)
        } else {
            Err(ErrorKind::InvalidData)
        }
    }
}

} // verus!
