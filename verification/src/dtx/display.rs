//! The values of the protocol as text for a reader.

use vstd::prelude::*;
use vstd::string::StringExecFns;
use crate::dtx::event;
use crate::dtx::status::{HardwareError, RuntimeError};
use crate::dtx::stream::{Event, EventView};
use crate::dtx::{BaseState, DeviceMode, DeviceType, DtxError, LatchStatus};
use crate::text::{hex, hex_digits, hex_prefixed, push_hex};

verus! {

impl RuntimeError {
    /// What the error says.
    pub open spec fn spec_message(self) -> Seq<char> {
        match self {
            RuntimeError::NotFeasible => "Detachment preconditions not fulfilled"@,
            RuntimeError::Timeout => "Detach operation timed out"@,
            RuntimeError::Unknown(byte) => "Unknown runtime error: "@ + hex_prefixed(
                byte as u16,
                2,
            ),
        }
    }

    /// What the error says.
    pub fn message(self) -> (text: String)
        ensures
            text@ == self.spec_message(),
    {
        match self {
            RuntimeError::NotFeasible => String::from_str("Detachment preconditions not fulfilled"),
            RuntimeError::Timeout => String::from_str("Detach operation timed out"),
            RuntimeError::Unknown(byte) => {
                String::from_str("Unknown runtime error: ").concat(hex(byte as u16).as_str())
            },
        }
    }
}

impl HardwareError {
    /// What the error says.
    pub open spec fn spec_message(self) -> Seq<char> {
        match self {
            HardwareError::FailedToOpen => "Failed to open latch"@,
            HardwareError::FailedToRemainOpen => "Latch failed to remain open"@,
            HardwareError::FailedToClose => "Failed to close latch"@,
            HardwareError::Unknown(byte) => "Unknown hardware error: "@ + hex_prefixed(
                byte as u16,
                2,
            ),
        }
    }

    /// What the error says.
    pub fn message(self) -> (text: String)
        ensures
            text@ == self.spec_message(),
    {
        match self {
            HardwareError::FailedToOpen => String::from_str("Failed to open latch"),
            HardwareError::FailedToRemainOpen => String::from_str("Latch failed to remain open"),
            HardwareError::FailedToClose => String::from_str("Failed to close latch"),
            HardwareError::Unknown(byte) => {
                String::from_str("Unknown hardware error: ").concat(hex(byte as u16).as_str())
            },
        }
    }
}

impl DtxError {
    /// The raw code that was not accepted.
    pub open spec fn spec_code(self) -> u16 {
        match self {
            DtxError::InvalidBaseState(code) => code,
            DtxError::InvalidDeviceMode(code) => code,
            DtxError::InvalidLatchStatus(code) => code,
            DtxError::InvalidCancelReason(code) => code,
        }
    }

    /// What the error says: the kind of value that was expected, and the
    /// raw code that was found.
    pub open spec fn spec_message(self) -> Seq<char> {
        (match self {
            DtxError::InvalidBaseState(_) => "Invalid value for base state: "@,
            DtxError::InvalidDeviceMode(_) => "Invalid value for device mode: "@,
            DtxError::InvalidLatchStatus(_) => "Invalid value for latch status: "@,
            DtxError::InvalidCancelReason(_) => "Invalid value for cancel reason: "@,
        }) + hex_prefixed(self.spec_code(), 2)
    }

    /// The raw code that was not accepted.
    #[verifier::when_used_as_spec(spec_code)]
    pub fn code(self) -> (code: u16)
        ensures
            code == self.spec_code(),
    {
        match self {
            DtxError::InvalidBaseState(code) => code,
            DtxError::InvalidDeviceMode(code) => code,
            DtxError::InvalidLatchStatus(code) => code,
            DtxError::InvalidCancelReason(code) => code,
        }
    }

    /// What the error says.
    pub fn message(self) -> (text: String)
        ensures
            text@ == self.spec_message(),
    {
        let head = match self {
            DtxError::InvalidBaseState(_) => "Invalid value for base state: ",
            DtxError::InvalidDeviceMode(_) => "Invalid value for device mode: ",
            DtxError::InvalidLatchStatus(_) => "Invalid value for latch status: ",
            DtxError::InvalidCancelReason(_) => "Invalid value for cancel reason: ",
        };
        String::from_str(head).concat(hex(self.code()).as_str())
    }
}

impl DeviceMode {
    /// The name of the mode.
    pub open spec fn name(self) -> Seq<char> {
        match self {
            DeviceMode::Tablet => "Tablet"@,
            DeviceMode::Laptop => "Laptop"@,
            DeviceMode::Studio => "Studio"@,
        }
    }

    /// The name of the mode.
    pub fn as_str(self) -> (text: &'static str)
        ensures
            text@ == self.name(),
    {
        match self {
            DeviceMode::Tablet => "Tablet",
            DeviceMode::Laptop => "Laptop",
            DeviceMode::Studio => "Studio",
        }
    }
}

impl BaseState {
    /// The name of the state.
    pub open spec fn name(self) -> Seq<char> {
        match self {
            BaseState::Detached => "Detached"@,
            BaseState::Attached => "Attached"@,
            BaseState::NotFeasible => "NotFeasible"@,
        }
    }

    /// The name of the state.
    pub fn as_str(self) -> (text: &'static str)
        ensures
            text@ == self.name(),
    {
        match self {
            BaseState::Detached => "Detached",
            BaseState::Attached => "Attached",
            BaseState::NotFeasible => "NotFeasible",
        }
    }
}

impl DeviceType {
    /// The type as text: its name, or the high byte of its base id in
    /// hexadecimal.
    pub open spec fn spec_text(self) -> Seq<char> {
        match self {
            DeviceType::Hid => "HID"@,
            DeviceType::Ssh => "SSH"@,
            DeviceType::Unknown(byte) => hex_prefixed(byte as u16, 1),
        }
    }

    /// The type as text.
    pub fn to_text(self) -> (text: String)
        ensures
            text@ == self.spec_text(),
    {
        match self {
            DeviceType::Hid => String::from_str("HID"),
            DeviceType::Ssh => String::from_str("SSH"),
            DeviceType::Unknown(byte) => {
                let mut text = String::from_str("0x");
                push_hex(&mut text, byte as u16, 1);
                text
            },
        }
    }
}

impl LatchStatus {
    /// The status as text: its name, or what its error says.
    pub open spec fn spec_text(self) -> Seq<char> {
        match self {
            LatchStatus::Closed => "Closed"@,
            LatchStatus::Opened => "Opened"@,
            LatchStatus::Error(error) => "Error: "@ + error.spec_message(),
        }
    }

    /// The status as text.
    pub fn to_text(self) -> (text: String)
        ensures
            text@ == self.spec_text(),
    {
        match self {
            LatchStatus::Closed => String::from_str("Closed"),
            LatchStatus::Opened => String::from_str("Opened"),
            LatchStatus::Error(error) => {
                String::from_str("Error: ").concat(error.message().as_str())
            },
        }
    }
}

/// A text between double quotes.
pub open spec fn quoted(text: Seq<char>) -> Seq<char> {
    "\""@ + text + "\""@
}

impl event::CancelReason {
    /// The reason as text: what its error says, in quotes, or the code it
    /// keeps.
    pub open spec fn spec_text(self) -> Seq<char> {
        match self {
            event::CancelReason::Hardware(error) => quoted(error.spec_message()),
            event::CancelReason::Runtime(error) => quoted(error.spec_message()),
            event::CancelReason::Unknown(code) => hex_prefixed(code, 2),
        }
    }

    /// The reason as text.
    pub fn to_text(self) -> (text: String)
        ensures
            text@ == self.spec_text(),
    {
        match self {
            event::CancelReason::Hardware(error) => {
                String::from_str("\"").concat(error.message().as_str()).concat("\"")
            },
            event::CancelReason::Runtime(error) => {
                String::from_str("\"").concat(error.message().as_str()).concat("\"")
            },
            event::CancelReason::Unknown(code) => hex(code),
        }
    }
}

impl event::BaseState {
    /// The state as text: its name, or the code it keeps.
    pub open spec fn spec_text(self) -> Seq<char> {
        match self {
            event::BaseState::Detached => "Detached"@,
            event::BaseState::Attached => "Attached"@,
            event::BaseState::NotFeasible => "NotFeasible"@,
            event::BaseState::Unknown(code) => hex_prefixed(code, 2),
        }
    }

    /// The state as text.
    pub fn to_text(self) -> (text: String)
        ensures
            text@ == self.spec_text(),
    {
        match self {
            event::BaseState::Detached => String::from_str("Detached"),
            event::BaseState::Attached => String::from_str("Attached"),
            event::BaseState::NotFeasible => String::from_str("NotFeasible"),
            event::BaseState::Unknown(code) => hex(code),
        }
    }
}

impl event::LatchStatus {
    /// The status as text: its name, what its error says, in quotes, or the
    /// code it keeps.
    pub open spec fn spec_text(self) -> Seq<char> {
        match self {
            event::LatchStatus::Closed => "Closed"@,
            event::LatchStatus::Opened => "Opened"@,
            event::LatchStatus::Error(error) => quoted("Error: "@ + error.spec_message()),
            event::LatchStatus::Unknown(code) => hex_prefixed(code, 2),
        }
    }

    /// The status as text.
    pub fn to_text(self) -> (text: String)
        ensures
            text@ == self.spec_text(),
    {
        match self {
            event::LatchStatus::Closed => String::from_str("Closed"),
            event::LatchStatus::Opened => String::from_str("Opened"),
            event::LatchStatus::Error(error) => {
                let text = String::from_str("\"").concat("Error: ").concat(
                    error.message().as_str(),
                ).concat("\"");
                assert(text@ =~= quoted("Error: "@ + error.spec_message()));
                text
            },
            event::LatchStatus::Unknown(code) => hex(code),
        }
    }
}

impl event::DeviceMode {
    /// The mode as text: its name, or the code it keeps.
    pub open spec fn spec_text(self) -> Seq<char> {
        match self {
            event::DeviceMode::Tablet => "Tablet"@,
            event::DeviceMode::Laptop => "Laptop"@,
            event::DeviceMode::Studio => "Studio"@,
            event::DeviceMode::Unknown(code) => hex_prefixed(code, 2),
        }
    }

    /// The mode as text.
    pub fn to_text(self) -> (text: String)
        ensures
            text@ == self.spec_text(),
    {
        match self {
            event::DeviceMode::Tablet => String::from_str("Tablet"),
            event::DeviceMode::Laptop => String::from_str("Laptop"),
            event::DeviceMode::Studio => String::from_str("Studio"),
            event::DeviceMode::Unknown(code) => hex(code),
        }
    }
}

/// The device type as an event shows it: its name, or the high byte of
/// its base id in hexadecimal with two digits.
pub open spec fn event_device_type(device_type: DeviceType) -> Seq<char> {
    match device_type {
        DeviceType::Hid => "Hid"@,
        DeviceType::Ssh => "Ssh"@,
        DeviceType::Unknown(byte) => hex_prefixed(byte as u16, 2),
    }
}

/// The first `count` bytes of a payload, two hexadecimal digits each, with
/// a comma and a space between two of them.
pub open spec fn bytes_listed(data: Seq<u8>, count: nat) -> Seq<char>
    decreases count,
{
    if count == 0 {
        Seq::empty()
    } else if count == 1 {
        hex_digits(data[0] as u16, 2)
    } else {
        bytes_listed(data, (count - 1) as nat) + ", "@ + hex_digits(data[count - 1] as u16, 2)
    }
}

/// A payload as text: its bytes, listed between square brackets.
pub open spec fn payload_text(data: Seq<u8>) -> Seq<char> {
    "["@ + bytes_listed(data, data.len()) + "]"@
}

impl EventView {
    /// The event on one line: its kind, and its fields between braces.
    pub open spec fn text(self) -> Seq<char> {
        match self {
            EventView::Request => "Request"@,
            EventView::Cancel { reason } => "Cancel         { Reason: "@ + reason.spec_text()
                + " }"@,
            EventView::BaseConnection { state, device_type, id } => "BaseConnection { State: "@
                + state.spec_text() + ", DeviceType: "@ + event_device_type(device_type)
                + ", Id: "@ + hex_prefixed(id as u16, 2) + " }"@,
            EventView::LatchStatus { status } => "LatchStatus    { Status: "@ + status.spec_text()
                + " }"@,
            EventView::DeviceMode { mode } => "DeviceMode     { Status: "@ + mode.spec_text()
                + " }"@,
            EventView::Unknown { code, data } => "Unknown        { Code: "@ + hex_prefixed(code, 2)
                + ", Data: "@ + payload_text(data) + " }"@,
        }
    }
}

/// A payload as text.
pub fn payload_to_text(data: &Vec<u8>) -> (text: String)
    ensures
        text@ == payload_text(data@),
{
    let mut text = String::from_str("[");
    let mut i: usize = 0;
    while i < data.len()
        invariant
            i <= data@.len(),
            text@ == "["@ + bytes_listed(data@, i as nat),
        decreases data@.len() - i,
    {
        let ghost before = text@;
        if i > 0 {
            text.append(", ");
        }
        push_hex(&mut text, data[i] as u16, 2);
        proof {
            let entry = hex_digits(data@[i as int] as u16, 2);
            if i == 0 {
                assert(bytes_listed(data@, 0) =~= Seq::<char>::empty());
                assert(text@ =~= "["@ + entry);
            } else {
                assert(text@ =~= "["@ + (bytes_listed(data@, i as nat) + ", "@ + entry));
            }
        }
        i += 1;
    }
    text.append("]");
    text
}

impl Event {
    /// The event on one line.
    pub fn describe(&self) -> (text: String)
        ensures
            text@ == self@.text(),
    {
        match self {
            Event::Request => String::from_str("Request"),
            Event::Cancel { reason } => {
                String::from_str("Cancel         { Reason: ").concat(
                    reason.to_text().as_str(),
                ).concat(" }")
            },
            Event::BaseConnection { state, device_type, id } => {
                let device_type = match device_type {
                    DeviceType::Hid => String::from_str("Hid"),
                    DeviceType::Ssh => String::from_str("Ssh"),
                    DeviceType::Unknown(byte) => hex(*byte as u16),
                };
                String::from_str("BaseConnection { State: ").concat(
                    state.to_text().as_str(),
                ).concat(", DeviceType: ").concat(device_type.as_str()).concat(", Id: ").concat(
                    hex(*id as u16).as_str(),
                ).concat(" }")
            },
            Event::LatchStatus { status } => {
                String::from_str("LatchStatus    { Status: ").concat(
                    status.to_text().as_str(),
                ).concat(" }")
            },
            Event::DeviceMode { mode } => {
                String::from_str("DeviceMode     { Status: ").concat(
                    mode.to_text().as_str(),
                ).concat(" }")
            },
            Event::Unknown { code, data } => {
                String::from_str("Unknown        { Code: ").concat(hex(*code).as_str()).concat(
                    ", Data: ",
                ).concat(payload_to_text(data).as_str()).concat(" }")
            },
        }
    }
}

} // verus!
