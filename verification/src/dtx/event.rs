//! The lenient values that events carry.
//!
//! Each type here mirrors a strict type of the protocol and adds an
//! `Unknown` variant that keeps the raw code. Decoding into these types
//! cannot fail, so an event is never rejected for a status value that this
//! library does not know.

use vstd::prelude::*;
use vstd::std_specs::convert::FromSpecImpl;
use crate::dtx::status::{category_of, classify, Category, HardwareError, RuntimeError};
use crate::dtx::uapi;

verus! {

/// Why a detachment was cancelled.
#[derive(Debug, Clone, Copy, PartialEq, Eq, Structural)]
pub enum CancelReason {
    Runtime(RuntimeError),
    Hardware(HardwareError),
    /// A code of neither error category, kept in full.
    Unknown(u16),
}

impl CancelReason {
    /// The reason that a raw code stands for: an error of its category, or
    /// the whole code where the category is not one of errors.
    pub open spec fn of_code(value: u16) -> CancelReason {
        match category_of(value) {
            Category::RuntimeError(code) => CancelReason::Runtime(RuntimeError::of_code(code)),
            Category::HardwareError(code) => CancelReason::Hardware(HardwareError::of_code(code)),
            _ => CancelReason::Unknown(value),
        }
    }
}

impl From<u16> for CancelReason {
    fn from(value: u16) -> (reason: Self)
        ensures
            reason == CancelReason::of_code(value),
    {
        match classify(value) {
            Category::RuntimeError(code) => CancelReason::Runtime(RuntimeError::from_code(code)),
            Category::HardwareError(code) => CancelReason::Hardware(HardwareError::from_code(code)),
            _ => CancelReason::Unknown(value),
        }
    }
}

impl FromSpecImpl<u16> for CancelReason {
    open spec fn obeys_from_spec() -> bool {
        true
    }

    open spec fn from_spec(value: u16) -> Self {
        CancelReason::of_code(value)
    }
}

/// Whether a base is attached, as an event reports it.
#[derive(Debug, Clone, Copy, PartialEq, Eq, Structural)]
pub enum BaseState {
    Detached,
    Attached,
    /// The base is attached and cannot be detached at present.
    NotFeasible,
    /// Any other code, kept in full.
    Unknown(u16),
}

impl BaseState {
    /// The base state that a raw code stands for. The code of the runtime
    /// error "detach not feasible" is a base state of its own.
    pub open spec fn of_code(value: u16) -> BaseState {
        if value == uapi::SDTX_BASE_DETACHED {
            BaseState::Detached
        } else if value == uapi::SDTX_BASE_ATTACHED {
            BaseState::Attached
        } else if value == uapi::SDTX_DETACH_NOT_FEASIBLE {
            BaseState::NotFeasible
        } else {
            BaseState::Unknown(value)
        }
    }
}

impl From<u16> for BaseState {
    fn from(value: u16) -> (state: Self)
        ensures
            state == BaseState::of_code(value),
    {
        if value == uapi::SDTX_BASE_DETACHED {
            BaseState::Detached
        } else if value == uapi::SDTX_BASE_ATTACHED {
            BaseState::Attached
        } else if value == uapi::SDTX_DETACH_NOT_FEASIBLE {
            BaseState::NotFeasible
        } else {
            BaseState::Unknown(value)
        }
    }
}

impl FromSpecImpl<u16> for BaseState {
    open spec fn obeys_from_spec() -> bool {
        true
    }

    open spec fn from_spec(value: u16) -> Self {
        BaseState::of_code(value)
    }
}

/// The state of the latch, as an event reports it.
#[derive(Debug, Clone, Copy, PartialEq, Eq, Structural)]
pub enum LatchStatus {
    Closed,
    Opened,
    Error(HardwareError),
    /// Any other code, kept in full.
    Unknown(u16),
}

impl LatchStatus {
    /// The latch status that a raw code stands for: a hardware error for
    /// every code of that category, closed or opened for the two status
    /// values, and the whole code otherwise.
    pub open spec fn of_code(value: u16) -> LatchStatus {
        match category_of(value) {
            Category::HardwareError(code) => LatchStatus::Error(HardwareError::of_code(code)),
            Category::Status(code) => {
                if code == uapi::SDTX_LATCH_CLOSED {
                    LatchStatus::Closed
                } else if code == uapi::SDTX_LATCH_OPENED {
                    LatchStatus::Opened
                } else {
                    LatchStatus::Unknown(value)
                }
            },
            _ => LatchStatus::Unknown(value),
        }
    }
}

impl From<u16> for LatchStatus {
    fn from(value: u16) -> (status: Self)
        ensures
            status == LatchStatus::of_code(value),
    {
        match classify(value) {
            Category::HardwareError(code) => LatchStatus::Error(HardwareError::from_code(code)),
            Category::Status(code) => {
                if code == uapi::SDTX_LATCH_CLOSED {
                    LatchStatus::Closed
                } else if code == uapi::SDTX_LATCH_OPENED {
                    LatchStatus::Opened
                } else {
                    LatchStatus::Unknown(value)
                }
            },
            _ => LatchStatus::Unknown(value),
        }
    }
}

impl FromSpecImpl<u16> for LatchStatus {
    open spec fn obeys_from_spec() -> bool {
        true
    }

    open spec fn from_spec(value: u16) -> Self {
        LatchStatus::of_code(value)
    }
}

/// The form factor of the device, as an event reports it.
#[derive(Debug, Clone, Copy, PartialEq, Eq, Structural)]
pub enum DeviceMode {
    Tablet,
    Laptop,
    Studio,
    /// Any other code, kept in full.
    Unknown(u16),
}

impl DeviceMode {
    /// The device mode that a raw code stands for.
    pub open spec fn of_code(value: u16) -> DeviceMode {
        if value == uapi::SDTX_DEVICE_MODE_TABLET {
            DeviceMode::Tablet
        } else if value == uapi::SDTX_DEVICE_MODE_LAPTOP {
            DeviceMode::Laptop
        } else if value == uapi::SDTX_DEVICE_MODE_STUDIO {
            DeviceMode::Studio
        } else {
            DeviceMode::Unknown(value)
        }
    }
}

impl From<u16> for DeviceMode {
    fn from(value: u16) -> (mode: Self)
        ensures
            mode == DeviceMode::of_code(value),
    {
        if value == uapi::SDTX_DEVICE_MODE_TABLET {
            DeviceMode::Tablet
        } else if value == uapi::SDTX_DEVICE_MODE_LAPTOP {
            DeviceMode::Laptop
        } else if value == uapi::SDTX_DEVICE_MODE_STUDIO {
            DeviceMode::Studio
        } else {
            DeviceMode::Unknown(value)
        }
    }
}

impl FromSpecImpl<u16> for DeviceMode {
    open spec fn obeys_from_spec() -> bool {
        true
    }

    open spec fn from_spec(value: u16) -> Self {
        DeviceMode::of_code(value)
    }
}

/// No lenient decoder keeps a code as `Unknown` that it could have named:
/// what it holds as `Unknown` is the raw code itself, and decoding that code
/// again gives the same value.
pub proof fn lemma_unknown_keeps_raw_code(value: u16)
    ensures
        CancelReason::of_code(value) matches CancelReason::Unknown(code) ==> code == value,
        BaseState::of_code(value) matches BaseState::Unknown(code) ==> code == value,
        LatchStatus::of_code(value) matches LatchStatus::Unknown(code) ==> code == value,
        DeviceMode::of_code(value) matches DeviceMode::Unknown(code) ==> code == value,
{
}

} // verus!
