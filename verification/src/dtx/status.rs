//! Status codes, their categories, and the errors that two of the
//! categories encode.
//!
//! A status code is a 16-bit value. Its top four bits name a category, the
//! remaining twelve bits carry the value within that category.

use vstd::prelude::*;
use crate::dtx::uapi;

verus! {

/// The category of a status code. Each variant carries the full code it was
/// classified from.
#[derive(Debug, Clone, Copy, PartialEq, Eq, Structural)]
pub enum Category {
    Status(u16),
    RuntimeError(u16),
    HardwareError(u16),
    Unknown(u16),
}

/// The top four bits of a status code, as a number between 0 and 15.
pub open spec fn top_nibble(code: u16) -> int {
    code as int / 0x1000
}

/// The category of `code`, decided by its top four bits alone.
pub open spec fn category_of(code: u16) -> Category {
    if top_nibble(code) == 0 {
        Category::Status(code)
    } else if top_nibble(code) == 1 {
        Category::RuntimeError(code)
    } else if top_nibble(code) == 2 {
        Category::HardwareError(code)
    } else {
        Category::Unknown(code)
    }
}

/// The low byte of a status code.
pub open spec fn low_byte_of(code: u16) -> u8 {
    (code as int % 0x100) as u8
}

impl Category {
    /// The status code this category was classified from.
    pub open spec fn spec_code(self) -> u16 {
        match self {
            Category::Status(c) => c,
            Category::RuntimeError(c) => c,
            Category::HardwareError(c) => c,
            Category::Unknown(c) => c,
        }
    }

    /// Whether two categories are the same variant, whatever code they carry.
    pub open spec fn same_kind(self, other: Category) -> bool {
        match self {
            Category::Status(_) => other is Status,
            Category::RuntimeError(_) => other is RuntimeError,
            Category::HardwareError(_) => other is HardwareError,
            Category::Unknown(_) => other is Unknown,
        }
    }

    /// The status code this category was classified from.
    #[verifier::when_used_as_spec(spec_code)]
    pub fn code(self) -> (c: u16)
        ensures
            c == self.spec_code(),
    {
        match self {
            Category::Status(c) => c,
            Category::RuntimeError(c) => c,
            Category::HardwareError(c) => c,
            Category::Unknown(c) => c,
        }
    }
}

/// The category bits of a code, as selected by the category mask, are its
/// top nibble.
pub proof fn lemma_mask_is_top_nibble(code: u16)
    ensures
        (code & uapi::SDTX_CATEGORY_MASK) as int == top_nibble(code) * 0x1000,
        0 <= top_nibble(code) < 16,
{
    assert((code & 0xf000u16) as int == (code as int / 0x1000) * 0x1000) by (bit_vector);
}

/// Classification is total and keeps the code: every code falls into one
/// category, which carries that code unchanged.
pub proof fn lemma_category_keeps_code(code: u16)
    ensures
        category_of(code).spec_code() == code,
{
}

/// Classification depends on the category bits alone: two codes with the
/// same category bits fall into the same category.
pub proof fn lemma_category_by_mask(a: u16, b: u16)
    requires
        a & uapi::SDTX_CATEGORY_MASK == b & uapi::SDTX_CATEGORY_MASK,
    ensures
        category_of(a).same_kind(category_of(b)),
{
    lemma_mask_is_top_nibble(a);
    lemma_mask_is_top_nibble(b);
}

/// Classifies a status code by its category bits.
pub fn classify(code: u16) -> (category: Category)
    ensures
        category == category_of(code),
{
    proof {
        lemma_mask_is_top_nibble(code);
    }
    let bits: u16 = code & uapi::SDTX_CATEGORY_MASK;
    if bits == uapi::SDTX_CATEGORY_STATUS {
        Category::Status(code)
    } else if bits == uapi::SDTX_CATEGORY_RUNTIME_ERROR {
        Category::RuntimeError(code)
    } else if bits == uapi::SDTX_CATEGORY_HARDWARE_ERROR {
        Category::HardwareError(code)
    } else {
        Category::Unknown(code)
    }
}

/// The low byte of a status code.
pub fn low_byte(code: u16) -> (byte: u8)
    ensures
        byte == low_byte_of(code),
{
    (code % 0x100) as u8
}

/// A non-critical error of the detachment process.
#[derive(Debug, Clone, Copy, PartialEq, Eq, Structural)]
pub enum RuntimeError {
    /// Detachment preconditions are not fulfilled.
    NotFeasible,
    /// The detach operation timed out.
    Timeout,
    /// Any other code of the category, by its low byte.
    Unknown(u8),
}

impl RuntimeError {
    /// The error that a code of the runtime-error category stands for.
    pub open spec fn of_code(code: u16) -> RuntimeError {
        if code == uapi::SDTX_DETACH_NOT_FEASIBLE {
            RuntimeError::NotFeasible
        } else if code == uapi::SDTX_DETACH_TIMEOUT {
            RuntimeError::Timeout
        } else {
            RuntimeError::Unknown(low_byte_of(code))
        }
    }

    /// The status code of this error: a code of the runtime-error category.
    pub open spec fn spec_code(self) -> u16 {
        match self {
            RuntimeError::NotFeasible => uapi::SDTX_DETACH_NOT_FEASIBLE,
            RuntimeError::Timeout => uapi::SDTX_DETACH_TIMEOUT,
            RuntimeError::Unknown(byte) => (uapi::SDTX_CATEGORY_RUNTIME_ERROR + byte) as u16,
        }
    }

    /// Whether this value is what decoding produces: the two named codes are
    /// never held as `Unknown`.
    pub open spec fn canonical(self) -> bool {
        self != RuntimeError::Unknown(1) && self != RuntimeError::Unknown(2)
    }

    /// Decodes a code of the runtime-error category.
    pub fn from_code(code: u16) -> (error: RuntimeError)
        ensures
            error == RuntimeError::of_code(code),
    {
        if code == uapi::SDTX_DETACH_NOT_FEASIBLE {
            RuntimeError::NotFeasible
        } else if code == uapi::SDTX_DETACH_TIMEOUT {
            RuntimeError::Timeout
        } else {
            RuntimeError::Unknown(low_byte(code))
        }
    }

    /// The status code of this error.
    #[verifier::when_used_as_spec(spec_code)]
    pub fn code(self) -> (code: u16)
        ensures
            code == self.spec_code(),
            category_of(code) == Category::RuntimeError(code),
    {
        match self {
            RuntimeError::NotFeasible => uapi::SDTX_DETACH_NOT_FEASIBLE,
            RuntimeError::Timeout => uapi::SDTX_DETACH_TIMEOUT,
            RuntimeError::Unknown(byte) => uapi::SDTX_CATEGORY_RUNTIME_ERROR + byte as u16,
        }
    }
}

/// A critical error of the latch hardware.
#[derive(Debug, Clone, Copy, PartialEq, Eq, Structural)]
pub enum HardwareError {
    /// The latch failed to open.
    FailedToOpen,
    /// The latch failed to remain open.
    FailedToRemainOpen,
    /// The latch failed to close.
    FailedToClose,
    /// Any other code of the category, by its low byte.
    Unknown(u8),
}

impl HardwareError {
    /// The error that a code of the hardware-error category stands for.
    pub open spec fn of_code(code: u16) -> HardwareError {
        if code == uapi::SDTX_ERR_FAILED_TO_OPEN {
            HardwareError::FailedToOpen
        } else if code == uapi::SDTX_ERR_FAILED_TO_REMAIN_OPEN {
            HardwareError::FailedToRemainOpen
        } else if code == uapi::SDTX_ERR_FAILED_TO_CLOSE {
            HardwareError::FailedToClose
        } else {
            HardwareError::Unknown(low_byte_of(code))
        }
    }

    /// The status code of this error: a code of the hardware-error category.
    pub open spec fn spec_code(self) -> u16 {
        match self {
            HardwareError::FailedToOpen => uapi::SDTX_ERR_FAILED_TO_OPEN,
            HardwareError::FailedToRemainOpen => uapi::SDTX_ERR_FAILED_TO_REMAIN_OPEN,
            HardwareError::FailedToClose => uapi::SDTX_ERR_FAILED_TO_CLOSE,
            HardwareError::Unknown(byte) => (uapi::SDTX_CATEGORY_HARDWARE_ERROR + byte) as u16,
        }
    }

    /// Whether this value is what decoding produces: the three named codes
    /// are never held as `Unknown`.
    pub open spec fn canonical(self) -> bool {
        &&& self != HardwareError::Unknown(1)
        &&& self != HardwareError::Unknown(2)
        &&& self != HardwareError::Unknown(3)
    }

    /// Decodes a code of the hardware-error category.
    pub fn from_code(code: u16) -> (error: HardwareError)
        ensures
            error == HardwareError::of_code(code),
    {
        if code == uapi::SDTX_ERR_FAILED_TO_OPEN {
            HardwareError::FailedToOpen
        } else if code == uapi::SDTX_ERR_FAILED_TO_REMAIN_OPEN {
            HardwareError::FailedToRemainOpen
        } else if code == uapi::SDTX_ERR_FAILED_TO_CLOSE {
            HardwareError::FailedToClose
        } else {
            HardwareError::Unknown(low_byte(code))
        }
    }

    /// The status code of this error.
    #[verifier::when_used_as_spec(spec_code)]
    pub fn code(self) -> (code: u16)
        ensures
            code == self.spec_code(),
            category_of(code) == Category::HardwareError(code),
    {
        match self {
            HardwareError::FailedToOpen => uapi::SDTX_ERR_FAILED_TO_OPEN,
            HardwareError::FailedToRemainOpen => uapi::SDTX_ERR_FAILED_TO_REMAIN_OPEN,
            HardwareError::FailedToClose => uapi::SDTX_ERR_FAILED_TO_CLOSE,
            HardwareError::Unknown(byte) => uapi::SDTX_CATEGORY_HARDWARE_ERROR + byte as u16,
        }
    }
}

/// A decoded error, turned back into its status code and decoded again, is
/// the same error.
pub proof fn lemma_error_code_round_trip(runtime: RuntimeError, hardware: HardwareError)
    ensures
        runtime.canonical() ==> RuntimeError::of_code(runtime.spec_code()) == runtime,
        hardware.canonical() ==> HardwareError::of_code(hardware.spec_code()) == hardware,
        RuntimeError::of_code(runtime.spec_code()).spec_code() == runtime.spec_code(),
        HardwareError::of_code(hardware.spec_code()).spec_code() == hardware.spec_code(),
{
}

/// Decoding keeps the low byte of a code and loses bits 8 to 11 of codes
/// that have no name: the code of the decoded error agrees with the raw code
/// in category and low byte.
pub proof fn lemma_error_code_of_decoded(code: u16)
    ensures
        category_of(code) is RuntimeError ==> {
            let back = RuntimeError::of_code(code).spec_code();
            &&& category_of(back) is RuntimeError
            &&& low_byte_of(back) == low_byte_of(code)
        },
        category_of(code) is HardwareError ==> {
            let back = HardwareError::of_code(code).spec_code();
            &&& category_of(back) is HardwareError
            &&& low_byte_of(back) == low_byte_of(code)
        },
{
}

} // verus!
