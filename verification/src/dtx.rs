//! The DTX protocol: status codes, the values they decode to, control
//! operations and the event stream.
//!
//! The types of this module are strict: decoding a raw value into one of
//! them fails with a [`DtxError`] where the value is not one the protocol
//! names. The module [`event`] holds their lenient counterparts.

pub mod device;
pub mod display;
pub mod event;
pub mod label;
pub mod status;
pub mod stream;
pub mod uapi;

use vstd::prelude::*;
use vstd::std_specs::convert::{FromSpecImpl, TryFromSpecImpl};
use crate::dtx::status::{category_of, classify, low_byte, low_byte_of, Category};
pub use crate::dtx::status::{HardwareError, RuntimeError};
pub use crate::dtx::stream::{Event, EventStream};

verus! {

/// A raw value that a strict decoder does not accept, by the kind of value
/// that was expected. Each variant carries the offending raw code.
#[derive(Debug, Clone, Copy, PartialEq, Eq, Structural)]
pub enum DtxError {
    InvalidBaseState(u16),
    InvalidDeviceMode(u16),
    InvalidLatchStatus(u16),
    InvalidCancelReason(u16),
}

/// The result of a strict decoder.
pub type DtxResult<T> = Result<T, DtxError>;

/// The form factor that the device reports.
#[derive(Debug, Clone, Copy, PartialEq, Eq, Structural)]
pub enum DeviceMode {
    Tablet,
    Laptop,
    Studio,
}

impl DeviceMode {
    /// What a raw device mode decodes to: one of the three status values,
    /// or an error that carries the raw code.
    pub open spec fn decode(value: u16) -> DtxResult<DeviceMode> {
        if value == uapi::SDTX_DEVICE_MODE_TABLET {
            Ok(DeviceMode::Tablet)
        } else if value == uapi::SDTX_DEVICE_MODE_LAPTOP {
            Ok(DeviceMode::Laptop)
        } else if value == uapi::SDTX_DEVICE_MODE_STUDIO {
            Ok(DeviceMode::Studio)
        } else {
            Err(DtxError::InvalidDeviceMode(value))
        }
    }

    /// The strict value of a lenient one: `Unknown` becomes the error.
    pub open spec fn narrow(mode: event::DeviceMode) -> DtxResult<DeviceMode> {
        match mode {
            event::DeviceMode::Tablet => Ok(DeviceMode::Tablet),
            event::DeviceMode::Laptop => Ok(DeviceMode::Laptop),
            event::DeviceMode::Studio => Ok(DeviceMode::Studio),
            event::DeviceMode::Unknown(code) => Err(DtxError::InvalidDeviceMode(code)),
        }
    }
}

impl TryFrom<u16> for DeviceMode {
    type Error = DtxError;

    fn try_from(value: u16) -> (mode: DtxResult<Self>)
        ensures
            mode == DeviceMode::decode(value),
    {
        if value == uapi::SDTX_DEVICE_MODE_TABLET {
            Ok(DeviceMode::Tablet)
        } else if value == uapi::SDTX_DEVICE_MODE_LAPTOP {
            Ok(DeviceMode::Laptop)
        } else if value == uapi::SDTX_DEVICE_MODE_STUDIO {
            Ok(DeviceMode::Studio)
        } else {
            Err(DtxError::InvalidDeviceMode(value))
        }
    }
}

impl TryFromSpecImpl<u16> for DeviceMode {
    open spec fn obeys_try_from_spec() -> bool {
        true
    }

    open spec fn try_from_spec(value: u16) -> DtxResult<Self> {
        DeviceMode::decode(value)
    }
}

impl TryFrom<event::DeviceMode> for DeviceMode {
    type Error = DtxError;

    fn try_from(mode: event::DeviceMode) -> (strict: DtxResult<Self>)
        ensures
            strict == DeviceMode::narrow(mode),
    {
        match mode {
            event::DeviceMode::Tablet => Ok(DeviceMode::Tablet),
            event::DeviceMode::Laptop => Ok(DeviceMode::Laptop),
            event::DeviceMode::Studio => Ok(DeviceMode::Studio),
            event::DeviceMode::Unknown(code) => Err(DtxError::InvalidDeviceMode(code)),
        }
    }
}

impl TryFromSpecImpl<event::DeviceMode> for DeviceMode {
    open spec fn obeys_try_from_spec() -> bool {
        true
    }

    open spec fn try_from_spec(mode: event::DeviceMode) -> DtxResult<Self> {
        DeviceMode::narrow(mode)
    }
}

/// The state of the latch that holds the base.
#[derive(Debug, Clone, Copy, PartialEq, Eq, Structural)]
pub enum LatchStatus {
    Closed,
    Opened,
    Error(HardwareError),
}

impl LatchStatus {
    /// What a raw latch status decodes to: closed or opened for the two
    /// status values, a hardware error for every code of that category, and
    /// an error that carries the raw code for everything else.
    pub open spec fn decode(value: u16) -> DtxResult<LatchStatus> {
        if value == uapi::SDTX_LATCH_CLOSED {
            Ok(LatchStatus::Closed)
        } else if value == uapi::SDTX_LATCH_OPENED {
            Ok(LatchStatus::Opened)
        } else if category_of(value) is HardwareError {
            Ok(LatchStatus::Error(HardwareError::of_code(value)))
        } else {
            Err(DtxError::InvalidLatchStatus(value))
        }
    }

    /// The strict value of a lenient one: `Unknown` becomes the error.
    pub open spec fn narrow(status: event::LatchStatus) -> DtxResult<LatchStatus> {
        match status {
            event::LatchStatus::Closed => Ok(LatchStatus::Closed),
            event::LatchStatus::Opened => Ok(LatchStatus::Opened),
            event::LatchStatus::Error(error) => Ok(LatchStatus::Error(error)),
            event::LatchStatus::Unknown(code) => Err(DtxError::InvalidLatchStatus(code)),
        }
    }
}

impl TryFrom<u16> for LatchStatus {
    type Error = DtxError;

    fn try_from(value: u16) -> (status: DtxResult<Self>)
        ensures
            status == LatchStatus::decode(value),
    {
        match classify(value) {
            Category::Status(code) => {
                if code == uapi::SDTX_LATCH_CLOSED {
                    Ok(LatchStatus::Closed)
                } else if code == uapi::SDTX_LATCH_OPENED {
                    Ok(LatchStatus::Opened)
                } else {
                    Err(DtxError::InvalidLatchStatus(value))
                }
            },
            Category::HardwareError(code) => Ok(LatchStatus::Error(HardwareError::from_code(code))),
            _ => Err(DtxError::InvalidLatchStatus(value)),
        }
    }
}

impl TryFromSpecImpl<u16> for LatchStatus {
    open spec fn obeys_try_from_spec() -> bool {
        true
    }

    open spec fn try_from_spec(value: u16) -> DtxResult<Self> {
        LatchStatus::decode(value)
    }
}

impl TryFrom<event::LatchStatus> for LatchStatus {
    type Error = DtxError;

    fn try_from(status: event::LatchStatus) -> (strict: DtxResult<Self>)
        ensures
            strict == LatchStatus::narrow(status),
    {
        match status {
            event::LatchStatus::Closed => Ok(LatchStatus::Closed),
            event::LatchStatus::Opened => Ok(LatchStatus::Opened),
            event::LatchStatus::Error(error) => Ok(LatchStatus::Error(error)),
            event::LatchStatus::Unknown(code) => Err(DtxError::InvalidLatchStatus(code)),
        }
    }
}

impl TryFromSpecImpl<event::LatchStatus> for LatchStatus {
    open spec fn obeys_try_from_spec() -> bool {
        true
    }

    open spec fn try_from_spec(status: event::LatchStatus) -> DtxResult<Self> {
        LatchStatus::narrow(status)
    }
}

/// Whether a base is attached.
#[derive(Debug, Clone, Copy, PartialEq, Eq, Structural)]
pub enum BaseState {
    Detached,
    Attached,
    /// The base is attached and cannot be detached at present. The driver
    /// reports this with the code of a runtime error; as a base state it is
    /// a valid answer, not a failure.
    NotFeasible,
}

impl BaseState {
    /// What a raw base state decodes to: detached or attached for the two
    /// status values, not-feasible for the code of that runtime error, and
    /// an error that carries the raw code for everything else.
    pub open spec fn decode(value: u16) -> DtxResult<BaseState> {
        if value == uapi::SDTX_BASE_DETACHED {
            Ok(BaseState::Detached)
        } else if value == uapi::SDTX_BASE_ATTACHED {
            Ok(BaseState::Attached)
        } else if value == uapi::SDTX_DETACH_NOT_FEASIBLE {
            Ok(BaseState::NotFeasible)
        } else {
            Err(DtxError::InvalidBaseState(value))
        }
    }

    /// The strict value of a lenient one: `Unknown` becomes the error.
    pub open spec fn narrow(state: event::BaseState) -> DtxResult<BaseState> {
        match state {
            event::BaseState::Detached => Ok(BaseState::Detached),
            event::BaseState::Attached => Ok(BaseState::Attached),
            event::BaseState::NotFeasible => Ok(BaseState::NotFeasible),
            event::BaseState::Unknown(code) => Err(DtxError::InvalidBaseState(code)),
        }
    }
}

impl TryFrom<u16> for BaseState {
    type Error = DtxError;

    fn try_from(value: u16) -> (state: DtxResult<Self>)
        ensures
            state == BaseState::decode(value),
    {
        if value == uapi::SDTX_BASE_DETACHED {
            Ok(BaseState::Detached)
        } else if value == uapi::SDTX_BASE_ATTACHED {
            Ok(BaseState::Attached)
        } else if value == uapi::SDTX_DETACH_NOT_FEASIBLE {
            Ok(BaseState::NotFeasible)
        } else {
            Err(DtxError::InvalidBaseState(value))
        }
    }
}

impl TryFromSpecImpl<u16> for BaseState {
    open spec fn obeys_try_from_spec() -> bool {
        true
    }

    open spec fn try_from_spec(value: u16) -> DtxResult<Self> {
        BaseState::decode(value)
    }
}

impl TryFrom<event::BaseState> for BaseState {
    type Error = DtxError;

    fn try_from(state: event::BaseState) -> (strict: DtxResult<Self>)
        ensures
            strict == BaseState::narrow(state),
    {
        match state {
            event::BaseState::Detached => Ok(BaseState::Detached),
            event::BaseState::Attached => Ok(BaseState::Attached),
            event::BaseState::NotFeasible => Ok(BaseState::NotFeasible),
            event::BaseState::Unknown(code) => Err(DtxError::InvalidBaseState(code)),
        }
    }
}

impl TryFromSpecImpl<event::BaseState> for BaseState {
    open spec fn obeys_try_from_spec() -> bool {
        true
    }

    open spec fn try_from_spec(state: event::BaseState) -> DtxResult<Self> {
        BaseState::narrow(state)
    }
}

/// The kind of base. Bits 8 to 11 of a base id name it.
#[derive(Debug, Clone, Copy, PartialEq, Eq, Structural)]
pub enum DeviceType {
    Hid,
    Ssh,
    /// Any other kind, by the whole high byte of the base id.
    Unknown(u8),
}

impl DeviceType {
    /// The value of bits 8 to 11 of a base id, between 0 and 15.
    pub open spec fn type_bits(base_id: u16) -> int {
        (base_id as int / 0x100) % 0x10
    }

    /// The high byte of a base id.
    pub open spec fn high_byte(base_id: u16) -> u8 {
        (base_id as int / 0x100) as u8
    }

    /// The device type packed into a base id: bits 8 to 11 decide between
    /// the two kinds that have a name, and a base id of neither kind is
    /// kept by its high byte, bits 12 to 15 included.
    pub open spec fn of_base_id(base_id: u16) -> DeviceType {
        if Self::type_bits(base_id) == 1 {
            DeviceType::Hid
        } else if Self::type_bits(base_id) == 2 {
            DeviceType::Ssh
        } else {
            DeviceType::Unknown(Self::high_byte(base_id))
        }
    }
}

impl From<u16> for DeviceType {
    fn from(value: u16) -> (device_type: Self)
        ensures
            device_type == DeviceType::of_base_id(value),
    {
        let bits: u16 = value & uapi::SDTX_DEVICE_TYPE_MASK;
        assert((value & 0x0f00u16) as int == ((value as int / 0x100) % 0x10) * 0x100)
            by (bit_vector);
        if bits == uapi::SDTX_DEVICE_TYPE_HID {
            DeviceType::Hid
        } else if bits == uapi::SDTX_DEVICE_TYPE_SSH {
            DeviceType::Ssh
        } else {
            DeviceType::Unknown((value / 0x100) as u8)
        }
    }
}

impl FromSpecImpl<u16> for DeviceType {
    open spec fn obeys_from_spec() -> bool {
        true
    }

    open spec fn from_spec(value: u16) -> Self {
        DeviceType::of_base_id(value)
    }
}

/// What is known of the base: its state, its kind and its numeric id.
#[derive(Debug, Clone, Copy, PartialEq, Eq, Structural)]
pub struct BaseInfo {
    pub state: BaseState,
    pub device_type: DeviceType,
    pub id: u8,
}

impl BaseInfo {
    /// What a raw base-info record decodes to. The state decides whether
    /// decoding succeeds; device type and id are read from the base id and
    /// always decode.
    pub open spec fn decode(raw: uapi::BaseInfo) -> DtxResult<BaseInfo> {
        match BaseState::decode(raw.state) {
            Ok(state) => Ok(
                BaseInfo {
                    state,
                    device_type: DeviceType::of_base_id(raw.base_id),
                    id: low_byte_of(raw.base_id),
                },
            ),
            Err(error) => Err(error),
        }
    }
}

impl TryFrom<uapi::BaseInfo> for BaseInfo {
    type Error = DtxError;

    fn try_from(value: uapi::BaseInfo) -> (info: DtxResult<Self>)
        ensures
            info == BaseInfo::decode(value),
    {
        match BaseState::try_from(value.state) {
            Ok(state) => {
                let device_type = DeviceType::from(value.base_id);
                let id = low_byte(value.base_id);
                Ok(BaseInfo { state, device_type, id })
            },
            Err(error) => Err(error),
        }
    }
}

impl TryFromSpecImpl<uapi::BaseInfo> for BaseInfo {
    open spec fn obeys_try_from_spec() -> bool {
        true
    }

    open spec fn try_from_spec(value: uapi::BaseInfo) -> DtxResult<Self> {
        BaseInfo::decode(value)
    }
}

/// Why a detachment was cancelled: an error of one of the two categories.
#[derive(Debug, Clone, Copy, PartialEq, Eq, Structural)]
pub enum CancelReason {
    Runtime(RuntimeError),
    Hardware(HardwareError),
}

impl CancelReason {
    /// What a raw cancel reason decodes to: an error of its category, or an
    /// error that carries the raw code where it is of neither.
    pub open spec fn decode(value: u16) -> DtxResult<CancelReason> {
        match category_of(value) {
            Category::RuntimeError(code) => Ok(CancelReason::Runtime(RuntimeError::of_code(code))),
            Category::HardwareError(code) => Ok(
                CancelReason::Hardware(HardwareError::of_code(code)),
            ),
            _ => Err(DtxError::InvalidCancelReason(value)),
        }
    }

    /// The strict value of a lenient one: `Unknown` becomes the error.
    pub open spec fn narrow(reason: event::CancelReason) -> DtxResult<CancelReason> {
        match reason {
            event::CancelReason::Runtime(error) => Ok(CancelReason::Runtime(error)),
            event::CancelReason::Hardware(error) => Ok(CancelReason::Hardware(error)),
            event::CancelReason::Unknown(code) => Err(DtxError::InvalidCancelReason(code)),
        }
    }
}

impl TryFrom<event::CancelReason> for CancelReason {
    type Error = DtxError;

    fn try_from(reason: event::CancelReason) -> (strict: DtxResult<Self>)
        ensures
            strict == CancelReason::narrow(reason),
    {
        match reason {
            event::CancelReason::Runtime(error) => Ok(CancelReason::Runtime(error)),
            event::CancelReason::Hardware(error) => Ok(CancelReason::Hardware(error)),
            event::CancelReason::Unknown(code) => Err(DtxError::InvalidCancelReason(code)),
        }
    }
}

impl TryFromSpecImpl<event::CancelReason> for CancelReason {
    open spec fn obeys_try_from_spec() -> bool {
        true
    }

    open spec fn try_from_spec(reason: event::CancelReason) -> DtxResult<Self> {
        CancelReason::narrow(reason)
    }
}

/// A strict decoder accepts a raw code exactly where the lenient decoder
/// names it, and then both give the same value; it rejects exactly the codes
/// that the lenient decoder keeps as `Unknown`, with an error that carries
/// the raw code. The lenient decoders themselves are total.
pub proof fn lemma_strict_is_lenient_narrowed(value: u16)
    ensures
        DeviceMode::decode(value) == DeviceMode::narrow(event::DeviceMode::of_code(value)),
        LatchStatus::decode(value) == LatchStatus::narrow(event::LatchStatus::of_code(value)),
        BaseState::decode(value) == BaseState::narrow(event::BaseState::of_code(value)),
        CancelReason::decode(value) == CancelReason::narrow(event::CancelReason::of_code(value)),
        DeviceMode::decode(value) is Err <==> event::DeviceMode::of_code(value) is Unknown,
        LatchStatus::decode(value) is Err <==> event::LatchStatus::of_code(value) is Unknown,
        BaseState::decode(value) is Err <==> event::BaseState::of_code(value) is Unknown,
        CancelReason::decode(value) is Err <==> event::CancelReason::of_code(value) is Unknown,
        DeviceMode::decode(value) is Err ==> DeviceMode::decode(value)
            == Err::<DeviceMode, DtxError>(DtxError::InvalidDeviceMode(value)),
        LatchStatus::decode(value) is Err ==> LatchStatus::decode(value)
            == Err::<LatchStatus, DtxError>(DtxError::InvalidLatchStatus(value)),
        BaseState::decode(value) is Err ==> BaseState::decode(value)
            == Err::<BaseState, DtxError>(DtxError::InvalidBaseState(value)),
        CancelReason::decode(value) is Err ==> CancelReason::decode(value)
            == Err::<CancelReason, DtxError>(DtxError::InvalidCancelReason(value)),
{
}

/// The device type of a base id: the two kinds that have a name are
/// decided by bits 8 to 11 alone, whatever bits 12 to 15 hold, and every
/// other base id is kept by its whole high byte.
pub proof fn lemma_device_type_by_bits(base_id: u16)
    ensures
        DeviceType::of_base_id(base_id) == DeviceType::Hid <==> DeviceType::type_bits(base_id)
            == 1,
        DeviceType::of_base_id(base_id) == DeviceType::Ssh <==> DeviceType::type_bits(base_id)
            == 2,
        DeviceType::of_base_id(base_id) matches DeviceType::Unknown(byte) ==> byte as int
            == base_id as int / 0x100 && byte as int % 0x10 == DeviceType::type_bits(base_id),
{
}

/// The accepted set of each strict decoder, by category: a device mode is a
/// status value of at most 2; a latch status is a status value of at most 1
/// or any hardware error; a base state is a status value of at most 1 or the
/// one runtime error code "not feasible".
pub proof fn lemma_strict_accepted_sets(value: u16)
    ensures
        DeviceMode::decode(value) is Ok <==> category_of(value) is Status && value <= 2,
        LatchStatus::decode(value) is Ok <==> (category_of(value) is Status && value <= 1)
            || category_of(value) is HardwareError,
        BaseState::decode(value) is Ok <==> (category_of(value) is Status && value <= 1) || value
            == uapi::SDTX_DETACH_NOT_FEASIBLE,
        CancelReason::decode(value) is Ok <==> category_of(value) is RuntimeError || category_of(
            value,
        ) is HardwareError,
{
}

} // verus!
