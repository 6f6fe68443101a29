//! The driver's interface: status code constants, event codes, the raw
//! records it exchanges, and the control operations it accepts.

use vstd::prelude::*;

verus! {

// status/error categories
pub const SDTX_CATEGORY_STATUS: u16 = 0x0000;

pub const SDTX_CATEGORY_RUNTIME_ERROR: u16 = 0x1000;

pub const SDTX_CATEGORY_HARDWARE_ERROR: u16 = 0x2000;

pub const SDTX_CATEGORY_MASK: u16 = 0xf000;

// latch status values
pub const SDTX_LATCH_CLOSED: u16 = 0x0000;

pub const SDTX_LATCH_OPENED: u16 = 0x0001;

// base status values
pub const SDTX_BASE_DETACHED: u16 = 0x0000;

pub const SDTX_BASE_ATTACHED: u16 = 0x0001;

// runtime errors (non-critical)
pub const SDTX_DETACH_NOT_FEASIBLE: u16 = 0x1001;

pub const SDTX_DETACH_TIMEOUT: u16 = 0x1002;

// hardware errors (critical)
pub const SDTX_ERR_FAILED_TO_OPEN: u16 = 0x2001;

pub const SDTX_ERR_FAILED_TO_REMAIN_OPEN: u16 = 0x2002;

pub const SDTX_ERR_FAILED_TO_CLOSE: u16 = 0x2003;

// base types
pub const SDTX_DEVICE_TYPE_HID: u16 = 0x0100;

pub const SDTX_DEVICE_TYPE_SSH: u16 = 0x0200;

pub const SDTX_DEVICE_TYPE_MASK: u16 = 0x0f00;

// device mode
pub const SDTX_DEVICE_MODE_TABLET: u16 = 0x0000;

pub const SDTX_DEVICE_MODE_LAPTOP: u16 = 0x0001;

pub const SDTX_DEVICE_MODE_STUDIO: u16 = 0x0002;

// event code
pub const SDTX_EVENT_REQUEST: u16 = 1;

pub const SDTX_EVENT_CANCEL: u16 = 2;

pub const SDTX_EVENT_BASE_CONNECTION: u16 = 3;

pub const SDTX_EVENT_LATCH_STATUS: u16 = 4;

pub const SDTX_EVENT_DEVICE_MODE: u16 = 5;

/// Number of bytes that an event header occupies on the wire.
pub const EVENT_HEADER_LEN: usize = 4;

/// The 16-bit value that two bytes hold in little-endian order.
pub open spec fn u16_le(low: u8, high: u8) -> u16 {
    (low as int + 0x100 * high as int) as u16
}

/// Reads two bytes in little-endian order.
pub fn u16_from_le(low: u8, high: u8) -> (value: u16)
    ensures
        value == u16_le(low, high),
        value as int == low as int + 0x100 * high as int,
{
    let high_part: u16 = 0x100 * (high as u16);
    high_part + low as u16
}

/// The low and the high byte of a 16-bit value.
pub fn u16_to_le(value: u16) -> (bytes: (u8, u8))
    ensures
        bytes.0 as int == value as int % 0x100,
        bytes.1 as int == value as int / 0x100,
        u16_le(bytes.0, bytes.1) == value,
{
    ((value % 0x100) as u8, (value / 0x100) as u8)
}

/// The header that precedes the payload of every event frame.
#[derive(Debug, Clone, Copy, PartialEq, Eq, Structural)]
pub struct EventHeader {
    /// Number of payload bytes that follow the header.
    pub length: u16,
    /// The event code.
    pub code: u16,
}

impl EventHeader {
    /// The header that four wire bytes spell: two little-endian 16-bit
    /// fields, the length first.
    pub open spec fn parse(bytes: Seq<u8>) -> EventHeader
        recommends
            bytes.len() == 4,
    {
        EventHeader { length: u16_le(bytes[0], bytes[1]), code: u16_le(bytes[2], bytes[3]) }
    }

    /// The four wire bytes of this header.
    pub open spec fn wire(self) -> Seq<u8> {
        seq![
            (self.length as int % 0x100) as u8,
            (self.length as int / 0x100) as u8,
            (self.code as int % 0x100) as u8,
            (self.code as int / 0x100) as u8,
        ]
    }

    /// Decodes a header from its four wire bytes, field by field.
    pub fn from_bytes(bytes: &[u8; 4]) -> (header: EventHeader)
        ensures
            header == EventHeader::parse(bytes@),
    {
        EventHeader {
            length: u16_from_le(bytes[0], bytes[1]),
            code: u16_from_le(bytes[2], bytes[3]),
        }
    }

    /// Encodes this header as its four wire bytes.
    pub fn to_bytes(&self) -> (bytes: [u8; 4])
        ensures
            bytes@ == self.wire(),
            EventHeader::parse(bytes@) == *self,
    {
        let (l0, l1) = u16_to_le(self.length);
        let (c0, c1) = u16_to_le(self.code);
        let bytes = [l0, l1, c0, c1];
        assert(bytes@ =~= self.wire());
        bytes
    }
}

/// Decoding the wire bytes of a header gives the header back, and the wire
/// form of a header is four bytes long.
pub proof fn lemma_header_round_trip(header: EventHeader)
    ensures
        header.wire().len() == 4,
        EventHeader::parse(header.wire()) == header,
{
}

/// Encoding the header decoded from four bytes gives those bytes back.
pub proof fn lemma_header_bytes_round_trip(bytes: Seq<u8>)
    requires
        bytes.len() == 4,
    ensures
        EventHeader::parse(bytes).wire() == bytes,
{
    assert(EventHeader::parse(bytes).wire() =~= bytes);
}

/// The raw record that the base-info query returns.
#[derive(Debug, Clone, Copy, PartialEq, Eq, Structural)]
pub struct BaseInfo {
    /// Status code of the base state.
    pub state: u16,
    /// Packed device type and id of the base.
    pub base_id: u16,
}

/// The group that all control operations of the driver belong to.
pub const SDTX_IOCTL_GROUP: u8 = 0xa5;

/// Whether a control operation hands data back.
#[derive(Debug, Clone, Copy, PartialEq, Eq, Structural)]
pub enum Direction {
    /// The operation carries no data in either direction.
    NoData,
    /// The driver fills a record for the caller.
    Read,
}

/// A control operation of the driver.
#[derive(Debug, Clone, Copy, PartialEq, Eq, Structural)]
pub enum Operation {
    EventsEnable,
    EventsDisable,
    LatchLock,
    LatchUnlock,
    LatchRequest,
    LatchConfirm,
    LatchHeartbeat,
    LatchCancel,
    GetBaseInfo,
    GetDeviceMode,
    GetLatchStatus,
}

impl Operation {
    /// The number of this operation within the driver's group.
    pub open spec fn spec_number(self) -> u8 {
        match self {
            Operation::EventsEnable => 0x21,
            Operation::EventsDisable => 0x22,
            Operation::LatchLock => 0x23,
            Operation::LatchUnlock => 0x24,
            Operation::LatchRequest => 0x25,
            Operation::LatchConfirm => 0x26,
            Operation::LatchHeartbeat => 0x27,
            Operation::LatchCancel => 0x28,
            Operation::GetBaseInfo => 0x29,
            Operation::GetDeviceMode => 0x2a,
            Operation::GetLatchStatus => 0x2b,
        }
    }

    /// Whether this operation hands data back: the three queries do.
    pub open spec fn spec_direction(self) -> Direction {
        match self {
            Operation::GetBaseInfo | Operation::GetDeviceMode | Operation::GetLatchStatus => {
                Direction::Read
            },
            _ => Direction::NoData,
        }
    }

    /// Number of bytes in the record that this operation hands back: two
    /// 16-bit fields for the base info, one for the other queries, nothing
    /// for an operation without data.
    pub open spec fn spec_reply_len(self) -> usize {
        match self {
            Operation::GetBaseInfo => 4,
            Operation::GetDeviceMode | Operation::GetLatchStatus => 2,
            _ => 0,
        }
    }

    /// The number of this operation within the driver's group.
    #[verifier::when_used_as_spec(spec_number)]
    pub fn number(self) -> (number: u8)
        ensures
            number == self.spec_number(),
    {
        match self {
            Operation::EventsEnable => 0x21,
            Operation::EventsDisable => 0x22,
            Operation::LatchLock => 0x23,
            Operation::LatchUnlock => 0x24,
            Operation::LatchRequest => 0x25,
            Operation::LatchConfirm => 0x26,
            Operation::LatchHeartbeat => 0x27,
            Operation::LatchCancel => 0x28,
            Operation::GetBaseInfo => 0x29,
            Operation::GetDeviceMode => 0x2a,
            Operation::GetLatchStatus => 0x2b,
        }
    }

    /// Whether this operation hands data back.
    #[verifier::when_used_as_spec(spec_direction)]
    pub fn direction(self) -> (direction: Direction)
        ensures
            direction == self.spec_direction(),
    {
        match self {
            Operation::GetBaseInfo | Operation::GetDeviceMode | Operation::GetLatchStatus => {
                Direction::Read
            },
            _ => Direction::NoData,
        }
    }

    /// Number of bytes in the record that this operation hands back.
    #[verifier::when_used_as_spec(spec_reply_len)]
    pub fn reply_len(self) -> (len: usize)
        ensures
            len == self.spec_reply_len(),
            (len == 0) == (self.spec_direction() == Direction::NoData),
    {
        match self {
            Operation::GetBaseInfo => 4,
            Operation::GetDeviceMode | Operation::GetLatchStatus => 2,
            _ => 0,
        }
    }
}

/// No two operations share a number.
pub proof fn lemma_operation_numbers_differ(a: Operation, b: Operation)
    ensures
        a.spec_number() == b.spec_number() ==> a == b,
{
}

} // verus!
