//! The error types that the modules of this library share.

use vstd::prelude::*;
use crate::dtx::DtxError;
use crate::pci::SysFsError;

verus! {

/// The coarse kind of a failure.
#[derive(Debug, Clone, Copy, PartialEq, Eq, Structural)]
pub enum ErrorKind {
    /// An I/O operation failed.
    Io,
    /// The device handed out data that cannot be understood.
    InvalidData,
    /// The device cannot be accessed.
    DeviceAccess,
}

/// A failure of an operation on a device.
///
/// `E` is the caller's type for an error of the operating system. The
/// library never looks into such a value: it hands it on unchanged.
#[derive(Debug, Clone, PartialEq, Eq)]
#[allow(inconsistent_fields)]
pub enum Error<E> {
    /// The device could not be opened.
    DeviceAccess { source: E, device: String },
    /// A read or a control call failed.
    Io { source: E },
    /// The driver returned a value that the protocol does not name.
    Dtx { source: DtxError },
    /// An attribute file is missing or holds what cannot be understood.
    SysFs { source: SysFsError },
    /// The device handed out data that cannot be understood.
    InvalidData,
}

impl ErrorKind {
    /// What a failure of this kind says.
    pub open spec fn message(self) -> Seq<char> {
        match self {
            ErrorKind::Io => "I/O failure"@,
            ErrorKind::InvalidData => "Received invalid data"@,
            ErrorKind::DeviceAccess => "Cannot access device"@,
        }
    }

    /// What a failure of this kind says.
    pub fn as_str(self) -> (text: &'static str)
        ensures
            text@ == self.message(),
    {
        match self {
            ErrorKind::Io => "I/O failure",
            ErrorKind::InvalidData => "Received invalid data",
            ErrorKind::DeviceAccess => "Cannot access device",
        }
    }
}

impl<E> Error<E> {
    /// The coarse kind of this failure.
    pub open spec fn spec_kind(&self) -> ErrorKind {
        match self {
            Error::DeviceAccess { .. } => ErrorKind::DeviceAccess,
            Error::Io { .. } => ErrorKind::Io,
            Error::Dtx { .. } => ErrorKind::InvalidData,
            Error::SysFs { .. } => ErrorKind::InvalidData,
            Error::InvalidData => ErrorKind::InvalidData,
        }
    }

    /// The coarse kind of this failure.
    pub fn kind(&self) -> (kind: ErrorKind)
        ensures
            kind == self.spec_kind(),
    {
        match self {
            Error::DeviceAccess { .. } => ErrorKind::DeviceAccess,
            Error::Io { .. } => ErrorKind::Io,
            Error::Dtx { .. } => ErrorKind::InvalidData,
            Error::SysFs { .. } => ErrorKind::InvalidData,
            Error::InvalidData => ErrorKind::InvalidData,
        }
    }
}

} // verus!
