//! What the replies of the driver mean.
//!
//! The caller issues a control operation and hands its outcome to the
//! function of the same name here: the raw record that the driver filled, or
//! the error of the operating system. A failed call becomes an I/O error; a
//! record is decoded strictly, and a value that the protocol does not name
//! becomes a protocol error.

use vstd::prelude::*;
use crate::dtx::uapi;
use crate::dtx::{BaseInfo, DeviceMode, DtxError, LatchStatus};
use crate::error::Error;

verus! {

/// The failure that a protocol error is reported as.
pub open spec fn protocol_failure<T, E>(decoded: Result<T, DtxError>) -> Result<T, Error<E>> {
    match decoded {
        Ok(value) => Ok(value),
        Err(source) => Err(Error::Dtx { source }),
    }
}

/// The result of a control operation that carries no data: success where
/// the driver accepted it, the error of the operating system otherwise.
pub fn control<E>(reply: Result<(), E>) -> (result: Result<(), Error<E>>)
    ensures
        match reply {
            Ok(_) => result is Ok,
            Err(source) => result == Err::<(), Error<E>>(Error::Io { source }),
        },
{
    match reply {
        Ok(_) => Ok(()),
        Err(source) => Err(Error::Io { source }),
    }
}

/// The base info that the reply to the base-info query holds.
pub fn get_base_info<E>(reply: Result<uapi::BaseInfo, E>) -> (result: Result<BaseInfo, Error<E>>)
    ensures
        match reply {
            Ok(raw) => result == protocol_failure::<BaseInfo, E>(BaseInfo::decode(raw)),
            Err(source) => result == Err::<BaseInfo, Error<E>>(Error::Io { source }),
        },
{
    match reply {
        Ok(raw) => match BaseInfo::try_from(raw) {
            Ok(info) => Ok(info),
            Err(source) => Err(Error::Dtx { source }),
        },
        Err(source) => Err(Error::Io { source }),
    }
}

/// The device mode that the reply to the device-mode query holds.
pub fn get_device_mode<E>(reply: Result<u16, E>) -> (result: Result<DeviceMode, Error<E>>)
    ensures
        match reply {
            Ok(raw) => result == protocol_failure::<DeviceMode, E>(DeviceMode::decode(raw)),
            Err(source) => result == Err::<DeviceMode, Error<E>>(Error::Io { source }),
        },
{
    match reply {
        Ok(raw) => match DeviceMode::try_from(raw) {
            Ok(mode) => Ok(mode),
            Err(source) => Err(Error::Dtx { source }),
        },
        Err(source) => Err(Error::Io { source }),
    }
}

/// The latch status that the reply to the latch-status query holds.
pub fn get_latch_status<E>(reply: Result<u16, E>) -> (result: Result<LatchStatus, Error<E>>)
    ensures
        match reply {
            Ok(raw) => result == protocol_failure::<LatchStatus, E>(LatchStatus::decode(raw)),
            Err(source) => result == Err::<LatchStatus, Error<E>>(Error::Io { source }),
        },
{
    match reply {
        Ok(raw) => match LatchStatus::try_from(raw) {
            Ok(status) => Ok(status),
            Err(source) => Err(Error::Dtx { source }),
        },
        Err(source) => Err(Error::Io { source }),
    }
}

} // verus!
