//! Result codes and errors of the native device abstraction layer.
//!
//! The native driver answers every call with a numeric result code.  The
//! decoding of that code — and of the return value of the bus-cycle
//! trigger in particular — is plain logic and is verified here; the
//! unverified adapter around the driver maps each raw integer through
//! these functions.

use vstd::prelude::*;

verus! {

/// The possible result codes returned by DAL functions.
#[derive(Debug, Clone, Copy, PartialEq, Eq, Structural)]
pub enum DalResult {
    /// The call succeeded.
    Success,
    /// The call failed.
    Failure,
    /// The device does not implement the call.
    NotUsed,
}

/// The raw code `0` means success, `-1` failure, `1` not used; every
/// other value is treated as a failure.
pub open spec fn spec_dal_result(value: i32) -> DalResult {
    if value == 0 {
        DalResult::Success
    } else if value == 1 {
        DalResult::NotUsed
    } else {
        DalResult::Failure
    }
}

impl From<i32> for DalResult {
    /// Decodes a raw DAL return code.
    fn from(value: i32) -> (r: DalResult) {
        match value {
            -1 => DalResult::Failure,
            0 => DalResult::Success,
            1 => DalResult::NotUsed,
            _ => DalResult::Failure,
        }
    }
}

impl vstd::std_specs::convert::FromSpecImpl<i32> for DalResult {
    open spec fn obeys_from_spec() -> bool {
        true
    }

    open spec fn from_spec(value: i32) -> DalResult {
        spec_dal_result(value)
    }
}

/// Error values the K-Bus driver layer reports.
#[derive(Debug, Clone, Copy, PartialEq, Eq, Structural)]
pub enum Error {
    /// The function is not implemented by the device.
    Unimplemented,
    /// A generic error returned from the DAL.
    DalError,
    /// An interior nul byte was found in a string.
    NulError,
    /// The specified device was not found.
    DeviceNotFound,
}

impl Error {
    /// A short description of the error.
    pub fn message(&self) -> (r: &'static str)
        ensures
            r@ == match self {
                Error::Unimplemented => "function is not implemented by the device"@,
                Error::DalError => "Operation failed"@,
                Error::NulError => "interior nul byte found"@,
                Error::DeviceNotFound => "device not found"@,
            },
    {
        match self {
            Error::Unimplemented => "function is not implemented by the device",
            Error::DalError => "Operation failed",
            Error::NulError => "interior nul byte found",
            Error::DeviceNotFound => "device not found",
        }
    }
}

/// Decodes the return value of the bus-cycle trigger: `0` is a completed
/// cycle, `1` a device without the call, anything else a hardware fault.
pub fn cycle_result(retval: i32) -> (r: Result<(), Error>)
    ensures
        r == match spec_dal_result(retval) {
            DalResult::Success => Result::<(), Error>::Ok(()),
            DalResult::Failure => Result::<(), Error>::Err(Error::DalError),
            DalResult::NotUsed => Result::<(), Error>::Err(Error::Unimplemented),
        },
{
    match DalResult::from(retval) {
        DalResult::Success => Ok(()),
        DalResult::Failure => Err(Error::DalError),
        DalResult::NotUsed => Err(Error::Unimplemented),
    }
}

} // verus!
