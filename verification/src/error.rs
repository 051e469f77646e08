//! Failures, and how Vulkan result codes map to them.

use crate::vulkan::{
    ERROR_DEVICE_LOST, ERROR_EXTENSION_NOT_PRESENT, ERROR_FEATURE_NOT_PRESENT,
    ERROR_FORMAT_NOT_SUPPORTED, ERROR_INCOMPATIBLE_DRIVER, ERROR_LAYER_NOT_PRESENT,
    ERROR_OUT_OF_DEVICE_MEMORY, ERROR_OUT_OF_HOST_MEMORY, ERROR_TOO_MANY_OBJECTS,
};
use vstd::prelude::*;

verus! {

/// Why an operation failed.
#[derive(Clone, Copy, Debug, PartialEq, Eq, Structural)]
pub enum Error {
    /// The device or the configuration lacks something that is needed.
    Unsupported,
    /// The device was lost.
    DeviceLost,
    /// The driver failed in another way.
    DriverError,
}

/// What a failing Vulkan result code means.
#[derive(Clone, Copy, Debug, PartialEq, Eq, Structural)]
pub enum Failure {
    /// Resources are exhausted: the process cannot go on and aborts.
    Exhausted,
    /// The operation reports an error to its caller.
    Reported(Error),
}

/// The codes that say that memory or object slots ran out.
pub open spec fn is_exhaustion(code: i32) -> bool {
    ||| code == ERROR_OUT_OF_HOST_MEMORY
    ||| code == ERROR_OUT_OF_DEVICE_MEMORY
    ||| code == ERROR_TOO_MANY_OBJECTS
}

/// The codes that say that something needed is not there.
pub open spec fn is_lack(code: i32) -> bool {
    ||| code == ERROR_LAYER_NOT_PRESENT
    ||| code == ERROR_EXTENSION_NOT_PRESENT
    ||| code == ERROR_FEATURE_NOT_PRESENT
    ||| code == ERROR_INCOMPATIBLE_DRIVER
    ||| code == ERROR_FORMAT_NOT_SUPPORTED
}

/// What the failing code `code` means.
pub open spec fn failure_of(code: i32) -> Failure {
    if is_exhaustion(code) {
        Failure::Exhausted
    } else if code == ERROR_DEVICE_LOST {
        Failure::Reported(Error::DeviceLost)
    } else if is_lack(code) {
        Failure::Reported(Error::Unsupported)
    } else {
        Failure::Reported(Error::DriverError)
    }
}

impl Failure {
    /// Sorts a failing Vulkan result code.
    pub fn from_code(code: i32) -> (r: Failure)
        ensures
            r == failure_of(code),
    {
        if code == ERROR_OUT_OF_HOST_MEMORY || code == ERROR_OUT_OF_DEVICE_MEMORY
            || code == ERROR_TOO_MANY_OBJECTS {
            Failure::Exhausted
        } else if code == ERROR_DEVICE_LOST {
            Failure::Reported(Error::DeviceLost)
        } else if code == ERROR_LAYER_NOT_PRESENT || code == ERROR_EXTENSION_NOT_PRESENT || code
            == ERROR_FEATURE_NOT_PRESENT || code == ERROR_INCOMPATIBLE_DRIVER || code
            == ERROR_FORMAT_NOT_SUPPORTED {
            Failure::Reported(Error::Unsupported)
        } else {
            Failure::Reported(Error::DriverError)
        }
    }
}

impl Error {
    /// The text that describes the error.
    pub fn message(self) -> (r: &'static str)
        ensures
            r@ == (match self {
                Error::Unsupported => "unsupported graphics device or configuration"@,
                Error::DeviceLost => "graphics device lost"@,
                Error::DriverError => "Vulkan driver error"@,
            }),
    {
        match self {
            Error::Unsupported => "unsupported graphics device or configuration",
            Error::DeviceLost => "graphics device lost",
            Error::DriverError => "Vulkan driver error",
        }
    }
}

/// Codes that say that memory or object slots ran out abort, a lost device is told apart, what is
/// not there is unsupported, and every other code is an error of the driver.
pub proof fn codes_have_one_meaning(code: i32)
    ensures
        failure_of(code) is Exhausted <==> code == -1 || code == -2 || code == -10,
        failure_of(code) == Failure::Reported(Error::DeviceLost) <==> code == -4,
        failure_of(code) == Failure::Reported(Error::Unsupported) <==> code == -6 || code == -7
            || code == -8 || code == -9 || code == -11,
        failure_of(code) == Failure::Reported(Error::DriverError) <==> !(-2 <= code <= -1) && code
            != -4 && !(-11 <= code <= -6),
{
}

} // verus!
