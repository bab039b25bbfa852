//! What a system call hands back to the process: a non-negative number on
//! success, a negative one that names the failure.

use vstd::prelude::*;
use vstd::std_specs::convert::FromSpecImpl;

verus! {

/// The result of a system call or of a driver's operation.
#[derive(Clone, Copy, Debug, PartialEq, Eq, Structural)]
pub enum ReturnCode {
    /// Success, with a value for the caller.
    SuccessWithValue { value: usize },
    /// Success.
    SUCCESS,
    /// Unspecified failure.
    FAIL,
    /// The resource is busy.
    EBUSY,
    /// The operation is already under way.
    EALREADY,
    /// The component is switched off.
    EOFF,
    /// A reservation is needed first.
    ERESERVE,
    /// An argument is invalid.
    EINVAL,
    /// A size is invalid.
    ESIZE,
    /// The operation was cancelled.
    ECANCEL,
    /// No memory is left.
    ENOMEM,
    /// The operation is not supported.
    ENOSUPPORT,
    /// There is no such device.
    ENODEVICE,
    /// The device is not installed.
    EUNINSTALLED,
    /// The packet was not acknowledged.
    ENOACK,
}

impl ReturnCode {
    /// The number that the process sees in its first argument register.
    pub open spec fn code(self) -> int {
        match self {
            ReturnCode::SuccessWithValue { value } => (value as isize) as int,
            ReturnCode::SUCCESS => 0,
            ReturnCode::FAIL => -1,
            ReturnCode::EBUSY => -2,
            ReturnCode::EALREADY => -3,
            ReturnCode::EOFF => -4,
            ReturnCode::ERESERVE => -5,
            ReturnCode::EINVAL => -6,
            ReturnCode::ESIZE => -7,
            ReturnCode::ECANCEL => -8,
            ReturnCode::ENOMEM => -9,
            ReturnCode::ENOSUPPORT => -10,
            ReturnCode::ENODEVICE => -11,
            ReturnCode::EUNINSTALLED => -12,
            ReturnCode::ENOACK => -13,
        }
    }
}

impl From<ReturnCode> for isize {
    fn from(code: ReturnCode) -> (r: isize) {
        match code {
            ReturnCode::SuccessWithValue { value } => value as isize,
            ReturnCode::SUCCESS => 0,
            ReturnCode::FAIL => -1,
            ReturnCode::EBUSY => -2,
            ReturnCode::EALREADY => -3,
            ReturnCode::EOFF => -4,
            ReturnCode::ERESERVE => -5,
            ReturnCode::EINVAL => -6,
            ReturnCode::ESIZE => -7,
            ReturnCode::ECANCEL => -8,
            ReturnCode::ENOMEM => -9,
            ReturnCode::ENOSUPPORT => -10,
            ReturnCode::ENODEVICE => -11,
            ReturnCode::EUNINSTALLED => -12,
            ReturnCode::ENOACK => -13,
        }
    }
}

impl FromSpecImpl<ReturnCode> for isize {
    open spec fn obeys_from_spec() -> bool {
        true
    }

    open spec fn from_spec(code: ReturnCode) -> isize {
        code.code() as isize
    }
}

} // verus!
