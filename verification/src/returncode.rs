//! Return codes passed between the kernel and userspace processes.
//!
//! The numeric values of these codes are part of the syscall ABI and must be
//! preserved bit-exact for binary compatibility with existing userspace
//! images.

use vstd::prelude::*;

verus! {

/// The closed set of codes a syscall or driver operation can produce.
#[derive(Clone, Copy, PartialEq, Eq, Structural, Debug)]
pub enum ReturnCode {
    /// Success, carrying a word-sized payload (used by operations that
    /// report an address or a count).
    SuccessWithValue { value: usize },
    /// Success without a payload.
    SUCCESS,
    /// Generic failure.
    FAIL,
    /// Underlying system is busy; retry.
    EBUSY,
    /// The state requested is already set.
    EALREADY,
    /// The component is powered down.
    EOFF,
    /// Reservation required before use.
    ERESERVE,
    /// An invalid parameter was passed.
    EINVAL,
    /// A parameter passed was too large.
    ESIZE,
    /// The operation was cancelled.
    ECANCEL,
    /// Required memory was not available.
    ENOMEM,
    /// The operation or command is unsupported.
    ENOSUPPORT,
    /// The device does not exist.
    ENODEVICE,
    /// The device is not physically installed.
    EUNINSTALLED,
}

impl ReturnCode {
    /// The numeric value of this code on the syscall ABI wire.
    pub open spec fn spec_numeric(self) -> int {
        match self {
            ReturnCode::SuccessWithValue { value } => value as int,
            ReturnCode::SUCCESS => 0,
            ReturnCode::FAIL => -1,
            ReturnCode::EBUSY => -2,
            ReturnCode::EALREADY => -3,
            ReturnCode::EOFF => -4,
            ReturnCode::ERESERVE => -5,
            ReturnCode::EINVAL => -6,
            ReturnCode::ESIZE => -7,
            ReturnCode::ECANCEL => -8,
            ReturnCode::ENOMEM => -9,
            ReturnCode::ENOSUPPORT => -10,
            ReturnCode::ENODEVICE => -11,
            ReturnCode::EUNINSTALLED => -12,
        }
    }

    /// The ABI value written back into a process's saved register file.
    ///
    /// A success payload too wide for `isize` is truncated, as the register
    /// write itself would truncate it.
    pub fn into_isize(self) -> (r: isize)
        ensures
            self.spec_numeric() <= isize::MAX ==> r as int == self.spec_numeric(),
    {
        match self {
            ReturnCode::SuccessWithValue { value } => #[verifier::truncate] (value as isize),
            ReturnCode::SUCCESS => 0,
            ReturnCode::FAIL => -1,
            ReturnCode::EBUSY => -2,
            ReturnCode::EALREADY => -3,
            ReturnCode::EOFF => -4,
            ReturnCode::ERESERVE => -5,
            ReturnCode::EINVAL => -6,
            ReturnCode::ESIZE => -7,
            ReturnCode::ECANCEL => -8,
            ReturnCode::ENOMEM => -9,
            ReturnCode::ENOSUPPORT => -10,
            ReturnCode::ENODEVICE => -11,
            ReturnCode::EUNINSTALLED => -12,
        }
    }
}

} // verus!
