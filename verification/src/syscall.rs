//! System call decoding: the four syscall kinds and the reasons a context
//! switch back into the kernel can occur.

use vstd::prelude::*;

verus! {

/// A decoded system call issued by a userspace process.
///
/// Addresses that cross the user/kernel boundary (the callback pointer of
/// SUBSCRIBE and the buffer address of ALLOW) are carried as plain words; a
/// zero word is the null pointer.
#[derive(Clone, Copy, PartialEq, Eq, Structural, Debug)]
pub enum Syscall {
    /// Yield the processor until a callback is delivered.
    YIELD,
    /// Subscribe a callback function to an upcall slot of a driver.
    SUBSCRIBE {
        /// The driver to subscribe with.
        driver_number: usize,
        /// The upcall slot within the driver.
        subdriver_number: usize,
        /// Address of the userspace handler; zero clears the subscription.
        callback_ptr: usize,
        /// Opaque user-data cookie returned with each upcall.
        appdata: usize,
    },
    /// Instruct a driver to perform a command.
    COMMAND {
        /// The driver to command.
        driver_number: usize,
        /// The command within the driver.
        subdriver_number: usize,
        /// First command argument.
        arg0: usize,
        /// Second command argument.
        arg1: usize,
    },
    /// Share a region of the process's own memory with a driver.
    ALLOW {
        /// The driver to share with.
        driver_number: usize,
        /// The buffer slot within the driver.
        subdriver_number: usize,
        /// Start address of the buffer; zero revokes the sharing.
        allow_address: usize,
        /// Length of the buffer in bytes.
        allow_size: usize,
    },
    /// Adjust the process's own memory bookkeeping.
    MEMOP {
        /// Which memory operation to perform.
        operand: usize,
        /// The operation's argument.
        arg0: usize,
    },
}

impl Syscall {
    /// The syscall class number on the ABI wire. The numbering is part of
    /// the ABI and must match existing userspace images.
    pub open spec fn spec_class_number(self) -> usize {
        match self {
            Syscall::YIELD => 0,
            Syscall::SUBSCRIBE { .. } => 1,
            Syscall::COMMAND { .. } => 2,
            Syscall::ALLOW { .. } => 3,
            Syscall::MEMOP { .. } => 4,
        }
    }

    /// The syscall class number on the ABI wire.
    pub fn class_number(&self) -> (r: usize)
        ensures
            r == self.spec_class_number(),
    {
        match self {
            Syscall::YIELD => 0,
            Syscall::SUBSCRIBE { .. } => 1,
            Syscall::COMMAND { .. } => 2,
            Syscall::ALLOW { .. } => 3,
            Syscall::MEMOP { .. } => 4,
        }
    }
}

/// Why a context switch into a userspace process returned to the kernel.
#[derive(Clone, Copy, PartialEq, Eq, Structural, Debug)]
pub enum ContextSwitchReason {
    /// The process called a syscall; carries the decoded call.
    SyscallFired {
        /// The decoded system call.
        syscall: Syscall,
    },
    /// The process triggered a hardware fault (MPU violation, bad
    /// instruction, and the like).
    Fault,
    /// An interrupt arrived while the process was running.
    Interrupted,
}

} // verus!
