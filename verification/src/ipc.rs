//! Inter-process communication wiring.
//!
//! The IPC module itself is a capsule outside this crate; the dispatcher
//! only needs to know whether one is wired and, if so, to hand it a pending
//! notification. Delivering an IPC task on a board with no IPC module is a
//! kernel consistency error.

use vstd::prelude::*;

use crate::callback::AppId;
use crate::process::IpcType;

verus! {

/// The dispatcher's view of the board's IPC module, if any.
///
/// `spec_wired` is the implementation's standing claim about whether an IPC
/// module is present; it never changes at runtime, and callbacks are only
/// ever scheduled through a wired mechanism.
pub trait IpcMechanism {
    /// Whether an IPC module is wired on this board.
    open spec fn spec_wired(&self) -> bool {
        false
    }

    /// Whether an IPC module is wired on this board.
    fn wired(&self) -> (r: bool)
        ensures
            r == self.spec_wired(),
    ;

    /// Schedule the IPC callback for `schedule_on` notifying it about
    /// `called_from`.
    fn schedule_callback(&mut self, schedule_on: AppId, called_from: AppId, ipc_type: IpcType)
        requires
            old(self).spec_wired(),
        ensures
            final (self).spec_wired(),
    ;
}

/// The absence of an IPC module: boards without IPC pass this.
pub struct NoIpc;

impl IpcMechanism for NoIpc {
    fn wired(&self) -> (r: bool) {
        false
    }

    fn schedule_callback(&mut self, schedule_on: AppId, called_from: AppId, ipc_type: IpcType) {
    }
}

} // verus!
