//! Process identities and userspace callback records.

use vstd::prelude::*;

verus! {

/// Stable identity of a process: the index of its slot in the process table
/// combined with a generation number drawn from a kernel-wide counter.
///
/// The pair uniquely identifies a process across restarts and slot reuse:
/// two distinct living processes never share an `AppId`, and a stale `AppId`
/// whose generation number no longer matches the slot's occupant is rejected
/// by every lookup.
#[derive(Clone, Copy, PartialEq, Eq, Structural, Debug)]
pub struct AppId {
    /// Index of the process's slot in the process table.
    pub index: usize,
    /// Generation number, unique for the lifetime of the system.
    pub id: usize,
}

impl AppId {
    /// Build an identity from a slot index and a generation number.
    pub fn new(index: usize, id: usize) -> (r: AppId)
        ensures
            r.index == index,
            r.id == id,
    {
        AppId { index, id }
    }

    /// The generation number of this identity.
    pub fn id(&self) -> (r: usize)
        ensures
            r == self.id,
    {
        self.id
    }
}

/// Identifies a callback subscription slot: a driver number paired with a
/// subscribe number within that driver.
#[derive(Clone, Copy, PartialEq, Eq, Structural, Debug)]
pub struct CallbackId {
    /// The driver the callback belongs to.
    pub driver_num: usize,
    /// The subscription slot within the driver.
    pub subscribe_num: usize,
}

/// A userspace callback registered through SUBSCRIBE: the subscriber's
/// identity, the subscription slot, an opaque user-data cookie, and the
/// address of the userspace function to invoke.
#[derive(Clone, Copy, PartialEq, Eq, Structural, Debug)]
pub struct Callback {
    /// The process that subscribed.
    pub app_id: AppId,
    /// The subscription slot the callback fills.
    pub callback_id: CallbackId,
    /// Opaque word handed back to userspace with each invocation.
    pub appdata: usize,
    /// Address of the userspace handler; never null.
    pub fn_ptr: usize,
}

impl Callback {
    /// Build a callback record. The handler address must be non-null; a null
    /// pointer in SUBSCRIBE means "clear the subscription" and never reaches
    /// this constructor.
    pub fn new(app_id: AppId, callback_id: CallbackId, appdata: usize, fn_ptr: usize) -> (r:
        Callback)
        requires
            fn_ptr != 0,
        ensures
            r == (Callback { app_id, callback_id, appdata, fn_ptr }),
    {
        Callback { app_id, callback_id, appdata, fn_ptr }
    }
}

} // verus!
