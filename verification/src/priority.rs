//! Static-priority scheduling: a process's priority is its position in the
//! slot table, earlier slots first.

use vstd::prelude::*;

use crate::callback::AppId;
use crate::platform::Chip;
use crate::sched::select_first_ready;
use crate::sched::Kernel;
use crate::sched::Scheduler;
use crate::sched::StoppedExecutingReason;

verus! {

/// The quantum a priority scheduler hands out unless told otherwise.
pub const DEFAULT_PRIORITY_TIMESLICE_US: u32 = 10000;

/// A static-priority policy: the ready process in the earliest slot always
/// runs next, so re-evaluating after every quantum lets a higher-priority
/// process that became ready take over.
pub struct PrioritySched {
    /// The quantum handed to every process.
    pub timeslice_us: u32,
}

impl PrioritySched {
    /// A priority scheduler with the default quantum.
    pub fn new() -> (r: PrioritySched)
        ensures
            r.timeslice_us == DEFAULT_PRIORITY_TIMESLICE_US,
    {
        PrioritySched { timeslice_us: DEFAULT_PRIORITY_TIMESLICE_US }
    }
}

impl<C: Chip> Scheduler<C> for PrioritySched {
    fn next(&mut self, kernel: &Kernel) -> (r: (Option<AppId>, Option<u32>)) {
        (select_first_ready(kernel), Some(self.timeslice_us))
    }

    fn result(&mut self, result: StoppedExecutingReason, execution_time_us: Option<u32>) {
    }
}

} // verus!
