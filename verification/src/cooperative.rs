//! Cooperative scheduling: processes run without preemption until they
//! yield or block.

use vstd::prelude::*;

use crate::callback::AppId;
use crate::platform::Chip;
use crate::sched::select_first_ready;
use crate::sched::Kernel;
use crate::sched::Scheduler;
use crate::sched::StoppedExecutingReason;

verus! {

/// A cooperative policy: the first ready process in slot order runs, with
/// no timeslice, until it yields, blocks, or kernel work preempts it.
pub struct CooperativeSched;

impl CooperativeSched {
    /// A cooperative scheduler.
    pub fn new() -> CooperativeSched {
        CooperativeSched
    }
}

impl<C: Chip> Scheduler<C> for CooperativeSched {
    fn next(&mut self, kernel: &Kernel) -> (r: (Option<AppId>, Option<u32>)) {
        (select_first_ready(kernel), None)
    }

    fn result(&mut self, result: StoppedExecutingReason, execution_time_us: Option<u32>) {
    }
}

} // verus!
