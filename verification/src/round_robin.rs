//! Round-robin scheduling: processes take turns in slot order, each with a
//! fixed quantum.

use vstd::prelude::*;

use crate::callback::AppId;
use crate::platform::Chip;
use crate::sched::Kernel;
use crate::sched::Scheduler;
use crate::sched::StoppedExecutingReason;

verus! {

/// The quantum a round-robin scheduler hands out unless told otherwise.
pub const DEFAULT_TIMESLICE_US: u32 = 10000;

/// A round-robin policy: the next process to run is the first ready one
/// strictly after the last completed one, wrapping around the slot table. A
/// process preempted by kernel work keeps its turn; on any other outcome the
/// turn passes on.
pub struct RoundRobinSched {
    /// The quantum handed to every process.
    pub timeslice_us: u32,
    /// The slot whose turn was last completed; the scan starts after it.
    pub last_index: usize,
    /// The slot most recently handed out by `next`, if any.
    pub last_scheduled: Option<usize>,
}

impl RoundRobinSched {
    /// A round-robin scheduler with the default quantum.
    pub fn new() -> (r: RoundRobinSched)
        ensures
            r.timeslice_us == DEFAULT_TIMESLICE_US,
            r.last_index == 0,
            r.last_scheduled is None,
    {
        RoundRobinSched { timeslice_us: DEFAULT_TIMESLICE_US, last_index: 0, last_scheduled: None }
    }

    /// A round-robin scheduler with a caller-chosen quantum.
    pub fn with_timeslice(timeslice_us: u32) -> (r: RoundRobinSched)
        ensures
            r.timeslice_us == timeslice_us,
            r.last_index == 0,
            r.last_scheduled is None,
    {
        RoundRobinSched { timeslice_us, last_index: 0, last_scheduled: None }
    }

    /// The first ready process strictly after slot `last_index`, wrapping
    /// around the table. A returned identity names an occupied slot whose
    /// process is ready (so never one in the Fault or a stopped state), and
    /// no slot strictly between `last_index` and it, in ring order, holds a
    /// ready process; None means no process is ready at all.
    pub fn select_next(kernel: &Kernel, last_index: usize) -> (r: Option<AppId>)
        requires
            kernel.wf(),
        ensures
            r matches Some(a) ==> kernel.slot_occupied(a.index as int) && kernel.slot_process(
                a.index as int,
            ).spec_ready() && kernel.slot_process(a.index as int).spec_appid() == a,
            r matches Some(a) ==> ({
                let n = kernel.processes@.len() as int;
                let start = (last_index as int) % n;
                &&& (a.index > start ==> forall|j: int|
                    start < j < a.index && #[trigger] kernel.slot_occupied(j)
                        ==> !kernel.slot_process(j).spec_ready())
                &&& (a.index <= start ==> (forall|j: int|
                    start < j < n && #[trigger] kernel.slot_occupied(j) ==> !kernel.slot_process(
                        j,
                    ).spec_ready()) && (forall|j: int|
                    0 <= j < a.index && #[trigger] kernel.slot_occupied(j)
                        ==> !kernel.slot_process(j).spec_ready()))
            }),
            r is None ==> forall|i: int|
                #[trigger] kernel.slot_occupied(i) ==> !kernel.slot_process(i).spec_ready(),
    {
        let n = kernel.processes.len();
        if n == 0 {
            return None;
        }
        let start = last_index % n;
        let mut i: usize = start + 1;
        while i < n
            invariant
                start < n,
                start == last_index % n,
                start + 1 <= i <= n,
                n == kernel.processes@.len(),
                kernel.wf(),
                forall|j: int|
                    start + 1 <= j < i && #[trigger] kernel.slot_occupied(j)
                        ==> !kernel.slot_process(j).spec_ready(),
            decreases n - i,
        {
            match &kernel.processes[i] {
                Some(p) => {
                    if p.ready() {
                        proof {
                            assert(kernel.slot_occupied(i as int));
                            assert(kernel.slot_process(i as int).spec_appid().index == i as int);
                        }
                        return Some(p.appid());
                    }
                },
                None => {},
            }
            i += 1;
        }
        let mut k: usize = 0;
        while k < start + 1
            invariant
                start < n,
                start == last_index % n,
                k <= start + 1,
                n == kernel.processes@.len(),
                kernel.wf(),
                forall|j: int|
                    start + 1 <= j < n && #[trigger] kernel.slot_occupied(j)
                        ==> !kernel.slot_process(j).spec_ready(),
                forall|j: int|
                    0 <= j < k && #[trigger] kernel.slot_occupied(j) ==> !kernel.slot_process(
                        j,
                    ).spec_ready(),
            decreases start + 1 - k,
        {
            match &kernel.processes[k] {
                Some(p) => {
                    if p.ready() {
                        proof {
                            assert(kernel.slot_occupied(k as int));
                            assert(kernel.slot_process(k as int).spec_appid().index == k as int);
                        }
                        return Some(p.appid());
                    }
                },
                None => {},
            }
            k += 1;
        }
        None
    }
}

impl RoundRobinSched {
    /// Note why the last handed-out turn ended: a process preempted for
    /// kernel work keeps its turn; any other outcome passes the turn to the
    /// slot that ran, so the next scan starts after it.
    pub fn advance_turn(&mut self, result: StoppedExecutingReason)
        ensures
            final (self).timeslice_us == old(self).timeslice_us,
            final (self).last_scheduled == old(self).last_scheduled,
            final (self).last_index == (if result == StoppedExecutingReason::KernelPreemption {
                old(self).last_index
            } else {
                match old(self).last_scheduled {
                    Some(i) => i,
                    None => old(self).last_index,
                }
            }),
    {
        if !matches!(result, StoppedExecutingReason::KernelPreemption) {
            match self.last_scheduled {
                Some(i) => {
                    self.last_index = i;
                },
                None => {},
            }
        }
    }
}

impl<C: Chip> Scheduler<C> for RoundRobinSched {
    fn next(&mut self, kernel: &Kernel) -> (r: (Option<AppId>, Option<u32>)) {
        match Self::select_next(kernel, self.last_index) {
            Some(appid) => {
                self.last_scheduled = Some(appid.index);
                (Some(appid), Some(self.timeslice_us))
            },
            None => {
                self.last_scheduled = None;
                (None, None)
            },
        }
    }

    fn result(&mut self, result: StoppedExecutingReason, execution_time_us: Option<u32>) {
        self.advance_turn(result);
    }
}

} // verus!
