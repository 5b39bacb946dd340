//! Multi-level feedback queue scheduling: processes start at the highest
//! priority level and sink to lower, longer-quantum levels as they use up
//! whole timeslices; a periodic priority reset lets them decay back up.

use vstd::prelude::*;

use crate::callback::AppId;
use crate::platform::Chip;
use crate::sched::Kernel;
use crate::sched::Scheduler;
use crate::sched::StoppedExecutingReason;

verus! {

/// How many priority levels the policy keeps.
pub const NUM_QUEUE_LEVELS: usize = 3;

/// The quantum at the highest priority level; each level below doubles it.
pub const BASE_TIMESLICE_US: u32 = 10000;

/// The quantum handed out at `level`: the base quantum, doubled per level.
pub fn timeslice_for_level(level: usize) -> (r: u32)
    ensures
        level == 0 ==> r == BASE_TIMESLICE_US,
        level == 1 ==> r == 2 * BASE_TIMESLICE_US,
        level >= 2 ==> r == 4 * BASE_TIMESLICE_US,
{
    match level {
        0 => BASE_TIMESLICE_US,
        1 => 2 * BASE_TIMESLICE_US,
        _ => 4 * BASE_TIMESLICE_US,
    }
}

/// Whether `a` names a live, ready process of `kernel`: its slot holds a
/// process with exactly this identity, and that process is ready.
pub open spec fn entry_runnable(kernel: Kernel, a: AppId) -> bool {
    match kernel.spec_lookup(a) {
        Some(p) => p.spec_ready(),
        None => false,
    }
}

/// The entries of levels `from .. to` of `queues`, concatenated in level
/// order, each level front first.
pub open spec fn levels_flattened(queues: Seq<Vec<AppId>>, from: int, to: int) -> Seq<AppId>
    decreases to - from,
{
    if from >= to {
        Seq::empty()
    } else {
        levels_flattened(queues, from, to - 1) + queues[to - 1]@
    }
}

/// A multi-level feedback policy. Level 0 is the highest priority; within a
/// level, processes take turns in queue order. A process that burns a whole
/// quantum sinks one level; one preempted for kernel work keeps its turn;
/// any other outcome sends it to the back of its level.
pub struct MLFQSched {
    /// The per-level queues of process identities, highest priority first.
    pub queues: Vec<Vec<AppId>>,
    /// The level, position, and identity handed out by the last `next`.
    pub last_scheduled: Option<(usize, usize, AppId)>,
}

impl MLFQSched {
    /// A multi-level feedback scheduler with [`NUM_QUEUE_LEVELS`] empty
    /// levels.
    pub fn new() -> (r: MLFQSched)
        ensures
            r.queues@.len() == NUM_QUEUE_LEVELS,
            forall|l: int| 0 <= l < r.queues@.len() ==> (#[trigger] r.queues@[l])@.len() == 0,
            r.last_scheduled is None,
    {
        let mut queues: Vec<Vec<AppId>> = Vec::new();
        queues.push(Vec::new());
        queues.push(Vec::new());
        queues.push(Vec::new());
        MLFQSched { queues, last_scheduled: None }
    }

    /// Enroll a loaded process at the highest priority level. Boards call
    /// this once per process after building the process table.
    pub fn add_process(&mut self, appid: AppId)
        requires
            old(self).queues@.len() > 0,
        ensures
            final (self).queues@.len() == old(self).queues@.len(),
            final (self).queues@[0]@ == old(self).queues@[0]@.push(appid),
            forall|l: int|
                1 <= l < old(self).queues@.len() ==> final (self).queues@[l] == old(
                    self,
                ).queues@[l],
            final (self).last_scheduled == old(self).last_scheduled,
    {
        self.queues[0].push(appid);
    }

    /// The highest-priority enrolled process that is still live and ready:
    /// its level, its position within the level, and its identity. A stale
    /// identity (its process died, or the slot was reused) is skipped, as is
    /// every entry that is not ready; no runnable entry stands on an
    /// earlier level, nor earlier within the chosen level.
    pub fn select(&self, kernel: &Kernel) -> (r: Option<(usize, usize, AppId)>)
        requires
            kernel.wf(),
        ensures
            r matches Some((level, pos, a)) ==> level < self.queues@.len() && pos
                < self.queues@[level as int]@.len() && self.queues@[level as int]@[pos as int] == a
                && kernel.slot_occupied(a.index as int) && kernel.slot_process(
                a.index as int,
            ).spec_ready() && kernel.slot_process(a.index as int).spec_appid() == a,
            r matches Some((level, pos, a)) ==> (forall|l: int, e: int|
                0 <= l < level && 0 <= e < self.queues@[l]@.len() ==> !entry_runnable(
                    *kernel,
                    #[trigger] self.queues@[l]@[e],
                )) && (forall|e: int|
                0 <= e < pos ==> !entry_runnable(
                    *kernel,
                    #[trigger] self.queues@[level as int]@[e],
                )),
            r is None ==> forall|l: int, e: int|
                0 <= l < self.queues@.len() && 0 <= e < self.queues@[l]@.len() ==> !entry_runnable(
                    *kernel,
                    #[trigger] self.queues@[l]@[e],
                ),
    {
        let mut level: usize = 0;
        while level < self.queues.len()
            invariant
                level <= self.queues@.len(),
                kernel.wf(),
                forall|l: int, e: int|
                    0 <= l < level && 0 <= e < self.queues@[l]@.len() ==> !entry_runnable(
                        *kernel,
                        #[trigger] self.queues@[l]@[e],
                    ),
            decreases self.queues@.len() - level,
        {
            let mut pos: usize = 0;
            while pos < self.queues[level].len()
                invariant
                    level < self.queues@.len(),
                    pos <= self.queues@[level as int]@.len(),
                    kernel.wf(),
                    forall|l: int, e: int|
                        0 <= l < level && 0 <= e < self.queues@[l]@.len() ==> !entry_runnable(
                            *kernel,
                            #[trigger] self.queues@[l]@[e],
                        ),
                    forall|e: int|
                        0 <= e < pos ==> !entry_runnable(
                            *kernel,
                            #[trigger] self.queues@[level as int]@[e],
                        ),
                decreases self.queues@[level as int]@.len() - pos,
            {
                let a = self.queues[level][pos];
                let mut runnable = false;
                if a.index < kernel.processes.len() {
                    match &kernel.processes[a.index] {
                        Some(p) => {
                            if p.appid() == a && p.ready() {
                                runnable = true;
                            }
                        },
                        None => {},
                    }
                }
                if runnable {
                    proof {
                        assert(kernel.slot_occupied(a.index as int));
                    }
                    return Some((level, pos, a));
                }
                proof {
                    assert(!entry_runnable(*kernel, a));
                }
                pos += 1;
            }
            level += 1;
        }
        None
    }

    /// Move every enrolled process back to the highest priority level: the
    /// top level ends holding its old entries followed by every lower
    /// level's entries, in level order and in order within each level, and
    /// the lower levels end empty — no enrolled process is lost. Boards
    /// call this periodically so that sunk processes decay back up.
    pub fn reset_priorities(&mut self)
        requires
            old(self).queues@.len() > 0,
        ensures
            final (self).queues@.len() == old(self).queues@.len(),
            forall|l: int|
                1 <= l < final (self).queues@.len() ==> (#[trigger] final (self).queues@[l])@.len()
                    == 0,
            final (self).queues@[0]@ == old(self).queues@[0]@ + levels_flattened(
                old(self).queues@,
                1,
                old(self).queues@.len() as int,
            ),
            final (self).last_scheduled == old(self).last_scheduled,
    {
        let ghost orig = self.queues@;
        let n = self.queues.len();
        let mut level: usize = 1;
        while level < n
            invariant
                1 <= level <= n,
                n == self.queues@.len(),
                n == orig.len(),
                self.last_scheduled == old(self).last_scheduled,
                forall|l: int| 1 <= l < level ==> (#[trigger] self.queues@[l])@.len() == 0,
                forall|l: int| level <= l < n ==> #[trigger] self.queues@[l] == orig[l],
                self.queues@[0]@ == orig[0]@ + levels_flattened(orig, 1, level as int),
            decreases n - level,
        {
            let ghost entering = self.queues@[0]@;
            let ghost this_level = self.queues@[level as int]@;
            let ghost mut moved: int = 0;
            while self.queues[level].len() > 0
                invariant
                    1 <= level < n,
                    n == self.queues@.len(),
                    self.last_scheduled == old(self).last_scheduled,
                    forall|l: int| 1 <= l < level ==> (#[trigger] self.queues@[l])@.len() == 0,
                    forall|l: int| level < l < n ==> #[trigger] self.queues@[l] == orig[l],
                    0 <= moved <= this_level.len(),
                    self.queues@[level as int]@ == this_level.skip(moved),
                    self.queues@[0]@ == entering + this_level.take(moved),
                decreases self.queues@[level as int]@.len(),
            {
                let next_up = self.queues[level].remove(0);
                self.queues[0].push(next_up);
                proof {
                    assert(this_level.skip(moved).remove(0) =~= this_level.skip(moved + 1));
                    assert(next_up == this_level[moved]);
                    assert((entering + this_level.take(moved)).push(next_up) =~= entering
                        + this_level.take(moved + 1));
                    moved = moved + 1;
                }
            }
            proof {
                assert(this_level.take(moved) =~= this_level);
                assert(self.queues@[0]@ =~= orig[0]@ + levels_flattened(orig, 1, level + 1)) by {
                    assert(levels_flattened(orig, 1, level + 1) == levels_flattened(
                        orig,
                        1,
                        level as int,
                    ) + orig[level as int]@);
                    assert(this_level == orig[level as int]@);
                }
            }
            level += 1;
        }
    }
}

impl MLFQSched {
    /// Requeue the process handed out by the last `next` according to why
    /// its run ended: preempted for kernel work, it keeps its turn and
    /// nothing changes; after a burnt quantum it sinks one level (bounded by
    /// the lowest); any other outcome sends it to the back of its own
    /// level. A recorded entry that no longer stands where it was recorded
    /// leaves the queues untouched.
    pub fn requeue_last(&mut self, result: StoppedExecutingReason)
        ensures
            result == StoppedExecutingReason::KernelPreemption ==> *final (self) == *old(self),
            old(self).last_scheduled is None ==> *final (self) == *old(self),
            old(self).last_scheduled matches Some((level, pos, a)) ==> (result
                != StoppedExecutingReason::KernelPreemption ==> {
                let found = level < old(self).queues@.len() && pos < old(
                    self,
                ).queues@[level as int]@.len() && old(self).queues@[level as int]@[pos as int]
                    == a;
                let sink = result == StoppedExecutingReason::TimesliceExpired && level + 1 < old(
                    self,
                ).queues@.len();
                let dest = if sink {
                    level + 1
                } else {
                    level as int
                };
                &&& final (self).last_scheduled is None
                &&& final (self).queues@.len() == old(self).queues@.len()
                &&& (!found ==> final (self).queues == old(self).queues)
                &&& (found ==> (forall|l: int|
                    0 <= l < old(self).queues@.len() && l != level && l != dest
                        ==> #[trigger] final (self).queues@[l] == old(self).queues@[l]))
                &&& (found && dest == level ==> final (self).queues@[level as int]@ == old(
                    self,
                ).queues@[level as int]@.remove(pos as int).push(a))
                &&& (found && dest != level ==> final (self).queues@[level as int]@ == old(
                    self,
                ).queues@[level as int]@.remove(pos as int) && final (self).queues@[dest]@ == old(
                    self,
                ).queues@[dest]@.push(a))
            }),
    {
        match self.last_scheduled {
            Some((level, pos, appid)) => {
                if !matches!(result, StoppedExecutingReason::KernelPreemption) {
                    // Requeue the process: one level down after a burnt
                    // quantum, else at the back of its own level.
                    if level < self.queues.len() && pos < self.queues[level].len() {
                        let entry = self.queues[level][pos];
                        if entry == appid {
                            let moved = self.queues[level].remove(pos);
                            let sink = matches!(result, StoppedExecutingReason::TimesliceExpired);
                            let dest = if sink && level + 1 < self.queues.len() {
                                level + 1
                            } else {
                                level
                            };
                            self.queues[dest].push(moved);
                        }
                    }
                    self.last_scheduled = None;
                }
            },
            None => {},
        }
    }
}

impl<C: Chip> Scheduler<C> for MLFQSched {
    fn next(&mut self, kernel: &Kernel) -> (r: (Option<AppId>, Option<u32>)) {
        match self.select(kernel) {
            Some((level, pos, appid)) => {
                self.last_scheduled = Some((level, pos, appid));
                (Some(appid), Some(timeslice_for_level(level)))
            },
            None => {
                self.last_scheduled = None;
                (None, None)
            },
        }
    }

    fn result(&mut self, result: StoppedExecutingReason, execution_time_us: Option<u32>) {
        self.requeue_last(result);
    }
}

} // verus!
