//! The central kernel logic: the process registry, the scheduler policy
//! interface, the per-process dispatch loop, and the kernel main loop.

use vstd::prelude::*;

use crate::callback::AppId;
use crate::callback::Callback;
use crate::callback::CallbackId;
use crate::capabilities::ExternalProcessCapability;
use crate::capabilities::MainLoopCapability;
use crate::capabilities::MemoryAllocationCapability;
use crate::capabilities::ProcessManagementCapability;
use crate::grant::Grant;
use crate::ipc::IpcMechanism;
use crate::memop::memop;
use crate::memop::spec_memop;
use crate::platform::Chip;
use crate::platform::DummyTimer;
use crate::platform::Platform;
use crate::platform::SchedulerTimer;
use crate::process::without_callbacks;
use crate::process::Process;
use crate::process::State;
use crate::process::Task;
use crate::returncode::ReturnCode;
use crate::syscall::ContextSwitchReason;
use crate::syscall::Syscall;

verus! {

/// Skip re-entering a process whose quantum has nearly run out: below this
/// many microseconds the slice is treated as expired.
pub const MIN_QUANTA_THRESHOLD_US: u32 = 500;

/// Why the dispatcher returned control to the scheduling policy.
#[derive(Clone, Copy, PartialEq, Eq, Structural, Debug)]
pub enum StoppedExecutingReason {
    /// The process is no longer ready to run.
    NoWorkLeft,
    /// The process faulted and the board's restart policy left it stopped.
    StoppedFaulted,
    /// The kernel stopped the process.
    Stopped,
    /// The process's timeslice expired.
    TimesliceExpired,
    /// Kernel work (an interrupt bottom half or a deferred call) became
    /// ready and preempted the process.
    KernelPreemption,
}

/// A kernel consistency violation the dispatcher cannot recover from. The
/// caller must treat it as fatal: the board's panic handler takes over.
#[derive(Clone, Copy, PartialEq, Eq, Structural, Debug)]
pub enum FatalKernelError {
    /// A scheduling decision named a process in the Fault state.
    ScheduledFaultyProcess,
    /// An IPC task was queued on a board with no IPC module wired.
    IpcTaskWithoutIpc,
}

/// The work counter after one completed unit of work: it decrements, and
/// saturates at zero rather than underflow.
pub open spec fn spec_work_dec(w: usize) -> usize {
    if w > 0 {
        (w - 1) as usize
    } else {
        0
    }
}

/// The work counter after `n` completed units of work, saturating at zero.
pub open spec fn spec_work_dec_by(w: usize, n: int) -> usize {
    if n >= w {
        0
    } else {
        (w - n) as usize
    }
}

/// Whether a quantum is exhausted: the timer reports expiry outright, or the
/// time left is too small to be worth entering user mode for.
pub open spec fn spec_timeslice_exhausted(has_expired: bool, remaining_us: u32) -> bool {
    has_expired || remaining_us <= MIN_QUANTA_THRESHOLD_US
}

/// Decide whether a quantum is exhausted from the timer's readings.
pub fn timeslice_exhausted(has_expired: bool, remaining_us: u32) -> (r: bool)
    ensures
        r == spec_timeslice_exhausted(has_expired, remaining_us),
{
    has_expired || remaining_us <= MIN_QUANTA_THRESHOLD_US
}

/// The executed time reported for a quantum of `timeslice` microseconds when
/// the timer says `remaining` microseconds were left: the difference,
/// clamped to the quantum so that a timer reading beyond the quantum (clock
/// skew) cannot inflate the report.
pub fn execution_time_us(timeslice: u32, remaining: u32) -> (r: u32)
    ensures
        r == if remaining > timeslice {
            timeslice
        } else {
            (timeslice - remaining) as u32
        },
        r <= timeslice,
{
    if remaining > timeslice {
        timeslice
    } else {
        timeslice - remaining
    }
}

/// Main object for the kernel. Each board creates exactly one, handing it
/// the fixed process slot table; it lives for the lifetime of the system.
pub struct Kernel {
    /// How many "to-do" items exist: outstanding callbacks plus processes in
    /// the Running state.
    pub work: usize,
    /// The fixed-capacity process slot table. A slot index is stable for
    /// the lifetime of the process occupying it.
    pub processes: Vec<Option<Process>>,
    /// How many process identifiers have been handed out; the next one.
    pub process_identifier_max: usize,
    /// How many grant regions have been set up.
    pub grant_counter: usize,
    /// Once set, grant data structures are fixed and no grant can be
    /// created.
    pub grants_finalized: bool,
}

impl Kernel {
    /// The work counter.
    pub open spec fn spec_work(self) -> usize {
        self.work
    }

    /// Whether slot `i` exists and holds a process.
    pub open spec fn slot_occupied(self, i: int) -> bool {
        0 <= i < self.processes@.len() && self.processes@[i] is Some
    }

    /// The process in slot `i`.
    pub open spec fn slot_process(self, i: int) -> Process {
        self.processes@[i]->0
    }

    /// Well-formedness: every occupant is well formed and its identity
    /// names the slot it sits in.
    pub open spec fn wf(self) -> bool {
        forall|i: int|
            #[trigger] self.slot_occupied(i) ==> self.slot_process(i).wf()
                && self.slot_process(i).spec_appid().index == i
    }

    /// Whether `appid` still refers to a live process: its slot is occupied
    /// and the occupant's generation number matches.
    pub open spec fn spec_appid_is_valid(self, appid: AppId) -> bool {
        self.slot_occupied(appid.index as int) && self.slot_process(
            appid.index as int,
        ).spec_appid().id == appid.id
    }

    /// The process a full identity match finds: the slot named by
    /// `appid.index` must be occupied by a process whose whole identity
    /// equals `appid`. Matches occupants in any state, stopped ones
    /// included.
    pub open spec fn spec_lookup(self, appid: AppId) -> Option<Process> {
        if self.slot_occupied(appid.index as int) && self.slot_process(
            appid.index as int,
        ).spec_appid() == appid {
            Some(self.slot_process(appid.index as int))
        } else {
            None
        }
    }

    /// Whether a grant may still be created: the registry is not finalized
    /// (and the counter has room, a machine limit).
    pub open spec fn grant_creation_allowed(self) -> bool {
        !self.grants_finalized && self.grant_counter < usize::MAX
    }

    /// Create the kernel around a process slot table. Every occupied slot
    /// must hold a well-formed process whose identity names that slot.
    pub fn new(processes: Vec<Option<Process>>) -> (r: Kernel)
        requires
            forall|i: int|
                0 <= i < processes@.len() && processes@[i] is Some ==> (
                #[trigger] processes@[i])->0.wf() && processes@[i]->0.spec_appid().index == i,
        ensures
            r.wf(),
            r.processes == processes,
            r.spec_work() == 0,
            r.process_identifier_max == 0,
            r.grant_counter == 0,
            !r.grants_finalized,
    {
        Kernel {
            work: 0,
            processes,
            process_identifier_max: 0,
            grant_counter: 0,
            grants_finalized: false,
        }
    }

    /// Something was scheduled for a process: one more unit of work to do.
    pub(crate) fn increment_work(&mut self)
        requires
            old(self).work < usize::MAX,
        ensures
            *final (self) == (Kernel { work: (old(self).work + 1) as usize, ..*old(self) }),
    {
        self.work = self.work + 1;
    }

    /// Something was scheduled for a process: one more unit of work to do.
    /// Public entry for external process implementations, gated by a
    /// capability.
    pub fn increment_work_external(&mut self, _capability: &ExternalProcessCapability)
        requires
            old(self).work < usize::MAX,
        ensures
            *final (self) == (Kernel { work: (old(self).work + 1) as usize, ..*old(self) }),
    {
        self.increment_work();
    }

    /// Something finished for a process: one unit of work less. Saturates
    /// at zero: an underflow would be a kernel bug, and saturation keeps it
    /// from corrupting the sleep gate.
    pub(crate) fn decrement_work(&mut self)
        ensures
            *final (self) == (Kernel { work: spec_work_dec(old(self).work), ..*old(self) }),
    {
        if self.work > 0 {
            self.work = self.work - 1;
        }
    }

    /// `n` units of work finished at once, saturating at zero.
    pub(crate) fn decrement_work_by(&mut self, n: usize)
        ensures
            *final (self) == (Kernel {
                work: spec_work_dec_by(old(self).work, n as int),
                ..*old(self)
            }),
    {
        if self.work > n {
            self.work = self.work - n;
        } else {
            self.work = 0;
        }
    }

    /// Something finished for a process: one unit of work less. Public
    /// entry for external process implementations, gated by a capability.
    pub fn decrement_work_external(&mut self, _capability: &ExternalProcessCapability)
        ensures
            *final (self) == (Kernel { work: spec_work_dec(old(self).work), ..*old(self) }),
    {
        self.decrement_work();
    }

    /// Whether there is nothing for processes to do: true iff the work
    /// counter is zero. Gates going to sleep.
    pub fn processes_blocked(&self) -> (r: bool)
        ensures
            r == (self.spec_work() == 0),
    {
        self.work == 0
    }

    /// Run `closure` on the process `appid` names, if it is still live at
    /// the slot `appid` names with the same generation number; otherwise
    /// return `default` without running it. A match is found for occupants
    /// in any state, stopped ones included.
    pub fn process_map_or<R, F: FnOnce(&Process) -> R>(&self, default: R, appid: AppId, closure: F)
        -> (r: R)
        requires
            forall|p: Process| call_requires(closure, (&p,)),
        ensures
            self.spec_lookup(appid) is None ==> r == default,
            self.spec_lookup(appid) matches Some(p) ==> call_ensures(closure, (&p,), r),
    {
        let tentative_index = appid.index;
        if tentative_index < self.processes.len() {
            match &self.processes[tentative_index] {
                Some(process) => {
                    if process.appid() == appid {
                        closure(process)
                    } else {
                        default
                    }
                },
                None => default,
            }
        } else {
            default
        }
    }

    /// Run `closure` on every process that exists, in slot order.
    pub fn process_each<F: Fn(&Process)>(&self, closure: F)
        requires
            forall|p: Process| call_requires(closure, (&p,)),
        ensures
            forall|i: int|
                #[trigger] self.slot_occupied(i) ==> call_ensures(
                    closure,
                    (&self.slot_process(i),),
                    (),
                ),
    {
        let mut i: usize = 0;
        while i < self.processes.len()
            invariant
                i <= self.processes@.len(),
                forall|p: Process| call_requires(closure, (&p,)),
                forall|j: int|
                    0 <= j < i && #[trigger] self.slot_occupied(j) ==> call_ensures(
                        closure,
                        (&self.slot_process(j),),
                        (),
                    ),
            decreases self.processes@.len() - i,
        {
            match &self.processes[i] {
                Some(p) => {
                    closure(p);
                },
                None => {},
            }
            i += 1;
        }
    }

    /// Run `closure` on every process that exists, in slot order. Public
    /// entry, gated by a process management capability.
    pub fn process_each_capability<F: Fn(&Process)>(
        &self,
        _capability: &ProcessManagementCapability,
        closure: F,
    )
        requires
            forall|p: Process| call_requires(closure, (&p,)),
        ensures
            forall|i: int|
                #[trigger] self.slot_occupied(i) ==> call_ensures(
                    closure,
                    (&self.slot_process(i),),
                    (),
                ),
    {
        self.process_each(closure)
    }

    /// The identities of all loaded processes, in slot order.
    pub fn get_process_iter(&self) -> (r: Vec<AppId>)
        ensures
            r@ == appids_of(self.processes@),
    {
        let ghost all = self.processes@;
        let mut out: Vec<AppId> = Vec::new();
        let mut i: usize = 0;
        while i < self.processes.len()
            invariant
                i <= all.len(),
                self.processes@ == all,
                out@ == appids_of(all.subrange(0, i as int)),
            decreases all.len() - i,
        {
            proof {
                assert(all.subrange(0, i + 1) =~= all.subrange(0, i as int).push(all[i as int]));
                lemma_appids_push(all.subrange(0, i as int), all[i as int]);
            }
            match &self.processes[i] {
                Some(p) => {
                    out.push(p.appid());
                },
                None => {},
            }
            i += 1;
        }
        proof {
            assert(all.subrange(0, all.len() as int) =~= all);
        }
        out
    }

    /// Run `closure` on every process that exists, stopping at the first
    /// one for which it returns anything but `FAIL` and returning that
    /// value; `FAIL` if every process (or none) said `FAIL`.
    pub fn process_until<F: Fn(&Process) -> ReturnCode>(&self, closure: F) -> (r: ReturnCode)
        requires
            forall|p: Process| call_requires(closure, (&p,)),
        ensures
            r != ReturnCode::FAIL ==> exists|i: int|
                #[trigger] self.slot_occupied(i) && call_ensures(
                    closure,
                    (&self.slot_process(i),),
                    r,
                ) && (forall|j: int|
                    0 <= j < i && #[trigger] self.slot_occupied(j) ==> call_ensures(
                        closure,
                        (&self.slot_process(j),),
                        ReturnCode::FAIL,
                    )),
            r == ReturnCode::FAIL ==> forall|i: int|
                #[trigger] self.slot_occupied(i) ==> call_ensures(
                    closure,
                    (&self.slot_process(i),),
                    ReturnCode::FAIL,
                ),
    {
        let mut i: usize = 0;
        while i < self.processes.len()
            invariant
                i <= self.processes@.len(),
                forall|p: Process| call_requires(closure, (&p,)),
                forall|j: int|
                    0 <= j < i && #[trigger] self.slot_occupied(j) ==> call_ensures(
                        closure,
                        (&self.slot_process(j),),
                        ReturnCode::FAIL,
                    ),
            decreases self.processes@.len() - i,
        {
            match &self.processes[i] {
                Some(p) => {
                    let ret = closure(p);
                    if ret != ReturnCode::FAIL {
                        proof {
                            assert(self.slot_occupied(i as int) && call_ensures(
                                closure,
                                (&self.slot_process(i as int),),
                                ret,
                            ) && (forall|j: int|
                                0 <= j < i && #[trigger] self.slot_occupied(j) ==> call_ensures(
                                    closure,
                                    (&self.slot_process(j),),
                                    ReturnCode::FAIL,
                                )));
                        }
                        return ret;
                    }
                },
                None => {},
            }
            i += 1;
        }
        ReturnCode::FAIL
    }

    /// Find the identity of the process whose generation number is
    /// `identifier`, scanning slots in order; None if no live process has
    /// it.
    pub fn lookup_app_by_identifier(&self, identifier: usize) -> (r: Option<AppId>)
        ensures
            r matches Some(a) ==> exists|i: int|
                #[trigger] self.slot_occupied(i) && self.slot_process(i).spec_appid() == a
                    && a.id == identifier && (forall|j: int|
                    0 <= j < i && #[trigger] self.slot_occupied(j) ==> self.slot_process(
                        j,
                    ).spec_appid().id != identifier),
            r is None ==> forall|i: int|
                #[trigger] self.slot_occupied(i) ==> self.slot_process(i).spec_appid().id
                    != identifier,
    {
        let mut i: usize = 0;
        while i < self.processes.len()
            invariant
                i <= self.processes@.len(),
                forall|j: int|
                    0 <= j < i && #[trigger] self.slot_occupied(j) ==> self.slot_process(
                        j,
                    ).spec_appid().id != identifier,
            decreases self.processes@.len() - i,
        {
            match &self.processes[i] {
                Some(p) => {
                    let appid = p.appid();
                    if appid.id() == identifier {
                        proof {
                            assert(self.slot_occupied(i as int) && self.slot_process(
                                i as int,
                            ).spec_appid() == appid && (forall|j: int|
                                0 <= j < i && #[trigger] self.slot_occupied(j)
                                    ==> self.slot_process(j).spec_appid().id != identifier));
                        }
                        return Some(appid);
                    }
                },
                None => {},
            }
            i += 1;
        }
        None
    }

    /// Whether `appid` still refers to a live process: its slot is occupied
    /// and the occupant's generation number matches.
    pub fn appid_is_valid(&self, appid: &AppId) -> (r: bool)
        ensures
            r == self.spec_appid_is_valid(*appid),
    {
        if appid.index < self.processes.len() {
            match &self.processes[appid.index] {
                Some(p) => p.appid().id() == appid.id,
                None => false,
            }
        } else {
            false
        }
    }

    /// Create a new grant, handing back its index. Grants must only be
    /// created during board initialization, before processes are loaded:
    /// once the registry is finalized this operation is forbidden (the
    /// caller must treat an attempt as a fatal board bug).
    pub fn create_grant(&mut self, _capability: &MemoryAllocationCapability) -> (r: Grant)
        requires
            old(self).grant_creation_allowed(),
        ensures
            *final (self) == (Kernel {
                grant_counter: (old(self).grant_counter + 1) as usize,
                ..*old(self)
            }),
            r.grant_num == old(self).grant_counter,
    {
        let grant_index = self.grant_counter;
        self.grant_counter = self.grant_counter + 1;
        Grant::new(grant_index)
    }

    /// Report how many grants exist and finalize the registry: from now on
    /// no grant can be created. Called exactly when process loading begins.
    pub fn get_grant_count_and_finalize(&mut self) -> (r: usize)
        ensures
            *final (self) == (Kernel { grants_finalized: true, ..*old(self) }),
            r == old(self).grant_counter,
    {
        self.grants_finalized = true;
        self.grant_counter
    }

    /// Report how many grants exist and finalize the registry. Public entry
    /// for external process implementations, gated by a capability.
    pub fn get_grant_count_and_finalize_external(
        &mut self,
        _capability: &ExternalProcessCapability,
    ) -> (r: usize)
        ensures
            *final (self) == (Kernel { grants_finalized: true, ..*old(self) }),
            r == old(self).grant_counter,
    {
        self.get_grant_count_and_finalize()
    }

    /// Return a fresh process identifier: the counter's value, which is
    /// then advanced, so successive calls return strictly increasing
    /// identifiers.
    pub fn create_process_identifier(&mut self) -> (r: usize)
        requires
            old(self).process_identifier_max < usize::MAX,
        ensures
            r == old(self).process_identifier_max,
            *final (self) == (Kernel {
                process_identifier_max: (old(self).process_identifier_max + 1) as usize,
                ..*old(self)
            }),
    {
        let id = self.process_identifier_max;
        self.process_identifier_max = self.process_identifier_max + 1;
        id
    }

    /// Put every loaded process into the Fault state, as if it had crashed.
    /// Gated by a process management capability so that ordinary capsules
    /// cannot restart all apps.
    pub fn hardfault_all_apps(&mut self, _capability: &ProcessManagementCapability)
        ensures
            final (self).processes@.len() == old(self).processes@.len(),
            forall|i: int|
                #[trigger] old(self).slot_occupied(i) ==> final (self).slot_occupied(i)
                    && final (self).slot_process(i) == (Process {
                    state: State::Fault,
                    ..old(self).slot_process(i)
                }),
            forall|i: int|
                0 <= i < old(self).processes@.len() && !(#[trigger] old(self).slot_occupied(i))
                    ==> !final (self).slot_occupied(i),
            final (self).work == old(self).work,
            final (self).process_identifier_max == old(self).process_identifier_max,
            final (self).grant_counter == old(self).grant_counter,
            final (self).grants_finalized == old(self).grants_finalized,
            old(self).wf() ==> final (self).wf(),
    {
        let n = self.processes.len();
        let mut i: usize = 0;
        while i < n
            invariant
                i <= n,
                n == self.processes@.len(),
                n == old(self).processes@.len(),
                self.work == old(self).work,
                self.process_identifier_max == old(self).process_identifier_max,
                self.grant_counter == old(self).grant_counter,
                self.grants_finalized == old(self).grants_finalized,
                forall|j: int| i <= j < n ==> self.processes@[j] == old(self).processes@[j],
                forall|j: int|
                    0 <= j < i && #[trigger] old(self).slot_occupied(j) ==> self.slot_occupied(j)
                        && self.slot_process(j) == (Process {
                        state: State::Fault,
                        ..old(self).slot_process(j)
                    }),
                forall|j: int|
                    0 <= j < i && !(#[trigger] old(self).slot_occupied(j))
                        ==> !self.slot_occupied(j),
            decreases n - i,
        {
            let ghost snap = *self;
            proof {
                assert(self.processes@[i as int] == old(self).processes@[i as int]);
            }
            match &mut self.processes[i] {
                Some(process) => {
                    let _ = process.set_fault_state();
                },
                None => {},
            }
            proof {
                assert forall|j: int|
                    0 <= j < i + 1 && #[trigger] old(self).slot_occupied(j) implies self.slot_occupied(
                    j,
                ) && self.slot_process(j) == (Process {
                    state: State::Fault,
                    ..old(self).slot_process(j)
                }) by {
                    if j < i as int {
                        assert(self.processes@[j] == snap.processes@[j]);
                    }
                }
                assert forall|j: int|
                    0 <= j < i + 1 && !(#[trigger] old(self).slot_occupied(j)) implies !self.slot_occupied(
                    j,
                ) by {
                    if j < i as int {
                        assert(self.processes@[j] == snap.processes@[j]);
                    }
                }
            }
            i += 1;
        }
        proof {
            if old(self).wf() {
                assert forall|j: int| self.slot_occupied(j) implies self.slot_process(j).wf()
                    && self.slot_process(j).spec_appid().index == j by {
                    if old(self).slot_occupied(j) {
                    } else {
                        assert(!self.slot_occupied(j));
                    }
                }
            }
        }
    }
}

/// Trait which any scheduling policy must implement.
///
/// A policy names the next process to run and its quantum, learns why each
/// run ended, and decides when the kernel's own work takes precedence over
/// running processes. The defaults for the last three operations always
/// prioritize kernel work; policies that defer interrupt handling override
/// them.
pub trait Scheduler<C: Chip> {
    /// The next process to run, and the length of its timeslice in
    /// microseconds. No process means nothing is runnable; a process with
    /// no timeslice is run cooperatively, without preemption.
    fn next(&mut self, kernel: &Kernel) -> (r: (Option<AppId>, Option<u32>))
        requires
            kernel.wf(),
    ;

    /// Learn why the last process stopped executing and for how many
    /// microseconds it ran (absent for cooperative runs).
    fn result(&mut self, result: StoppedExecutingReason, execution_time_us: Option<u32>);

    /// Execute kernel work: interrupt bottom halves and deferred calls. The
    /// default services pending interrupts, then drains deferred calls for
    /// as long as no new interrupt arrives.
    fn execute_kernel_work(&mut self, chip: &mut C)
        default_ensures
            final (chip).spec_interrupts_pending() || final (chip).spec_deferred_count() == 0,
    {
        chip.service_pending_interrupts();
        let mut done = false;
        while !done
            invariant
                done ==> chip.spec_interrupts_pending() || chip.spec_deferred_count() == 0,
            decreases (if done { 0int } else { 1int }), chip.spec_deferred_count(),
        {
            if chip.has_pending_interrupts() {
                done = true;
            } else if !chip.service_deferred_call() {
                done = true;
            }
        }
    }

    /// Whether to take a break from running processes to handle kernel
    /// tasks. The default always prioritizes kernel work: true iff an
    /// interrupt or a deferred call is pending, or no process has anything
    /// to do.
    fn break_for_kernel_tasks(&mut self, kernel: &Kernel, chip: &C) -> (r: bool)
        default_ensures
            r == (chip.spec_interrupts_pending() || chip.spec_deferred_count() > 0
                || kernel.spec_work() == 0),
    {
        chip.has_pending_interrupts() || chip.has_pending_deferred_calls()
            || kernel.processes_blocked()
    }

    /// Whether the dispatcher should return to the policy after the current
    /// process step. The default: true iff an interrupt or a deferred call
    /// awaits servicing.
    fn leave_do_process(&self, chip: &C) -> (r: bool)
        default_ensures
            r == (chip.spec_interrupts_pending() || chip.spec_deferred_count() > 0),
    {
        chip.has_pending_interrupts() || chip.has_pending_deferred_calls()
    }
}

impl Kernel {
    /// Handle one decoded syscall for the process in slot `process_index`:
    /// consult the platform's syscall filter (for everything but YIELD),
    /// then route the call. A filter denial writes the filter's error back
    /// and reports it as `Err`, leaving everything else untouched; a routed
    /// call is `Ok`.
    ///
    /// Exact effects, writing `p` for the process before and `q` for it
    /// after: YIELD marks a Running `p` Yielded (one work unit done) and
    /// writes nothing back. MEMOP applies [`spec_memop`] and writes its
    /// code back. SUBSCRIBE drops every queued callback of the named
    /// subscription (that many work units done), then asks the driver to
    /// subscribe, with no callback when the pointer is null; the driver's
    /// code, or ENODEVICE without a driver, is written back. COMMAND asks
    /// the driver and writes its code back, ENODEVICE without a driver.
    /// ALLOW validates the offered buffer against `p`'s memory, hands a
    /// valid one to the driver and writes its code back; an invalid buffer
    /// writes the validation error, no driver writes ENODEVICE.
    pub fn handle_syscall<P: Platform>(
        &mut self,
        platform: &mut P,
        process_index: usize,
        syscall: Syscall,
    ) -> (r: Result<(), ReturnCode>)
        requires
            old(self).wf(),
            old(self).slot_occupied(process_index as int),
        ensures
            final (self).wf(),
            final (self).processes@.len() == old(self).processes@.len(),
            forall|j: int|
                0 <= j < old(self).processes@.len() && j != process_index
                    ==> final (self).processes@[j] == old(self).processes@[j],
            final (self).slot_occupied(process_index as int),
            final (self).slot_process(process_index as int).spec_appid() == old(self).slot_process(
                process_index as int,
            ).spec_appid(),
            final (self).process_identifier_max == old(self).process_identifier_max,
            final (self).grant_counter == old(self).grant_counter,
            final (self).grants_finalized == old(self).grants_finalized,
            final (self).work <= old(self).work,
            forall|d: usize|
                #[trigger] final (platform).spec_has_driver(d) == old(platform).spec_has_driver(d),
            ({
                let p = old(self).slot_process(process_index as int);
                let q = final (self).slot_process(process_index as int);
                let w0 = old(self).work;
                let w1 = final (self).work;
                &&& (r matches Err(e) ==> q == (Process { syscall_return: Some(e), ..p }) && w1
                    == w0)
                &&& (r is Err ==> syscall != Syscall::YIELD)
                &&& (r is Ok && syscall == Syscall::YIELD ==> w1 == (if p.spec_state()
                    == State::Running {
                    spec_work_dec(w0)
                } else {
                    w0
                }) && q == (if p.spec_state() == State::Running {
                    (Process { state: State::Yielded, ..p })
                } else {
                    p
                }))
                &&& (r is Ok ==> (syscall matches Syscall::MEMOP { operand, arg0 } ==> q
                    == (Process {
                    syscall_return: Some(spec_memop(p, operand, arg0).1),
                    ..spec_memop(p, operand, arg0).0
                }) && w1 == w0))
                &&& (r is Ok ==> (syscall matches Syscall::SUBSCRIBE {
                    driver_number,
                    subdriver_number,
                    ..
                } ==> {
                    let cid = CallbackId {
                        driver_num: driver_number,
                        subscribe_num: subdriver_number,
                    };
                    &&& q.tasks@ == without_callbacks(p.tasks@, cid)
                    &&& q == (Process { tasks: q.tasks, syscall_return: q.syscall_return, ..p })
                    &&& q.syscall_return is Some
                    &&& (!old(platform).spec_has_driver(driver_number) ==> q.syscall_return
                        == Some(ReturnCode::ENODEVICE))
                    &&& w1 == spec_work_dec_by(w0, p.tasks@.len() - q.tasks@.len())
                }))
                &&& (r is Ok ==> (syscall matches Syscall::COMMAND { driver_number, .. } ==> {
                    &&& q == (Process { syscall_return: q.syscall_return, ..p })
                    &&& q.syscall_return is Some
                    &&& (!old(platform).spec_has_driver(driver_number) ==> q.syscall_return
                        == Some(ReturnCode::ENODEVICE))
                    &&& w1 == w0
                }))
                &&& (r is Ok ==> (syscall matches Syscall::ALLOW {
                    driver_number,
                    allow_address,
                    allow_size,
                    ..
                } ==> {
                    &&& q == (Process { syscall_return: q.syscall_return, ..p })
                    &&& q.syscall_return is Some
                    &&& (!old(platform).spec_has_driver(driver_number) ==> q.syscall_return
                        == Some(ReturnCode::ENODEVICE))
                    &&& (old(platform).spec_has_driver(driver_number) && allow_address != 0
                        && !p.spec_allow_in_bounds(allow_address, allow_size)
                        ==> q.syscall_return == Some(ReturnCode::EINVAL))
                    &&& w1 == w0
                }))
            }),
    {
        let idx = process_index;
        if !matches!(syscall, Syscall::YIELD) {
            let filter_result = match &self.processes[idx] {
                Some(process) => platform.filter_syscall(process, &syscall),
                None => unreached(),
            };
            if let Err(response) = filter_result {
                match &mut self.processes[idx] {
                    Some(process) => process.set_syscall_return_value(response),
                    None => unreached(),
                }
                proof {
                    assert(old(self).slot_occupied(idx as int));
                    assert(old(self).slot_process(idx as int).wf());
                    lemma_wf_one_slot(*old(self), *self, idx as int);
                }
                return Err(response);
            }
        }
        match syscall {
            Syscall::YIELD => {
                let was_running = match &mut self.processes[idx] {
                    Some(process) => process.set_yielded_state(),
                    None => unreached(),
                };
                if was_running {
                    self.decrement_work();
                }
            },
            Syscall::MEMOP { operand, arg0 } => {
                let res = match &mut self.processes[idx] {
                    Some(process) => memop(process, operand, arg0),
                    None => unreached(),
                };
                match &mut self.processes[idx] {
                    Some(process) => process.set_syscall_return_value(res),
                    None => unreached(),
                }
            },
            Syscall::SUBSCRIBE { driver_number, subdriver_number, callback_ptr, appdata } => {
                let callback_id = CallbackId {
                    driver_num: driver_number,
                    subscribe_num: subdriver_number,
                };
                let (appid, removed) = match &mut self.processes[idx] {
                    Some(process) => {
                        let a = process.appid();
                        let k = process.remove_pending_callbacks(callback_id);
                        (a, k)
                    },
                    None => unreached(),
                };
                self.decrement_work_by(removed);
                let callback = if callback_ptr != 0 {
                    Some(Callback::new(appid, callback_id, appdata, callback_ptr))
                } else {
                    None
                };
                let res = if platform.has_driver(driver_number) {
                    platform.driver_subscribe(driver_number, subdriver_number, callback, appid)
                } else {
                    ReturnCode::ENODEVICE
                };
                match &mut self.processes[idx] {
                    Some(process) => process.set_syscall_return_value(res),
                    None => unreached(),
                }
            },
            Syscall::COMMAND { driver_number, subdriver_number, arg0, arg1 } => {
                let appid = match &self.processes[idx] {
                    Some(process) => process.appid(),
                    None => unreached(),
                };
                let res = if platform.has_driver(driver_number) {
                    platform.driver_command(driver_number, subdriver_number, arg0, arg1, appid)
                } else {
                    ReturnCode::ENODEVICE
                };
                match &mut self.processes[idx] {
                    Some(process) => process.set_syscall_return_value(res),
                    None => unreached(),
                }
            },
            Syscall::ALLOW { driver_number, subdriver_number, allow_address, allow_size } => {
                let appid = match &self.processes[idx] {
                    Some(process) => process.appid(),
                    None => unreached(),
                };
                let res = if platform.has_driver(driver_number) {
                    let validation = match &self.processes[idx] {
                        Some(process) => process.allow(allow_address, allow_size),
                        None => unreached(),
                    };
                    match validation {
                        Ok(oslice) => platform.driver_allow(
                            driver_number,
                            appid,
                            subdriver_number,
                            oslice,
                        ),
                        Err(err) => err,
                    }
                } else {
                    ReturnCode::ENODEVICE
                };
                match &mut self.processes[idx] {
                    Some(process) => process.set_syscall_return_value(res),
                    None => unreached(),
                }
            },
        }
        proof {
            assert(old(self).slot_occupied(idx as int));
            assert(old(self).slot_process(idx as int).wf());
            lemma_wf_one_slot(*old(self), *self, idx as int);
        }
        Ok(())
    }
}

/// Wrap up one dispatcher run: read the executed time off the timer (absent
/// for a cooperative run, clamped to the quantum otherwise) and reset the
/// timer.
fn conclude_run<T: SchedulerTimer>(
    timer: &mut T,
    timeslice_us: Option<u32>,
    reason: StoppedExecutingReason,
) -> (r: (StoppedExecutingReason, Option<u32>))
    ensures
        r.0 == reason,
        r.1 is Some <==> timeslice_us is Some,
        timeslice_us matches Some(t) ==> r.1 matches Some(e) && e <= t,
        final (timer).spec_never_expires() == old(timer).spec_never_expires(),
{
    let time_executed_us = match timeslice_us {
        Some(timeslice) => {
            let remaining = timer.get_remaining_us();
            Some(execution_time_us(timeslice, remaining))
        },
        None => None,
    };
    timer.reset();
    (reason, time_executed_us)
}

impl Kernel {
    /// Transfer control to the userspace process in slot `process_index`
    /// and keep servicing it — context switches, syscalls, callback
    /// deliveries — until it is out of work, its timeslice expires, kernel
    /// work preempts it, or it is stopped. Time spent here handling the
    /// process's syscalls is charged to the process.
    ///
    /// With no timeslice the process runs cooperatively: the caller passes
    /// a timer that never expires ([`DummyTimer`]), no executed time is
    /// reported, and the run cannot end in `TimesliceExpired`. With a
    /// timeslice, the reported executed time never exceeds the quantum.
    ///
    /// A process entered in a Stopped state is not run: the matching reason
    /// comes back and the process is untouched. Scheduling a process in the
    /// Fault state, or meeting an IPC task with no IPC module wired, is a
    /// fatal kernel error: the corresponding `Err` is returned (the caller
    /// panics) and the process is not run. A quantum already within
    /// [`MIN_QUANTA_THRESHOLD_US`] of exhaustion reports `TimesliceExpired`
    /// without entering user mode.
    pub fn do_process<P: Platform, C: Chip, S: Scheduler<C>, T: SchedulerTimer, IP: IpcMechanism>(
        &mut self,
        platform: &mut P,
        chip: &mut C,
        scheduler: &S,
        process_index: usize,
        ipc: &mut IP,
        timer: &mut T,
        timeslice_us: Option<u32>,
    ) -> (r: Result<(StoppedExecutingReason, Option<u32>), FatalKernelError>)
        requires
            old(self).wf(),
            old(self).slot_occupied(process_index as int),
        ensures
            final (self).wf(),
            final (self).processes@.len() == old(self).processes@.len(),
            forall|j: int|
                0 <= j < old(self).processes@.len() && j != process_index
                    ==> final (self).processes@[j] == old(self).processes@[j],
            final (self).slot_occupied(process_index as int),
            final (self).slot_process(process_index as int).spec_appid() == old(self).slot_process(
                process_index as int,
            ).spec_appid(),
            final (self).process_identifier_max == old(self).process_identifier_max,
            final (self).grant_counter == old(self).grant_counter,
            final (self).grants_finalized == old(self).grants_finalized,
            final (self).work <= old(self).work,
            r matches Ok((reason, time)) ==> (time is Some <==> timeslice_us is Some),
            r matches Ok((reason, time)) ==> (timeslice_us matches Some(t) ==> time matches Some(e)
                && e <= t),
            old(timer).spec_never_expires() ==> (r matches Ok((reason, time)) ==> reason
                != StoppedExecutingReason::TimesliceExpired),
            final (ipc).spec_wired() == old(ipc).spec_wired(),
            r == Err::<(StoppedExecutingReason, Option<u32>), FatalKernelError>(
                FatalKernelError::ScheduledFaultyProcess,
            ) ==> final (self).slot_process(process_index as int).spec_state() == State::Fault,
            r == Err::<(StoppedExecutingReason, Option<u32>), FatalKernelError>(
                FatalKernelError::IpcTaskWithoutIpc,
            ) ==> !old(ipc).spec_wired(),
            ({
                let p = old(self).slot_process(process_index as int);
                ((p.spec_state() == State::Yielded || p.spec_state() == State::Unstarted)
                    && p.spec_tasks().len() > 0 && (p.spec_tasks()[0] matches Task::IPC(..))
                    && !old(ipc).spec_wired()) ==> (r == Err::<
                    (StoppedExecutingReason, Option<u32>),
                    FatalKernelError,
                >(FatalKernelError::IpcTaskWithoutIpc) || (r matches Ok((reason, time)) && (reason
                    == StoppedExecutingReason::TimesliceExpired || reason
                    == StoppedExecutingReason::KernelPreemption)))
            }),
            ({
                let entry = old(self).slot_process(process_index as int).spec_state();
                &&& ((entry == State::StoppedRunning || entry == State::StoppedYielded)
                    ==> final (self).slot_process(process_index as int) == old(self).slot_process(
                    process_index as int,
                )
                    && (r matches Ok((reason, time)) && (reason == StoppedExecutingReason::Stopped
                    || reason == StoppedExecutingReason::TimesliceExpired || reason
                    == StoppedExecutingReason::KernelPreemption)))
                &&& (entry == State::StoppedFaulted ==> final (self).slot_process(
                    process_index as int,
                ) == old(self).slot_process(process_index as int) && (r matches Ok((reason, time))
                    && (reason == StoppedExecutingReason::StoppedFaulted || reason
                    == StoppedExecutingReason::TimesliceExpired || reason
                    == StoppedExecutingReason::KernelPreemption)))
                &&& (entry == State::Fault ==> final (self).slot_process(process_index as int)
                    == old(self).slot_process(process_index as int) && (r == Err::<
                    (StoppedExecutingReason, Option<u32>),
                    FatalKernelError,
                >(FatalKernelError::ScheduledFaultyProcess) || (r matches Ok((reason, time)) && (
                reason == StoppedExecutingReason::TimesliceExpired || reason
                    == StoppedExecutingReason::KernelPreemption))))
                &&& (r matches Ok((reason, time)) && reason == StoppedExecutingReason::Stopped
                    ==> entry == State::StoppedRunning || entry == State::StoppedYielded)
                &&& (r matches Ok((reason, time)) && reason
                    == StoppedExecutingReason::StoppedFaulted ==> entry == State::StoppedFaulted)
                &&& (r matches Ok((reason, time)) && reason == StoppedExecutingReason::NoWorkLeft
                    ==> final (self).slot_process(process_index as int).spec_tasks().len() == 0 && (
                final (self).slot_process(process_index as int).spec_state() == State::Yielded
                    || final (self).slot_process(process_index as int).spec_state()
                    == State::Unstarted))
            }),
    {
        let idx = process_index;
        timer.reset();
        match timeslice_us {
            Some(timeslice) => timer.start(timeslice),
            None => {},
        }
        loop
            invariant
                self.wf(),
                idx == process_index,
                idx < self.processes@.len(),
                self.processes@.len() == old(self).processes@.len(),
                self.slot_occupied(idx as int),
                self.slot_process(idx as int).spec_appid() == old(self).slot_process(
                    idx as int,
                ).spec_appid(),
                forall|j: int|
                    0 <= j < self.processes@.len() && j != idx ==> self.processes@[j] == old(
                        self,
                    ).processes@[j],
                self.process_identifier_max == old(self).process_identifier_max,
                self.grant_counter == old(self).grant_counter,
                self.grants_finalized == old(self).grants_finalized,
                self.work <= old(self).work,
                timer.spec_never_expires() == old(timer).spec_never_expires(),
                forall|d: usize|
                    #[trigger] platform.spec_has_driver(d) == old(platform).spec_has_driver(d),
                ipc.spec_wired() == old(ipc).spec_wired(),
                ({
                    let p = old(self).slot_process(idx as int);
                    ((p.spec_state() == State::Yielded || p.spec_state() == State::Unstarted)
                        && p.spec_tasks().len() > 0 && (p.spec_tasks()[0] matches Task::IPC(..))
                        && !old(ipc).spec_wired()) ==> self.slot_process(idx as int) == p
                }),
                ({
                    let entry = old(self).slot_process(idx as int).spec_state();
                    let cur = self.slot_process(idx as int).spec_state();
                    &&& ((cur == State::StoppedRunning || cur == State::StoppedYielded) ==> (entry
                        == State::StoppedRunning || entry == State::StoppedYielded))
                    &&& (cur == State::StoppedFaulted ==> entry == State::StoppedFaulted)
                    &&& (entry == State::StoppedRunning || entry == State::StoppedYielded || entry
                        == State::StoppedFaulted || entry == State::Fault) ==> self.slot_process(
                        idx as int,
                    ) == old(self).slot_process(idx as int)
                }),
            decreases chip.spec_switch_budget(), self.slot_process(idx as int).spec_tasks().len(),
        {
            let ghost iter_snap = *self;
            let expired = timer.has_expired();
            let remaining = timer.get_remaining_us();
            if timeslice_exhausted(expired, remaining) {
                return Ok(conclude_run(timer, timeslice_us, StoppedExecutingReason::TimesliceExpired));
            }
            if scheduler.leave_do_process(&*chip) {
                return Ok(conclude_run(timer, timeslice_us, StoppedExecutingReason::KernelPreemption));
            }
            let state = match &self.processes[idx] {
                Some(process) => process.get_state(),
                None => unreached(),
            };
            match state {
                State::Running => {
                    // The process expects to run: set up the MPU, switch to
                    // user mode, and handle whatever brought it back.
                    let context_switch_reason = match &mut self.processes[idx] {
                        Some(process) => {
                            chip.mpu_configure_for(process);
                            chip.mpu_enable();
                            timer.arm();
                            let csr = chip.switch_to_process(process);
                            timer.disarm();
                            chip.mpu_disable();
                            csr
                        },
                        None => unreached(),
                    };
                    proof {
                        assert(iter_snap.slot_occupied(idx as int));
                        assert(iter_snap.slot_process(idx as int).wf());
                        lemma_wf_one_slot(iter_snap, *self, idx as int);
                    }
                    match context_switch_reason {
                        Some(ContextSwitchReason::Fault) => {
                            // Hardware fault in user mode: mark the process.
                            let was_running = match &mut self.processes[idx] {
                                Some(process) => process.set_fault_state(),
                                None => unreached(),
                            };
                            if was_running {
                                self.decrement_work();
                            }
                            proof {
                                assert(iter_snap.slot_occupied(idx as int));
                                assert(iter_snap.slot_process(idx as int).wf());
                                lemma_wf_one_slot(iter_snap, *self, idx as int);
                            }
                        },
                        Some(ContextSwitchReason::SyscallFired { syscall }) => {
                            // A filter denial only writes the error back;
                            // the process keeps the rest of its timeslice
                            // either way, so the outcome needs no branch.
                            let _ = self.handle_syscall(platform, idx, syscall);
                        },
                        Some(ContextSwitchReason::Interrupted) => {
                            if timer.has_expired() {
                                // The interrupt was the quantum expiring.
                                return Ok(conclude_run(
                                    timer,
                                    timeslice_us,
                                    StoppedExecutingReason::TimesliceExpired,
                                ));
                            }
                            // Otherwise loop: the next iteration re-checks
                            // whether kernel tasks want the core.
                        },
                        None => {
                            // The switch itself failed: fault the process.
                            let was_running = match &mut self.processes[idx] {
                                Some(process) => process.set_fault_state(),
                                None => unreached(),
                            };
                            if was_running {
                                self.decrement_work();
                            }
                            proof {
                                assert(iter_snap.slot_occupied(idx as int));
                                assert(iter_snap.slot_process(idx as int).wf());
                                lemma_wf_one_slot(iter_snap, *self, idx as int);
                            }
                        },
                    }
                },
                State::Yielded | State::Unstarted => {
                    // The process is waiting: deliver one pending task, or
                    // report that it has nothing left.
                    let dequeued = match &mut self.processes[idx] {
                        Some(process) => process.dequeue_task(),
                        None => unreached(),
                    };
                    proof {
                        assert(iter_snap.slot_occupied(idx as int));
                        assert(iter_snap.slot_process(idx as int).wf());
                        lemma_wf_one_slot(iter_snap, *self, idx as int);
                    }
                    match dequeued {
                        None => {
                            return Ok(conclude_run(
                                timer,
                                timeslice_us,
                                StoppedExecutingReason::NoWorkLeft,
                            ));
                        },
                        Some(task) => {
                            match task {
                                Task::FunctionCall(ccb) => {
                                    // The dequeued delivery's unit of work
                                    // carries over to the Running state, so
                                    // the counter is left as it stands.
                                    let ghost mid_snap = *self;
                                    match &mut self.processes[idx] {
                                        Some(process) => process.set_process_function(ccb),
                                        None => unreached(),
                                    }
                                    proof {
                                        assert(mid_snap.slot_occupied(idx as int));
                                        assert(mid_snap.slot_process(idx as int).wf());
                                        lemma_wf_one_slot(mid_snap, *self, idx as int);
                                    }
                                },
                                Task::IPC(otherapp, ipc_type) => {
                                    let ghost mid_snap = *self;
                                    self.decrement_work();
                                    proof {
                                        lemma_wf_same_table(mid_snap, *self);
                                    }
                                    let appid = match &self.processes[idx] {
                                        Some(process) => process.appid(),
                                        None => unreached(),
                                    };
                                    if ipc.wired() {
                                        ipc.schedule_callback(appid, otherapp, ipc_type);
                                    } else {
                                        // Kernel consistency error: an IPC
                                        // task cannot exist without an IPC
                                        // module.
                                        return Err(FatalKernelError::IpcTaskWithoutIpc);
                                    }
                                },
                            }
                        },
                    }
                },
                State::Fault => {
                    // A faulted process must never be scheduled.
                    return Err(FatalKernelError::ScheduledFaultyProcess);
                },
                State::StoppedRunning | State::StoppedYielded => {
                    return Ok(conclude_run(timer, timeslice_us, StoppedExecutingReason::Stopped));
                },
                State::StoppedFaulted => {
                    return Ok(conclude_run(
                        timer,
                        timeslice_us,
                        StoppedExecutingReason::StoppedFaulted,
                    ));
                },
            }
        }
    }

    /// One step of the main loop's inner process-running loop: tickle the
    /// watchdog; if the policy wants a break for kernel tasks, say so
    /// (false); otherwise ask it for the next process, run that process
    /// through the dispatcher, and report the outcome back to the policy.
    /// When no process has any work, the default policy asks for the break,
    /// so the caller reaches the sleep gate without a process ever being
    /// named.
    pub fn kernel_loop_step<
        P: Platform,
        C: Chip,
        S: Scheduler<C>,
        T: SchedulerTimer,
        IP: IpcMechanism,
    >(
        &mut self,
        platform: &mut P,
        chip: &mut C,
        scheduler: &mut S,
        ipc: &mut IP,
        timer: &mut T,
        _capability: &MainLoopCapability,
    ) -> (r: Result<bool, FatalKernelError>)
        requires
            old(self).wf(),
        ensures
            final (self).wf(),
            final (self).processes@.len() == old(self).processes@.len(),
            final (self).process_identifier_max == old(self).process_identifier_max,
            final (self).grant_counter == old(self).grant_counter,
            final (self).grants_finalized == old(self).grants_finalized,
            final (self).work <= old(self).work,
            final (ipc).spec_wired() == old(ipc).spec_wired(),
            r == Err::<bool, FatalKernelError>(FatalKernelError::ScheduledFaultyProcess)
                ==> exists|i: int|
                #[trigger] final (self).slot_occupied(i) && final (self).slot_process(
                    i,
                ).spec_state() == State::Fault,
            r == Err::<bool, FatalKernelError>(FatalKernelError::IpcTaskWithoutIpc) ==> !old(
                ipc,
            ).spec_wired(),
    {
        chip.watchdog_tickle();
        if scheduler.break_for_kernel_tasks(self, chip) {
            return Ok(false);
        }
        let (appid_opt, timeslice_us) = scheduler.next(self);
        match appid_opt {
            Some(appid) => {
                // Run the named process if it is still live at the slot its
                // identity names; a stale identity is skipped.
                if appid.index < self.processes.len() {
                    let matches_slot = match &self.processes[appid.index] {
                        Some(process) => process.appid() == appid,
                        None => false,
                    };
                    if matches_slot {
                        let outcome = match timeslice_us {
                            None => {
                                // Cooperative run: a dummy timer that never
                                // expires stands in for the chip's.
                                let mut dummy = DummyTimer;
                                self.do_process(
                                    platform,
                                    chip,
                                    &*scheduler,
                                    appid.index,
                                    ipc,
                                    &mut dummy,
                                    None,
                                )
                            },
                            Some(timeslice) => self.do_process(
                                platform,
                                chip,
                                &*scheduler,
                                appid.index,
                                ipc,
                                timer,
                                Some(timeslice),
                            ),
                        };
                        match outcome {
                            Ok((reason, time_executed)) => {
                                scheduler.result(reason, time_executed);
                            },
                            Err(fatal) => {
                                proof {
                                    if fatal == FatalKernelError::ScheduledFaultyProcess {
                                        assert(self.slot_occupied(appid.index as int)
                                            && self.slot_process(appid.index as int).spec_state()
                                            == State::Fault);
                                    }
                                }
                                return Err(fatal);
                            },
                        }
                    }
                }
            },
            None => {},
        }
        Ok(true)
    }

    /// The atomic sleep gate at the bottom of the main loop: with
    /// interrupts masked, check that no interrupt is pending, no deferred
    /// call is queued, and no process has work; the CPU sleeps (watchdog
    /// suspended, then resumed on wake) exactly when all three hold.
    /// Masking makes the checks and the decision one unit, so an interrupt
    /// cannot slip in between and be missed.
    pub fn sleep_if_idle<C: Chip>(&self, chip: &mut C) -> (r: bool)
        ensures
            r == (!old(chip).spec_interrupts_pending() && old(chip).spec_deferred_count() == 0
                && self.spec_work() == 0),
    {
        chip.atomic_begin();
        let mut slept = false;
        if !chip.has_pending_interrupts() && !chip.has_pending_deferred_calls()
            && self.processes_blocked() {
            chip.watchdog_suspend();
            chip.sleep();
            chip.watchdog_resume();
            slept = true;
        }
        chip.atomic_end();
        slept
    }
}

/// The first ready process in slot order, if any: a utility shared by the
/// scheduling policies. A returned identity names an occupied slot whose
/// process is ready (so never one in the Fault or a stopped state), and
/// every earlier slot holds no ready process; None means no process is
/// ready at all.
pub fn select_first_ready(kernel: &Kernel) -> (r: Option<AppId>)
    requires
        kernel.wf(),
    ensures
        r matches Some(a) ==> kernel.slot_occupied(a.index as int) && kernel.slot_process(
            a.index as int,
        ).spec_ready() && kernel.slot_process(a.index as int).spec_appid() == a && forall|j: int|
            0 <= j < a.index && #[trigger] kernel.slot_occupied(j) ==> !kernel.slot_process(
                j,
            ).spec_ready(),
        r is None ==> forall|i: int|
            #[trigger] kernel.slot_occupied(i) ==> !kernel.slot_process(i).spec_ready(),
{
    let n = kernel.processes.len();
    let mut i: usize = 0;
    while i < n
        invariant
            i <= n,
            n == kernel.processes@.len(),
            kernel.wf(),
            forall|j: int|
                0 <= j < i && #[trigger] kernel.slot_occupied(j) ==> !kernel.slot_process(
                    j,
                ).spec_ready(),
        decreases n - i,
    {
        match &kernel.processes[i] {
            Some(p) => {
                if p.ready() {
                    proof {
                        assert(kernel.slot_occupied(i as int));
                    }
                    return Some(p.appid());
                }
            },
            None => {},
        }
        i += 1;
    }
    None
}

/// Well-formedness only depends on the process table: it survives any
/// change to the kernel's counters.
proof fn lemma_wf_same_table(pre: Kernel, post: Kernel)
    requires
        pre.wf(),
        post.processes == pre.processes,
    ensures
        post.wf(),
{
    assert forall|i: int| post.slot_occupied(i) implies post.slot_process(i).wf()
        && post.slot_process(i).spec_appid().index == i by {
        assert(pre.slot_occupied(i));
    }
}

/// Well-formedness is preserved when a single slot's occupant is replaced
/// by a well-formed process whose identity still names that slot.
proof fn lemma_wf_one_slot(pre: Kernel, post: Kernel, idx: int)
    requires
        pre.wf(),
        post.processes@.len() == pre.processes@.len(),
        forall|j: int|
            0 <= j < pre.processes@.len() && j != idx ==> post.processes@[j] == pre.processes@[j],
        post.slot_occupied(idx),
        post.slot_process(idx).wf(),
        post.slot_process(idx).spec_appid().index == idx,
    ensures
        post.wf(),
{
    assert forall|i: int| post.slot_occupied(i) implies post.slot_process(i).wf()
        && post.slot_process(i).spec_appid().index == i by {
        if i != idx {
            assert(post.processes@[i] == pre.processes@[i]);
            assert(pre.slot_occupied(i));
        }
    }
}

/// The identities of the occupants of a slot table, in slot order.
pub open spec fn appids_of(s: Seq<Option<Process>>) -> Seq<AppId>
    decreases s.len(),
{
    if s.len() == 0 {
        Seq::empty()
    } else {
        let rest = appids_of(s.drop_last());
        match s.last() {
            Some(p) => rest.push(p.spec_appid()),
            None => rest,
        }
    }
}

/// Unfolding step: the identity list distributes over appending one slot.
pub proof fn lemma_appids_push(s: Seq<Option<Process>>, slot: Option<Process>)
    ensures
        appids_of(s.push(slot)) == (match slot {
            Some(p) => appids_of(s).push(p.spec_appid()),
            None => appids_of(s),
        }),
{
    assert(s.push(slot).drop_last() =~= s);
    assert(s.push(slot).last() == slot);
}

/// A valid identity names its own process: if `appid_is_valid(a)` holds of
/// a well-formed kernel, the full-identity lookup behind `process_map_or`
/// finds a process whose identity is exactly `a` (so a lookup keyed by `a`
/// can never reach a different process).
pub proof fn lemma_valid_appid_lookup(k: Kernel, a: AppId)
    requires
        k.wf(),
        k.spec_appid_is_valid(a),
    ensures
        k.spec_lookup(a) matches Some(p) && p.spec_appid() == a,
{
    assert(k.slot_occupied(a.index as int));
    assert(k.slot_process(a.index as int).spec_appid().index == a.index);
}

/// Once the grant registry is finalized, grant creation is forbidden, and
/// stays forbidden: no kernel operation clears the flag.
pub proof fn lemma_no_grant_creation_after_finalize(k: Kernel)
    requires
        k.grants_finalized,
    ensures
        !k.grant_creation_allowed(),
{
}

/// Process identifiers are strictly monotonic: across two successive
/// identifier allocations (each returning the counter and advancing it),
/// the second identifier is strictly greater than the first.
pub proof fn lemma_identifier_strictly_increasing(
    k0: Kernel,
    k1: Kernel,
    k2: Kernel,
    r1: usize,
    r2: usize,
)
    requires
        r1 == k0.process_identifier_max,
        k1.process_identifier_max == r1 + 1,
        r2 == k1.process_identifier_max,
        k2.process_identifier_max == r2 + 1,
    ensures
        r2 > r1,
{
}

} // verus!
