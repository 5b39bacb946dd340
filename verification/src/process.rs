//! The kernel's model of a userspace process: its scheduling state, its
//! pending task queue, its syscall return slot, and its memory bookkeeping.

use vstd::prelude::*;

use crate::callback::AppId;
use crate::callback::CallbackId;
use crate::returncode::ReturnCode;

verus! {

/// The scheduling state of a process.
#[derive(Clone, Copy, PartialEq, Eq, Structural, Debug)]
pub enum State {
    /// Loaded but never run; pending tasks start it.
    Unstarted,
    /// Expects to run userspace code at the next opportunity.
    Running,
    /// Waiting for a callback; pending tasks resume it.
    Yielded,
    /// Faulted; must never be scheduled again. Transient: outside the
    /// dispatcher the configured fault response decides what happens next.
    Fault,
    /// Stopped by the kernel while it was Running.
    StoppedRunning,
    /// Stopped by the kernel while it was Yielded.
    StoppedYielded,
    /// Stopped by the kernel after it faulted.
    StoppedFaulted,
}

/// Where a queued function call came from.
#[derive(Clone, Copy, PartialEq, Eq, Structural, Debug)]
pub enum FunctionCallSource {
    /// Queued by the kernel itself.
    Kernel,
    /// Queued on behalf of a driver callback subscription.
    Driver(CallbackId),
}

/// A pending entry into userspace: a program counter and four word-sized
/// arguments, tagged with the subscription it belongs to so that a
/// re-subscription can cancel it while it is still queued.
#[derive(Clone, Copy, PartialEq, Eq, Structural, Debug)]
pub struct FunctionCall {
    /// Which subscription, if any, this call delivers.
    pub source: FunctionCallSource,
    /// First argument.
    pub argument0: usize,
    /// Second argument.
    pub argument1: usize,
    /// Third argument.
    pub argument2: usize,
    /// Fourth argument.
    pub argument3: usize,
    /// Entry address in userspace.
    pub pc: usize,
}

/// The kind of an IPC notification.
#[derive(Clone, Copy, PartialEq, Eq, Structural, Debug)]
pub enum IpcType {
    /// Notify the process in its role as an IPC service.
    Service,
    /// Notify the process in its role as an IPC client.
    Client,
}

/// One pending delivery for a process.
#[derive(Clone, Copy, PartialEq, Eq, Structural, Debug)]
pub enum Task {
    /// Deliver a function-call callback.
    FunctionCall(FunctionCall),
    /// Deliver an IPC notification from the named peer.
    IPC(AppId, IpcType),
}

/// A slice of a process's own memory shared with a driver through ALLOW,
/// already validated to lie within the process's writable memory.
#[derive(Clone, Copy, PartialEq, Eq, Structural, Debug)]
pub struct AppSlice {
    /// Start address of the shared region.
    pub ptr: usize,
    /// Length of the shared region in bytes.
    pub len: usize,
}

/// True iff `task` is a driver callback delivery for subscription `id`.
pub open spec fn task_matches_callback(task: Task, id: CallbackId) -> bool {
    match task {
        Task::FunctionCall(fc) => fc.source == FunctionCallSource::Driver(id),
        Task::IPC(..) => false,
    }
}

/// A ready process is never in the Fault state, nor stopped: a scheduling
/// decision built on readiness can never name a faulted process.
pub proof fn lemma_ready_is_schedulable(p: Process)
    requires
        p.spec_ready(),
    ensures
        p.spec_state() != State::Fault,
        p.spec_state() != State::StoppedRunning,
        p.spec_state() != State::StoppedYielded,
        p.spec_state() != State::StoppedFaulted,
{
}

/// The task queue `s` with every driver callback for subscription `id`
/// removed, other deliveries kept in order.
pub open spec fn without_callbacks(s: Seq<Task>, id: CallbackId) -> Seq<Task>
    decreases s.len(),
{
    if s.len() == 0 {
        Seq::empty()
    } else {
        let rest = without_callbacks(s.drop_last(), id);
        if task_matches_callback(s.last(), id) {
            rest
        } else {
            rest.push(s.last())
        }
    }
}

/// Removing callbacks never lengthens the queue.
pub proof fn lemma_without_callbacks_len(s: Seq<Task>, id: CallbackId)
    ensures
        without_callbacks(s, id).len() <= s.len(),
    decreases s.len(),
{
    if s.len() > 0 {
        lemma_without_callbacks_len(s.drop_last(), id);
    }
}

/// Unfolding step: removing callbacks distributes over appending one task.
pub proof fn lemma_without_callbacks_push(s: Seq<Task>, t: Task, id: CallbackId)
    ensures
        without_callbacks(s.push(t), id) == if task_matches_callback(t, id) {
            without_callbacks(s, id)
        } else {
            without_callbacks(s, id).push(t)
        },
{
    assert(s.push(t).drop_last() =~= s);
    assert(s.push(t).last() == t);
}

/// After removal, no driver callback for `id` remains in the queue, and
/// every remaining task already stood in the queue before the removal.
pub proof fn lemma_without_callbacks_clears(s: Seq<Task>, id: CallbackId)
    ensures
        forall|j: int|
            0 <= j < without_callbacks(s, id).len() ==> !task_matches_callback(
                #[trigger] without_callbacks(s, id)[j],
                id,
            ) && s.contains(without_callbacks(s, id)[j]),
    decreases s.len(),
{
    if s.len() > 0 {
        let rest = without_callbacks(s.drop_last(), id);
        lemma_without_callbacks_clears(s.drop_last(), id);
        assert forall|j: int| 0 <= j < without_callbacks(s, id).len() implies !task_matches_callback(
            #[trigger] without_callbacks(s, id)[j],
            id,
        ) && s.contains(without_callbacks(s, id)[j]) by {
            if j < rest.len() {
                assert(without_callbacks(s, id)[j] == rest[j]);
                let k = choose|k: int|
                    0 <= k < s.drop_last().len() && s.drop_last()[k] == rest[j];
                assert(s[k] == rest[j]);
            } else {
                assert(without_callbacks(s, id)[j] == s.last());
                assert(s[s.len() - 1] == s.last());
            }
        }
    }
}

/// The kernel's record of one userspace process.
pub struct Process {
    /// The process's identity.
    pub appid: AppId,
    /// The scheduling state.
    pub state: State,
    /// Pending deliveries, front first.
    pub tasks: Vec<Task>,
    /// Capacity of the bounded task queue.
    pub tasks_cap: usize,
    /// The most recent syscall return value written back to the process.
    pub syscall_return: Option<ReturnCode>,
    /// The entry point installed for the process's next resumption.
    pub queued_function: Option<FunctionCall>,
    /// Start of the process's writable memory.
    pub mem_start: usize,
    /// One past the end of the process's writable memory.
    pub mem_end: usize,
    /// The current memory break.
    pub app_break: usize,
}

impl Process {
    /// The process's identity.
    pub open spec fn spec_appid(self) -> AppId {
        self.appid
    }

    /// The process's scheduling state.
    pub open spec fn spec_state(self) -> State {
        self.state
    }

    /// The pending task queue, front first.
    pub open spec fn spec_tasks(self) -> Seq<Task> {
        self.tasks@
    }

    /// Capacity of the bounded task queue.
    pub open spec fn spec_tasks_cap(self) -> usize {
        self.tasks_cap
    }

    /// The most recent syscall return value written back to the process.
    pub open spec fn spec_syscall_return(self) -> Option<ReturnCode> {
        self.syscall_return
    }

    /// The entry point installed for the process's next resumption.
    pub open spec fn spec_queued_function(self) -> Option<FunctionCall> {
        self.queued_function
    }

    /// Start of the process's writable memory.
    pub open spec fn spec_mem_start(self) -> usize {
        self.mem_start
    }

    /// One past the end of the process's writable memory.
    pub open spec fn spec_mem_end(self) -> usize {
        self.mem_end
    }

    /// The process's current memory break.
    pub open spec fn spec_app_break(self) -> usize {
        self.app_break
    }

    /// Well-formedness: the break lies within the process's memory and the
    /// task queue respects its capacity.
    pub open spec fn wf(self) -> bool {
        &&& self.mem_start <= self.app_break <= self.mem_end
        &&& self.tasks@.len() <= self.tasks_cap
    }

    /// A process is ready to be scheduled if it expects to run, or if it is
    /// resumable and has deliveries queued. Faulted and stopped processes
    /// are never ready.
    pub open spec fn spec_ready(self) -> bool {
        match self.state {
            State::Running => true,
            State::Yielded | State::Unstarted => self.tasks@.len() > 0,
            _ => false,
        }
    }

    /// Create a process occupying the slot named by `appid`, with writable
    /// memory `[mem_start, mem_end)` and a task queue bounded by
    /// `tasks_cap`.
    pub fn new(appid: AppId, mem_start: usize, mem_end: usize, tasks_cap: usize) -> (r: Process)
        requires
            mem_start <= mem_end,
        ensures
            r.wf(),
            r.spec_appid() == appid,
            r.spec_state() == State::Unstarted,
            r.spec_tasks() == Seq::<Task>::empty(),
            r.spec_tasks_cap() == tasks_cap,
            r.spec_syscall_return() is None,
            r.spec_queued_function() is None,
            r.spec_mem_start() == mem_start,
            r.spec_mem_end() == mem_end,
            r.spec_app_break() == mem_start,
    {
        let p = Process {
            appid,
            state: State::Unstarted,
            tasks: Vec::new(),
            tasks_cap,
            syscall_return: None,
            queued_function: None,
            mem_start,
            mem_end,
            app_break: mem_start,
        };
        assert(p.spec_tasks() =~= Seq::<Task>::empty());
        p
    }

    /// The process's identity.
    pub fn appid(&self) -> (r: AppId)
        ensures
            r == self.spec_appid(),
    {
        self.appid
    }

    /// The process's scheduling state.
    pub fn get_state(&self) -> (r: State)
        ensures
            r == self.spec_state(),
    {
        self.state
    }

    /// Whether a scheduling policy may pick this process.
    pub fn ready(&self) -> (r: bool)
        ensures
            r == self.spec_ready(),
    {
        match self.state {
            State::Running => true,
            State::Yielded | State::Unstarted => self.tasks.len() > 0,
            _ => false,
        }
    }

    /// Number of pending deliveries.
    pub fn pending_tasks(&self) -> (r: usize)
        ensures
            r == self.spec_tasks().len(),
    {
        self.tasks.len()
    }

    /// The most recent syscall return value written back to the process.
    pub fn syscall_return_value(&self) -> (r: Option<ReturnCode>)
        ensures
            r == self.spec_syscall_return(),
    {
        self.syscall_return
    }

    /// The entry point installed for the process's next resumption.
    pub fn queued_function(&self) -> (r: Option<FunctionCall>)
        ensures
            r == self.spec_queued_function(),
    {
        self.queued_function
    }

    /// Start of the process's writable memory.
    pub fn memory_start(&self) -> (r: usize)
        ensures
            r == self.spec_mem_start(),
    {
        self.mem_start
    }

    /// One past the end of the process's writable memory.
    pub fn memory_end(&self) -> (r: usize)
        ensures
            r == self.spec_mem_end(),
    {
        self.mem_end
    }

    /// The process's current memory break.
    pub fn current_break(&self) -> (r: usize)
        ensures
            r == self.spec_app_break(),
    {
        self.app_break
    }

    /// Append a delivery to the task queue. Fails (returning false, queue
    /// unchanged) when the bounded queue is full.
    pub fn enqueue_task(&mut self, task: Task) -> (r: bool)
        ensures
            r == (old(self).spec_tasks().len() < old(self).spec_tasks_cap()),
            r ==> *final(self) == (Process {
                tasks: final (self).tasks,
                ..*old(self)
            }) && final (self).spec_tasks() == old(self).spec_tasks().push(task),
            !r ==> *final(self) == *old(self),
    {
        if self.tasks.len() < self.tasks_cap {
            self.tasks.push(task);
            true
        } else {
            false
        }
    }

    /// Remove and return the oldest pending delivery, if any.
    pub fn dequeue_task(&mut self) -> (r: Option<Task>)
        ensures
            old(self).spec_tasks().len() == 0 ==> r is None && *final(self) == *old(self),
            old(self).spec_tasks().len() > 0 ==> {
                &&& r == Some(old(self).spec_tasks()[0])
                &&& *final(self) == (Process { tasks: final (self).tasks, ..*old(self) })
                &&& final (self).spec_tasks() == old(self).spec_tasks().skip(1)
            },
    {
        if self.tasks.len() > 0 {
            let t = self.tasks.remove(0);
            proof {
                assert(final (self).spec_tasks() =~= old(self).spec_tasks().skip(1));
            }
            Some(t)
        } else {
            None
        }
    }

    /// Remove every pending driver callback for subscription `id`, keeping
    /// all other deliveries in order. Returns how many were removed, so that
    /// the caller can settle the kernel's work counter.
    pub fn remove_pending_callbacks(&mut self, id: CallbackId) -> (r: usize)
        ensures
            *final(self) == (Process { tasks: final (self).tasks, ..*old(self) }),
            final (self).spec_tasks() == without_callbacks(old(self).spec_tasks(), id),
            r == old(self).spec_tasks().len() - final (self).spec_tasks().len(),
    {
        let ghost all = self.tasks@;
        let mut kept: Vec<Task> = Vec::new();
        let mut i: usize = 0;
        while i < self.tasks.len()
            invariant
                i <= all.len(),
                self.tasks@ == all,
                kept@ == without_callbacks(all.subrange(0, i as int), id),
            decreases all.len() - i,
        {
            let t = self.tasks[i];
            proof {
                assert(all.subrange(0, i + 1) =~= all.subrange(0, i as int).push(all[i as int]));
                lemma_without_callbacks_push(all.subrange(0, i as int), all[i as int], id);
            }
            let matches_id = match t {
                Task::FunctionCall(fc) => match fc.source {
                    FunctionCallSource::Driver(cid) => cid == id,
                    FunctionCallSource::Kernel => false,
                },
                Task::IPC(..) => false,
            };
            if !matches_id {
                kept.push(t);
            }
            i += 1;
        }
        proof {
            assert(all.subrange(0, all.len() as int) =~= all);
            lemma_without_callbacks_len(all, id);
        }
        let removed = self.tasks.len() - kept.len();
        self.tasks = kept;
        removed
    }

    /// Whether a driver callback for subscription `id` is still queued.
    pub fn has_pending_callback(&self, id: CallbackId) -> (r: bool)
        ensures
            r == exists|j: int|
                0 <= j < self.spec_tasks().len() && task_matches_callback(
                    self.spec_tasks()[j],
                    id,
                ),
    {
        let mut i: usize = 0;
        while i < self.tasks.len()
            invariant
                i <= self.tasks@.len(),
                forall|j: int| 0 <= j < i ==> !task_matches_callback(self.spec_tasks()[j], id),
            decreases self.tasks@.len() - i,
        {
            let matches_id = match self.tasks[i] {
                Task::FunctionCall(fc) => match fc.source {
                    FunctionCallSource::Driver(cid) => cid == id,
                    FunctionCallSource::Kernel => false,
                },
                Task::IPC(..) => false,
            };
            if matches_id {
                return true;
            }
            i += 1;
        }
        false
    }

    /// Write a syscall return value into the process's saved register file,
    /// to be observed when the process next resumes. This is the only field
    /// the write touches.
    pub fn set_syscall_return_value(&mut self, return_value: ReturnCode)
        ensures
            *final(self) == (Process {
                syscall_return: Some(return_value),
                ..*old(self)
            }),
    {
        self.syscall_return = Some(return_value);
    }

    /// Mark a Running process as Yielded. Returns true iff the state
    /// actually changed, so that the caller can settle the kernel's work
    /// counter; on any other state the process is left untouched.
    pub fn set_yielded_state(&mut self) -> (r: bool)
        ensures
            r == (old(self).spec_state() == State::Running),
            r ==> *final(self) == (Process { state: State::Yielded, ..*old(self) }),
            !r ==> *final(self) == *old(self),
    {
        if self.state == State::Running {
            self.state = State::Yielded;
            true
        } else {
            false
        }
    }

    /// Put the process into the Fault state, whatever it was doing. Returns
    /// true iff the process was Running, so that the caller can settle the
    /// kernel's work counter.
    pub fn set_fault_state(&mut self) -> (r: bool)
        ensures
            *final(self) == (Process { state: State::Fault, ..*old(self) }),
            r == (old(self).spec_state() == State::Running),
    {
        let was_running = self.state == State::Running;
        self.state = State::Fault;
        was_running
    }

    /// Install a dequeued function call as the process's next entry point
    /// and mark it Running. Only resumable processes take a new entry point.
    pub fn set_process_function(&mut self, callback: FunctionCall)
        requires
            old(self).spec_state() == State::Yielded || old(self).spec_state()
                == State::Unstarted,
        ensures
            *final(self) == (Process {
                state: State::Running,
                queued_function: Some(callback),
                ..*old(self)
            }),
    {
        self.queued_function = Some(callback);
        self.state = State::Running;
    }

    /// True iff `[addr, addr + size)` lies within the process's writable
    /// memory.
    pub open spec fn spec_allow_in_bounds(self, addr: usize, size: usize) -> bool {
        self.mem_start <= addr && addr + size <= self.mem_end
    }

    /// Validate a buffer the process offered through ALLOW. A null address
    /// revokes the sharing (no slice); a buffer inside the process's
    /// writable memory yields a shared slice; anything else is rejected
    /// with EINVAL and nothing is shared.
    pub fn allow(&self, addr: usize, size: usize) -> (r: Result<Option<AppSlice>, ReturnCode>)
        ensures
            addr == 0 ==> r == Ok::<Option<AppSlice>, ReturnCode>(None),
            addr != 0 && self.spec_allow_in_bounds(addr, size) ==> r == Ok::<
                Option<AppSlice>,
                ReturnCode,
            >(Some(AppSlice { ptr: addr, len: size })),
            addr != 0 && !self.spec_allow_in_bounds(addr, size) ==> r == Err::<
                Option<AppSlice>,
                ReturnCode,
            >(ReturnCode::EINVAL),
    {
        if addr == 0 {
            Ok(None)
        } else if addr >= self.mem_start && addr <= self.mem_end && size <= self.mem_end - addr {
            Ok(Some(AppSlice { ptr: addr, len: size }))
        } else {
            Err(ReturnCode::EINVAL)
        }
    }

    /// Move the process's memory break to `new_break`. Succeeds, reporting
    /// the new break, iff the target lies within the process's memory;
    /// otherwise ENOMEM and no change.
    pub fn brk(&mut self, new_break: usize) -> (r: ReturnCode)
        ensures
            old(self).spec_mem_start() <= new_break <= old(self).spec_mem_end() ==> {
                &&& *final(self) == (Process { app_break: new_break, ..*old(self) })
                &&& r == (ReturnCode::SuccessWithValue { value: new_break })
            },
            !(old(self).spec_mem_start() <= new_break <= old(self).spec_mem_end()) ==> {
                &&& *final(self) == *old(self)
                &&& r == ReturnCode::ENOMEM
            },
    {
        if self.mem_start <= new_break && new_break <= self.mem_end {
            self.app_break = new_break;
            ReturnCode::SuccessWithValue { value: new_break }
        } else {
            ReturnCode::ENOMEM
        }
    }

    /// Move the process's memory break by `increment`, interpreted as a
    /// two's-complement word so that userspace can shrink its memory as
    /// well as grow it. Succeeds, reporting the new break, iff the target
    /// lies within the process's memory; otherwise ENOMEM and no change.
    pub fn sbrk(&mut self, increment: usize) -> (r: ReturnCode)
        ensures
            ({
                let target = usize::wrapping_add(old(self).spec_app_break(), increment);
                &&& (old(self).spec_mem_start() <= target <= old(self).spec_mem_end()) ==> {
                    &&& *final(self) == (Process { app_break: target, ..*old(self) })
                    &&& r == (ReturnCode::SuccessWithValue { value: target })
                }
                &&& !(old(self).spec_mem_start() <= target <= old(self).spec_mem_end()) ==> {
                    &&& *final(self) == *old(self)
                    &&& r == ReturnCode::ENOMEM
                }
            }),
    {
        let target = self.app_break.wrapping_add(increment);
        self.brk(target)
    }
}

} // verus!
