use kernel::callback::AppId;
use kernel::callback::Callback;
use kernel::callback::CallbackId;
use kernel::capabilities::MainLoopCapability;
use kernel::cooperative::CooperativeSched;
use kernel::priority::PrioritySched;
use kernel::mlfq::MLFQSched;
use kernel::process::IpcType;
use kernel::ipc::NoIpc;
use kernel::platform::Chip;
use kernel::platform::DummyTimer;
use kernel::platform::Platform;
use kernel::platform::SchedulerTimer;
use kernel::process::AppSlice;
use kernel::process::FunctionCall;
use kernel::process::FunctionCallSource;
use kernel::process::Process;
use kernel::process::State;
use kernel::process::Task;
use kernel::returncode::ReturnCode;
use kernel::round_robin::RoundRobinSched;
use kernel::sched::select_first_ready;
use kernel::sched::FatalKernelError;
use kernel::sched::Kernel;
use kernel::sched::Scheduler;
use kernel::sched::StoppedExecutingReason;
use kernel::syscall::ContextSwitchReason;
use kernel::syscall::Syscall;

/// A chip whose context switches follow a script; once the script runs dry
/// it reports an interrupt, so the dispatcher winds down with a kernel
/// preemption.
struct ScriptChip {
    interrupts_pending: bool,
    deferred_pending: usize,
    switch_script: Vec<Option<ContextSwitchReason>>,
    switches: usize,
    mpu_enables: usize,
    mpu_disables: usize,
    tickles: usize,
    suspends: usize,
    resumes: usize,
    slept: bool,
}

impl ScriptChip {
    fn new(switch_script: Vec<Option<ContextSwitchReason>>) -> ScriptChip {
        ScriptChip {
            interrupts_pending: false,
            deferred_pending: 0,
            switch_script,
            switches: 0,
            mpu_enables: 0,
            mpu_disables: 0,
            tickles: 0,
            suspends: 0,
            resumes: 0,
            slept: false,
        }
    }
}

impl Chip for ScriptChip {
    fn service_pending_interrupts(&mut self) {
        self.interrupts_pending = false;
    }

    fn has_pending_interrupts(&self) -> bool {
        self.interrupts_pending
    }

    fn has_pending_deferred_calls(&self) -> bool {
        self.deferred_pending > 0
    }

    fn service_deferred_call(&mut self) -> bool {
        if self.deferred_pending > 0 {
            self.deferred_pending -= 1;
            true
        } else {
            false
        }
    }

    fn mpu_configure_for(&mut self, _process: &Process) {}

    fn mpu_enable(&mut self) {
        self.mpu_enables += 1;
    }

    fn mpu_disable(&mut self) {
        self.mpu_disables += 1;
    }

    fn switch_to_process(&mut self, process: &mut Process) -> Option<ContextSwitchReason> {
        self.switches += 1;
        process.queued_function = None;
        if self.switch_script.is_empty() {
            self.interrupts_pending = true;
            Some(ContextSwitchReason::Interrupted)
        } else {
            self.switch_script.remove(0)
        }
    }

    fn watchdog_tickle(&mut self) {
        self.tickles += 1;
    }

    fn watchdog_suspend(&mut self) {
        self.suspends += 1;
    }

    fn watchdog_resume(&mut self) {
        self.resumes += 1;
    }

    fn atomic_begin(&mut self) {}

    fn atomic_end(&mut self) {}

    fn sleep(&mut self) {
        self.slept = true;
    }
}

/// A timer that hands out a scripted sequence of remaining-time readings,
/// repeating the last one.
struct ScriptTimer {
    remaining_script: Vec<u32>,
    started_with: Option<u32>,
}

impl ScriptTimer {
    fn new(remaining_script: Vec<u32>) -> ScriptTimer {
        ScriptTimer { remaining_script, started_with: None }
    }
}

impl SchedulerTimer for ScriptTimer {
    fn reset(&mut self) {}

    fn start(&mut self, us: u32) {
        self.started_with = Some(us);
    }

    fn arm(&mut self) {}

    fn disarm(&mut self) {}

    fn has_expired(&mut self) -> bool {
        false
    }

    fn get_remaining_us(&mut self) -> u32 {
        if self.remaining_script.len() > 1 {
            self.remaining_script.remove(0)
        } else {
            self.remaining_script[0]
        }
    }
}

/// A platform with a fixed driver map and a recording of every driver call.
struct ScriptPlatform {
    drivers: Vec<usize>,
    deny: Option<ReturnCode>,
    driver_response: ReturnCode,
    subscribe_calls: Vec<(usize, usize, Option<Callback>)>,
    command_calls: Vec<(usize, usize, usize, usize)>,
    allow_calls: Vec<(usize, usize, Option<AppSlice>)>,
}

impl ScriptPlatform {
    fn new(drivers: Vec<usize>) -> ScriptPlatform {
        ScriptPlatform {
            drivers,
            deny: None,
            driver_response: ReturnCode::SUCCESS,
            subscribe_calls: Vec::new(),
            command_calls: Vec::new(),
            allow_calls: Vec::new(),
        }
    }
}

impl Platform for ScriptPlatform {
    fn has_driver(&self, driver_num: usize) -> bool {
        self.drivers.contains(&driver_num)
    }

    fn filter_syscall(&self, _process: &Process, _syscall: &Syscall) -> Result<(), ReturnCode> {
        match self.deny {
            Some(e) => Err(e),
            None => Ok(()),
        }
    }

    fn driver_subscribe(
        &mut self,
        driver_num: usize,
        subdriver_num: usize,
        callback: Option<Callback>,
        _appid: AppId,
    ) -> ReturnCode {
        self.subscribe_calls.push((driver_num, subdriver_num, callback));
        self.driver_response
    }

    fn driver_command(
        &mut self,
        driver_num: usize,
        subdriver_num: usize,
        arg0: usize,
        arg1: usize,
        _appid: AppId,
    ) -> ReturnCode {
        self.command_calls.push((driver_num, subdriver_num, arg0, arg1));
        self.driver_response
    }

    fn driver_allow(
        &mut self,
        driver_num: usize,
        _appid: AppId,
        subdriver_num: usize,
        slice: Option<AppSlice>,
    ) -> ReturnCode {
        self.allow_calls.push((driver_num, subdriver_num, slice));
        self.driver_response
    }
}

/// A policy that records how often it was consulted.
struct ScriptScheduler {
    next_calls: usize,
    results: Vec<(StoppedExecutingReason, Option<u32>)>,
}

impl Scheduler<ScriptChip> for ScriptScheduler {
    fn next(&mut self, _kernel: &Kernel) -> (Option<AppId>, Option<u32>) {
        self.next_calls += 1;
        (None, None)
    }

    fn result(&mut self, result: StoppedExecutingReason, execution_time_us: Option<u32>) {
        self.results.push((result, execution_time_us));
    }
}

fn running_process(index: usize, id: usize) -> Process {
    Process {
        appid: AppId { index, id },
        state: State::Running,
        tasks: Vec::new(),
        tasks_cap: 8,
        syscall_return: None,
        queued_function: None,
        mem_start: 0x1000,
        mem_end: 0x2000,
        app_break: 0x1000,
    }
}

fn one_process_kernel(p: Process) -> Kernel {
    let mut k = Kernel::new(vec![Some(p)]);
    // A Running process is one outstanding unit of work.
    k.work = 1;
    k
}

#[test]
fn cooperative_yield_runs_dry() {
    // A Running process with no timeslice yields; with nothing queued the
    // dispatcher reports NoWorkLeft and no execution time.
    let mut k = one_process_kernel(running_process(0, 7));
    let mut chip = ScriptChip::new(vec![Some(ContextSwitchReason::SyscallFired {
        syscall: Syscall::YIELD,
    })]);
    let mut platform = ScriptPlatform::new(vec![]);
    let scheduler = ScriptScheduler { next_calls: 0, results: Vec::new() };
    let mut ipc = NoIpc;
    let mut dummy = DummyTimer;
    let r = k.do_process(&mut platform, &mut chip, &scheduler, 0, &mut ipc, &mut dummy, None);
    assert_eq!(r, Ok((StoppedExecutingReason::NoWorkLeft, None)));
    assert_eq!(chip.switches, 1);
    assert_eq!(k.processes[0].as_ref().unwrap().state, State::Yielded);
    assert_eq!(k.work, 0);
    // MPU enforcement was paired around the one switch.
    assert_eq!(chip.mpu_enables, 1);
    assert_eq!(chip.mpu_disables, 1);
}

#[test]
fn command_to_unknown_driver_returns_enodevice() {
    // COMMAND to a driver number the platform does not map: the numeric of
    // ENODEVICE is written back, the process stays Running, and the
    // dispatcher re-enters the switch.
    let mut k = one_process_kernel(running_process(0, 7));
    let mut chip = ScriptChip::new(vec![Some(ContextSwitchReason::SyscallFired {
        syscall: Syscall::COMMAND {
            driver_number: 0xFFFF,
            subdriver_number: 0,
            arg0: 0,
            arg1: 0,
        },
    })]);
    let mut platform = ScriptPlatform::new(vec![]);
    let scheduler = ScriptScheduler { next_calls: 0, results: Vec::new() };
    let mut ipc = NoIpc;
    let mut dummy = DummyTimer;
    let r = k.do_process(&mut platform, &mut chip, &scheduler, 0, &mut ipc, &mut dummy, None);
    // The exhausted script raises an interrupt, so the run ends in a kernel
    // preemption after the switch was re-entered.
    assert_eq!(r, Ok((StoppedExecutingReason::KernelPreemption, None)));
    assert_eq!(chip.switches, 2);
    let p = k.processes[0].as_ref().unwrap();
    assert_eq!(p.state, State::Running);
    assert_eq!(p.syscall_return, Some(ReturnCode::ENODEVICE));
    assert_eq!(p.syscall_return.unwrap().into_isize(), -11);
    assert!(platform.command_calls.is_empty());
}

#[test]
fn resubscribe_clears_pending_callbacks() {
    // A queued callback for (driver 3, sub 1) is flushed by a SUBSCRIBE to
    // the same slot, and the driver receives the new callback.
    let target = CallbackId { driver_num: 3, subscribe_num: 1 };
    let mut p = running_process(0, 7);
    p.tasks = vec![Task::FunctionCall(FunctionCall {
        source: FunctionCallSource::Driver(target),
        argument0: 0,
        argument1: 0,
        argument2: 0,
        argument3: 0,
        pc: 0x80,
    })];
    let mut k = one_process_kernel(p);
    k.work = 2;
    let mut platform = ScriptPlatform::new(vec![3]);
    let r = k.handle_syscall(
        &mut platform,
        0,
        Syscall::SUBSCRIBE {
            driver_number: 3,
            subdriver_number: 1,
            callback_ptr: 0x9000,
            appdata: 0xAB,
        },
    );
    assert_eq!(r, Ok(()));
    let q = k.processes[0].as_ref().unwrap();
    assert!(!q.has_pending_callback(target));
    assert_eq!(q.tasks.len(), 0);
    assert_eq!(q.syscall_return, Some(ReturnCode::SUCCESS));
    assert_eq!(k.work, 1);
    assert_eq!(platform.subscribe_calls.len(), 1);
    let (d, s, cb) = platform.subscribe_calls[0].clone();
    assert_eq!((d, s), (3, 1));
    let cb = cb.unwrap();
    assert_eq!(cb.fn_ptr, 0x9000);
    assert_eq!(cb.appdata, 0xAB);
    assert_eq!(cb.app_id, AppId { index: 0, id: 7 });
}

#[test]
fn null_subscribe_clears_subscription_and_queue() {
    // SUBSCRIBE with a null pointer: the pending callback is flushed and
    // the driver is told to clear the slot (no callback), so nothing can be
    // delivered for it afterwards.
    let target = CallbackId { driver_num: 3, subscribe_num: 1 };
    let mut p = running_process(0, 7);
    p.tasks = vec![Task::FunctionCall(FunctionCall {
        source: FunctionCallSource::Driver(target),
        argument0: 0,
        argument1: 0,
        argument2: 0,
        argument3: 0,
        pc: 0x80,
    })];
    let mut k = one_process_kernel(p);
    k.work = 2;
    let mut platform = ScriptPlatform::new(vec![3]);
    let r = k.handle_syscall(
        &mut platform,
        0,
        Syscall::SUBSCRIBE { driver_number: 3, subdriver_number: 1, callback_ptr: 0, appdata: 0 },
    );
    assert_eq!(r, Ok(()));
    let q = k.processes[0].as_ref().unwrap();
    assert!(!q.has_pending_callback(target));
    assert_eq!(platform.subscribe_calls.len(), 1);
    assert!(platform.subscribe_calls[0].2.is_none());
}

#[test]
fn filter_denial_writes_error_and_changes_nothing_else() {
    // A denied syscall produces exactly one return-value write; state,
    // queue, and the work counter stay as they were.
    let mut p = running_process(0, 7);
    p.tasks = vec![Task::IPC(AppId { index: 1, id: 9 }, IpcType::Service)];
    let before_tasks = p.tasks.clone();
    let mut k = one_process_kernel(p);
    k.work = 2;
    let mut platform = ScriptPlatform::new(vec![3]);
    platform.deny = Some(ReturnCode::ECANCEL);
    let r = k.handle_syscall(
        &mut platform,
        0,
        Syscall::COMMAND { driver_number: 3, subdriver_number: 0, arg0: 0, arg1: 0 },
    );
    assert_eq!(r, Err(ReturnCode::ECANCEL));
    let q = k.processes[0].as_ref().unwrap();
    assert_eq!(q.state, State::Running);
    assert_eq!(q.tasks, before_tasks);
    assert_eq!(q.syscall_return, Some(ReturnCode::ECANCEL));
    assert_eq!(k.work, 2);
    assert!(platform.command_calls.is_empty());
}

#[test]
fn yield_is_never_filtered() {
    let mut k = one_process_kernel(running_process(0, 7));
    let mut platform = ScriptPlatform::new(vec![]);
    platform.deny = Some(ReturnCode::ECANCEL);
    let r = k.handle_syscall(&mut platform, 0, Syscall::YIELD);
    assert_eq!(r, Ok(()));
    let q = k.processes[0].as_ref().unwrap();
    assert_eq!(q.state, State::Yielded);
    assert_eq!(q.syscall_return, None);
}

#[test]
fn allow_hands_validated_slice_to_driver() {
    let mut k = one_process_kernel(running_process(0, 7));
    let mut platform = ScriptPlatform::new(vec![5]);
    let r = k.handle_syscall(
        &mut platform,
        0,
        Syscall::ALLOW {
            driver_number: 5,
            subdriver_number: 2,
            allow_address: 0x1100,
            allow_size: 0x40,
        },
    );
    assert_eq!(r, Ok(()));
    assert_eq!(platform.allow_calls.len(), 1);
    assert_eq!(
        platform.allow_calls[0],
        (5, 2, Some(AppSlice { ptr: 0x1100, len: 0x40 }))
    );
    // An invalid buffer is answered with the validation error and never
    // reaches the driver.
    let r = k.handle_syscall(
        &mut platform,
        0,
        Syscall::ALLOW {
            driver_number: 5,
            subdriver_number: 2,
            allow_address: 0x010,
            allow_size: 0x40,
        },
    );
    assert_eq!(r, Ok(()));
    assert_eq!(platform.allow_calls.len(), 1);
    let q = k.processes[0].as_ref().unwrap();
    assert_eq!(q.syscall_return, Some(ReturnCode::EINVAL));
}

#[test]
fn memop_syscall_writes_result_back() {
    let mut k = one_process_kernel(running_process(0, 7));
    let mut platform = ScriptPlatform::new(vec![]);
    let r = k.handle_syscall(&mut platform, 0, Syscall::MEMOP { operand: 0, arg0: 0x1800 });
    assert_eq!(r, Ok(()));
    let q = k.processes[0].as_ref().unwrap();
    assert_eq!(q.app_break, 0x1800);
    assert_eq!(q.syscall_return, Some(ReturnCode::SuccessWithValue { value: 0x1800 }));
}

#[test]
fn timeslice_expiry_at_boundary_reports_clamped_time() {
    // Quantum 10000; after one syscall the timer reports 400 remaining,
    // under the re-entry threshold: the next iteration breaks with
    // TimesliceExpired and reports min(10000 - 400, 10000) = 9600.
    let mut k = one_process_kernel(running_process(0, 7));
    let mut chip = ScriptChip::new(vec![Some(ContextSwitchReason::SyscallFired {
        syscall: Syscall::COMMAND { driver_number: 3, subdriver_number: 0, arg0: 0, arg1: 0 },
    })]);
    let mut platform = ScriptPlatform::new(vec![3]);
    let scheduler = ScriptScheduler { next_calls: 0, results: Vec::new() };
    let mut ipc = NoIpc;
    let mut timer = ScriptTimer::new(vec![9000, 400]);
    let r = k.do_process(
        &mut platform,
        &mut chip,
        &scheduler,
        0,
        &mut ipc,
        &mut timer,
        Some(10000),
    );
    assert_eq!(r, Ok((StoppedExecutingReason::TimesliceExpired, Some(9600))));
    assert_eq!(timer.started_with, Some(10000));
    assert_eq!(chip.switches, 1);
    assert_eq!(platform.command_calls.len(), 1);
}

#[test]
fn short_remaining_quantum_is_not_entered() {
    // A process entered with remaining time under the threshold is not
    // switched to: the dispatcher reports TimesliceExpired immediately.
    let mut k = one_process_kernel(running_process(0, 7));
    let mut chip = ScriptChip::new(vec![]);
    let mut platform = ScriptPlatform::new(vec![]);
    let scheduler = ScriptScheduler { next_calls: 0, results: Vec::new() };
    let mut ipc = NoIpc;
    let mut timer = ScriptTimer::new(vec![400]);
    let r = k.do_process(
        &mut platform,
        &mut chip,
        &scheduler,
        0,
        &mut ipc,
        &mut timer,
        Some(10000),
    );
    assert_eq!(r, Ok((StoppedExecutingReason::TimesliceExpired, Some(9600))));
    assert_eq!(chip.switches, 0);
}

#[test]
fn clock_skew_reading_is_clamped_to_quantum() {
    // The timer claims more time remains than the whole quantum: the
    // reported execution time is clamped to the quantum.
    let mut k = one_process_kernel(running_process(0, 7));
    let mut chip = ScriptChip::new(vec![]);
    let mut platform = ScriptPlatform::new(vec![]);
    let scheduler = ScriptScheduler { next_calls: 0, results: Vec::new() };
    let mut ipc = NoIpc;
    let mut timer = ScriptTimer::new(vec![100, 20000]);
    let r = k.do_process(
        &mut platform,
        &mut chip,
        &scheduler,
        0,
        &mut ipc,
        &mut timer,
        Some(10000),
    );
    assert_eq!(r, Ok((StoppedExecutingReason::TimesliceExpired, Some(10000))));
}

#[test]
fn fault_during_switch_marks_process_then_aborts() {
    // switch_to reports a fault: the process enters the Fault state; on the
    // next iteration the dispatcher refuses to schedule it, which the
    // kernel treats as fatal.
    let mut k = one_process_kernel(running_process(0, 7));
    let mut chip = ScriptChip::new(vec![Some(ContextSwitchReason::Fault)]);
    let mut platform = ScriptPlatform::new(vec![]);
    let scheduler = ScriptScheduler { next_calls: 0, results: Vec::new() };
    let mut ipc = NoIpc;
    let mut dummy = DummyTimer;
    let r = k.do_process(&mut platform, &mut chip, &scheduler, 0, &mut ipc, &mut dummy, None);
    assert_eq!(r, Err(FatalKernelError::ScheduledFaultyProcess));
    assert_eq!(chip.switches, 1);
    assert_eq!(k.processes[0].as_ref().unwrap().state, State::Fault);
    assert_eq!(k.work, 0);
}

#[test]
fn failed_switch_is_treated_as_fault() {
    let mut k = one_process_kernel(running_process(0, 7));
    let mut chip = ScriptChip::new(vec![None]);
    let mut platform = ScriptPlatform::new(vec![]);
    let scheduler = ScriptScheduler { next_calls: 0, results: Vec::new() };
    let mut ipc = NoIpc;
    let mut dummy = DummyTimer;
    let r = k.do_process(&mut platform, &mut chip, &scheduler, 0, &mut ipc, &mut dummy, None);
    assert_eq!(r, Err(FatalKernelError::ScheduledFaultyProcess));
    assert_eq!(k.processes[0].as_ref().unwrap().state, State::Fault);
}

#[test]
fn stopped_processes_are_not_run() {
    // A stopped process produces the matching reason without any context
    // switch.
    for (state, reason) in [
        (State::StoppedRunning, StoppedExecutingReason::Stopped),
        (State::StoppedYielded, StoppedExecutingReason::Stopped),
        (State::StoppedFaulted, StoppedExecutingReason::StoppedFaulted),
    ] {
        let mut p = running_process(0, 7);
        p.state = state;
        let mut k = Kernel::new(vec![Some(p)]);
        let mut chip = ScriptChip::new(vec![]);
        let mut platform = ScriptPlatform::new(vec![]);
        let scheduler = ScriptScheduler { next_calls: 0, results: Vec::new() };
        let mut ipc = NoIpc;
        let mut dummy = DummyTimer;
        let r = k.do_process(&mut platform, &mut chip, &scheduler, 0, &mut ipc, &mut dummy, None);
        assert_eq!(r, Ok((reason, None)));
        assert_eq!(chip.switches, 0);
        assert_eq!(k.processes[0].as_ref().unwrap().state, state);
    }
}

#[test]
fn unstarted_process_takes_queued_function_call() {
    // Delivering a queued function call installs the entry point, marks the
    // process Running, and the dispatcher switches to it.
    let entry = FunctionCall {
        source: FunctionCallSource::Kernel,
        argument0: 1,
        argument1: 2,
        argument2: 3,
        argument3: 4,
        pc: 0x80,
    };
    let mut p = running_process(0, 7);
    p.state = State::Unstarted;
    p.tasks = vec![Task::FunctionCall(entry)];
    let mut k = Kernel::new(vec![Some(p)]);
    k.work = 1;
    let mut chip = ScriptChip::new(vec![Some(ContextSwitchReason::SyscallFired {
        syscall: Syscall::YIELD,
    })]);
    let mut platform = ScriptPlatform::new(vec![]);
    let scheduler = ScriptScheduler { next_calls: 0, results: Vec::new() };
    let mut ipc = NoIpc;
    let mut dummy = DummyTimer;
    let r = k.do_process(&mut platform, &mut chip, &scheduler, 0, &mut ipc, &mut dummy, None);
    assert_eq!(r, Ok((StoppedExecutingReason::NoWorkLeft, None)));
    // The entry point was installed and then consumed by the switch.
    assert_eq!(chip.switches, 1);
    let q = k.processes[0].as_ref().unwrap();
    assert_eq!(q.state, State::Yielded);
    assert_eq!(q.tasks.len(), 0);
}

#[test]
fn ipc_task_without_ipc_module_is_fatal() {
    let mut p = running_process(0, 7);
    p.state = State::Yielded;
    p.tasks = vec![Task::IPC(AppId { index: 1, id: 9 }, IpcType::Client)];
    let mut k = Kernel::new(vec![Some(p)]);
    k.work = 1;
    let mut chip = ScriptChip::new(vec![]);
    let mut platform = ScriptPlatform::new(vec![]);
    let scheduler = ScriptScheduler { next_calls: 0, results: Vec::new() };
    let mut ipc = NoIpc;
    let mut dummy = DummyTimer;
    let r = k.do_process(&mut platform, &mut chip, &scheduler, 0, &mut ipc, &mut dummy, None);
    assert_eq!(r, Err(FatalKernelError::IpcTaskWithoutIpc));
}

#[test]
fn empty_board_never_names_a_process_and_sleeps() {
    // With no process slots there is no work: the inner loop asks to break
    // for kernel tasks before ever consulting next(), and the sleep gate
    // puts the CPU to sleep with the watchdog paused.
    let mut k = Kernel::new(Vec::new());
    let mut chip = ScriptChip::new(vec![]);
    let mut platform = ScriptPlatform::new(vec![]);
    let mut scheduler = ScriptScheduler { next_calls: 0, results: Vec::new() };
    let mut ipc = NoIpc;
    let mut timer = ScriptTimer::new(vec![10000]);
    let main_cap = MainLoopCapability;
    let step = k.kernel_loop_step(
        &mut platform,
        &mut chip,
        &mut scheduler,
        &mut ipc,
        &mut timer,
        &main_cap,
    );
    assert_eq!(step, Ok(false));
    assert_eq!(scheduler.next_calls, 0);
    assert_eq!(chip.tickles, 1);
    let slept = k.sleep_if_idle(&mut chip);
    assert!(slept);
    assert!(chip.slept);
    assert_eq!(chip.suspends, 1);
    assert_eq!(chip.resumes, 1);
}

#[test]
fn sleep_gate_blocks_while_work_remains() {
    let mut k = Kernel::new(Vec::new());
    k.work = 1;
    let mut chip = ScriptChip::new(vec![]);
    assert!(!k.sleep_if_idle(&mut chip));
    assert!(!chip.slept);
    // Pending interrupts also keep the CPU awake.
    let k2 = Kernel::new(Vec::new());
    let mut chip2 = ScriptChip::new(vec![]);
    chip2.interrupts_pending = true;
    assert!(!k2.sleep_if_idle(&mut chip2));
    assert!(!chip2.slept);
}

#[test]
fn round_robin_takes_turns_and_skips_faulted() {
    let mk = |index: usize, id: usize, state: State| {
        let mut p = running_process(index, id);
        p.state = state;
        p
    };
    let k = Kernel::new(vec![
        Some(mk(0, 1, State::Running)),
        Some(mk(1, 2, State::Fault)),
        Some(mk(2, 3, State::Running)),
    ]);
    // After slot 0's turn, the faulted slot 1 is skipped in favour of 2.
    assert_eq!(RoundRobinSched::select_next(&k, 0), Some(AppId { index: 2, id: 3 }));
    // After slot 2's turn the scan wraps around to slot 0.
    assert_eq!(RoundRobinSched::select_next(&k, 2), Some(AppId { index: 0, id: 1 }));
    // With nothing ready, nothing is named.
    let idle = Kernel::new(vec![Some(mk(0, 1, State::Yielded)), Some(mk(1, 2, State::Fault))]);
    assert_eq!(RoundRobinSched::select_next(&idle, 0), None);
}

#[test]
fn first_ready_selection_prefers_earliest_slot() {
    let mk = |index: usize, id: usize, state: State| {
        let mut p = running_process(index, id);
        p.state = state;
        p
    };
    let k = Kernel::new(vec![
        Some(mk(0, 1, State::Yielded)),
        Some(mk(1, 2, State::Running)),
        Some(mk(2, 3, State::Running)),
    ]);
    assert_eq!(select_first_ready(&k), Some(AppId { index: 1, id: 2 }));
    // A yielded process with queued work counts as ready.
    let mut waiting = mk(0, 1, State::Yielded);
    waiting.tasks = vec![Task::FunctionCall(FunctionCall {
        source: FunctionCallSource::Kernel,
        argument0: 0,
        argument1: 0,
        argument2: 0,
        argument3: 0,
        pc: 0x40,
    })];
    let k2 = Kernel::new(vec![Some(waiting), Some(mk(1, 2, State::Running))]);
    assert_eq!(select_first_ready(&k2), Some(AppId { index: 0, id: 1 }));
}

#[test]
fn mlfq_prefers_higher_levels_and_demotes_on_expiry() {
    let mk = |index: usize, id: usize| {
        let mut p = running_process(index, id);
        p.state = State::Running;
        p
    };
    let k = Kernel::new(vec![Some(mk(0, 1)), Some(mk(1, 2))]);
    let mut s = MLFQSched::new();
    s.add_process(AppId { index: 0, id: 1 });
    s.add_process(AppId { index: 1, id: 2 });
    let (named, slice) = Scheduler::<ScriptChip>::next(&mut s, &k);
    assert_eq!(named, Some(AppId { index: 0, id: 1 }));
    assert_eq!(slice, Some(10000));
    // Burning the whole quantum sinks the process one level.
    Scheduler::<ScriptChip>::result(&mut s, StoppedExecutingReason::TimesliceExpired, Some(10000));
    assert_eq!(s.queues[0], vec![AppId { index: 1, id: 2 }]);
    assert_eq!(s.queues[1], vec![AppId { index: 0, id: 1 }]);
    // The remaining level-0 process now goes first.
    let (named, slice) = Scheduler::<ScriptChip>::next(&mut s, &k);
    assert_eq!(named, Some(AppId { index: 1, id: 2 }));
    assert_eq!(slice, Some(10000));
    // Yield-style completion keeps it at its level, at the back.
    Scheduler::<ScriptChip>::result(&mut s, StoppedExecutingReason::NoWorkLeft, None);
    assert_eq!(s.queues[0], vec![AppId { index: 1, id: 2 }]);
    // The sunk process is scheduled from level 1 with a doubled quantum.
    let mut idle0 = mk(1, 2);
    idle0.state = State::Yielded;
    let k2 = Kernel::new(vec![Some(mk(0, 1)), Some(idle0)]);
    let (named, slice) = Scheduler::<ScriptChip>::next(&mut s, &k2);
    assert_eq!(named, Some(AppId { index: 0, id: 1 }));
    assert_eq!(slice, Some(20000));
    // The periodic reset decays everything back to the top level, keeping
    // order: the top level's entries first, then the lower levels' in turn.
    s.reset_priorities();
    assert_eq!(s.queues[1].len(), 0);
    assert_eq!(s.queues[2].len(), 0);
    assert_eq!(s.queues[0], vec![AppId { index: 1, id: 2 }, AppId { index: 0, id: 1 }]);
}

#[test]
fn mlfq_skips_stale_identities() {
    let k = Kernel::new(vec![Some(running_process(0, 5))]);
    let mut s = MLFQSched::new();
    // A generation that no longer matches the occupant is skipped.
    s.add_process(AppId { index: 0, id: 4 });
    s.add_process(AppId { index: 0, id: 5 });
    let (named, _slice) = Scheduler::<ScriptChip>::next(&mut s, &k);
    assert_eq!(named, Some(AppId { index: 0, id: 5 }));
}

#[test]
fn dummy_timer_never_reports_expiry() {
    let mut t = DummyTimer;
    t.reset();
    t.start(10);
    t.arm();
    t.disarm();
    assert!(!t.has_expired());
    assert_eq!(t.get_remaining_us(), u32::MAX);
}

#[test]
fn cooperative_policy_runs_without_preemption() {
    let k = Kernel::new(vec![Some(running_process(0, 3))]);
    let mut s = CooperativeSched::new();
    let (named, slice) = Scheduler::<ScriptChip>::next(&mut s, &k);
    assert_eq!(named, Some(AppId { index: 0, id: 3 }));
    assert_eq!(slice, None);
}

#[test]
fn priority_policy_prefers_earliest_slot_with_quantum() {
    let mut idle = running_process(0, 1);
    idle.state = State::Yielded;
    let k = Kernel::new(vec![Some(idle), Some(running_process(1, 2))]);
    let mut s = PrioritySched::new();
    let (named, slice) = Scheduler::<ScriptChip>::next(&mut s, &k);
    assert_eq!(named, Some(AppId { index: 1, id: 2 }));
    assert_eq!(slice, Some(10000));
}

#[test]
fn round_robin_passes_or_keeps_the_turn() {
    let mut s = RoundRobinSched::new();
    s.last_scheduled = Some(2);
    // Kernel preemption keeps the turn so the process resumes.
    s.advance_turn(StoppedExecutingReason::KernelPreemption);
    assert_eq!(s.last_index, 0);
    // Any other outcome passes the turn to the slot that ran.
    s.advance_turn(StoppedExecutingReason::NoWorkLeft);
    assert_eq!(s.last_index, 2);
}
