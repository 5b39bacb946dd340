use std::cell::Cell;

use kernel::callback::AppId;
use kernel::callback::CallbackId;
use kernel::capabilities::ExternalProcessCapability;
use kernel::capabilities::MemoryAllocationCapability;
use kernel::capabilities::ProcessManagementCapability;
use kernel::memop::memop;
use kernel::process::AppSlice;
use kernel::process::FunctionCall;
use kernel::process::FunctionCallSource;
use kernel::process::Process;
use kernel::process::State;
use kernel::process::Task;
use kernel::returncode::ReturnCode;
use kernel::sched::execution_time_us;
use kernel::sched::timeslice_exhausted;
use kernel::sched::Kernel;
use kernel::sched::MIN_QUANTA_THRESHOLD_US;
use kernel::syscall::Syscall;

fn blank_process(index: usize, id: usize) -> Process {
    Process {
        appid: AppId { index, id },
        state: State::Unstarted,
        tasks: Vec::new(),
        tasks_cap: 8,
        syscall_return: None,
        queued_function: None,
        mem_start: 0x1000,
        mem_end: 0x2000,
        app_break: 0x1000,
    }
}

fn two_process_kernel() -> Kernel {
    let p0 = blank_process(0, 10);
    let p1 = blank_process(2, 11);
    Kernel::new(vec![Some(p0), None, Some(p1)])
}

#[test]
fn new_kernel_starts_empty() {
    let k = Kernel::new(Vec::new());
    assert_eq!(k.work, 0);
    assert_eq!(k.process_identifier_max, 0);
    assert_eq!(k.grant_counter, 0);
    assert!(!k.grants_finalized);
    assert!(k.processes_blocked());
}

#[test]
fn work_counter_round_trip() {
    let mut k = Kernel::new(Vec::new());
    let cap = ExternalProcessCapability;
    assert!(k.processes_blocked());
    k.increment_work_external(&cap);
    assert!(!k.processes_blocked());
    assert_eq!(k.work, 1);
    k.decrement_work_external(&cap);
    assert!(k.processes_blocked());
    assert_eq!(k.work, 0);
}

#[test]
fn work_counter_saturates_at_zero() {
    let mut k = Kernel::new(Vec::new());
    let cap = ExternalProcessCapability;
    k.decrement_work_external(&cap);
    assert_eq!(k.work, 0);
    assert!(k.processes_blocked());
}

#[test]
fn appid_validity_checks_slot_and_generation() {
    let k = two_process_kernel();
    assert!(k.appid_is_valid(&AppId { index: 0, id: 10 }));
    assert!(k.appid_is_valid(&AppId { index: 2, id: 11 }));
    // Empty slot, wrong generation, and out-of-range index are all invalid.
    assert!(!k.appid_is_valid(&AppId { index: 1, id: 10 }));
    assert!(!k.appid_is_valid(&AppId { index: 0, id: 99 }));
    assert!(!k.appid_is_valid(&AppId { index: 7, id: 10 }));
}

#[test]
fn valid_appid_maps_to_itself() {
    // A valid identity, run through the registry lookup, names itself.
    let k = two_process_kernel();
    let a = AppId { index: 2, id: 11 };
    assert!(k.appid_is_valid(&a));
    let found = k.process_map_or(None, a, |p: &Process| Some(p.appid()));
    assert_eq!(found, Some(a));
}

#[test]
fn stale_appid_maps_to_default() {
    let k = two_process_kernel();
    let stale = AppId { index: 0, id: 99 };
    let found = k.process_map_or(None, stale, |p: &Process| Some(p.appid()));
    assert_eq!(found, None);
    let empty = AppId { index: 1, id: 0 };
    let found = k.process_map_or(None, empty, |p: &Process| Some(p.appid()));
    assert_eq!(found, None);
}

#[test]
fn process_map_or_matches_stopped_occupants() {
    let mut p0 = blank_process(0, 10);
    p0.state = State::StoppedYielded;
    let k = Kernel::new(vec![Some(p0)]);
    let state = k.process_map_or(None, AppId { index: 0, id: 10 }, |p: &Process| {
        Some(p.get_state())
    });
    assert_eq!(state, Some(State::StoppedYielded));
}

#[test]
fn lookup_app_by_identifier_finds_first_match() {
    let k = two_process_kernel();
    assert_eq!(k.lookup_app_by_identifier(11), Some(AppId { index: 2, id: 11 }));
    assert_eq!(k.lookup_app_by_identifier(10), Some(AppId { index: 0, id: 10 }));
    assert_eq!(k.lookup_app_by_identifier(42), None);
}

#[test]
fn get_process_iter_lists_occupied_slots_in_order() {
    let k = two_process_kernel();
    let ids = k.get_process_iter();
    assert_eq!(ids, vec![AppId { index: 0, id: 10 }, AppId { index: 2, id: 11 }]);
}

#[test]
fn process_until_short_circuits_on_non_fail() {
    let k = two_process_kernel();
    let r = k.process_until(|p: &Process| {
        if p.appid().id == 11 {
            ReturnCode::SUCCESS
        } else {
            ReturnCode::FAIL
        }
    });
    assert_eq!(r, ReturnCode::SUCCESS);
    let r = k.process_until(|_p: &Process| ReturnCode::FAIL);
    assert_eq!(r, ReturnCode::FAIL);
}

#[test]
fn grant_counter_and_finalize() {
    let mut k = Kernel::new(Vec::new());
    let cap = MemoryAllocationCapability;
    let g0 = k.create_grant(&cap);
    let g1 = k.create_grant(&cap);
    assert_eq!(g0.grant_num, 0);
    assert_eq!(g1.grant_num, 1);
    let count = k.get_grant_count_and_finalize();
    assert_eq!(count, 2);
    // The registry is now finalized, one way: grant creation is forbidden
    // from here on (the kernel treats an attempt as a fatal board bug).
    assert!(k.grants_finalized);
    let ext = ExternalProcessCapability;
    assert_eq!(k.get_grant_count_and_finalize_external(&ext), 2);
    assert!(k.grants_finalized);
}

#[test]
fn process_identifiers_strictly_increase() {
    let mut k = Kernel::new(Vec::new());
    let first = k.create_process_identifier();
    let second = k.create_process_identifier();
    let third = k.create_process_identifier();
    assert_eq!(first, 0);
    assert_eq!(second, 1);
    assert_eq!(third, 2);
    assert!(second > first && third > second);
}

#[test]
fn hardfault_all_apps_faults_every_occupant() {
    let mut k = two_process_kernel();
    let cap = ProcessManagementCapability;
    k.hardfault_all_apps(&cap);
    assert_eq!(k.processes[0].as_ref().unwrap().state, State::Fault);
    assert!(k.processes[1].is_none());
    assert_eq!(k.processes[2].as_ref().unwrap().state, State::Fault);
    // Identity and memory bookkeeping survive the fault.
    assert_eq!(k.processes[0].as_ref().unwrap().appid, AppId { index: 0, id: 10 });
}

#[test]
fn process_each_visits_every_occupant() {
    let k = two_process_kernel();
    let seen = Cell::new(0usize);
    k.process_each(|_p: &Process| seen.set(seen.get() + 1));
    assert_eq!(seen.get(), 2);
}

#[test]
fn remove_pending_callbacks_filters_queue() {
    let target = CallbackId { driver_num: 3, subscribe_num: 1 };
    let other = CallbackId { driver_num: 3, subscribe_num: 2 };
    let mk = |cid: CallbackId| {
        Task::FunctionCall(FunctionCall {
            source: FunctionCallSource::Driver(cid),
            argument0: 0,
            argument1: 0,
            argument2: 0,
            argument3: 0,
            pc: 0x40,
        })
    };
    let mut p = blank_process(0, 1);
    p.tasks = vec![mk(target), mk(other), mk(target)];
    let removed = p.remove_pending_callbacks(target);
    assert_eq!(removed, 2);
    assert_eq!(p.tasks.len(), 1);
    assert!(!p.has_pending_callback(target));
    assert!(p.has_pending_callback(other));
}

#[test]
fn dequeue_task_is_fifo() {
    let mut p = blank_process(0, 1);
    let t1 = Task::FunctionCall(FunctionCall {
        source: FunctionCallSource::Kernel,
        argument0: 1,
        argument1: 0,
        argument2: 0,
        argument3: 0,
        pc: 0x40,
    });
    let t2 = Task::FunctionCall(FunctionCall {
        source: FunctionCallSource::Kernel,
        argument0: 2,
        argument1: 0,
        argument2: 0,
        argument3: 0,
        pc: 0x44,
    });
    assert!(p.enqueue_task(t1));
    assert!(p.enqueue_task(t2));
    assert_eq!(p.dequeue_task(), Some(t1));
    assert_eq!(p.dequeue_task(), Some(t2));
    assert_eq!(p.dequeue_task(), None);
}

#[test]
fn enqueue_task_respects_capacity() {
    let mut p = blank_process(0, 1);
    p.tasks_cap = 1;
    let t = Task::FunctionCall(FunctionCall {
        source: FunctionCallSource::Kernel,
        argument0: 0,
        argument1: 0,
        argument2: 0,
        argument3: 0,
        pc: 0x40,
    });
    assert!(p.enqueue_task(t));
    assert!(!p.enqueue_task(t));
    assert_eq!(p.tasks.len(), 1);
}

#[test]
fn allow_validates_process_memory() {
    let p = blank_process(0, 1);
    // Null address revokes sharing.
    assert_eq!(p.allow(0, 16), Ok(None));
    // In-bounds buffer is shared.
    assert_eq!(p.allow(0x1100, 0x100), Ok(Some(AppSlice { ptr: 0x1100, len: 0x100 })));
    // Buffers outside the process's writable memory are rejected.
    assert_eq!(p.allow(0x0800, 0x10), Err(ReturnCode::EINVAL));
    assert_eq!(p.allow(0x1F00, 0x200), Err(ReturnCode::EINVAL));
}

#[test]
fn memop_moves_the_break() {
    let mut p = blank_process(0, 1);
    assert_eq!(
        memop(&mut p, 0, 0x1800),
        ReturnCode::SuccessWithValue { value: 0x1800 }
    );
    assert_eq!(p.app_break, 0x1800);
    // sbrk with a two's-complement negative offset shrinks.
    assert_eq!(
        memop(&mut p, 1, (-0x100isize) as usize),
        ReturnCode::SuccessWithValue { value: 0x1700 }
    );
    assert_eq!(p.app_break, 0x1700);
    // Out-of-bounds break is refused and changes nothing.
    assert_eq!(memop(&mut p, 0, 0x3000), ReturnCode::ENOMEM);
    assert_eq!(p.app_break, 0x1700);
    assert_eq!(
        memop(&mut p, 2, 0),
        ReturnCode::SuccessWithValue { value: 0x1000 }
    );
    assert_eq!(
        memop(&mut p, 3, 0),
        ReturnCode::SuccessWithValue { value: 0x2000 }
    );
    assert_eq!(memop(&mut p, 9, 0), ReturnCode::ENOSUPPORT);
}

#[test]
fn return_codes_keep_their_abi_values() {
    assert_eq!(ReturnCode::SUCCESS.into_isize(), 0);
    assert_eq!(ReturnCode::FAIL.into_isize(), -1);
    assert_eq!(ReturnCode::EBUSY.into_isize(), -2);
    assert_eq!(ReturnCode::EALREADY.into_isize(), -3);
    assert_eq!(ReturnCode::EOFF.into_isize(), -4);
    assert_eq!(ReturnCode::ERESERVE.into_isize(), -5);
    assert_eq!(ReturnCode::EINVAL.into_isize(), -6);
    assert_eq!(ReturnCode::ESIZE.into_isize(), -7);
    assert_eq!(ReturnCode::ECANCEL.into_isize(), -8);
    assert_eq!(ReturnCode::ENOMEM.into_isize(), -9);
    assert_eq!(ReturnCode::ENOSUPPORT.into_isize(), -10);
    assert_eq!(ReturnCode::ENODEVICE.into_isize(), -11);
    assert_eq!(ReturnCode::EUNINSTALLED.into_isize(), -12);
    assert_eq!(ReturnCode::SuccessWithValue { value: 77 }.into_isize(), 77);
}

#[test]
fn syscall_classes_keep_their_abi_numbers() {
    assert_eq!(Syscall::YIELD.class_number(), 0);
    let subscribe = Syscall::SUBSCRIBE {
        driver_number: 1,
        subdriver_number: 0,
        callback_ptr: 0x40,
        appdata: 0,
    };
    assert_eq!(subscribe.class_number(), 1);
    let command = Syscall::COMMAND { driver_number: 1, subdriver_number: 0, arg0: 0, arg1: 0 };
    assert_eq!(command.class_number(), 2);
    let allow = Syscall::ALLOW {
        driver_number: 1,
        subdriver_number: 0,
        allow_address: 0x1100,
        allow_size: 4,
    };
    assert_eq!(allow.class_number(), 3);
    let memop_call = Syscall::MEMOP { operand: 0, arg0: 0 };
    assert_eq!(memop_call.class_number(), 4);
}

#[test]
fn execution_time_clamps_to_the_quantum() {
    // Ordinary reading: the difference is reported.
    assert_eq!(execution_time_us(10000, 400), 9600);
    // Clock skew: a reading beyond the quantum is clamped to the quantum.
    assert_eq!(execution_time_us(10000, 20000), 10000);
    assert_eq!(execution_time_us(10000, 10000), 0);
}

#[test]
fn min_quanta_threshold_gates_reentry() {
    assert_eq!(MIN_QUANTA_THRESHOLD_US, 500);
    assert!(timeslice_exhausted(false, 400));
    assert!(timeslice_exhausted(false, 500));
    assert!(!timeslice_exhausted(false, 501));
    assert!(timeslice_exhausted(true, u32::MAX));
}

#[test]
fn process_each_capability_visits_every_occupant() {
    let k = two_process_kernel();
    let cap = ProcessManagementCapability;
    let seen = Cell::new(0usize);
    k.process_each_capability(&cap, |_p: &Process| seen.set(seen.get() + 1));
    assert_eq!(seen.get(), 2);
}

#[test]
fn appid_accessors_expose_identity() {
    let a = AppId::new(3, 41);
    assert_eq!(a.index, 3);
    assert_eq!(a.id(), 41);
}
