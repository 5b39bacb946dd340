//! The interfaces a board supplies to the kernel: the chip (interrupts,
//! MPU, context switching, watchdog, sleep), the scheduler timer, and the
//! platform's syscall filter and driver lookup.
//!
//! Implementations live outside this crate; the kernel is verified against
//! the contracts stated here. The contracts deliberately promise almost
//! nothing about hardware behaviour: the kernel must be correct whatever the
//! hardware reports.

use vstd::prelude::*;

use crate::callback::AppId;
use crate::callback::Callback;
use crate::process::AppSlice;
use crate::process::Process;
use crate::returncode::ReturnCode;
use crate::syscall::ContextSwitchReason;
use crate::syscall::Syscall;

verus! {

/// A hardware timer that bounds how long a process may run.
///
/// `spec_never_expires` is each implementation's standing claim about
/// itself: a real hardware timer declares it false (and then the contracts
/// below demand nothing of it), while a stand-in such as [`DummyTimer`]
/// declares it true and in exchange promises to never report expiry. The
/// claim is stable: no operation changes it.
pub trait SchedulerTimer {
    /// Whether this timer can never report expiry (true only for dummy
    /// timers used for cooperative, non-preemptive runs). Hardware timers
    /// keep the default.
    open spec fn spec_never_expires(&self) -> bool {
        false
    }

    /// Stop the timer and clear any pending expiry.
    fn reset(&mut self)
        ensures
            final (self).spec_never_expires() == old(self).spec_never_expires(),
    ;

    /// Start the timer counting down from `us` microseconds.
    fn start(&mut self, us: u32)
        ensures
            final (self).spec_never_expires() == old(self).spec_never_expires(),
    ;

    /// Enable interrupt generation on expiry, for preempting user mode.
    fn arm(&mut self)
        ensures
            final (self).spec_never_expires() == old(self).spec_never_expires(),
    ;

    /// Disable interrupt generation on expiry.
    fn disarm(&mut self)
        ensures
            final (self).spec_never_expires() == old(self).spec_never_expires(),
    ;

    /// Whether the running timer has expired.
    fn has_expired(&mut self) -> (r: bool)
        ensures
            final (self).spec_never_expires() == old(self).spec_never_expires(),
            old(self).spec_never_expires() ==> !r,
    ;

    /// Microseconds left in the current quantum.
    fn get_remaining_us(&mut self) -> (r: u32)
        ensures
            final (self).spec_never_expires() == old(self).spec_never_expires(),
            old(self).spec_never_expires() ==> r == u32::MAX,
    ;
}

/// Zero-cost stand-in timer for cooperative runs: it never expires and
/// always reports unbounded remaining time.
pub struct DummyTimer;

impl SchedulerTimer for DummyTimer {
    open spec fn spec_never_expires(&self) -> bool {
        true
    }

    fn reset(&mut self) {
    }

    fn start(&mut self, us: u32) {
    }

    fn arm(&mut self) {
    }

    fn disarm(&mut self) {
    }

    fn has_expired(&mut self) -> (r: bool) {
        false
    }

    fn get_remaining_us(&mut self) -> (r: u32) {
        u32::MAX
    }
}

/// The chip the kernel runs on: interrupt servicing, deferred calls, memory
/// protection, the context switch into user mode, the watchdog, and sleep.
///
/// Two ghost measures state the progress assumptions the kernel's loops
/// rest on. `spec_switch_budget` bounds how many more context switches the
/// chip will perform before the kernel next regains control for good — a
/// board picks it arbitrarily large, and each switch consumes one unit.
/// `spec_deferred_count` counts the queued deferred calls; servicing one
/// removes it. The kernel's loops are proved to terminate relative to these
/// measures.
pub trait Chip {
    /// How many more context switches this chip will perform.
    open spec fn spec_switch_budget(&self) -> nat {
        0
    }

    /// How many deferred calls are queued.
    open spec fn spec_deferred_count(&self) -> nat {
        0
    }

    /// Whether any interrupt is awaiting its bottom half.
    open spec fn spec_interrupts_pending(&self) -> bool {
        false
    }

    /// Run the bottom halves of all pending interrupts.
    fn service_pending_interrupts(&mut self)
        ensures
            final (self).spec_switch_budget() <= old(self).spec_switch_budget(),
    ;

    /// Whether any interrupt is awaiting its bottom half.
    fn has_pending_interrupts(&self) -> (r: bool)
        ensures
            r == self.spec_interrupts_pending(),
    ;

    /// Whether any deferred call is queued.
    fn has_pending_deferred_calls(&self) -> (r: bool)
        ensures
            r == (self.spec_deferred_count() > 0),
    ;

    /// Service one queued deferred call. Returns false iff none was queued.
    fn service_deferred_call(&mut self) -> (r: bool)
        ensures
            r == (old(self).spec_deferred_count() > 0),
            r ==> final (self).spec_deferred_count() < old(self).spec_deferred_count(),
            !r ==> final (self).spec_deferred_count() == old(self).spec_deferred_count(),
            final (self).spec_switch_budget() <= old(self).spec_switch_budget(),
    ;

    /// Program the MPU regions for `process`.
    fn mpu_configure_for(&mut self, process: &Process)
        ensures
            final (self).spec_switch_budget() <= old(self).spec_switch_budget(),
    ;

    /// Enforce the programmed MPU regions.
    fn mpu_enable(&mut self)
        ensures
            final (self).spec_switch_budget() <= old(self).spec_switch_budget(),
    ;

    /// Lift MPU enforcement so kernel code runs with full memory access.
    fn mpu_disable(&mut self)
        ensures
            final (self).spec_switch_budget() <= old(self).spec_switch_budget(),
    ;

    /// Switch to user mode and run `process` until it syscalls, faults, or
    /// is interrupted; the return value says which (None means the switch
    /// itself failed). Running user code consumes the installed entry point
    /// but cannot alter the kernel's other bookkeeping for the process.
    ///
    /// The budget clause is the kernel's standing assumption — an axiom, not
    /// a checkable fact — that every dispatch performs finitely many
    /// switches: each switch consumes one unit, and at a zero budget the
    /// clause is unsatisfiable, so an implementation must declare a budget
    /// no smaller than the number of switches it will ever perform.
    fn switch_to_process(&mut self, process: &mut Process) -> (r: Option<ContextSwitchReason>)
        ensures
            *final (process) == (Process {
                queued_function: final (process).queued_function,
                ..*old(process)
            }),
            final (self).spec_switch_budget() < old(self).spec_switch_budget(),
    ;

    /// Tell the watchdog the kernel is still making progress.
    fn watchdog_tickle(&mut self);

    /// Pause the watchdog while the chip sleeps.
    fn watchdog_suspend(&mut self);

    /// Restart the watchdog after sleep.
    fn watchdog_resume(&mut self);

    /// Mask interrupts; paired with [`Chip::atomic_end`] around the checks
    /// that gate sleep, so that an interrupt cannot slip between the checks
    /// and the decision to sleep. Masking by itself neither services an
    /// interrupt nor touches the deferred-call queue.
    fn atomic_begin(&mut self)
        ensures
            final (self).spec_interrupts_pending() == old(self).spec_interrupts_pending(),
            final (self).spec_deferred_count() == old(self).spec_deferred_count(),
    ;

    /// Unmask interrupts.
    fn atomic_end(&mut self);

    /// Suspend the CPU until an interrupt arrives.
    fn sleep(&mut self);
}

/// The board's syscall filter and driver lookup.
///
/// `spec_has_driver` is the platform's fixed driver-number map, settled at
/// board build time; the driver calls promise to leave it unchanged, and
/// they are only ever made for numbers the map covers.
pub trait Platform {
    /// Which driver numbers the platform maps to capsules.
    open spec fn spec_has_driver(&self, driver_num: usize) -> bool {
        false
    }

    /// Whether a capsule is registered under `driver_num`.
    fn has_driver(&self, driver_num: usize) -> (r: bool)
        ensures
            r == self.spec_has_driver(driver_num),
    ;

    /// Check whether the platform permits `process` to issue `syscall`.
    /// A denial carries the code to hand back to the process.
    fn filter_syscall(&self, process: &Process, syscall: &Syscall) -> (r: Result<(), ReturnCode>);

    /// Ask the driver to fill (or, for a None callback, clear) an upcall
    /// subscription slot.
    fn driver_subscribe(
        &mut self,
        driver_num: usize,
        subdriver_num: usize,
        callback: Option<Callback>,
        appid: AppId,
    ) -> (r: ReturnCode)
        requires
            old(self).spec_has_driver(driver_num),
        ensures
            forall|d: usize| final (self).spec_has_driver(d) == old(self).spec_has_driver(d),
    ;

    /// Ask the driver to perform a command.
    fn driver_command(
        &mut self,
        driver_num: usize,
        subdriver_num: usize,
        arg0: usize,
        arg1: usize,
        appid: AppId,
    ) -> (r: ReturnCode)
        requires
            old(self).spec_has_driver(driver_num),
        ensures
            forall|d: usize| final (self).spec_has_driver(d) == old(self).spec_has_driver(d),
    ;

    /// Hand the driver a validated shared slice of the process's memory
    /// (or, for None, revoke the sharing).
    fn driver_allow(
        &mut self,
        driver_num: usize,
        appid: AppId,
        subdriver_num: usize,
        slice: Option<AppSlice>,
    ) -> (r: ReturnCode)
        requires
            old(self).spec_has_driver(driver_num),
        ensures
            forall|d: usize| final (self).spec_has_driver(d) == old(self).spec_has_driver(d),
    ;
}

} // verus!
