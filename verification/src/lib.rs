//! Core kernel loop and scheduler substrate for an embedded operating system.
//!
//! The kernel hosts multiple isolated user processes, dispatches system
//! calls, and mediates access to hardware capsules. This crate covers the
//! scheduler/dispatcher subsystem: the kernel main loop, the pluggable
//! scheduling policy interface, the per-process dispatch inner loop, system
//! call decoding, and the grant-lifecycle bookkeeping that binds the kernel
//! to processes. Board bring-up, concrete drivers, and the chip HAL live
//! outside this crate behind the traits in `platform`.

pub mod callback;
pub mod capabilities;
pub mod cooperative;
pub mod grant;
pub mod ipc;
pub mod memop;
pub mod mlfq;
pub mod platform;
pub mod priority;
pub mod process;
pub mod returncode;
pub mod round_robin;
pub mod sched;
pub mod syscall;

pub use callback::AppId;
pub use callback::Callback;
pub use callback::CallbackId;
pub use process::Process;
pub use returncode::ReturnCode;
pub use sched::Kernel;
pub use sched::Scheduler;
pub use sched::StoppedExecutingReason;
