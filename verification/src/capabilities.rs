//! Capability tokens gating restricted kernel operations.
//!
//! A capability is a value a board hands out during bring-up to the
//! components that are allowed to call a restricted kernel function. Holding
//! one is the proof of authority; code that never receives one cannot call
//! the function it gates.

use vstd::prelude::*;

verus! {

/// Authority to manage processes: iterate over them or fault them all.
pub struct ProcessManagementCapability;

/// Authority to enter the kernel main loop.
pub struct MainLoopCapability;

/// Authority to allocate grant regions during board initialization.
pub struct MemoryAllocationCapability;

/// Authority granted to external process implementations to maintain the
/// kernel's work counter and read the grant count.
pub struct ExternalProcessCapability;

} // verus!
