//! The MEMOP syscall handler: process memory bookkeeping.

use vstd::prelude::*;

use crate::process::Process;
use crate::returncode::ReturnCode;

verus! {

/// The process state and return code produced by memory operation
/// `operand` with argument `arg0`.
///
/// Operations: 0 moves the break to an absolute address, 1 moves it by a
/// two's-complement offset, 2 reports the start and 3 the end of the
/// process's writable memory; anything else is unsupported and changes
/// nothing. A break target outside the process's memory is refused with
/// ENOMEM and changes nothing.
pub open spec fn spec_memop(p: Process, operand: usize, arg0: usize) -> (Process, ReturnCode) {
    if operand == 0 {
        if p.spec_mem_start() <= arg0 <= p.spec_mem_end() {
            (Process { app_break: arg0, ..p }, ReturnCode::SuccessWithValue { value: arg0 })
        } else {
            (p, ReturnCode::ENOMEM)
        }
    } else if operand == 1 {
        let target = usize::wrapping_add(p.spec_app_break(), arg0);
        if p.spec_mem_start() <= target <= p.spec_mem_end() {
            (Process { app_break: target, ..p }, ReturnCode::SuccessWithValue { value: target })
        } else {
            (p, ReturnCode::ENOMEM)
        }
    } else if operand == 2 {
        (p, ReturnCode::SuccessWithValue { value: p.spec_mem_start() })
    } else if operand == 3 {
        (p, ReturnCode::SuccessWithValue { value: p.spec_mem_end() })
    } else {
        (p, ReturnCode::ENOSUPPORT)
    }
}

/// Perform memory operation `operand` with argument `arg0` on `process` and
/// report the code to write back; see [`spec_memop`] for the exact
/// semantics.
pub fn memop(process: &mut Process, operand: usize, arg0: usize) -> (r: ReturnCode)
    ensures
        (*final (process), r) == spec_memop(*old(process), operand, arg0),
{
    match operand {
        0 => process.brk(arg0),
        1 => process.sbrk(arg0),
        2 => ReturnCode::SuccessWithValue { value: process.memory_start() },
        3 => ReturnCode::SuccessWithValue { value: process.memory_end() },
        _ => ReturnCode::ENOSUPPORT,
    }
}

} // verus!
