use vstd::prelude::*;
use crate::context::HardwareContext;

verus! {

/// Top bit of `scause`: set when the trap is an interrupt.
pub const SCAUSE_INTERRUPT: usize = usize::MAX / 2 + 1;
/// Exception code of a breakpoint.
pub const EXC_BREAKPOINT: usize = 3;
/// Exception code of an environment call from user mode.
pub const EXC_USER_ENV_CALL: usize = 8;
/// Exception code of a store page fault.
pub const EXC_STORE_PAGE_FAULT: usize = 15;
/// Interrupt code of the supervisor timer.
pub const INT_SUPERVISOR_TIMER: usize = 5;

/// The syscall result that tells the task to terminate now: -500 as a
/// machine word.
pub const TERMINATE_SENTINEL: usize = usize::MAX - 499;

/// Why control came back from user mode.
#[derive(Clone, Copy, Debug, PartialEq, Eq, Structural)]
pub enum TrapType {
    Breakpoint,
    UserEnvCall,
    Time,
    /// A store to the given virtual address faulted.
    StorePageFault(usize),
    Unknown,
}

/// What one syscall step decided about the task's main loop.
#[derive(Clone, Copy, Debug, PartialEq, Eq, Structural)]
pub enum UserTaskControlFlow {
    Continue,
    Break,
}

/// The trap that the cause register `scause` and trap value `stval` describe.
pub open spec fn trap_of(scause: usize, stval: usize) -> TrapType {
    if scause >= SCAUSE_INTERRUPT {
        if scause - SCAUSE_INTERRUPT == INT_SUPERVISOR_TIMER {
            TrapType::Time
        } else {
            TrapType::Unknown
        }
    } else if scause == EXC_BREAKPOINT {
        TrapType::Breakpoint
    } else if scause == EXC_USER_ENV_CALL {
        TrapType::UserEnvCall
    } else if scause == EXC_STORE_PAGE_FAULT {
        TrapType::StorePageFault(stval)
    } else {
        TrapType::Unknown
    }
}

/// Classify a trap from the saved cause and trap-value registers.
pub fn classify_trap(scause: usize, stval: usize) -> (r: TrapType)
    ensures
        r == trap_of(scause, stval),
{
    if scause >= SCAUSE_INTERRUPT {
        if scause - SCAUSE_INTERRUPT == INT_SUPERVISOR_TIMER {
            TrapType::Time
        } else {
            TrapType::Unknown
        }
    } else if scause == EXC_BREAKPOINT {
        TrapType::Breakpoint
    } else if scause == EXC_USER_ENV_CALL {
        TrapType::UserEnvCall
    } else if scause == EXC_STORE_PAGE_FAULT {
        TrapType::StorePageFault(stval)
    } else {
        TrapType::Unknown
    }
}

/// A syscall as read from the context: its number and seven arguments.
#[derive(Clone, Copy, Debug, PartialEq, Eq)]
pub struct SyscallRequest {
    pub id: usize,
    pub args: [usize; 7],
}

/// Read the syscall number and arguments, then acknowledge the call so
/// the task resumes after it.
pub fn begin_syscall(cx: &mut HardwareContext) -> (r: SyscallRequest)
    ensures
        r.id == old(cx).a7,
        r.args@ == old(cx).args_spec(),
        *final(cx) == (HardwareContext { sepc: old(cx).sepc.wrapping_add(4), ..*old(cx) }),
{
    let args = cx.args();
    let id = cx.syscall_number();
    cx.syscall_ok();
    SyscallRequest { id, args }
}

/// The machine word that reports a dispatch outcome to user mode: the
/// success value itself, or the error code negated (two's complement).
pub open spec fn return_word(outcome: Result<usize, isize>) -> int {
    match outcome {
        Ok(v) => v as int,
        Err(code) => if code <= 0 { -code } else { usize::MAX as int + 1 - code },
    }
}

/// Encode a dispatch outcome as the value of the return register.
pub fn syscall_return_value(outcome: Result<usize, isize>) -> (r: usize)
    ensures
        r as int == return_word(outcome),
{
    match outcome {
        Ok(v) => v,
        Err(code) => {
            if code == 0 {
                0
            } else if code < 0 {
                (-(code + 1)) as usize + 1
            } else {
                usize::MAX - code as usize + 1
            }
        },
    }
}

/// Store a dispatch outcome into the return register; the step ends the
/// task exactly when the stored word is the termination sentinel.
pub fn complete_syscall(cx: &mut HardwareContext, outcome: Result<usize, isize>) -> (r: UserTaskControlFlow)
    ensures
        final(cx).a0 as int == return_word(outcome),
        *final(cx) == (HardwareContext { a0: final(cx).a0, ..*old(cx) }),
        r == (if return_word(outcome) == TERMINATE_SENTINEL as int {
            UserTaskControlFlow::Break
        } else {
            UserTaskControlFlow::Continue
        }),
{
    let ret = syscall_return_value(outcome);
    cx.set_ret(ret);
    if ret == TERMINATE_SENTINEL {
        UserTaskControlFlow::Break
    } else {
        UserTaskControlFlow::Continue
    }
}

} // verus!
