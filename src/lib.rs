//! User-mode task execution core: trap classification, the per-trap
//! syscall step, signal delivery through a hand-built user frame, and the
//! decisions of the per-task main loop.
//!
//! Everything that touches hardware or the scheduler (resuming a task,
//! awaiting the syscall dispatcher, allocating a physical frame, writing
//! user memory, yielding) is performed by the caller; the functions here
//! take the outcome of that work as plain values and decide what comes next.

pub mod context;
pub mod laws;
pub mod memory;
pub mod signal;
pub mod task;
pub mod trap;

pub use context::{signal_frame_addr, HardwareContext, SignalUserContext, SIGNAL_CONTEXT_SIZE, SIGNAL_RED_ZONE};
pub use trap::{
    begin_syscall, classify_trap, complete_syscall, syscall_return_value, SyscallRequest, TrapType,
    UserTaskControlFlow, EXC_BREAKPOINT, EXC_STORE_PAGE_FAULT, EXC_USER_ENV_CALL, INT_SUPERVISOR_TIMER,
    SCAUSE_INTERRUPT, TERMINATE_SENTINEL,
};
pub use memory::{
    find_clone_frame, map_frame, resolve_page_fault, FaultResolution, FrameTracker, MemArea, MemType,
    PAGE_SIZE, STACK_GROWTH_END, STACK_GROWTH_START,
};
pub use signal::{SigAction, SignalList, SIGCANCEL, SIGNAL_MAX};
pub use task::{AfterStep, Delivery, LoopAction, SignalFrame, StepAction, TaskExit, Tms, UserTask, YIELD_INTERVAL};
