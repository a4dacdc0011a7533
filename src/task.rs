use vstd::prelude::*;
use crate::context::{frame_addr_spec, signal_frame_addr, HardwareContext, SignalUserContext};
use crate::memory::{
    fault_policy, frame_count, map_frame, maps, page_of, resolve_page_fault, FaultResolution, MemArea, MemType,
};
use crate::signal::{SigAction, SignalList, SIGCANCEL, SIGNAL_MAX};
use crate::trap::{begin_syscall, complete_syscall, return_word, TrapType, UserTaskControlFlow, TERMINATE_SENTINEL};

verus! {

/// Number of main-loop iterations after which a task yields to the scheduler.
pub const YIELD_INTERVAL: usize = 50;

/// How a task ended.
#[derive(Clone, Copy, Debug, PartialEq, Eq, Structural)]
pub enum TaskExit {
    /// The task exited with this code.
    Code(usize),
    /// The task was ended by this signal.
    Signal(usize),
}

/// Time the task spent in user and in kernel mode.
#[derive(Clone, Copy, Debug, PartialEq, Eq, Structural)]
pub struct Tms {
    pub utime: u64,
    pub stime: u64,
}

/// The state of one user task that the trap and signal logic reads and
/// writes: its saved context, signal state, memory areas, accounting and
/// exit status.
pub struct UserTask {
    pub task_id: usize,
    pub cx: HardwareContext,
    /// Signals currently blocked.
    pub sigmask: u64,
    /// Signals waiting to be delivered.
    pub signal: SignalList,
    /// Signal actions indexed by signal number (entry 0 is unused).
    pub sigaction: Vec<SigAction>,
    pub memset: Vec<MemArea>,
    pub tms: Tms,
    pub exit: Option<TaskExit>,
}

/// What the driver must do next within a syscall step.
#[derive(Clone, Copy, Debug, PartialEq, Eq)]
pub enum StepAction {
    /// The step is over with this verdict.
    Finish(UserTaskControlFlow),
    /// Run the syscall dispatcher, then hand its outcome to `on_syscall_result`.
    Dispatch(crate::trap::SyscallRequest),
    /// Allocate a frame (filled from `copy_from` when given), map it at
    /// page `vpn`, then report it through `on_frame_mapped` with `mtype`.
    MapFrame { vpn: usize, mtype: MemType, copy_from: Option<usize> },
    /// The trap cannot be classified: the kernel must halt.
    Abort,
}

/// What the trampoline saved to undo a signal delivery.
#[derive(Clone, Copy, Debug, PartialEq, Eq)]
pub struct SignalFrame {
    pub saved_cx: HardwareContext,
    pub saved_mask: u64,
    /// User address of the signal context record.
    pub uctx_addr: usize,
    /// The record to write at `uctx_addr` before the handler runs.
    pub uctx: SignalUserContext,
}

/// Outcome of starting to deliver a signal.
#[derive(Clone, Copy, Debug, PartialEq, Eq)]
pub enum Delivery {
    /// The default action was applied; no handler runs.
    Default,
    /// The handler was installed; run steps until it returns or the task
    /// exits, then call `end_signal` with this frame.
    Handler(SignalFrame),
}

/// What the main loop does next.
#[derive(Clone, Copy, Debug, PartialEq, Eq)]
pub enum LoopAction {
    /// Deliver this pending signal, then clear it.
    Deliver(usize),
    /// No signal is pending: run one syscall step.
    Step,
}

/// What the main loop does after a syscall step.
#[derive(Clone, Copy, Debug, PartialEq, Eq)]
pub enum AfterStep {
    /// Leave the loop: the task is done.
    Exit,
    /// Go on with this iteration count, yielding to the scheduler first
    /// when `yield_now` is set.
    Next { times: usize, yield_now: bool },
}

impl UserTask {
    /// The signal action table covers every signal number.
    pub open spec fn wf(&self) -> bool {
        self.sigaction@.len() == SIGNAL_MAX + 1
    }

    /// What a step keeps: everything but the context, memory areas and
    /// time accounting.
    pub open spec fn step_frame(&self, next: &UserTask) -> bool {
        &&& next.task_id == self.task_id
        &&& next.sigmask == self.sigmask
        &&& next.signal == self.signal
        &&& next.sigaction@ == self.sigaction@
        &&& next.exit == self.exit
    }

    /// `next` is `self` with the context replaced by `cx`.
    pub open spec fn with_cx(&self, next: &UserTask, cx: HardwareContext) -> bool {
        &&& self.step_frame(next)
        &&& next.cx == cx
        &&& next.memset@ == self.memset@
        &&& next.tms == self.tms
    }

    /// The effect of `on_trap`: `next` and `r` are what a trap `trap` leads to.
    pub open spec fn trap_stepped(&self, trap: TrapType, next: &UserTask, r: StepAction) -> bool {
        match trap {
            TrapType::Breakpoint | TrapType::Time => r == StepAction::Finish(UserTaskControlFlow::Continue)
                && self.with_cx(next, self.cx),
            TrapType::UserEnvCall => {
                &&& r matches StepAction::Dispatch(req)
                &&& req.id == self.cx.a7
                &&& req.args@ == self.cx.args_spec()
                &&& self.with_cx(next, HardwareContext { sepc: self.cx.sepc.wrapping_add(4), ..self.cx })
            },
            TrapType::StorePageFault(addr) => {
                &&& self.with_cx(next, self.cx)
                &&& exists|f: FaultResolution|
                    #![trigger fault_policy(self.memset@, addr, f)]
                    fault_policy(self.memset@, addr, f) && r == match f {
                        FaultResolution::CopyOnWrite(t) => StepAction::MapFrame {
                            vpn: page_of(addr),
                            mtype: MemType::CodeSection,
                            copy_from: Some(t.ppn),
                        },
                        FaultResolution::GrowStack(vpn) => StepAction::MapFrame {
                            vpn,
                            mtype: MemType::Stack,
                            copy_from: None,
                        },
                        FaultResolution::Invalid => StepAction::Finish(UserTaskControlFlow::Break),
                    }
            },
            TrapType::Unknown => r == StepAction::Abort && self.with_cx(next, self.cx),
        }
    }

    /// The effect of `on_frame_mapped`.
    pub open spec fn frame_mapped(
        &self,
        vpn: usize,
        ppn: usize,
        mtype: MemType,
        next: &UserTask,
        r: UserTaskControlFlow,
    ) -> bool {
        &&& self.step_frame(next)
        &&& next.cx == self.cx
        &&& next.tms == self.tms
        &&& r == UserTaskControlFlow::Continue
        &&& frame_count(next.memset@) == frame_count(self.memset@) + 1
        &&& maps(next.memset@, mtype, vpn, ppn)
        &&& forall|t: MemType, v: usize, p: usize| maps(self.memset@, t, v, p) ==> maps(next.memset@, t, v, p)
        &&& forall|t: MemType, v: usize, p: usize|
            maps(next.memset@, t, v, p) ==> maps(self.memset@, t, v, p) || (t == mtype && v == vpn && p == ppn)
    }

    /// The effect of `on_syscall_result`.
    pub open spec fn syscall_completed(&self, outcome: Result<usize, isize>, next: &UserTask, r: UserTaskControlFlow) -> bool {
        &&& next.cx.a0 as int == return_word(outcome)
        &&& self.with_cx(next, HardwareContext { a0: next.cx.a0, ..self.cx })
        &&& r == (if return_word(outcome) == TERMINATE_SENTINEL as int {
            UserTaskControlFlow::Break
        } else {
            UserTaskControlFlow::Continue
        })
    }

    /// The effect of `begin_signal` for signal `signum`.
    pub open spec fn signal_begun(&self, signum: usize, next: &UserTask, r: Delivery) -> bool {
        let act = self.sigaction@[signum as int];
        &&& next.task_id == self.task_id
        &&& next.signal == self.signal
        &&& next.sigaction@ == self.sigaction@
        &&& next.memset@ == self.memset@
        &&& next.tms == self.tms
        &&& if act.handler == 0 {
            &&& r == Delivery::Default
            &&& next.cx == self.cx
            &&& next.sigmask == self.sigmask
            &&& next.exit == (if signum == SIGCANCEL { Some(TaskExit::Signal(signum)) } else { self.exit })
        } else {
            let addr = frame_addr_spec(self.cx.sp);
            &&& r == Delivery::Handler(SignalFrame {
                saved_cx: self.cx,
                saved_mask: self.sigmask,
                uctx_addr: addr,
                uctx: SignalUserContext { pc: self.cx.sepc, sig_mask: act.mask },
            })
            &&& next.sigmask == act.mask
            &&& next.exit == self.exit
            &&& next.cx == HardwareContext {
                sepc: act.handler,
                ra: act.restorer,
                a0: signum,
                a1: 0,
                a2: addr,
                ..self.cx
            }
        }
    }

    /// The effect of `end_signal`.
    pub open spec fn signal_ended(&self, frame: SignalFrame, resume_pc: usize, next: &UserTask) -> bool {
        &&& next.task_id == self.task_id
        &&& next.signal == self.signal
        &&& next.sigaction@ == self.sigaction@
        &&& next.memset@ == self.memset@
        &&& next.tms == self.tms
        &&& next.exit == self.exit
        &&& next.sigmask == frame.saved_mask
        &&& next.cx == HardwareContext { sepc: resume_pc, ..frame.saved_cx }
    }

    /// Add time spent in user mode; the counter saturates.
    pub fn account_user(&mut self, elapsed: u64)
        ensures
            final(self).tms.utime == old(self).tms.utime.saturating_add(elapsed),
            final(self).tms.stime == old(self).tms.stime,
            old(self).step_frame(final(self)),
            final(self).cx == old(self).cx,
            final(self).memset@ == old(self).memset@,
    {
        self.tms.utime = self.tms.utime.saturating_add(elapsed);
    }

    /// Add time spent in the kernel; the counter saturates.
    pub fn account_system(&mut self, elapsed: u64)
        ensures
            final(self).tms.stime == old(self).tms.stime.saturating_add(elapsed),
            final(self).tms.utime == old(self).tms.utime,
            old(self).step_frame(final(self)),
            final(self).cx == old(self).cx,
            final(self).memset@ == old(self).memset@,
    {
        self.tms.stime = self.tms.stime.saturating_add(elapsed);
    }

    /// React to the trap that ended the task's last run in user mode.
    /// Breakpoints and timer interrupts finish the step; a syscall is read
    /// and acknowledged and must be dispatched; a store fault follows the
    /// fault policy: a copy-on-write page gets a private copy of its frame,
    /// recorded as an ordinary section, an unmapped stack page gets one new
    /// stack frame, and any other fault finishes the step with `Break` and
    /// leaves the task untouched; an unknown trap is fatal.
    pub fn on_trap(&mut self, trap: TrapType) -> (r: StepAction)
        ensures
            old(self).trap_stepped(trap, final(self), r),
    {
        match trap {
            TrapType::Breakpoint => StepAction::Finish(UserTaskControlFlow::Continue),
            TrapType::Time => StepAction::Finish(UserTaskControlFlow::Continue),
            TrapType::UserEnvCall => {
                let req = begin_syscall(&mut self.cx);
                StepAction::Dispatch(req)
            },
            TrapType::StorePageFault(addr) => {
                let f = resolve_page_fault(&self.memset, addr);
                let r = match f {
                    FaultResolution::CopyOnWrite(t) => StepAction::MapFrame {
                        vpn: addr / crate::memory::PAGE_SIZE,
                        mtype: MemType::CodeSection,
                        copy_from: Some(t.ppn),
                    },
                    FaultResolution::GrowStack(vpn) => StepAction::MapFrame {
                        vpn,
                        mtype: MemType::Stack,
                        copy_from: None,
                    },
                    FaultResolution::Invalid => StepAction::Finish(UserTaskControlFlow::Break),
                };
                assert(fault_policy(self.memset@, addr, f));
                r
            },
            TrapType::Unknown => StepAction::Abort,
        }
    }

    /// Store the dispatcher's outcome in the return register; the step
    /// breaks the loop exactly when that word is the termination sentinel.
    pub fn on_syscall_result(&mut self, outcome: Result<usize, isize>) -> (r: UserTaskControlFlow)
        ensures
            old(self).syscall_completed(outcome, final(self), r),
    {
        complete_syscall(&mut self.cx, outcome)
    }

    /// Record that page `vpn` is now backed by frame `ppn` in an area of
    /// type `mtype`; the step goes on.
    pub fn on_frame_mapped(&mut self, vpn: usize, ppn: usize, mtype: MemType) -> (r: UserTaskControlFlow)
        ensures
            old(self).frame_mapped(vpn, ppn, mtype, final(self), r),
    {
        map_frame(&mut self.memset, vpn, ppn, mtype);
        UserTaskControlFlow::Continue
    }

    /// Whether the task has an exit status.
    pub fn is_exited(&self) -> (r: bool)
        ensures
            r == self.exit is Some,
    {
        self.exit.is_some()
    }

    /// End the task with exit code `code`.
    pub fn exit_with_code(&mut self, code: usize)
        ensures
            final(self).exit == Some(TaskExit::Code(code)),
            final(self).cx == old(self).cx,
            final(self).sigmask == old(self).sigmask,
            final(self).signal == old(self).signal,
            final(self).sigaction@ == old(self).sigaction@,
            final(self).memset@ == old(self).memset@,
            final(self).tms == old(self).tms,
            final(self).task_id == old(self).task_id,
    {
        self.exit = Some(TaskExit::Code(code));
    }

    /// Start delivering signal `signum`. With the default handler (0) the
    /// cancellation signal ends the task and any other signal is ignored.
    /// Otherwise the handler's mask becomes the active mask and the
    /// context is rewritten to enter the handler with the signal number,
    /// 0 and the address of the signal context record as arguments, and
    /// the restorer as return address.
    pub fn begin_signal(&mut self, signum: usize) -> (r: Delivery)
        requires
            old(self).wf(),
            1 <= signum <= SIGNAL_MAX,
        ensures
            old(self).signal_begun(signum, final(self), r),
    {
        let act = self.sigaction[signum];
        if act.handler == 0 {
            if signum == SIGCANCEL {
                self.exit = Some(TaskExit::Signal(signum));
            }
            return Delivery::Default;
        }
        let saved_mask = self.sigmask;
        self.sigmask = act.mask;
        let addr = signal_frame_addr(self.cx.sp);
        let saved_cx = self.cx;
        let uctx = SignalUserContext { pc: self.cx.sepc, sig_mask: act.mask };
        self.cx.sepc = act.handler;
        self.cx.ra = act.restorer;
        self.cx.a0 = signum;
        self.cx.a1 = 0;
        self.cx.a2 = addr;
        Delivery::Handler(SignalFrame { saved_cx, saved_mask, uctx_addr: addr, uctx })
    }

    /// Finish a signal delivery: restore the mask and the context saved
    /// when it began, resuming at `resume_pc`, the program counter read
    /// back from the signal context record.
    pub fn end_signal(&mut self, frame: SignalFrame, resume_pc: usize)
        ensures
            old(self).signal_ended(frame, resume_pc, final(self)),
    {
        self.sigmask = frame.saved_mask;
        self.cx = frame.saved_cx;
        self.cx.sepc = resume_pc;
    }

    /// The main loop's next move: deliver the lowest pending signal, or
    /// run a step once none is pending.
    pub fn next_action(&self) -> (r: LoopAction)
        ensures
            r == LoopAction::Step <==> self.signal@ == Set::<int>::empty(),
            r matches LoopAction::Deliver(n) ==> self.signal@.contains(n as int)
                && forall|m: int| self.signal@.contains(m) ==> n <= m,
    {
        match self.signal.try_get_signal() {
            Some(n) => LoopAction::Deliver(n),
            None => LoopAction::Step,
        }
    }

    /// Clear signal `signum` once it has been delivered.
    pub fn clear_signal(&mut self, signum: usize)
        requires
            1 <= signum <= SIGNAL_MAX,
        ensures
            final(self).signal@ == old(self).signal@.remove(signum as int),
            final(self).cx == old(self).cx,
            final(self).sigmask == old(self).sigmask,
            final(self).sigaction@ == old(self).sigaction@,
            final(self).memset@ == old(self).memset@,
            final(self).tms == old(self).tms,
            final(self).exit == old(self).exit,
            final(self).task_id == old(self).task_id,
    {
        self.signal.remove_signal(signum);
    }

    /// The main loop's move after a step with verdict `flow`, where
    /// `times` steps have run since the last yield: leave on `Break` or
    /// once the task has exited; otherwise count the step and yield (and
    /// reset the count) when it reaches the interval.
    pub fn after_step(&self, flow: UserTaskControlFlow, times: usize) -> (r: AfterStep)
        requires
            times < YIELD_INTERVAL,
        ensures
            flow == UserTaskControlFlow::Break || self.exit is Some ==> r == AfterStep::Exit,
            flow == UserTaskControlFlow::Continue && self.exit is None ==> r == (if times + 1 >= YIELD_INTERVAL {
                AfterStep::Next { times: 0, yield_now: true }
            } else {
                AfterStep::Next { times: (times + 1) as usize, yield_now: false }
            }),
    {
        match flow {
            UserTaskControlFlow::Break => AfterStep::Exit,
            UserTaskControlFlow::Continue => {
                if self.exit.is_some() {
                    AfterStep::Exit
                } else if times + 1 >= YIELD_INTERVAL {
                    AfterStep::Next { times: 0, yield_now: true }
                } else {
                    AfterStep::Next { times: times + 1, yield_now: false }
                }
            },
        }
    }
}

} // verus!
