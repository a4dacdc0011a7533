use vstd::prelude::*;

verus! {

/// Bytes left untouched below the user stack pointer before a signal frame.
pub const SIGNAL_RED_ZONE: usize = 128;

/// Size in bytes of the signal context record placed on the user stack:
/// the resume program counter followed by the signal mask.
pub const SIGNAL_CONTEXT_SIZE: usize = 16;

/// Saved user register state of a task (RISC-V register naming).
#[derive(Clone, Copy, Debug, PartialEq, Eq, Structural)]
pub struct HardwareContext {
    /// Program counter to resume at.
    pub sepc: usize,
    /// Saved status register.
    pub sstatus: usize,
    /// Return-address register.
    pub ra: usize,
    /// Stack pointer.
    pub sp: usize,
    pub a0: usize,
    pub a1: usize,
    pub a2: usize,
    pub a3: usize,
    pub a4: usize,
    pub a5: usize,
    pub a6: usize,
    /// Holds the syscall number on a syscall trap.
    pub a7: usize,
}

/// The record a signal handler receives a pointer to: where the task
/// resumes once the handler returns, and the mask in effect during it.
#[derive(Clone, Copy, Debug, PartialEq, Eq, Structural)]
pub struct SignalUserContext {
    pub pc: usize,
    pub sig_mask: u64,
}

/// Address of the signal context record for a task whose stack pointer is
/// `sp`, as a value of the machine word.
pub open spec fn frame_addr_spec(sp: usize) -> usize {
    let below = sp.wrapping_sub((SIGNAL_RED_ZONE + SIGNAL_CONTEXT_SIZE) as usize);
    ((below / 16) * 16) as usize
}

/// Place of the signal context record below the stack pointer `sp`: skip
/// the red zone, make room for the record, and align down to 16 bytes.
/// The arithmetic wraps like the machine word it models.
pub fn signal_frame_addr(sp: usize) -> (r: usize)
    ensures
        r == frame_addr_spec(sp),
        r % 16 == 0,
        sp >= SIGNAL_RED_ZONE + SIGNAL_CONTEXT_SIZE ==> r + SIGNAL_CONTEXT_SIZE + SIGNAL_RED_ZONE <= sp,
{
    let below = sp.wrapping_sub(SIGNAL_RED_ZONE + SIGNAL_CONTEXT_SIZE);
    below / 16 * 16
}

impl HardwareContext {
    /// A context whose registers are all zero.
    pub fn new() -> (r: HardwareContext)
        ensures
            r == (HardwareContext { sepc: 0, sstatus: 0, ra: 0, sp: 0, a0: 0, a1: 0, a2: 0, a3: 0, a4: 0, a5: 0, a6: 0, a7: 0 }),
    {
        HardwareContext { sepc: 0, sstatus: 0, ra: 0, sp: 0, a0: 0, a1: 0, a2: 0, a3: 0, a4: 0, a5: 0, a6: 0, a7: 0 }
    }

    /// The seven syscall argument registers, in order.
    pub open spec fn args_spec(&self) -> Seq<usize> {
        seq![self.a0, self.a1, self.a2, self.a3, self.a4, self.a5, self.a6]
    }

    /// The syscall argument registers a0 through a6.
    pub fn args(&self) -> (r: [usize; 7])
        ensures
            r@ == self.args_spec(),
    {
        let r = [self.a0, self.a1, self.a2, self.a3, self.a4, self.a5, self.a6];
        assert(r@ =~= self.args_spec());
        r
    }

    /// The syscall number register.
    pub fn syscall_number(&self) -> (r: usize)
        ensures
            r == self.a7,
    {
        self.a7
    }

    /// Acknowledge a syscall: resume after the 4-byte `ecall` instruction.
    pub fn syscall_ok(&mut self)
        ensures
            *final(self) == (HardwareContext { sepc: old(self).sepc.wrapping_add(4), ..*old(self) }),
    {
        self.sepc = self.sepc.wrapping_add(4);
    }

    /// Store a syscall's return value.
    pub fn set_ret(&mut self, v: usize)
        ensures
            *final(self) == (HardwareContext { a0: v, ..*old(self) }),
    {
        self.a0 = v;
    }
}

} // verus!
