use vstd::prelude::*;
use crate::memory::{frame_count, has_clone_frame, in_stack_growth_range, maps, page_of, MemType, PAGE_SIZE};
use crate::signal::SIGNAL_MAX;
use crate::task::{Delivery, SignalFrame, StepAction, UserTask};
use crate::trap::{return_word, TrapType, UserTaskControlFlow, TERMINATE_SENTINEL};

verus! {

/// Unless the dispatcher's outcome is the termination sentinel, the step
/// goes on and the return register holds the success value, or the
/// two's-complement negation of the error code, exactly.
pub proof fn lemma_return_register(
    t0: UserTask,
    outcome: Result<usize, isize>,
    t1: UserTask,
    r: UserTaskControlFlow,
)
    requires
        t0.syscall_completed(outcome, &t1, r),
        return_word(outcome) != TERMINATE_SENTINEL as int,
    ensures
        r == UserTaskControlFlow::Continue,
        outcome matches Ok(v) ==> t1.cx.a0 == v,
        outcome matches Err(c) ==> (t1.cx.a0 as int + c) % (usize::MAX as int + 1) == 0,
{
    match outcome {
        Ok(v) => {},
        Err(c) => {
            let m = usize::MAX as int + 1;
            if c <= 0 {
                assert((t1.cx.a0 as int + c) == 0);
                assert(0int % m == 0) by (nonlinear_arith)
                    requires
                        m > 0,
                ;
            } else {
                assert(t1.cx.a0 as int + c == m);
                assert(m % m == 0) by (nonlinear_arith)
                    requires
                        m > 0,
                ;
            }
        },
    }
}

/// A store fault in the stack growth range on a page that no
/// copy-on-write area holds maps exactly one new stack frame at the
/// faulting page, leaves the context as it was, and the step goes on.
pub proof fn lemma_stack_growth(
    t0: UserTask,
    addr: usize,
    t1: UserTask,
    a: StepAction,
    ppn: usize,
    t2: UserTask,
    flow: UserTaskControlFlow,
)
    requires
        in_stack_growth_range(addr),
        !has_clone_frame(t0.memset@, page_of(addr)),
        t0.trap_stepped(TrapType::StorePageFault(addr), &t1, a),
        a matches StepAction::MapFrame { vpn, mtype, .. } ==> t1.frame_mapped(vpn, ppn, mtype, &t2, flow),
    ensures
        a == (StepAction::MapFrame { vpn: page_of(addr), mtype: MemType::Stack, copy_from: None }),
        page_of(addr) * PAGE_SIZE <= addr < page_of(addr) * PAGE_SIZE + PAGE_SIZE,
        flow == UserTaskControlFlow::Continue,
        frame_count(t2.memset@) == frame_count(t0.memset@) + 1,
        maps(t2.memset@, MemType::Stack, page_of(addr), ppn),
        forall|t: MemType, v: usize, p: usize|
            maps(t2.memset@, t, v, p) ==> maps(t0.memset@, t, v, p) || (t == MemType::Stack && v == page_of(addr)
                && p == ppn),
        t2.cx == t0.cx,
{
}

/// A store fault outside the stack growth range on a page that no
/// copy-on-write area holds ends the step with `Break` and changes
/// neither the context nor the memory areas.
pub proof fn lemma_invalid_fault(t0: UserTask, addr: usize, t1: UserTask, a: StepAction)
    requires
        !in_stack_growth_range(addr),
        !has_clone_frame(t0.memset@, page_of(addr)),
        t0.trap_stepped(TrapType::StorePageFault(addr), &t1, a),
    ensures
        a == StepAction::Finish(UserTaskControlFlow::Break),
        t1.cx == t0.cx,
        t1.memset@ == t0.memset@,
        t1.sigmask == t0.sigmask,
{
}

/// Each part of a syscall step (a trap, a dispatcher outcome, a mapped
/// frame) keeps the signal mask, the pending signals, the signal actions
/// and the exit status, so a step run inside a signal handler leaves the
/// handler's mask in place.
pub proof fn lemma_step_keeps_frame(t0: UserTask)
    ensures
        forall|trap: TrapType, t1: UserTask, a: StepAction|
            #[trigger] t0.trap_stepped(trap, &t1, a) ==> t0.step_frame(&t1),
        forall|outcome: Result<usize, isize>, t1: UserTask, r: UserTaskControlFlow|
            #[trigger] t0.syscall_completed(outcome, &t1, r) ==> t0.step_frame(&t1),
        forall|vpn: usize, ppn: usize, mtype: MemType, t1: UserTask, r: UserTaskControlFlow|
            #[trigger] t0.frame_mapped(vpn, ppn, mtype, &t1, r) ==> t0.step_frame(&t1),
{
}

/// Signal delivery keeps the mask: from `begin_signal` on, through any
/// number of steps, the active mask is the handler's; after `end_signal`
/// it is the mask from before delivery.
pub proof fn lemma_delivery_mask(
    t0: UserTask,
    signum: usize,
    frame: SignalFrame,
    trace: Seq<UserTask>,
    resume_pc: usize,
    t_end: UserTask,
)
    requires
        t0.wf(),
        1 <= signum <= SIGNAL_MAX,
        trace.len() >= 1,
        t0.signal_begun(signum, &trace[0], Delivery::Handler(frame)),
        forall|i: int| 0 <= i < trace.len() - 1 ==> #[trigger] trace[i].step_frame(&trace[i + 1]),
        trace.last().signal_ended(frame, resume_pc, &t_end),
    ensures
        forall|i: int| 0 <= i < trace.len() ==> #[trigger] trace[i].sigmask == t0.sigaction@[signum as int].mask,
        t_end.sigmask == t0.sigmask,
{
    let mask = t0.sigaction@[signum as int].mask;
    assert forall|i: int| 0 <= i < trace.len() implies #[trigger] trace[i].sigmask == mask by {
        lemma_mask_along(trace, mask, i);
    }
}

proof fn lemma_mask_along(trace: Seq<UserTask>, mask: u64, i: int)
    requires
        0 <= i < trace.len(),
        trace[0].sigmask == mask,
        forall|k: int| 0 <= k < trace.len() - 1 ==> #[trigger] trace[k].step_frame(&trace[k + 1]),
    ensures
        trace[i].sigmask == mask,
    decreases i,
{
    if i > 0 {
        lemma_mask_along(trace, mask, i - 1);
        let k = i - 1;
        assert(trace[k].step_frame(&trace[k + 1]));
        assert(k + 1 == i);
    }
}

/// Signal delivery restores the context: after `end_signal` every register
/// but the program counter holds its value from before delivery, and the
/// program counter is the one read back from the signal context record.
pub proof fn lemma_delivery_context(
    t0: UserTask,
    signum: usize,
    t1: UserTask,
    frame: SignalFrame,
    t2: UserTask,
    resume_pc: usize,
    t_end: UserTask,
)
    requires
        t0.wf(),
        1 <= signum <= SIGNAL_MAX,
        t0.signal_begun(signum, &t1, Delivery::Handler(frame)),
        t2.signal_ended(frame, resume_pc, &t_end),
    ensures
        t_end.cx.sepc == resume_pc,
        t_end.cx.sstatus == t0.cx.sstatus,
        t_end.cx.ra == t0.cx.ra,
        t_end.cx.sp == t0.cx.sp,
        t_end.cx.a0 == t0.cx.a0,
        t_end.cx.a1 == t0.cx.a1,
        t_end.cx.a2 == t0.cx.a2,
        t_end.cx.a3 == t0.cx.a3,
        t_end.cx.a4 == t0.cx.a4,
        t_end.cx.a5 == t0.cx.a5,
        t_end.cx.a6 == t0.cx.a6,
        t_end.cx.a7 == t0.cx.a7,
{
}

/// One round of draining: `n` is the smallest signal of `s` and the next
/// pending set is `s` without `n`.
pub open spec fn drain_round(s: Set<int>, n: int, next: Set<int>) -> bool {
    &&& s.contains(n)
    &&& forall|m: int| s.contains(m) ==> n <= m
    &&& next == s.remove(n)
}

/// Draining pending signals is exhaustive and ordered: when each round
/// delivers the smallest pending signal and clears it, and draining stops
/// once none is pending, every signal that was pending is delivered, each
/// exactly once, in increasing order.
pub proof fn lemma_drain(sets: Seq<Set<int>>, delivered: Seq<int>)
    requires
        sets.len() == delivered.len() + 1,
        sets[0].finite(),
        forall|i: int| 0 <= i < delivered.len() ==> drain_round(sets[i], #[trigger] delivered[i], sets[i + 1]),
        sets.last() == Set::<int>::empty(),
    ensures
        delivered.to_set() == sets[0],
        delivered.len() == sets[0].len(),
        forall|i: int, j: int| 0 <= i < j < delivered.len() ==> delivered[i] < delivered[j],
    decreases delivered.len(),
{
    if delivered.len() == 0 {
        assert(delivered.to_set() =~= Set::<int>::empty());
    } else {
        let rest_sets = sets.drop_first();
        let rest = delivered.drop_first();
        assert forall|i: int| 0 <= i < rest.len() implies drain_round(rest_sets[i], #[trigger] rest[i], rest_sets[i + 1]) by {
            assert(drain_round(sets[i + 1], delivered[i + 1], sets[i + 2]));
        }
        assert(drain_round(sets[0], delivered[0], sets[1]));
        lemma_drain(rest_sets, rest);
        let n = delivered[0];
        assert(delivered =~= seq![n] + rest);
        assert forall|x: int| delivered.to_set().contains(x) <==> sets[0].contains(x) by {
            if x == n {
                assert(delivered[0] == x);
            } else if sets[0].contains(x) {
                assert(rest.to_set().contains(x));
                let k = choose|k: int| 0 <= k < rest.len() && rest[k] == x;
                assert(delivered[k + 1] == x);
            } else if delivered.to_set().contains(x) {
                let k = choose|k: int| 0 <= k < delivered.len() && delivered[k] == x;
                assert(rest[k - 1] == x);
                assert(rest.to_set().contains(x));
            }
        }
        assert(delivered.to_set() =~= sets[0]);
        assert forall|i: int, j: int| 0 <= i < j < delivered.len() implies delivered[i] < delivered[j] by {
            if i == 0 {
                assert(rest[j - 1] == delivered[j]);
                assert(rest.to_set().contains(delivered[j]));
                assert(sets[1].contains(delivered[j]));
            } else {
                assert(rest[i - 1] < rest[j - 1]);
            }
        }
    }
}

} // verus!
