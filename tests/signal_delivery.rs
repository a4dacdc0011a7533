use kernel_tasks::{
    AfterStep, Delivery, HardwareContext, LoopAction, SigAction, SignalList, SignalUserContext, StepAction,
    TaskExit, Tms, TrapType, UserTask, UserTaskControlFlow, SIGCANCEL, SIGNAL_MAX, YIELD_INTERVAL,
};

fn sample_cx() -> HardwareContext {
    HardwareContext {
        sepc: 0x1000,
        sstatus: 0x20,
        ra: 0x2000,
        sp: 0x7fff_e000,
        a0: 1,
        a1: 2,
        a2: 3,
        a3: 4,
        a4: 5,
        a5: 6,
        a6: 7,
        a7: 64,
    }
}

fn sample_task() -> UserTask {
    let empty = SigAction { handler: 0, mask: 0, restorer: 0 };
    UserTask {
        task_id: 7,
        cx: sample_cx(),
        sigmask: 0b1,
        signal: SignalList::new(),
        sigaction: vec![empty; SIGNAL_MAX + 1],
        memset: Vec::new(),
        tms: Tms { utime: 0, stime: 0 },
        exit: None,
    }
}

#[test]
fn cancel_with_default_handler_ends_task() {
    let mut task = sample_task();
    task.signal.add_signal(SIGCANCEL);
    assert_eq!(task.next_action(), LoopAction::Deliver(33));
    let d = task.begin_signal(SIGCANCEL);
    assert_eq!(d, Delivery::Default);
    assert_eq!(task.exit, Some(TaskExit::Signal(33)));
    task.clear_signal(SIGCANCEL);
    assert_eq!(task.next_action(), LoopAction::Step);
    assert!(task.is_exited());
    assert_eq!(task.after_step(UserTaskControlFlow::Continue, 0), AfterStep::Exit);
}

#[test]
fn other_default_signal_is_ignored() {
    let mut task = sample_task();
    let d = task.begin_signal(10);
    assert_eq!(d, Delivery::Default);
    assert_eq!(task.exit, None);
    assert_eq!(task.cx, sample_cx());
    assert_eq!(task.sigmask, 0b1);
}

#[test]
fn handler_delivery_rewrites_and_restores() {
    let mut task = sample_task();
    task.sigaction[10] = SigAction { handler: 0x4000, mask: 0b1010, restorer: 0x5000 };
    let d = task.begin_signal(10);
    let frame = match d {
        Delivery::Handler(f) => f,
        Delivery::Default => panic!("handler expected"),
    };
    assert_eq!(frame.uctx_addr, 0x7fff_e000 - 144);
    assert_eq!(frame.uctx, SignalUserContext { pc: 0x1000, sig_mask: 0b1010 });
    assert_eq!(frame.saved_cx, sample_cx());
    assert_eq!(frame.saved_mask, 0b1);
    assert_eq!(task.sigmask, 0b1010);
    assert_eq!(task.cx.sepc, 0x4000);
    assert_eq!(task.cx.ra, 0x5000);
    assert_eq!(task.cx.a0, 10);
    assert_eq!(task.cx.a1, 0);
    assert_eq!(task.cx.a2, 0x7fff_e000 - 144);
    assert_eq!(task.cx.sp, 0x7fff_e000);

    // the handler makes a syscall, then returns
    let action = task.on_trap(TrapType::UserEnvCall);
    assert!(matches!(action, StepAction::Dispatch(_)));
    assert_eq!(task.on_syscall_result(Ok(3)), UserTaskControlFlow::Continue);
    assert_eq!(task.sigmask, 0b1010);

    task.end_signal(frame, 0x1000);
    assert_eq!(task.sigmask, 0b1);
    assert_eq!(task.cx, sample_cx());
}

#[test]
fn handler_may_move_resume_point() {
    let mut task = sample_task();
    task.sigaction[12] = SigAction { handler: 0x4000, mask: 0, restorer: 0x5000 };
    let frame = match task.begin_signal(12) {
        Delivery::Handler(f) => f,
        Delivery::Default => panic!("handler expected"),
    };
    task.end_signal(frame, 0x3330);
    assert_eq!(task.cx.sepc, 0x3330);
    assert_eq!(task.cx.a0, 1);
    assert_eq!(task.cx.ra, 0x2000);
    assert_eq!(task.sigmask, 0b1);
}

#[test]
fn drain_two_signals_in_order() {
    let mut task = sample_task();
    task.signal.add_signal(17);
    task.signal.add_signal(2);
    assert_eq!(task.next_action(), LoopAction::Deliver(2));
    task.clear_signal(2);
    assert_eq!(task.next_action(), LoopAction::Deliver(17));
    task.clear_signal(17);
    assert_eq!(task.next_action(), LoopAction::Step);
}

#[test]
fn signal_list_bits() {
    let mut s = SignalList::new();
    assert_eq!(s.try_get_signal(), None);
    s.add_signal(64);
    s.add_signal(1);
    assert!(s.has_signal(64));
    assert!(s.has_signal(1));
    assert!(!s.has_signal(2));
    assert_eq!(s.try_get_signal(), Some(1));
    s.remove_signal(1);
    assert_eq!(s.try_get_signal(), Some(64));
    s.remove_signal(64);
    assert_eq!(s.signal, 0);
    s.remove_signal(5);
    assert_eq!(s.signal, 0);
}

#[test]
fn yield_after_fifty_steps() {
    let task = sample_task();
    let mut times: usize = 0;
    for _ in 0..49 {
        match task.after_step(UserTaskControlFlow::Continue, times) {
            AfterStep::Next { times: t, yield_now } => {
                assert!(!yield_now);
                times = t;
            }
            AfterStep::Exit => panic!("no exit expected"),
        }
    }
    assert_eq!(times, 49);
    assert_eq!(task.after_step(UserTaskControlFlow::Continue, times), AfterStep::Next { times: 0, yield_now: true });
    assert_eq!(YIELD_INTERVAL, 50);
}

#[test]
fn break_leaves_loop() {
    let task = sample_task();
    assert_eq!(task.after_step(UserTaskControlFlow::Break, 3), AfterStep::Exit);
}

#[test]
fn exit_code_leaves_loop() {
    let mut task = sample_task();
    task.exit_with_code(0);
    assert_eq!(task.exit, Some(TaskExit::Code(0)));
    assert_eq!(task.after_step(UserTaskControlFlow::Continue, 10), AfterStep::Exit);
}
