use kernel_tasks::{
    classify_trap, complete_syscall, find_clone_frame, map_frame, resolve_page_fault, signal_frame_addr,
    syscall_return_value, FaultResolution, FrameTracker, HardwareContext, MemArea, MemType, SigAction, SignalList,
    StepAction, Tms, TrapType, UserTask, UserTaskControlFlow, EXC_BREAKPOINT, EXC_STORE_PAGE_FAULT,
    EXC_USER_ENV_CALL, INT_SUPERVISOR_TIMER, SCAUSE_INTERRUPT, SIGNAL_MAX, TERMINATE_SENTINEL,
};

fn sample_cx() -> HardwareContext {
    HardwareContext {
        sepc: 0x1000,
        sstatus: 0x20,
        ra: 0x2000,
        sp: 0x7fff_e000,
        a0: 1,
        a1: 2,
        a2: 3,
        a3: 4,
        a4: 5,
        a5: 6,
        a6: 7,
        a7: 64,
    }
}

fn sample_task(memset: Vec<MemArea>) -> UserTask {
    let empty = SigAction { handler: 0, mask: 0, restorer: 0 };
    UserTask {
        task_id: 1,
        cx: sample_cx(),
        sigmask: 0,
        signal: SignalList::new(),
        sigaction: vec![empty; SIGNAL_MAX + 1],
        memset,
        tms: Tms { utime: 0, stime: 0 },
        exit: None,
    }
}

fn frames(memset: &[MemArea]) -> usize {
    memset.iter().map(|a| a.mtrackers.len()).sum()
}

#[test]
fn classify_known_causes() {
    assert_eq!(classify_trap(EXC_BREAKPOINT, 0), TrapType::Breakpoint);
    assert_eq!(classify_trap(EXC_USER_ENV_CALL, 0), TrapType::UserEnvCall);
    assert_eq!(classify_trap(EXC_STORE_PAGE_FAULT, 0x1234), TrapType::StorePageFault(0x1234));
    assert_eq!(classify_trap(SCAUSE_INTERRUPT + INT_SUPERVISOR_TIMER, 0), TrapType::Time);
}

#[test]
fn classify_unknown_causes() {
    assert_eq!(classify_trap(2, 0), TrapType::Unknown);
    assert_eq!(classify_trap(13, 0x10), TrapType::Unknown);
    assert_eq!(classify_trap(SCAUSE_INTERRUPT + 9, 0), TrapType::Unknown);
}

#[test]
fn return_value_success_is_verbatim() {
    assert_eq!(syscall_return_value(Ok(0)), 0);
    assert_eq!(syscall_return_value(Ok(42)), 42);
    assert_eq!(syscall_return_value(Ok(usize::MAX)), usize::MAX);
}

#[test]
fn return_value_error_is_negated() {
    assert_eq!(syscall_return_value(Err(2)), (-2isize) as usize);
    assert_eq!(syscall_return_value(Err(22)), usize::MAX - 21);
    assert_eq!(syscall_return_value(Err(0)), 0);
    assert_eq!(syscall_return_value(Err(-5)), 5);
    assert_eq!(syscall_return_value(Err(isize::MIN)), 1usize << 63);
}

#[test]
fn syscall_error_continues_with_negated_code() {
    let mut cx = sample_cx();
    let flow = complete_syscall(&mut cx, Err(9));
    assert_eq!(flow, UserTaskControlFlow::Continue);
    assert_eq!(cx.a0, (-9isize) as usize);
    assert_eq!(cx.a1, 2);
    assert_eq!(cx.sepc, 0x1000);
}

#[test]
fn termination_sentinel_breaks() {
    let mut task = sample_task(Vec::new());
    let flow = task.on_syscall_result(Err(500));
    assert_eq!(task.cx.a0, (-500isize) as usize);
    assert_eq!(task.cx.a0, TERMINATE_SENTINEL);
    assert_eq!(flow, UserTaskControlFlow::Break);
    assert_eq!(task.memset.len(), 0);
}

#[test]
fn syscall_trap_reads_request_and_acknowledges() {
    let mut task = sample_task(Vec::new());
    let action = task.on_trap(TrapType::UserEnvCall);
    match action {
        StepAction::Dispatch(req) => {
            assert_eq!(req.id, 64);
            assert_eq!(req.args, [1, 2, 3, 4, 5, 6, 7]);
        }
        other => panic!("unexpected action {:?}", other),
    }
    assert_eq!(task.cx.sepc, 0x1004);
    let flow = task.on_syscall_result(Ok(11));
    assert_eq!(flow, UserTaskControlFlow::Continue);
    assert_eq!(task.cx.a0, 11);
}

#[test]
fn breakpoint_and_timer_continue_unchanged() {
    let mut task = sample_task(Vec::new());
    assert_eq!(task.on_trap(TrapType::Breakpoint), StepAction::Finish(UserTaskControlFlow::Continue));
    assert_eq!(task.on_trap(TrapType::Time), StepAction::Finish(UserTaskControlFlow::Continue));
    assert_eq!(task.cx, sample_cx());
}

#[test]
fn unknown_trap_aborts() {
    let mut task = sample_task(Vec::new());
    assert_eq!(task.on_trap(TrapType::Unknown), StepAction::Abort);
}

#[test]
fn stack_fault_maps_one_frame() {
    let mut task = sample_task(Vec::new());
    let addr = 0x7ff0_1234;
    let action = task.on_trap(TrapType::StorePageFault(addr));
    assert_eq!(action, StepAction::MapFrame { vpn: 0x7ff01, mtype: MemType::Stack, copy_from: None });
    let flow = task.on_frame_mapped(0x7ff01, 0x8_0000, MemType::Stack);
    assert_eq!(flow, UserTaskControlFlow::Continue);
    assert_eq!(frames(&task.memset), 1);
    assert_eq!(task.memset[0].mtype, MemType::Stack);
    assert_eq!(task.memset[0].mtrackers[0], FrameTracker { vpn: 0x7ff01, ppn: 0x8_0000 });
    assert_eq!(task.memset[0].mtrackers[0].vpn * 4096, 0x7ff0_1000);
    assert_eq!(task.cx, sample_cx());
}

#[test]
fn stack_range_edges() {
    let areas: Vec<MemArea> = Vec::new();
    assert_eq!(resolve_page_fault(&areas, 0x7ff0_0000), FaultResolution::GrowStack(0x7ff00));
    assert_eq!(resolve_page_fault(&areas, 0x7fff_efff), FaultResolution::GrowStack(0x7fffe));
    assert_eq!(resolve_page_fault(&areas, 0x7fff_f000), FaultResolution::Invalid);
    assert_eq!(resolve_page_fault(&areas, 0x7fef_ffff), FaultResolution::Invalid);
}

#[test]
fn invalid_fault_breaks_and_leaves_task() {
    let mut task = sample_task(vec![MemArea { mtype: MemType::CodeSection, mtrackers: vec![FrameTracker { vpn: 0x10, ppn: 0x99 }] }]);
    let action = task.on_trap(TrapType::StorePageFault(0x10_0000));
    assert_eq!(action, StepAction::Finish(UserTaskControlFlow::Break));
    assert_eq!(task.cx, sample_cx());
    assert_eq!(frames(&task.memset), 1);
}

#[test]
fn clone_page_fault_asks_for_copy() {
    let clone = MemArea {
        mtype: MemType::Clone,
        mtrackers: vec![FrameTracker { vpn: 0x20, ppn: 0x500 }, FrameTracker { vpn: 0x21, ppn: 0x501 }],
    };
    let code = MemArea { mtype: MemType::CodeSection, mtrackers: vec![FrameTracker { vpn: 0x30, ppn: 0x600 }] };
    let mut task = sample_task(vec![code, clone]);
    let action = task.on_trap(TrapType::StorePageFault(0x2_1008));
    assert_eq!(action, StepAction::MapFrame { vpn: 0x21, mtype: MemType::CodeSection, copy_from: Some(0x501) });
    task.on_frame_mapped(0x21, 0x700, MemType::CodeSection);
    assert_eq!(frames(&task.memset), 4);
    assert_eq!(task.memset.len(), 2);
    assert_eq!(task.memset[0].mtrackers[1], FrameTracker { vpn: 0x21, ppn: 0x700 });
}

#[test]
fn clone_lookup_ignores_other_area_types() {
    let areas = vec![
        MemArea { mtype: MemType::Stack, mtrackers: vec![FrameTracker { vpn: 0x40, ppn: 1 }] },
        MemArea { mtype: MemType::Clone, mtrackers: vec![FrameTracker { vpn: 0x41, ppn: 2 }] },
    ];
    assert_eq!(find_clone_frame(&areas, 0x40), None);
    assert_eq!(find_clone_frame(&areas, 0x41), Some(FrameTracker { vpn: 0x41, ppn: 2 }));
}

#[test]
fn map_frame_adds_area_when_type_is_new() {
    let mut areas = vec![MemArea { mtype: MemType::Mmap, mtrackers: vec![FrameTracker { vpn: 1, ppn: 1 }] }];
    map_frame(&mut areas, 2, 3, MemType::Shared);
    assert_eq!(areas.len(), 2);
    assert_eq!(areas[1].mtype, MemType::Shared);
    assert_eq!(areas[1].mtrackers, vec![FrameTracker { vpn: 2, ppn: 3 }]);
    map_frame(&mut areas, 4, 5, MemType::Mmap);
    assert_eq!(areas.len(), 2);
    assert_eq!(areas[0].mtrackers.len(), 2);
}

#[test]
fn accounting_adds_and_saturates() {
    let mut task = sample_task(Vec::new());
    task.account_user(10);
    task.account_system(3);
    task.account_user(5);
    assert_eq!(task.tms, Tms { utime: 15, stime: 3 });
    task.account_system(u64::MAX);
    assert_eq!(task.tms.stime, u64::MAX);
}

#[test]
fn frame_address_below_red_zone() {
    assert_eq!(signal_frame_addr(0x7fff_e000), 0x7fff_e000 - 144);
    assert_eq!(signal_frame_addr(0x1000), 0x1000 - 144);
    assert_eq!(signal_frame_addr(0x1008), 0xf70);
    assert_eq!(signal_frame_addr(0x1008) % 16, 0);
    assert_eq!(signal_frame_addr(0), (0usize.wrapping_sub(144)) / 16 * 16);
}

#[test]
fn new_context_is_zero() {
    let cx = HardwareContext::new();
    assert_eq!(cx.sepc, 0);
    assert_eq!(cx.sp, 0);
    assert_eq!(cx.args(), [0; 7]);
    assert_eq!(cx.syscall_number(), 0);
}
