use quark::hypercall::{
    gettime_result, vcpu_freq, GetTimeResult, HypercallRegs, RunAction, RunLoop, VcpuExitKind,
    HYPERCALL_EXIT_VM, HYPERCALL_GETTIME, HYPERCALL_HCALL, HYPERCALL_IOWAIT, HYPERCALL_MSG,
    HYPERCALL_PRINT, HYPERCALL_QCALL, HYPERCALL_U64, HYPERCALL_URING_WAKE, HYPERCALL_VCPU_WAIT,
    HYPERCALL_VCPU_YIELD,
};

fn regs() -> HypercallRegs {
    HypercallRegs { rbx: 0x1000, rcx: 0x20, rdi: 0x3000, rsp: 0x4000, rip: 0x5000 }
}

fn out(port: u16) -> VcpuExitKind {
    VcpuExitKind::IoOut { port, data: 0 }
}

#[test]
fn dispatch_table() {
    let mut rl = RunLoop::New(0);
    let r = regs();
    assert_eq!(rl.Dispatch(out(HYPERCALL_IOWAIT), 0, r, true), RunAction::IoWait);
    assert_eq!(rl.Dispatch(out(HYPERCALL_URING_WAKE), 0, r, true), RunAction::UringWake { idx: 0x1000, min_complete: 0x20 });
    assert_eq!(rl.Dispatch(out(HYPERCALL_EXIT_VM), 0, r, true), RunAction::ExitVm { code: 0x1000 });
    assert_eq!(rl.Dispatch(out(HYPERCALL_GETTIME), 0, r, true), RunAction::GetTime { call_addr: 0x1000 });
    assert_eq!(rl.Dispatch(out(HYPERCALL_QCALL), 0, r, true), RunAction::QCall);
    assert_eq!(rl.Dispatch(out(HYPERCALL_HCALL), 0, r, true), RunAction::HCall { msg_addr: 0x1000 });
    assert_eq!(rl.Dispatch(out(HYPERCALL_VCPU_WAIT), 0, r, true), RunAction::VcpuWait { ret_addr: 0x3000 });
    assert_eq!(rl.Dispatch(out(HYPERCALL_VCPU_YIELD), 0, r, true), RunAction::Yield { millis: 10 });
    assert_eq!(rl.Dispatch(out(999), 0, r, true), RunAction::Unknown { port: 999 });
    assert_eq!(
        rl.Dispatch(out(HYPERCALL_MSG), 0, r, true),
        RunAction::Msg { data1: 0x1000, data2: 0x20, data3: 0x3000, rsp: 0x4000, rip: 0x5000 }
    );
}

#[test]
fn user_mode_hypercall_is_a_violation() {
    let mut rl = RunLoop::New(1);
    assert_eq!(rl.Dispatch(out(HYPERCALL_PRINT), 3, regs(), true), RunAction::PrivilegeViolation);
    assert_eq!(rl.Dispatch(VcpuExitKind::IoIn { port: 1 }, 3, regs(), true), RunAction::PrivilegeViolation);
    assert_eq!(rl.Dispatch(VcpuExitKind::IoIn { port: 1 }, 0, regs(), true), RunAction::Note);
}

#[test]
fn other_exits() {
    let mut rl = RunLoop::New(1);
    assert_eq!(rl.Dispatch(VcpuExitKind::FailEntry, 0, regs(), true), RunAction::Stop);
    assert_eq!(rl.Dispatch(VcpuExitKind::MmioRead { addr: 4 }, 0, regs(), true), RunAction::Note);
    assert_eq!(rl.Dispatch(VcpuExitKind::Hlt, 0, regs(), true), RunAction::Note);
    assert_eq!(rl.Dispatch(VcpuExitKind::Unexpected, 0, regs(), true), RunAction::Unhandled);
}

#[test]
fn stopped_vm_stops_every_loop() {
    let mut rl = RunLoop::New(2);
    for exit in [out(HYPERCALL_QCALL), out(HYPERCALL_IOWAIT), VcpuExitKind::Hlt, VcpuExitKind::IoIn { port: 3 }] {
        assert_eq!(rl.Dispatch(exit, 0, regs(), false), RunAction::Stop);
        assert_eq!(rl.Dispatch(exit, 3, regs(), false), RunAction::Stop);
    }
}

#[test]
fn u64_halves_pair_up() {
    let mut rl = RunLoop::New(0);
    assert_eq!(rl.Dispatch(VcpuExitKind::IoOut { port: HYPERCALL_U64, data: 0xdead }, 0, regs(), true), RunAction::Note);
    assert!(!rl.first);
    assert_eq!(
        rl.Dispatch(VcpuExitKind::IoOut { port: HYPERCALL_U64, data: 0xbeef }, 0, regs(), true),
        RunAction::U64 { high: 0xdead, low: 0xbeef }
    );
    assert!(rl.first);
}

#[test]
fn print_is_idempotent() {
    let mut rl = RunLoop::New(0);
    let before = rl;
    let a = rl.Dispatch(out(HYPERCALL_PRINT), 0, regs(), true);
    let b = rl.Dispatch(out(HYPERCALL_PRINT), 0, regs(), true);
    assert_eq!(a, RunAction::Print { msg_addr: 0x1000 });
    assert_eq!(a, b);
    assert_eq!(rl, before);
}

#[test]
fn gettime_in_nanoseconds() {
    assert_eq!(gettime_result(0, 0, 3, 500), GetTimeResult::Res(3_000_000_500));
    assert_eq!(gettime_result(0, 0, 0, 0), GetTimeResult::Res(0));
}

#[test]
fn gettime_failure_writes_errno() {
    assert_eq!(gettime_result(-1, 22, 3, 500), GetTimeResult::Res(22));
}

#[test]
fn gettime_out_of_range() {
    assert_eq!(gettime_result(0, 0, i64::MAX, 0), GetTimeResult::OutOfRange);
}

#[test]
fn frequency_in_hertz() {
    assert_eq!(vcpu_freq(2_400_000), 2_400_000_000);
    assert_eq!(vcpu_freq(0), 0);
}
