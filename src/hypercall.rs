use vstd::prelude::*;

verus! {

// The synthetic I/O ports through which the guest kernel calls the host.
pub const HYPERCALL_PRINT: u16 = 2;
pub const HYPERCALL_PANIC: u16 = 3;
pub const HYPERCALL_OOM: u16 = 4;
pub const HYPERCALL_MSG: u16 = 5;
pub const HYPERCALL_U64: u16 = 6;
pub const HYPERCALL_GETTIME: u16 = 7;
pub const HYPERCALL_QCALL: u16 = 8;
pub const HYPERCALL_VCPU_YIELD: u16 = 10;
pub const HYPERCALL_HCALL: u16 = 11;
pub const HYPERCALL_IOWAIT: u16 = 12;
pub const HYPERCALL_EXIT_VM: u16 = 14;
pub const HYPERCALL_VCPU_FREQ: u16 = 15;
pub const HYPERCALL_VCPU_DEBUG: u16 = 16;
pub const HYPERCALL_VCPU_PRINT: u16 = 17;
pub const HYPERCALL_VCPU_WAIT: u16 = 18;
pub const HYPERCALL_RELEASE_VCPU: u16 = 19;
pub const HYPERCALL_EXIT: u16 = 20;
pub const HYPERCALL_URING_WAKE: u16 = 21;
pub const HYPERCALL_WAKEUP_VCPU: u16 = 22;

/// How long a cooperative yield sleeps the host thread.
pub const VCPU_YIELD_MILLIS: u64 = 10;

/// The guest registers that hypercalls read their arguments from.
#[derive(Clone, Copy, Debug, PartialEq, Eq, Structural)]
pub struct HypercallRegs {
    pub rbx: u64,
    pub rcx: u64,
    pub rdi: u64,
    pub rsp: u64,
    pub rip: u64,
}

/// Why a vCPU left guest execution, as the run loop sees it.
#[derive(Clone, Copy, Debug, PartialEq, Eq, Structural)]
pub enum VcpuExitKind {
    IoIn { port: u16 },
    /// An out-instruction: `data` is the 32-bit value written.
    IoOut { port: u16, data: u32 },
    MmioRead { addr: u64 },
    MmioWrite { addr: u64 },
    Hlt,
    FailEntry,
    Exception,
    IrqWindowOpen,
    /// Any other exit reason.
    Unexpected,
}

/// What the run loop does for one exit.
#[derive(Clone, Copy, Debug, PartialEq, Eq, Structural)]
pub enum RunAction {
    /// Return from the run loop without error.
    Stop,
    /// An exit from guest user mode: a protocol violation, fatal.
    PrivilegeViolation,
    /// Log the exit and resume the guest.
    Note,
    /// Park until new ready work exists or shutdown is requested.
    IoWait,
    UringWake { idx: u64, min_complete: u64 },
    ReleaseVcpu,
    /// Flush logs and counters, set the exit status, wake every parked thread.
    ExitVm { code: i32 },
    /// Print the message at this guest address and exit with status 1.
    Panic { msg_addr: u64 },
    WakeupVcpu { vcpu_id: u64 },
    Print { msg_addr: u64 },
    Msg { data1: u64, data2: u64, data3: u64, rsp: u64, rip: u64 },
    /// Report the failed allocation and exit with status 1.
    Oom { size: u64, align: u64 },
    /// Terminate the process immediately with status 0.
    Exit,
    /// The second half of a 64-bit value: log both halves.
    U64 { high: u32, low: u32 },
    GetTime { call_addr: u64 },
    VcpuFreq { call_addr: u64 },
    Yield { millis: u64 },
    VcpuDebug,
    VcpuPrint,
    QCall,
    HCall { msg_addr: u64 },
    VcpuWait { ret_addr: u64 },
    Unknown { port: u16 },
    /// An exit reason the loop does not handle: report it and exit with status 0.
    Unhandled,
}

/// The dispatch table: what an out-instruction on `port` asks for.
pub open spec fn out_action(port: u16, data: u32, regs: HypercallRegs, running: bool, first: bool, last: u32) -> RunAction {
    if port == HYPERCALL_IOWAIT {
        if running { RunAction::IoWait } else { RunAction::Stop }
    } else if port == HYPERCALL_URING_WAKE {
        RunAction::UringWake { idx: regs.rbx, min_complete: regs.rcx }
    } else if port == HYPERCALL_RELEASE_VCPU {
        RunAction::ReleaseVcpu
    } else if port == HYPERCALL_EXIT_VM {
        RunAction::ExitVm { code: regs.rbx as i32 }
    } else if port == HYPERCALL_PANIC {
        RunAction::Panic { msg_addr: regs.rbx }
    } else if port == HYPERCALL_WAKEUP_VCPU {
        RunAction::WakeupVcpu { vcpu_id: regs.rbx }
    } else if port == HYPERCALL_PRINT {
        RunAction::Print { msg_addr: regs.rbx }
    } else if port == HYPERCALL_MSG {
        RunAction::Msg { data1: regs.rbx, data2: regs.rcx, data3: regs.rdi, rsp: regs.rsp, rip: regs.rip }
    } else if port == HYPERCALL_OOM {
        RunAction::Oom { size: regs.rbx, align: regs.rcx }
    } else if port == HYPERCALL_EXIT {
        RunAction::Exit
    } else if port == HYPERCALL_U64 {
        if first { RunAction::Note } else { RunAction::U64 { high: last, low: data } }
    } else if port == HYPERCALL_GETTIME {
        RunAction::GetTime { call_addr: regs.rbx }
    } else if port == HYPERCALL_VCPU_FREQ {
        RunAction::VcpuFreq { call_addr: regs.rbx }
    } else if port == HYPERCALL_VCPU_YIELD {
        RunAction::Yield { millis: VCPU_YIELD_MILLIS }
    } else if port == HYPERCALL_VCPU_DEBUG {
        RunAction::VcpuDebug
    } else if port == HYPERCALL_VCPU_PRINT {
        RunAction::VcpuPrint
    } else if port == HYPERCALL_QCALL {
        RunAction::QCall
    } else if port == HYPERCALL_HCALL {
        RunAction::HCall { msg_addr: regs.rbx }
    } else if port == HYPERCALL_VCPU_WAIT {
        RunAction::VcpuWait { ret_addr: regs.rdi }
    } else {
        RunAction::Unknown { port }
    }
}

/// The run loop's decision for one exit. The loop stops first of all once the
/// VM is no longer running; any I/O exit from a non-zero privilege level is fatal.
pub open spec fn exit_action(exit: VcpuExitKind, cpl: u16, regs: HypercallRegs, running: bool, first: bool, last: u32) -> RunAction {
    if !running {
        RunAction::Stop
    } else {
        match exit {
            VcpuExitKind::IoIn { .. } => if cpl != 0 { RunAction::PrivilegeViolation } else { RunAction::Note },
            VcpuExitKind::IoOut { port, data } => if cpl != 0 {
                RunAction::PrivilegeViolation
            } else {
                out_action(port, data, regs, running, first, last)
            },
            VcpuExitKind::FailEntry => RunAction::Stop,
            VcpuExitKind::Unexpected => RunAction::Unhandled,
            _ => RunAction::Note,
        }
    }
}

/// Whether an exit is a `HYPERCALL_U64` that the loop takes in.
pub open spec fn is_u64_exit(exit: VcpuExitKind, cpl: u16, running: bool) -> bool {
    running && cpl == 0 && match exit {
        VcpuExitKind::IoOut { port, .. } => port == HYPERCALL_U64,
        _ => false,
    }
}

/// After a `HYPERCALL_U64` exit the next one carries the other half.
pub open spec fn next_first(exit: VcpuExitKind, cpl: u16, running: bool, first: bool) -> bool {
    if is_u64_exit(exit, cpl, running) { !first } else { first }
}

/// A first half is kept until the second one comes.
pub open spec fn next_last(exit: VcpuExitKind, cpl: u16, running: bool, first: bool, last: u32) -> u32 {
    match exit {
        VcpuExitKind::IoOut { data, .. } => if is_u64_exit(exit, cpl, running) && first { data } else { last },
        _ => last,
    }
}

/// The per-vCPU state of the run loop: the pairing of the two halves of a
/// value sent through `HYPERCALL_U64`.
#[derive(Clone, Copy, Debug, PartialEq, Eq, Structural)]
pub struct RunLoop {
    pub vcpu_id: u64,
    /// The next `HYPERCALL_U64` carries a first half.
    pub first: bool,
    /// The first half last received.
    pub last: u32,
}

impl RunLoop {
    pub fn New(vcpu_id: u64) -> (r: RunLoop)
        ensures
            r.vcpu_id == vcpu_id,
            r.first,
            r.last == 0,
    {
        RunLoop { vcpu_id, first: true, last: 0 }
    }

    /// Decides what one exit asks for. Only a `HYPERCALL_U64` exit from kernel
    /// mode, while running, changes the loop's state: it records a first half,
    /// or completes the pair.
    pub fn Dispatch(&mut self, exit: VcpuExitKind, cpl: u16, regs: HypercallRegs, running: bool) -> (r: RunAction)
        ensures
            r == exit_action(exit, cpl, regs, running, old(self).first, old(self).last),
            final(self).vcpu_id == old(self).vcpu_id,
            final(self).first == next_first(exit, cpl, running, old(self).first),
            final(self).last == next_last(exit, cpl, running, old(self).first, old(self).last),
    {
        if !running {
            return RunAction::Stop;
        }
        match exit {
            VcpuExitKind::IoIn { .. } => {
                if cpl != 0 {
                    RunAction::PrivilegeViolation
                } else {
                    RunAction::Note
                }
            },
            VcpuExitKind::IoOut { port, data } => {
                if cpl != 0 {
                    RunAction::PrivilegeViolation
                } else {
                    self.hypercall(port, data, regs, running)
                }
            },
            VcpuExitKind::FailEntry => RunAction::Stop,
            VcpuExitKind::Unexpected => RunAction::Unhandled,
            _ => RunAction::Note,
        }
    }

    fn hypercall(&mut self, port: u16, data: u32, regs: HypercallRegs, running: bool) -> (r: RunAction)
        ensures
            r == out_action(port, data, regs, running, old(self).first, old(self).last),
            final(self).vcpu_id == old(self).vcpu_id,
            port == HYPERCALL_U64 ==> (if old(self).first {
                final(self).first == false && final(self).last == data
            } else {
                final(self).first == true && final(self).last == old(self).last
            }),
            port != HYPERCALL_U64 ==> *final(self) == *old(self),
    {
        if port == HYPERCALL_IOWAIT {
            if running { RunAction::IoWait } else { RunAction::Stop }
        } else if port == HYPERCALL_URING_WAKE {
            RunAction::UringWake { idx: regs.rbx, min_complete: regs.rcx }
        } else if port == HYPERCALL_RELEASE_VCPU {
            RunAction::ReleaseVcpu
        } else if port == HYPERCALL_EXIT_VM {
            RunAction::ExitVm { code: regs.rbx as i32 }
        } else if port == HYPERCALL_PANIC {
            RunAction::Panic { msg_addr: regs.rbx }
        } else if port == HYPERCALL_WAKEUP_VCPU {
            RunAction::WakeupVcpu { vcpu_id: regs.rbx }
        } else if port == HYPERCALL_PRINT {
            RunAction::Print { msg_addr: regs.rbx }
        } else if port == HYPERCALL_MSG {
            RunAction::Msg { data1: regs.rbx, data2: regs.rcx, data3: regs.rdi, rsp: regs.rsp, rip: regs.rip }
        } else if port == HYPERCALL_OOM {
            RunAction::Oom { size: regs.rbx, align: regs.rcx }
        } else if port == HYPERCALL_EXIT {
            RunAction::Exit
        } else if port == HYPERCALL_U64 {
            if self.first {
                self.first = false;
                self.last = data;
                RunAction::Note
            } else {
                self.first = true;
                RunAction::U64 { high: self.last, low: data }
            }
        } else if port == HYPERCALL_GETTIME {
            RunAction::GetTime { call_addr: regs.rbx }
        } else if port == HYPERCALL_VCPU_FREQ {
            RunAction::VcpuFreq { call_addr: regs.rbx }
        } else if port == HYPERCALL_VCPU_YIELD {
            RunAction::Yield { millis: VCPU_YIELD_MILLIS }
        } else if port == HYPERCALL_VCPU_DEBUG {
            RunAction::VcpuDebug
        } else if port == HYPERCALL_VCPU_PRINT {
            RunAction::VcpuPrint
        } else if port == HYPERCALL_QCALL {
            RunAction::QCall
        } else if port == HYPERCALL_HCALL {
            RunAction::HCall { msg_addr: regs.rbx }
        } else if port == HYPERCALL_VCPU_WAIT {
            RunAction::VcpuWait { ret_addr: regs.rdi }
        } else {
            RunAction::Unknown { port }
        }
    }
}

/// Once the VM is no longer running, every run loop stops at its next exit,
/// whatever the exit and from whatever privilege level.
pub proof fn lemma_stopped_vm_stops_loop(exit: VcpuExitKind, cpl: u16, regs: HypercallRegs, first: bool, last: u32)
    ensures
        exit_action(exit, cpl, regs, false, first, last) == RunAction::Stop,
        next_first(exit, cpl, false, first) == first,
        next_last(exit, cpl, false, first, last) == last,
{
}

/// Diagnostics are idempotent: a print, message, panic, out-of-memory or
/// vCPU debug/print hypercall leaves the loop's state as it was, so issuing
/// it again with the same registers asks for the same output.
pub proof fn lemma_diagnostics_idempotent(port: u16, data: u32, regs: HypercallRegs, first: bool, last: u32)
    requires
        port == HYPERCALL_PRINT || port == HYPERCALL_MSG || port == HYPERCALL_PANIC || port
            == HYPERCALL_OOM || port == HYPERCALL_VCPU_DEBUG || port == HYPERCALL_VCPU_PRINT,
    ensures
        ({
            let exit = VcpuExitKind::IoOut { port, data };
            let f1 = next_first(exit, 0, true, first);
            let l1 = next_last(exit, 0, true, first, last);
            &&& f1 == first
            &&& l1 == last
            &&& exit_action(exit, 0, regs, true, f1, l1) == exit_action(exit, 0, regs, true, first, last)
        }),
{
}

/// Nanoseconds in a second.
pub const NANOS_PER_SEC: i64 = 1_000_000_000;

/// What the `GETTIME` hypercall writes into the request's result field.
#[derive(Clone, Copy, Debug, PartialEq, Eq, Structural)]
pub enum GetTimeResult {
    /// The value for the result field: the time in nanoseconds, or the errno.
    Res(i64),
    /// The clock's seconds, or its whole value, do not fit in nanoseconds as an `i64`.
    OutOfRange,
}

pub open spec fn fits_i64(x: int) -> bool {
    i64::MIN <= x <= i64::MAX
}

/// A clock reading in nanoseconds.
pub open spec fn timespec_ns(sec: i64, nsec: i64) -> int {
    sec * NANOS_PER_SEC + nsec
}

/// Turns the outcome of `clock_gettime` into the `GETTIME` result: the errno on
/// failure (`ret == -1`), else the reading in nanoseconds.
pub fn gettime_result(ret: i64, errno: i32, sec: i64, nsec: i64) -> (r: GetTimeResult)
    ensures
        ret == -1 ==> r == GetTimeResult::Res(errno as i64),
        ret != -1 ==> r == (if fits_i64(sec * NANOS_PER_SEC) && fits_i64(timespec_ns(sec, nsec)) {
            GetTimeResult::Res(timespec_ns(sec, nsec) as i64)
        } else {
            GetTimeResult::OutOfRange
        }),
{
    if ret == -1 {
        return GetTimeResult::Res(errno as i64);
    }
    match sec.checked_mul(NANOS_PER_SEC) {
        None => GetTimeResult::OutOfRange,
        Some(s) => match s.checked_add(nsec) {
            None => GetTimeResult::OutOfRange,
            Some(ns) => GetTimeResult::Res(ns),
        },
    }
}

/// The `VCPU_FREQ` result: the TSC frequency in Hz from its value in kHz.
pub fn vcpu_freq(tsc_khz: u32) -> (r: i64)
    ensures
        r == tsc_khz * 1000,
{
    (tsc_khz as i64) * 1000
}

} // verus!
