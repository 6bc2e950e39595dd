use quark::cpu_local::WaitResult;
use quark::host_bridge::{
    complete_call, host_work, HostOutputMsg, HostProcessors, HostWork, QMsg, ShareSpace, TaskId,
};
use quark::vcpu_wait::{vcpu_wait_next, VcpuWaitState, WaitEnd, WaitStep, SPIN_ROUNDS};
use quark::scheduler::Scheduler;

#[test]
fn counter_tracks_threads_in_host() {
    let mut hp = HostProcessors::New();
    assert_eq!(hp.count, 0);
    hp.Incr(7);
    hp.Incr(8);
    assert_eq!(hp.count, 2);
    assert_eq!(hp.Decr(7), 1);
    assert_eq!(hp.Decr(8), 0);
}

#[test]
fn drain_pops_in_fifo_order() {
    let mut ss = ShareSpace::New(Scheduler::Init(1));
    ss.IncrHostProcessor(1);
    ss.AQHostOutputPush(HostOutputMsg::QCall(0x1000));
    ss.AQHostOutputPush(HostOutputMsg::Async(5));
    ss.AQHostOutputPush(HostOutputMsg::QCall(0x2000));
    let work = ss.GuestMsgProcess();
    assert_eq!(work, vec![HostWork::Call(0x1000), HostWork::Forward(5), HostWork::Call(0x2000)]);
    assert!(ss.queue.is_empty());
}

#[test]
fn last_thread_out_drains_again() {
    let mut ss = ShareSpace::New(Scheduler::Init(1));
    ss.IncrHostProcessor(1);
    ss.IncrHostProcessor(2);
    ss.AQHostOutputPush(HostOutputMsg::Async(9));
    // Another thread is still in the host: no second drain.
    assert!(ss.DecrHostProcessor(1).is_empty());
    assert_eq!(ss.queue.len(), 1);
    // The last one out drains what was left.
    assert_eq!(ss.DecrHostProcessor(2), vec![HostWork::Forward(9)]);
    assert!(ss.queue.is_empty());
    assert_eq!(ss.host.count, 0);
}

#[test]
fn qcall_handler_drains_everything() {
    let mut ss = ShareSpace::New(Scheduler::Init(1));
    ss.IncrHostProcessor(3);
    ss.AQHostOutputPush(HostOutputMsg::QCall(0x40));
    let work = ss.HandleQCall(3);
    assert_eq!(work, vec![HostWork::Call(0x40)]);
    assert!(ss.queue.is_empty());
    assert_eq!(ss.host.count, 0);
}

#[test]
fn host_originated_qcall_is_not_requeued() {
    let mut sched = Scheduler::Init(2);
    let mut call = QMsg { task_id: TaskId { addr: 0, queue: 1 }, global_lock: false, msg: 0x55, ret: 0 };
    // A trivial arithmetic host operation: 2 + 3.
    let requeued = complete_call(&mut call, 2 + 3, &mut sched);
    assert_eq!(requeued, None);
    assert_eq!(call.ret, 5);
    assert_eq!(sched.GlobalReadyTaskCnt(), 0);
}

#[test]
fn guest_task_qcall_is_requeued() {
    let mut sched = Scheduler::Init(2);
    let mut call = QMsg { task_id: TaskId { addr: 0xffff_8000, queue: 1 }, global_lock: true, msg: 0x55, ret: 0 };
    assert_eq!(complete_call(&mut call, 42, &mut sched), Some(None));
    assert_eq!(call.ret, 42);
    assert_eq!(sched.GlobalReadyTaskCnt(), 1);
    assert_eq!(call.task_id.Queue(), 1);
}

#[test]
fn requeue_wakes_a_parked_vcpu() {
    let mut sched = Scheduler::Init(2);
    sched.WaitVcpu(1, true, true, false);
    let mut call = QMsg { task_id: TaskId { addr: 0x1000, queue: 0 }, global_lock: false, msg: 1, ret: 0 };
    assert_eq!(complete_call(&mut call, 7, &mut sched), Some(Some(1)));
    assert_eq!(sched.vcpus[1].wakeups, 1);
}

#[test]
fn messages_classify() {
    assert_eq!(host_work(HostOutputMsg::QCall(8)), HostWork::Call(8));
    assert_eq!(host_work(HostOutputMsg::Async(8)), HostWork::Forward(8));
}

#[test]
fn requeue_prefers_the_task_queue_vcpu() {
    let mut sched = Scheduler::Init(3);
    sched.Park(0);
    sched.Park(2);
    let mut call = QMsg { task_id: TaskId { addr: 0x1000, queue: 2 }, global_lock: false, msg: 1, ret: 0 };
    assert_eq!(complete_call(&mut call, 7, &mut sched), Some(Some(2)));
    let mut other = QMsg { task_id: TaskId { addr: 0x2000, queue: 1 }, global_lock: false, msg: 1, ret: 0 };
    assert_eq!(complete_call(&mut other, 7, &mut sched), Some(Some(0)));
}

/// Drives a vCPU's wait against a shared space and its scheduler, as the
/// host thread does, and returns the steps taken.
fn drive(ss: &mut ShareSpace, vcpu: usize, tid: u64, running: bool) -> (WaitEnd, Vec<WaitStep>, Vec<HostWork>) {
    let mut s = VcpuWaitState::Check;
    let mut probe = None;
    let mut steps = Vec::new();
    let mut work = Vec::new();
    loop {
        let (next, step) = vcpu_wait_next(s, ss.scheduler.GlobalReadyTaskCnt(), running, probe);
        s = next;
        probe = None;
        steps.push(step);
        match step {
            WaitStep::EnterAndDrain => {
                ss.IncrHostProcessor(tid);
                work.extend(ss.GuestMsgProcess());
            }
            WaitStep::Drain => work.extend(ss.GuestMsgProcess()),
            WaitStep::Probe => probe = Some(ss.scheduler.WaitVcpu(vcpu, running, false, false)),
            WaitStep::Leave => work.extend(ss.DecrHostProcessor(tid)),
            WaitStep::Park => {
                let r = ss.scheduler.WaitVcpu(vcpu, running, true, false);
                if r == WaitResult::Blocked {
                    return (WaitEnd::Return(-2), steps, work);
                }
                probe = Some(r);
            }
            WaitStep::Finish(end) => return (end, steps, work),
        }
    }
}

fn count(steps: &[WaitStep], step: WaitStep) -> usize {
    steps.iter().filter(|s| **s == step).count()
}

#[test]
fn wait_returns_at_once_when_work_is_ready() {
    let mut sched = Scheduler::Init(2);
    sched.ScheduleQ(0);
    let mut ss = ShareSpace::New(sched);
    let (end, steps, work) = drive(&mut ss, 0, 1, true);
    assert_eq!(end, WaitEnd::Return(0));
    assert_eq!(steps, vec![WaitStep::Finish(WaitEnd::Return(0))]);
    assert!(work.is_empty());
}

#[test]
fn wait_spins_drains_leaves_then_parks() {
    let mut ss = ShareSpace::New(Scheduler::Init(2));
    ss.IncrHostProcessor(9);
    ss.AQHostOutputPush(HostOutputMsg::Async(1));
    let (end, steps, work) = drive(&mut ss, 1, 2, true);
    assert_eq!(end, WaitEnd::Return(-2));
    assert_eq!(work, vec![HostWork::Forward(1)]);
    assert_eq!(count(&steps, WaitStep::Probe), SPIN_ROUNDS);
    assert_eq!(count(&steps, WaitStep::EnterAndDrain), 1);
    assert_eq!(count(&steps, WaitStep::Leave), 1);
    assert_eq!(*steps.last().unwrap(), WaitStep::Park);
    assert!(ss.queue.is_empty());
    assert_eq!(ss.host.count, 1);
    assert_eq!(ss.scheduler.wait_mask, 0b10);
}

#[test]
fn wait_exits_on_shutdown() {
    let mut ss = ShareSpace::New(Scheduler::Init(1));
    let (end, steps, _) = drive(&mut ss, 0, 1, false);
    assert_eq!(end, WaitEnd::Exit);
    assert_eq!(steps.len(), 1);
}

#[test]
fn probe_shutdown_leaves_the_host_first() {
    let (s, step) = vcpu_wait_next(VcpuWaitState::InHost { round: 3, drained: false }, 0, false, Some(WaitResult::Exit));
    assert_eq!(step, WaitStep::Leave);
    let (s, step) = vcpu_wait_next(s, 0, false, None);
    assert_eq!(step, WaitStep::Finish(WaitEnd::Exit));
    assert_eq!(s, VcpuWaitState::Done { end: WaitEnd::Exit });
    let (_, step) = vcpu_wait_next(VcpuWaitState::InHost { round: 1, drained: false }, 0, true, Some(WaitResult::Error(9)));
    assert_eq!(step, WaitStep::Leave);
}

#[test]
fn work_appearing_while_spinning_ends_the_wait() {
    let (s, step) = vcpu_wait_next(VcpuWaitState::InHost { round: 2, drained: true }, 1, true, None);
    assert_eq!(step, WaitStep::Leave);
    assert_eq!(vcpu_wait_next(s, 1, true, None).1, WaitStep::Finish(WaitEnd::Return(0)));
    let (_, step) = vcpu_wait_next(VcpuWaitState::Parked, 0, true, Some(WaitResult::Returned(4)));
    assert_eq!(step, WaitStep::Finish(WaitEnd::Return(4)));
}
