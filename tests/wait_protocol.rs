use quark::cpu_local::{
    station_step, wait_action, CPULocal, EpollOutcome, EpollOwner, StationStep, VcpuState, WaitAction,
    WaitResult,
};
use quark::scheduler::Scheduler;

#[test]
fn wakeup_between_waits_is_not_lost() {
    let mut local = CPULocal::Init(0);
    assert_eq!(local.VcpuWait(0, true, true, false), WaitResult::Blocked);
    local.Wakeup();
    assert_eq!(local.wakeups, 1);
    assert_eq!(local.VcpuWait(0, true, true, false), WaitResult::Returned(0));
    assert_eq!(local.wakeups, 0);
    assert_eq!(local.state, VcpuState::Searching);
}

#[test]
fn non_blocking_probe_returns_zero() {
    let mut local = CPULocal::Init(3);
    assert_eq!(local.VcpuWait(0, true, false, false), WaitResult::Returned(0));
}

#[test]
fn host_event_alone_is_serviced_then_blocks() {
    let mut local = CPULocal::Init(1);
    assert_eq!(local.VcpuWait(0, true, true, true), WaitResult::Blocked);
    assert_eq!(local.state, VcpuState::Waiting);
}

#[test]
fn ready_work_returns_at_once() {
    let mut local = CPULocal::Init(1);
    assert_eq!(local.VcpuWait(2, true, true, false), WaitResult::Returned(0));
    assert_eq!(local.state, VcpuState::Running);
}

#[test]
fn shutdown_is_observed_by_wait() {
    let mut local = CPULocal::Init(1);
    assert_eq!(local.VcpuWait(0, false, true, false), WaitResult::Exit);
    local.Wakeup();
    assert_eq!(local.VcpuWait(0, false, true, true), WaitResult::Exit);
}

#[test]
fn epoll_outcomes_are_classified() {
    assert_eq!(wait_action(EpollOutcome::Timeout, true), WaitAction::Return { drain_eventfd: false });
    assert_eq!(wait_action(EpollOutcome::Failed(4), true), WaitAction::Fail(4));
    assert_eq!(
        wait_action(EpollOutcome::Fired { wake: true, host: true }, true),
        WaitAction::Return { drain_eventfd: true }
    );
    assert_eq!(
        wait_action(EpollOutcome::Fired { wake: true, host: false }, true),
        WaitAction::Return { drain_eventfd: true }
    );
    assert_eq!(wait_action(EpollOutcome::Fired { wake: false, host: true }, true), WaitAction::ServiceHost);
    assert_eq!(wait_action(EpollOutcome::Fired { wake: true, host: true }, false), WaitAction::Exit);
}

#[test]
fn transitions_follow_the_protocol() {
    let mut local = CPULocal::Init(0);
    assert!(!local.transition(VcpuState::Waiting));
    assert_eq!(local.state, VcpuState::Running);
    assert!(local.transition(VcpuState::Searching));
    assert!(local.transition(VcpuState::Waiting));
    assert!(!local.transition(VcpuState::Running));
    assert!(local.transition(VcpuState::Searching));
    assert!(local.transition(VcpuState::Running));
}

#[test]
fn two_waiters_one_task_wakes_exactly_one() {
    let mut sched = Scheduler::Init(2);
    assert_eq!(sched.GlobalReadyTaskCnt(), 0);
    assert_eq!(sched.WaitVcpu(0, true, true, false), WaitResult::Blocked);
    assert_eq!(sched.WaitVcpu(1, true, true, false), WaitResult::Blocked);
    assert_eq!(sched.wait_mask, 0b11);

    assert_eq!(sched.ScheduleQ(0), Some(0));
    assert_eq!(sched.GlobalReadyTaskCnt(), 1);
    assert_eq!(sched.vcpus[0].wakeups, 1);
    assert_eq!(sched.vcpus[1].wakeups, 0);

    assert_eq!(sched.WaitVcpu(0, true, true, false), WaitResult::Returned(0));
    assert_eq!(sched.wait_mask, 0b10);
    // The other one is not left blocked once it rechecks.
    assert_eq!(sched.WaitVcpu(1, true, true, false), WaitResult::Returned(0));
    assert_eq!(sched.wait_mask, 0);
}

#[test]
fn schedule_with_nobody_parked_wakes_none() {
    let mut sched = Scheduler::Init(4);
    assert_eq!(sched.ScheduleQ(0), None);
    assert_eq!(sched.GlobalReadyTaskCnt(), 1);
}

#[test]
fn exit_reaches_every_parked_vcpu() {
    let mut sched = Scheduler::Init(3);
    for i in 0..3 {
        assert_eq!(sched.WaitVcpu(i, true, true, false), WaitResult::Blocked);
    }
    for i in 0..3 {
        assert_eq!(sched.WaitVcpu(i, false, true, false), WaitResult::Exit);
    }
    assert_eq!(sched.wait_mask, 0);
}

#[test]
fn park_and_unpark_keep_the_mask() {
    let mut sched = Scheduler::Init(3);
    sched.Park(2);
    assert_eq!(sched.wait_mask, 0b100);
    assert_eq!(sched.vcpus[2].state, VcpuState::Waiting);
    assert_eq!(sched.ScheduleQ(0), Some(2));
    sched.Unpark(2);
    assert_eq!(sched.wait_mask, 0);
    assert_eq!(sched.vcpus[2].state, VcpuState::Searching);
}

#[test]
fn station_steps() {
    assert_eq!(station_step(1, true, None), StationStep::Return { drain_eventfd: false });
    assert_eq!(station_step(0, false, None), StationStep::Exit);
    assert_eq!(station_step(0, true, None), StationStep::Epoll);
    assert_eq!(station_step(0, true, Some(EpollOutcome::Fired { wake: false, host: true })), StationStep::ServiceHost);
    assert_eq!(station_step(0, true, Some(EpollOutcome::Fired { wake: true, host: false })), StationStep::Return { drain_eventfd: true });
    assert_eq!(station_step(0, false, Some(EpollOutcome::Fired { wake: true, host: false })), StationStep::Exit);
    assert_eq!(station_step(0, true, Some(EpollOutcome::Failed(5))), StationStep::Fail(5));
}

#[test]
fn shutdown_leaves_the_station_alone() {
    let mut local = CPULocal::Init(2);
    local.Wakeup();
    let before = local;
    assert_eq!(local.VcpuWait(0, false, true, true), WaitResult::Exit);
    assert_eq!((local.state, local.wakeups), (before.state, before.wakeups));
}

#[test]
fn epoll_owner_admits_one() {
    let mut o = EpollOwner::New();
    assert!(o.TryLock());
    assert!(!o.TryLock());
    o.Unlock();
    assert!(o.TryLock());
}
