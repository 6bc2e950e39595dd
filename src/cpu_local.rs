use vstd::prelude::*;

verus! {

/// Where a vCPU's host thread stands in the wait/wake protocol.
#[derive(Clone, Copy, Debug, PartialEq, Eq, Structural)]
pub enum VcpuState {
    /// Executing guest code or processing host messages.
    Running,
    /// About to block, checking for last-moment work.
    Searching,
    /// Blocked in `epoll_wait`.
    Waiting,
}

/// The moves the protocol allows between two states.
pub open spec fn legal_transition(from: VcpuState, to: VcpuState) -> bool {
    match (from, to) {
        (VcpuState::Running, VcpuState::Searching) => true,
        (VcpuState::Searching, VcpuState::Waiting) => true,
        (VcpuState::Waiting, VcpuState::Searching) => true,
        (VcpuState::Searching, VcpuState::Running) => true,
        _ => false,
    }
}

/// What one `epoll_wait` on a vCPU's epoll set came back with.
#[derive(Clone, Copy, Debug, PartialEq, Eq, Structural)]
pub enum EpollOutcome {
    /// No descriptor fired before the timeout (only for a non-blocking probe).
    Timeout,
    /// The call failed with this errno.
    Failed(i32),
    /// Descriptors fired: the private eventfd (`wake`) and/or the shared host-readiness fd (`host`).
    Fired { wake: bool, host: bool },
}

/// What the waiting thread does after one `epoll_wait`.
#[derive(Clone, Copy, Debug, PartialEq, Eq, Structural)]
pub enum WaitAction {
    /// Shutdown was requested: stop without further work.
    Exit,
    /// The wait failed with this errno.
    Fail(i32),
    /// Drain the private eventfd (when `drain_eventfd`) and return to the caller.
    Return { drain_eventfd: bool },
    /// Only the host descriptor fired: service host I/O readiness, then recheck.
    ServiceHost,
}

/// The decision the protocol makes after one `epoll_wait`, given whether the VM is still running.
pub open spec fn wait_action_spec(outcome: EpollOutcome, running: bool) -> WaitAction {
    if !running {
        WaitAction::Exit
    } else {
        match outcome {
            EpollOutcome::Failed(e) => WaitAction::Fail(e),
            EpollOutcome::Timeout => WaitAction::Return { drain_eventfd: false },
            EpollOutcome::Fired { wake, host } => if wake || !host {
                WaitAction::Return { drain_eventfd: wake }
            } else {
                WaitAction::ServiceHost
            },
        }
    }
}

/// Classifies the result of one `epoll_wait`.
pub fn wait_action(outcome: EpollOutcome, running: bool) -> (r: WaitAction)
    ensures
        r == wait_action_spec(outcome, running),
{
    if !running {
        return WaitAction::Exit;
    }
    match outcome {
        EpollOutcome::Failed(e) => WaitAction::Fail(e),
        EpollOutcome::Timeout => WaitAction::Return { drain_eventfd: false },
        EpollOutcome::Fired { wake, host } => {
            if wake || !host {
                WaitAction::Return { drain_eventfd: wake }
            } else {
                WaitAction::ServiceHost
            }
        },
    }
}

/// What the waiting thread does next on its station.
#[derive(Clone, Copy, Debug, PartialEq, Eq, Structural)]
pub enum StationStep {
    /// Mark the vCPU Waiting, `epoll_wait`, mark it Searching, and hand back the outcome.
    Epoll,
    /// Drain the private eventfd (when `drain_eventfd`) and return 0.
    Return { drain_eventfd: bool },
    /// Shutdown was observed.
    Exit,
    /// `epoll_wait` failed with this errno.
    Fail(i32),
    /// Mark the vCPU Running, service host I/O readiness if the epoll-owner
    /// lock is free, mark it Searching, and recheck.
    ServiceHost,
}

pub open spec fn station_step_spec(ready: u64, running: bool, outcome: Option<EpollOutcome>) -> StationStep {
    match outcome {
        None => if ready > 0 {
            StationStep::Return { drain_eventfd: false }
        } else if !running {
            StationStep::Exit
        } else {
            StationStep::Epoll
        },
        Some(o) => match wait_action_spec(o, running) {
            WaitAction::Exit => StationStep::Exit,
            WaitAction::Fail(e) => StationStep::Fail(e),
            WaitAction::Return { drain_eventfd } => StationStep::Return { drain_eventfd },
            WaitAction::ServiceHost => StationStep::ServiceHost,
        },
    }
}

/// One step of the wait on a vCPU's station: before a wait (`outcome` is
/// `None`) it returns when a task is ready and stops on shutdown, else it
/// waits; after a wait it classifies what fired.
pub fn station_step(ready: u64, running: bool, outcome: Option<EpollOutcome>) -> (r: StationStep)
    ensures
        r == station_step_spec(ready, running, outcome),
{
    match outcome {
        None => {
            if ready > 0 {
                StationStep::Return { drain_eventfd: false }
            } else if !running {
                StationStep::Exit
            } else {
                StationStep::Epoll
            }
        },
        Some(o) => match wait_action(o, running) {
            WaitAction::Exit => StationStep::Exit,
            WaitAction::Fail(e) => StationStep::Fail(e),
            WaitAction::Return { drain_eventfd } => StationStep::Return { drain_eventfd },
            WaitAction::ServiceHost => StationStep::ServiceHost,
        },
    }
}

/// The lock that lets at most one thread service host I/O readiness.
pub struct EpollOwner {
    pub held: bool,
}

impl EpollOwner {
    pub fn New() -> (r: EpollOwner)
        ensures
            !r.held,
    {
        EpollOwner { held: false }
    }

    /// Takes the lock if it is free; never waits. Whether it was taken is returned.
    pub fn TryLock(&mut self) -> (taken: bool)
        ensures
            taken == !old(self).held,
            final(self).held,
    {
        let taken = !self.held;
        self.held = true;
        taken
    }

    /// Gives the lock back.
    pub fn Unlock(&mut self)
        requires
            old(self).held,
        ensures
            !final(self).held,
    {
        self.held = false;
    }
}

/// How a wait on one vCPU ended.
#[derive(Clone, Copy, Debug, PartialEq, Eq, Structural)]
pub enum WaitResult {
    /// The wait returned to its caller with this count.
    Returned(i64),
    /// Shutdown was observed.
    Exit,
    /// `epoll_wait` failed with this errno.
    Error(i32),
    /// Nothing can wake the thread: with a blocking wait it sleeps until an event comes.
    Blocked,
}

/// How a wait ends, given the global ready count and the station before it.
pub open spec fn wait_result_spec(s: CPULocal, ready: u64, running: bool, block: bool) -> WaitResult {
    if ready > 0 {
        WaitResult::Returned(0)
    } else if !running {
        WaitResult::Exit
    } else if s.wakeups > 0 || !block {
        WaitResult::Returned(0)
    } else {
        WaitResult::Blocked
    }
}

/// The station after one `Wakeup`.
pub open spec fn wakeup_spec(s: CPULocal) -> CPULocal {
    CPULocal { wakeups: if s.wakeups < u64::MAX - 1 { (s.wakeups + 1) as u64 } else { s.wakeups }, ..s }
}

/// One vCPU's host-side parking station: its protocol state and the counter of
/// its private eventfd (the wake-ups written to it and not yet read).
#[derive(Clone, Copy, Debug)]
pub struct CPULocal {
    pub vcpu_id: usize,
    pub state: VcpuState,
    pub wakeups: u64,
}

impl CPULocal {
    /// A station for vCPU `vcpu_id`, running, with no wake-up pending.
    pub fn Init(vcpu_id: usize) -> (r: CPULocal)
        ensures
            r.vcpu_id == vcpu_id,
            r.state == VcpuState::Running,
            r.wakeups == 0,
    {
        CPULocal { vcpu_id, state: VcpuState::Running, wakeups: 0 }
    }

    /// Moves to `to` where the protocol allows it; the state is unchanged otherwise.
    pub fn transition(&mut self, to: VcpuState) -> (moved: bool)
        ensures
            moved == legal_transition(old(self).state, to),
            final(self).state == (if moved { to } else { old(self).state }),
            final(self).vcpu_id == old(self).vcpu_id,
            final(self).wakeups == old(self).wakeups,
    {
        let ok = match (self.state, to) {
            (VcpuState::Running, VcpuState::Searching) => true,
            (VcpuState::Searching, VcpuState::Waiting) => true,
            (VcpuState::Waiting, VcpuState::Searching) => true,
            (VcpuState::Searching, VcpuState::Running) => true,
            _ => false,
        };
        if ok {
            self.state = to;
        }
        ok
    }

    /// Marks the vCPU as about to block: Running and Waiting pass through Searching.
    pub fn ToSearch(&mut self)
        ensures
            final(self).state == VcpuState::Searching,
            final(self).vcpu_id == old(self).vcpu_id,
            final(self).wakeups == old(self).wakeups,
    {
        self.state = VcpuState::Searching;
    }

    /// Marks the vCPU as blocked in `epoll_wait`; it is searching first.
    pub fn ToWaiting(&mut self)
        ensures
            final(self).state == VcpuState::Waiting,
            final(self).vcpu_id == old(self).vcpu_id,
            final(self).wakeups == old(self).wakeups,
    {
        if self.state != VcpuState::Searching {
            self.ToSearch();
        }
        let _ = self.transition(VcpuState::Waiting);
    }

    /// Marks the vCPU as running again; from Waiting it passes through Searching.
    pub fn ToRunning(&mut self)
        ensures
            final(self).state == VcpuState::Running,
            final(self).vcpu_id == old(self).vcpu_id,
            final(self).wakeups == old(self).wakeups,
    {
        if self.state != VcpuState::Searching {
            self.ToSearch();
        }
        let _ = self.transition(VcpuState::Running);
    }

    /// Writes one wake-up to the private eventfd: safe in every state.
    pub fn Wakeup(&mut self)
        ensures
            *final(self) == wakeup_spec(*old(self)),
            final(self).wakeups == (if old(self).wakeups < u64::MAX - 1 {
                old(self).wakeups + 1
            } else {
                old(self).wakeups as int
            }),
            final(self).state == old(self).state,
            final(self).vcpu_id == old(self).vcpu_id,
    {
        if self.wakeups < u64::MAX - 1 {
            self.wakeups = self.wakeups + 1;
        }
    }

    /// The wait protocol of a vCPU while the global ready-task count is `ready`,
    /// driven by `station_step` against a model of its descriptors.
    ///
    /// While no task is ready it parks, after checking for shutdown: the eventfd wakes it at once when a
    /// wake-up is pending (the wake-up is consumed); a host event alone is
    /// serviced once and the loop rechecks; with no event a non-blocking probe
    /// returns 0 and a blocking wait stays blocked. Shutdown ends any round.
    pub fn VcpuWait(&mut self, ready: u64, running: bool, block: bool, host_ready: bool) -> (r:
        WaitResult)
        ensures
            final(self).vcpu_id == old(self).vcpu_id,
            ready > 0 ==> r == WaitResult::Returned(0) && *final(self) == *old(self),
            ready == 0 && !running ==> r == WaitResult::Exit,
            ready == 0 && running && old(self).wakeups > 0 ==> r == WaitResult::Returned(0)
                && final(self).wakeups == 0 && final(self).state == VcpuState::Searching,
            ready == 0 && running && old(self).wakeups == 0 ==> final(self).wakeups == 0 && (
            r == (if block {
                WaitResult::Blocked
            } else {
                WaitResult::Returned(0)
            })),
            r == WaitResult::Blocked ==> final(self).state == VcpuState::Waiting,
            r == wait_result_spec(*old(self), ready, running, block),
            ready == 0 && !running ==> *final(self) == *old(self),
            ready == 0 && running && r != WaitResult::Blocked ==> final(self).state
                == VcpuState::Searching,
    {
        let mut host = host_ready;
        let mut last: Option<EpollOutcome> = None;
        let ghost first = true;
        loop
            invariant
                self.vcpu_id == old(self).vcpu_id,
                first && last is None ==> *self == *old(self),
                first ==> host == host_ready && self.wakeups == old(self).wakeups,
                !first ==> !host && self.wakeups == old(self).wakeups && old(self).wakeups == 0
                    && ready == 0 && running,
                last is Some ==> self.wakeups > 0 || host || !block,
                last is Some ==> ready == 0 && running && self.state == VcpuState::Searching
                    && last == Some(if self.wakeups > 0 || host {
                        EpollOutcome::Fired { wake: self.wakeups > 0, host }
                    } else {
                        EpollOutcome::Timeout
                    }),
            decreases (if host { 2int } else { 0int }) + (if last is None { 1int } else { 0int }),
        {
            match station_step(ready, running, last) {
                StationStep::Epoll => {
                    self.ToWaiting();
                    let outcome = if self.wakeups > 0 || host {
                        EpollOutcome::Fired { wake: self.wakeups > 0, host }
                    } else if block {
                        return WaitResult::Blocked;
                    } else {
                        EpollOutcome::Timeout
                    };
                    self.ToSearch();
                    last = Some(outcome);
                },
                StationStep::Exit => {
                    return WaitResult::Exit;
                },
                StationStep::Fail(e) => {
                    return WaitResult::Error(e);
                },
                StationStep::Return { drain_eventfd } => {
                    if drain_eventfd {
                        self.wakeups = 0;
                    }
                    return WaitResult::Returned(0);
                },
                StationStep::ServiceHost => {
                    self.ToRunning();
                    host = false;
                    self.ToSearch();
                    last = None;
                    proof {
                        first = false;
                    }
                },
            }
        }
    }
}

/// No wake-up is lost: whatever the station's state, once `Wakeup` has been
/// called after the last wait, the next wait of a running VM returns without
/// blocking, even a blocking one with no task ready.
pub proof fn lemma_wakeup_not_lost(s: CPULocal, ready: u64, block: bool)
    ensures
        wait_result_spec(wakeup_spec(s), ready, true, block) == WaitResult::Returned(0),
{
}

/// A wait on a VM that is no longer running never blocks: with no task
/// ready it reports the shutdown, and otherwise it returns to the run loop.
pub proof fn lemma_wait_observes_shutdown(s: CPULocal, ready: u64, block: bool)
    ensures
        wait_result_spec(s, ready, false, block) == (if ready > 0 {
            WaitResult::Returned(0)
        } else {
            WaitResult::Exit
        }),
{
}

} // verus!
