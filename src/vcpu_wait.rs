use vstd::prelude::*;

use crate::cpu_local::WaitResult;

verus! {

/// How many non-blocking probes a vCPU makes inside the host before it parks.
pub const SPIN_ROUNDS: usize = 10;

/// How a vCPU's wait for ready work ends.
#[derive(Clone, Copy, Debug, PartialEq, Eq, Structural)]
pub enum WaitEnd {
    /// Resume the guest, handing it this count.
    Return(i64),
    /// Shutdown was observed: stop the vCPU loop.
    Exit,
    /// A wait failed with this errno.
    Fail(i32),
}

/// Where a vCPU's wait stands between two steps.
#[derive(Clone, Copy, Debug, PartialEq, Eq, Structural)]
pub enum VcpuWaitState {
    /// Not in the host: check for ready work and shutdown.
    Check,
    /// Inside the host after `round` probes; `drained` once this round's drain is done.
    InHost { round: usize, drained: bool },
    /// Just left the host; park next when `end` is `None`, else end so.
    Left { end: Option<WaitEnd> },
    /// Blocked in the final wait.
    Parked,
    /// The wait is over.
    Done { end: WaitEnd },
}

/// What the thread does next.
#[derive(Clone, Copy, Debug, PartialEq, Eq, Structural)]
pub enum WaitStep {
    /// Enter the host (`IncrHostProcessor`) and drain the queue.
    EnterAndDrain,
    /// Drain the queue.
    Drain,
    /// Probe the vCPU's station without blocking; hand back its result.
    Probe,
    /// Leave the host (`DecrHostProcessor`, draining again if last out).
    Leave,
    /// Wait on the station, blocking; hand back its result.
    Park,
    /// The wait is over.
    Finish(WaitEnd),
}

/// The wait protocol of a vCPU, one step at a time: `ready` is the global
/// ready-task count now, `running` the shutdown flag now, and `probe` the
/// result of the station wait the previous step asked for, if any.
pub open spec fn wait_next_spec(s: VcpuWaitState, ready: u64, running: bool, probe: Option<WaitResult>) -> (VcpuWaitState, WaitStep) {
    match s {
        VcpuWaitState::Check => if ready > 0 {
            (VcpuWaitState::Done { end: WaitEnd::Return(0) }, WaitStep::Finish(WaitEnd::Return(0)))
        } else if !running {
            (VcpuWaitState::Done { end: WaitEnd::Exit }, WaitStep::Finish(WaitEnd::Exit))
        } else {
            (VcpuWaitState::InHost { round: 0, drained: false }, WaitStep::EnterAndDrain)
        },
        VcpuWaitState::InHost { round, drained } => if !drained {
            match probe {
                Some(WaitResult::Exit) => (VcpuWaitState::Left { end: Some(WaitEnd::Exit) }, WaitStep::Leave),
                Some(WaitResult::Error(e)) => (VcpuWaitState::Left { end: Some(WaitEnd::Fail(e)) }, WaitStep::Leave),
                _ => if round >= SPIN_ROUNDS {
                    (VcpuWaitState::Left { end: None }, WaitStep::Leave)
                } else {
                    (VcpuWaitState::InHost { round, drained: true }, WaitStep::Drain)
                },
            }
        } else if ready > 0 {
            (VcpuWaitState::Left { end: Some(WaitEnd::Return(0)) }, WaitStep::Leave)
        } else if round >= SPIN_ROUNDS {
            (VcpuWaitState::Left { end: None }, WaitStep::Leave)
        } else {
            (VcpuWaitState::InHost { round: (round + 1) as usize, drained: false }, WaitStep::Probe)
        },
        VcpuWaitState::Left { end } => match end {
            Some(e) => (VcpuWaitState::Done { end: e }, WaitStep::Finish(e)),
            None => if ready != 0 {
                (VcpuWaitState::Done { end: WaitEnd::Return(0) }, WaitStep::Finish(WaitEnd::Return(0)))
            } else {
                (VcpuWaitState::Parked, WaitStep::Park)
            },
        },
        VcpuWaitState::Parked => match probe {
            Some(WaitResult::Returned(c)) => (VcpuWaitState::Done { end: WaitEnd::Return(c) }, WaitStep::Finish(WaitEnd::Return(c))),
            Some(WaitResult::Exit) => (VcpuWaitState::Done { end: WaitEnd::Exit }, WaitStep::Finish(WaitEnd::Exit)),
            Some(WaitResult::Error(e)) => (VcpuWaitState::Done { end: WaitEnd::Fail(e) }, WaitStep::Finish(WaitEnd::Fail(e))),
            _ => (VcpuWaitState::Parked, WaitStep::Park),
        },
        VcpuWaitState::Done { end } => (VcpuWaitState::Done { end }, WaitStep::Finish(end)),
    }
}

/// Whether the thread is inside the host in this state.
pub open spec fn in_host(s: VcpuWaitState) -> bool {
    s is InHost
}

/// One step of a vCPU's wait for ready work. While none is ready and the VM
/// runs, the thread enters the host and drains; then, up to `SPIN_ROUNDS`
/// times, drains again, stops if work appeared, and probes its station
/// without blocking; then it leaves the host (the last thread out drains
/// again) and, if still no work is ready, parks. A probe that reports
/// shutdown or an error makes it leave the host and end so.
pub fn vcpu_wait_next(s: VcpuWaitState, ready: u64, running: bool, probe: Option<WaitResult>) -> (r: (VcpuWaitState, WaitStep))
    ensures
        r == wait_next_spec(s, ready, running, probe),
        r.1 == WaitStep::EnterAndDrain ==> !in_host(s) && in_host(r.0),
        r.1 == WaitStep::Leave ==> in_host(s) && !in_host(r.0),
        r.1 != WaitStep::EnterAndDrain && r.1 != WaitStep::Leave ==> in_host(r.0) == in_host(s),
        r.1 is Finish ==> !in_host(r.0) && r.0 is Done,
        (r.1 == WaitStep::Drain || r.1 == WaitStep::Probe) ==> in_host(s),
{
    match s {
        VcpuWaitState::Check => {
            if ready > 0 {
                (VcpuWaitState::Done { end: WaitEnd::Return(0) }, WaitStep::Finish(WaitEnd::Return(0)))
            } else if !running {
                (VcpuWaitState::Done { end: WaitEnd::Exit }, WaitStep::Finish(WaitEnd::Exit))
            } else {
                (VcpuWaitState::InHost { round: 0, drained: false }, WaitStep::EnterAndDrain)
            }
        },
        VcpuWaitState::InHost { round, drained } => {
            if !drained {
                match probe {
                    Some(WaitResult::Exit) => (VcpuWaitState::Left { end: Some(WaitEnd::Exit) }, WaitStep::Leave),
                    Some(WaitResult::Error(e)) => (VcpuWaitState::Left { end: Some(WaitEnd::Fail(e)) }, WaitStep::Leave),
                    _ => {
                        if round >= SPIN_ROUNDS {
                            (VcpuWaitState::Left { end: None }, WaitStep::Leave)
                        } else {
                            (VcpuWaitState::InHost { round, drained: true }, WaitStep::Drain)
                        }
                    },
                }
            } else if ready > 0 {
                (VcpuWaitState::Left { end: Some(WaitEnd::Return(0)) }, WaitStep::Leave)
            } else if round >= SPIN_ROUNDS {
                (VcpuWaitState::Left { end: None }, WaitStep::Leave)
            } else {
                (VcpuWaitState::InHost { round: round + 1, drained: false }, WaitStep::Probe)
            }
        },
        VcpuWaitState::Left { end } => {
            match end {
                Some(e) => (VcpuWaitState::Done { end: e }, WaitStep::Finish(e)),
                None => {
                    if ready != 0 {
                        (VcpuWaitState::Done { end: WaitEnd::Return(0) }, WaitStep::Finish(WaitEnd::Return(0)))
                    } else {
                        (VcpuWaitState::Parked, WaitStep::Park)
                    }
                },
            }
        },
        VcpuWaitState::Parked => {
            match probe {
                Some(WaitResult::Returned(c)) => (VcpuWaitState::Done { end: WaitEnd::Return(c) }, WaitStep::Finish(WaitEnd::Return(c))),
                Some(WaitResult::Exit) => (VcpuWaitState::Done { end: WaitEnd::Exit }, WaitStep::Finish(WaitEnd::Exit)),
                Some(WaitResult::Error(e)) => (VcpuWaitState::Done { end: WaitEnd::Fail(e) }, WaitStep::Finish(WaitEnd::Fail(e))),
                _ => (VcpuWaitState::Parked, WaitStep::Park),
            }
        },
        VcpuWaitState::Done { end } => (VcpuWaitState::Done { end }, WaitStep::Finish(end)),
    }
}

/// What the thread observes before one step.
#[derive(Clone, Copy, Debug, PartialEq, Eq, Structural)]
pub struct WaitInput {
    pub ready: u64,
    pub running: bool,
    pub probe: Option<WaitResult>,
}

/// The final state and the steps of a wait driven by `ins`, from `s`.
pub open spec fn run_wait(s: VcpuWaitState, ins: Seq<WaitInput>) -> (VcpuWaitState, Seq<WaitStep>)
    decreases ins.len(),
{
    if ins.len() == 0 {
        (s, Seq::empty())
    } else {
        let (s1, st) = wait_next_spec(s, ins[0].ready, ins[0].running, ins[0].probe);
        let (sf, rest) = run_wait(s1, ins.drop_first());
        (sf, seq![st] + rest)
    }
}

/// How many times `step` occurs in `steps`.
pub open spec fn count_step(steps: Seq<WaitStep>, step: WaitStep) -> nat
    decreases steps.len(),
{
    if steps.len() == 0 {
        0
    } else {
        (if steps[0] == step { 1nat } else { 0nat }) + count_step(steps.drop_first(), step)
    }
}

proof fn lemma_step_in_host(s: VcpuWaitState, i: WaitInput)
    ensures
        ({
            let (s1, st) = wait_next_spec(s, i.ready, i.running, i.probe);
            &&& st == WaitStep::EnterAndDrain ==> !in_host(s) && in_host(s1)
            &&& st == WaitStep::Leave ==> in_host(s) && !in_host(s1)
            &&& st != WaitStep::EnterAndDrain && st != WaitStep::Leave ==> in_host(s1) == in_host(s)
            &&& st is Finish ==> s1 is Done
        }),
{
}

/// Every host entry of a wait is matched by exactly one exit: along any run,
/// entries minus exits is 1 exactly while the thread is inside the host, so
/// the host-processor count is back where it was once the thread is out, and
/// in particular once the wait has finished.
pub proof fn lemma_entries_match_exits(s: VcpuWaitState, ins: Seq<WaitInput>)
    requires
        !in_host(s),
    ensures
        ({
            let (sf, steps) = run_wait(s, ins);
            &&& count_step(steps, WaitStep::EnterAndDrain) == count_step(steps, WaitStep::Leave) + (
            if in_host(sf) {
                1nat
            } else {
                0nat
            })
            &&& sf is Done ==> count_step(steps, WaitStep::EnterAndDrain) == count_step(steps, WaitStep::Leave)
        }),
    decreases ins.len(),
{
    lemma_entries_match_exits_from(s, ins);
}

proof fn lemma_entries_match_exits_from(s: VcpuWaitState, ins: Seq<WaitInput>)
    ensures
        ({
            let (sf, steps) = run_wait(s, ins);
            count_step(steps, WaitStep::EnterAndDrain) + (if in_host(s) { 1nat } else { 0nat })
                == count_step(steps, WaitStep::Leave) + (if in_host(sf) { 1nat } else { 0nat })
        }),
    decreases ins.len(),
{
    if ins.len() > 0 {
        let (s1, st) = wait_next_spec(s, ins[0].ready, ins[0].running, ins[0].probe);
        lemma_step_in_host(s, ins[0]);
        lemma_entries_match_exits_from(s1, ins.drop_first());
        let (sf, rest) = run_wait(s1, ins.drop_first());
        assert((seq![st] + rest).drop_first() == rest);
        assert((seq![st] + rest)[0] == st);
    }
}

/// Once a wait has finished it stays finished and asks for nothing more.
pub proof fn lemma_done_is_final(end: WaitEnd, ready: u64, running: bool, probe: Option<WaitResult>)
    ensures
        wait_next_spec(VcpuWaitState::Done { end }, ready, running, probe) == (VcpuWaitState::Done { end }, WaitStep::Finish(end)),
{
}

} // verus!
