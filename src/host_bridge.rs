use vstd::prelude::*;

use crate::scheduler::Scheduler;

verus! {

/// The identity of a guest task: the address of its task structure and the
/// run queue it has affinity to. Address 0 marks a call that the host itself
/// originated.
#[derive(Clone, Copy, Debug, PartialEq, Eq, Structural)]
pub struct TaskId {
    pub addr: u64,
    pub queue: u64,
}

impl TaskId {
    pub fn Addr(&self) -> (r: u64)
        ensures
            r == self.addr,
    {
        self.addr
    }

    /// The run queue the task goes back to.
    pub fn Queue(&self) -> (r: u64)
        ensures
            r == self.queue,
    {
        self.queue
    }
}

/// One synchronous call payload written by the guest into shared memory.
#[derive(Clone, Copy, Debug, PartialEq, Eq, Structural)]
pub struct QMsg {
    pub task_id: TaskId,
    /// Run the call under the process-wide lock.
    pub global_lock: bool,
    /// The guest address of the request.
    pub msg: u64,
    /// The result slot.
    pub ret: u64,
}

/// One message of the host-output queue.
#[derive(Clone, Copy, Debug, PartialEq, Eq, Structural)]
pub enum HostOutputMsg {
    /// A synchronous call, by the guest address of its `QMsg`.
    QCall(u64),
    /// Another asynchronous command, handed to its collaborator as it is.
    Async(u64),
}

/// What the host does with one message popped from the queue.
#[derive(Clone, Copy, Debug, PartialEq, Eq, Structural)]
pub enum HostWork {
    /// Execute the call at this address, write its result, and requeue its task.
    Call(u64),
    /// Hand the command to the collaborator that serves it.
    Forward(u64),
}

pub open spec fn work_of(m: HostOutputMsg) -> HostWork {
    match m {
        HostOutputMsg::QCall(a) => HostWork::Call(a),
        HostOutputMsg::Async(c) => HostWork::Forward(c),
    }
}

/// Classifies a message popped from the host-output queue.
pub fn host_work(m: HostOutputMsg) -> (r: HostWork)
    ensures
        r == work_of(m),
{
    match m {
        HostOutputMsg::QCall(a) => HostWork::Call(a),
        HostOutputMsg::Async(c) => HostWork::Forward(c),
    }
}

/// Whether a finished call puts its task back on a run queue: only calls from
/// a real task do, never one the host originated.
pub open spec fn requeues(task: TaskId) -> bool {
    task.addr != 0
}

/// Records the result of a synchronous call and requeues the calling task on
/// its own run queue, unless the call was host-originated. Returns `None` when
/// the task was not requeued, else the parked vCPU that was woken for it, if
/// any: the queue's own vCPU when it is parked.
pub fn complete_call(call: &mut QMsg, ret: u64, sched: &mut Scheduler) -> (r: Option<Option<usize>>)
    requires
        old(sched).wf(),
        old(sched).ready < u64::MAX,
    ensures
        r is Some <==> requeues(old(call).task_id),
        *final(call) == (QMsg { ret, ..*old(call) }),
        final(sched).wf(),
        final(sched).ready == old(sched).ready + (if r is Some { 1int } else { 0int }),
        r is None ==> *final(sched) == *old(sched),
        r matches Some(Some(w)) ==> w < old(sched).vcpus.len() && old(sched).parked(w as int),
        old(call).task_id.queue < old(sched).vcpus.len() && old(sched).parked(
            old(call).task_id.queue as int,
        ) && r is Some ==> r == Some(Some(old(call).task_id.queue as usize)),
{
    call.ret = ret;
    if call.task_id.Addr() != 0 {
        Some(sched.ScheduleQ(call.task_id.Queue()))
    } else {
        None
    }
}

/// The count of host threads inside hypercall handling, with the set of those
/// threads it stands for.
pub struct HostProcessors {
    pub count: u64,
    pub inside: Ghost<Set<u64>>,
}

impl HostProcessors {
    /// The count is the number of threads between dispatch entry and exit.
    pub open spec fn wf(&self) -> bool {
        &&& self.inside@.finite()
        &&& self.count == self.inside@.len()
    }

    pub fn New() -> (r: HostProcessors)
        ensures
            r.wf(),
            r.count == 0,
            r.inside@ == Set::<u64>::empty(),
    {
        HostProcessors { count: 0, inside: Ghost(Set::empty()) }
    }

    /// Thread `tid` enters hypercall handling.
    pub fn Incr(&mut self, tid: u64)
        requires
            old(self).wf(),
            !old(self).inside@.contains(tid),
            old(self).count < u64::MAX,
        ensures
            final(self).wf(),
            final(self).inside@ == old(self).inside@.insert(tid),
            final(self).count == old(self).count + 1,
    {
        self.count = self.count + 1;
        self.inside = Ghost(self.inside@.insert(tid));
    }

    /// Thread `tid` leaves hypercall handling; the count left is returned.
    pub fn Decr(&mut self, tid: u64) -> (left: u64)
        requires
            old(self).wf(),
            old(self).inside@.contains(tid),
        ensures
            final(self).wf(),
            final(self).inside@ == old(self).inside@.remove(tid),
            left == final(self).count,
            final(self).count == old(self).count - 1,
    {
        proof {
            assert(self.inside@.len() > 0) by {
                vstd::set_lib::lemma_set_empty_equivalency_len(self.inside@);
            }
        }
        self.count = self.count - 1;
        self.inside = Ghost(self.inside@.remove(tid));
        self.count
    }
}

/// The shared state of the host message bridge: the host-output queue (front
/// first), the host-processor count, and the scheduler that calls requeue to.
pub struct ShareSpace {
    pub queue: Vec<HostOutputMsg>,
    pub host: HostProcessors,
    pub scheduler: Scheduler,
}

impl ShareSpace {
    /// The count is exact and no message waits in the queue once no thread is
    /// left in the host to drain it.
    pub open spec fn wf(&self) -> bool {
        &&& self.host.wf()
        &&& self.scheduler.wf()
        &&& self.queue@.len() > 0 ==> self.host.count > 0
    }

    pub fn New(scheduler: Scheduler) -> (r: ShareSpace)
        requires
            scheduler.wf(),
        ensures
            r.wf(),
            r.queue@ == Seq::<HostOutputMsg>::empty(),
            r.host.count == 0,
            r.scheduler == scheduler,
    {
        ShareSpace { queue: Vec::new(), host: HostProcessors::New(), scheduler }
    }

    pub fn IncrHostProcessor(&mut self, tid: u64)
        requires
            old(self).wf(),
            !old(self).host.inside@.contains(tid),
            old(self).host.count < u64::MAX,
        ensures
            final(self).wf(),
            final(self).host.inside@ == old(self).host.inside@.insert(tid),
            final(self).host.count == old(self).host.count + 1,
            final(self).queue@ == old(self).queue@,
            final(self).scheduler == old(self).scheduler,
    {
        self.host.Incr(tid);
    }

    /// A producer inside the host adds a message at the back of the queue.
    pub fn AQHostOutputPush(&mut self, m: HostOutputMsg)
        requires
            old(self).wf(),
            old(self).host.count > 0,
        ensures
            final(self).wf(),
            final(self).queue@ == old(self).queue@.push(m),
            final(self).host == old(self).host,
            final(self).scheduler == old(self).scheduler,
    {
        self.queue.push(m);
    }

    /// Pops every message in FIFO order and returns the work each one asks for.
    pub fn GuestMsgProcess(&mut self) -> (work: Vec<HostWork>)
        requires
            old(self).host.wf(),
            old(self).scheduler.wf(),
        ensures
            final(self).wf(),
            final(self).queue@ == Seq::<HostOutputMsg>::empty(),
            work@ == old(self).queue@.map_values(|m: HostOutputMsg| work_of(m)),
            final(self).host == old(self).host,
            final(self).scheduler == old(self).scheduler,
    {
        let mut work: Vec<HostWork> = Vec::new();
        let n = self.queue.len();
        let mut i: usize = 0;
        while i < n
            invariant
                n == self.queue.len(),
                i <= n,
                self.queue@ == old(self).queue@,
                work@ == old(self).queue@.take(i as int).map_values(|m: HostOutputMsg| work_of(m)),
            decreases n - i,
        {
            work.push(host_work(self.queue[i]));
            proof {
                assert(old(self).queue@.take(i + 1) == old(self).queue@.take(i as int).push(
                    old(self).queue@[i as int],
                ));
            }
            i = i + 1;
        }
        assert(old(self).queue@.take(n as int) == old(self).queue@);
        self.queue = Vec::new();
        work
    }

    /// Thread `tid` leaves the host. Only the last one out drains the queue a
    /// second time; the work of that drain is returned.
    pub fn DecrHostProcessor(&mut self, tid: u64) -> (work: Vec<HostWork>)
        requires
            old(self).wf(),
            old(self).host.inside@.contains(tid),
        ensures
            final(self).wf(),
            final(self).host.inside@ == old(self).host.inside@.remove(tid),
            final(self).host.count == old(self).host.count - 1,
            final(self).scheduler == old(self).scheduler,
            final(self).host.count == 0 ==> final(self).queue@ == Seq::<HostOutputMsg>::empty()
                && work@ == old(self).queue@.map_values(|m: HostOutputMsg| work_of(m)),
            final(self).host.count > 0 ==> final(self).queue@ == old(self).queue@ && work@
                == Seq::<HostWork>::empty(),
    {
        let left = self.host.Decr(tid);
        if left == 0 {
            self.GuestMsgProcess()
        } else {
            Vec::new()
        }
    }

    /// The `QCALL` handling of thread `tid`: drain once, leave the host, and
    /// drain again when it was the last thread in. The work of both drains is
    /// returned in order.
    pub fn HandleQCall(&mut self, tid: u64) -> (work: Vec<HostWork>)
        requires
            old(self).wf(),
            old(self).host.inside@.contains(tid),
        ensures
            final(self).wf(),
            final(self).queue@ == Seq::<HostOutputMsg>::empty(),
            work@ == old(self).queue@.map_values(|m: HostOutputMsg| work_of(m)),
            final(self).host.inside@ == old(self).host.inside@.remove(tid),
            final(self).scheduler == old(self).scheduler,
    {
        let mut work = self.GuestMsgProcess();
        let mut more = self.DecrHostProcessor(tid);
        work.append(&mut more);
        proof {
            assert(more@ == Seq::<HostWork>::empty());
            assert(work@ =~= old(self).queue@.map_values(|m: HostOutputMsg| work_of(m)));
        }
        work
    }
}

/// No message is stranded: whenever no thread is in the host, the queue is empty.
pub proof fn lemma_drain_completeness(s: ShareSpace)
    requires
        s.wf(),
        s.host.count == 0,
    ensures
        s.queue@.len() == 0,
{
}

/// The host-processor count is never negative and always equals the number
/// of threads between dispatch entry and exit: a thread entering adds one,
/// and the same thread leaving gives back the count from before it entered.
pub proof fn lemma_host_count_is_threads_inside(before: HostProcessors, tid: u64)
    requires
        before.wf(),
        !before.inside@.contains(tid),
    ensures
        before.count == before.inside@.len(),
        before.inside@.insert(tid).len() == before.count + 1,
        before.inside@.insert(tid).remove(tid) == before.inside@,
        before.inside@.insert(tid).remove(tid).len() == before.count,
{
    assert(before.inside@.insert(tid).remove(tid) =~= before.inside@);
}

} // verus!
