use vstd::prelude::*;

use crate::cpu_local::{CPULocal, VcpuState, WaitResult};

verus! {

/// The largest number of vCPUs the wait bitmask can describe.
pub const MAX_VCPUS: usize = 64;

/// Whether bit `i` of the wait bitmask is set.
pub open spec fn bit_set(mask: u64, i: int) -> bool {
    0 <= i < 64 && (mask >> (i as u64)) & 1u64 == 1u64
}

proof fn lemma_set_bit(m: u64, i: u64, j: u64)
    requires
        i < 64,
        j < 64,
    ensures
        ((m | (1u64 << i)) >> j) & 1u64 == (if i == j {
            1u64
        } else {
            (m >> j) & 1u64
        }),
{
    assert(((m | (1u64 << i)) >> j) & 1u64 == (if i == j {
        1u64
    } else {
        (m >> j) & 1u64
    })) by (bit_vector)
        requires
            i < 64,
            j < 64,
    ;
}

proof fn lemma_clear_bit(m: u64, i: u64, j: u64)
    requires
        i < 64,
        j < 64,
    ensures
        ((m & !(1u64 << i)) >> j) & 1u64 == (if i == j {
            0u64
        } else {
            (m >> j) & 1u64
        }),
{
    assert(((m & !(1u64 << i)) >> j) & 1u64 == (if i == j {
        0u64
    } else {
        (m >> j) & 1u64
    })) by (bit_vector)
        requires
            i < 64,
            j < 64,
    ;
}

/// Coordinates the idle and wake state of all vCPUs: the global ready-task
/// count, the bitmask of vCPUs parked in `WaitVcpu`, and one station per vCPU.
pub struct Scheduler {
    pub ready: u64,
    pub wait_mask: u64,
    pub vcpus: Vec<CPULocal>,
}

impl Scheduler {
    /// Station `i` belongs to vCPU `i`, and a bit is set exactly for a vCPU
    /// that is parked (blocked in its wait).
    pub open spec fn wf(&self) -> bool {
        &&& self.vcpus.len() <= MAX_VCPUS
        &&& forall|i: int| 0 <= i < self.vcpus.len() ==> (#[trigger] self.vcpus@[i]).vcpu_id == i
        &&& forall|i: int|
            0 <= i < 64 ==> (#[trigger] bit_set(self.wait_mask, i) <==> (i < self.vcpus.len()
                && self.vcpus@[i].state == VcpuState::Waiting))
    }

    /// Whether vCPU `i` is parked.
    pub open spec fn parked(&self, i: int) -> bool {
        bit_set(self.wait_mask, i)
    }

    /// A scheduler for `vcpu_cnt` vCPUs, all running, with no ready task.
    pub fn Init(vcpu_cnt: usize) -> (r: Scheduler)
        requires
            vcpu_cnt <= MAX_VCPUS,
        ensures
            r.wf(),
            r.ready == 0,
            r.wait_mask == 0,
            r.vcpus.len() == vcpu_cnt,
            forall|i: int|
                0 <= i < vcpu_cnt ==> (#[trigger] r.vcpus@[i]).state == VcpuState::Running
                    && r.vcpus@[i].wakeups == 0,
    {
        let mut vcpus: Vec<CPULocal> = Vec::new();
        let mut i: usize = 0;
        while i < vcpu_cnt
            invariant
                i <= vcpu_cnt,
                vcpus.len() == i,
                forall|k: int|
                    0 <= k < i ==> (#[trigger] vcpus@[k]).vcpu_id == k && vcpus@[k].state
                        == VcpuState::Running && vcpus@[k].wakeups == 0,
            decreases vcpu_cnt - i,
        {
            vcpus.push(CPULocal::Init(i));
            i = i + 1;
        }
        assert forall|k: int| 0 <= k < 64 implies !bit_set(0u64, k) by {
            let kk = k as u64;
            assert((0u64 >> kk) & 1u64 == 0u64) by (bit_vector);
        }
        Scheduler { ready: 0, wait_mask: 0, vcpus }
    }

    pub fn GlobalReadyTaskCnt(&self) -> (r: u64)
        ensures
            r == self.ready,
    {
        self.ready
    }

    /// Runs the wait protocol of vCPU `vcpu_id` against the global ready count.
    /// Its bit is set while it waits and stays set only when it is left blocked.
    pub fn WaitVcpu(&mut self, vcpu_id: usize, running: bool, block: bool, host_ready: bool) -> (r:
        WaitResult)
        requires
            old(self).wf(),
            vcpu_id < old(self).vcpus.len(),
        ensures
            final(self).wf(),
            final(self).ready == old(self).ready,
            final(self).vcpus.len() == old(self).vcpus.len(),
            final(self).parked(vcpu_id as int) <==> r == WaitResult::Blocked,
            forall|i: int|
                0 <= i < final(self).vcpus.len() && i != vcpu_id ==> #[trigger] final(self).vcpus@[i]
                    == old(self).vcpus@[i],
            old(self).ready > 0 ==> r == WaitResult::Returned(0),
            old(self).ready == 0 && !running ==> r == WaitResult::Exit,
            old(self).ready == 0 && running ==> final(self).vcpus@[vcpu_id as int].wakeups == 0,
            old(self).ready == 0 && running && old(self).vcpus@[vcpu_id as int].wakeups > 0 ==> r
                == WaitResult::Returned(0) && final(self).vcpus@[vcpu_id as int].wakeups == 0,
            old(self).ready == 0 && running && old(self).vcpus@[vcpu_id as int].wakeups == 0 ==> r
                == (if block {
                WaitResult::Blocked
            } else {
                WaitResult::Returned(0)
            }),
    {
        let ghost old_mask = self.wait_mask;
        let id = vcpu_id as u64;
        let mut local = self.vcpus[vcpu_id];
        let r = local.VcpuWait(self.ready, running, block, host_ready);
        if r == WaitResult::Blocked {
            self.wait_mask = self.wait_mask | (1u64 << id);
            proof {
                assert forall|j: int| 0 <= j < 64 && j != vcpu_id implies bit_set(self.wait_mask, j)
                    == bit_set(old_mask, j) by {
                    lemma_set_bit(old_mask, id, j as u64);
                }
                lemma_set_bit(old_mask, id, id);
            }
        } else {
            if local.state == VcpuState::Waiting {
                local.ToSearch();
            }
            self.wait_mask = self.wait_mask & !(1u64 << id);
            proof {
                assert forall|j: int| 0 <= j < 64 && j != vcpu_id implies bit_set(self.wait_mask, j)
                    == bit_set(old_mask, j) by {
                    lemma_clear_bit(old_mask, id, j as u64);
                }
                lemma_clear_bit(old_mask, id, id);
            }
        }
        self.vcpus.set(vcpu_id, local);
        proof {
            assert forall|j: int| 0 <= j < 64 implies (#[trigger] bit_set(self.wait_mask, j) <==> (j
                < self.vcpus.len() && self.vcpus@[j].state == VcpuState::Waiting)) by {
                if j != vcpu_id {
                    assert(bit_set(old_mask, j) == bit_set(self.wait_mask, j));
                }
            }
        }
        r
    }

    /// Marks vCPU `vcpu_id` as blocked in its wait: its bit is set.
    pub fn Park(&mut self, vcpu_id: usize)
        requires
            old(self).wf(),
            vcpu_id < old(self).vcpus.len(),
        ensures
            final(self).wf(),
            final(self).ready == old(self).ready,
            final(self).vcpus.len() == old(self).vcpus.len(),
            final(self).parked(vcpu_id as int),
            final(self).vcpus@[vcpu_id as int].state == VcpuState::Waiting,
            final(self).vcpus@[vcpu_id as int].wakeups == old(self).vcpus@[vcpu_id as int].wakeups,
            forall|i: int|
                0 <= i < final(self).vcpus.len() && i != vcpu_id ==> #[trigger] final(self).vcpus@[i]
                    == old(self).vcpus@[i],
    {
        let ghost old_mask = self.wait_mask;
        let id = vcpu_id as u64;
        let mut local = self.vcpus[vcpu_id];
        local.ToWaiting();
        self.vcpus.set(vcpu_id, local);
        self.wait_mask = self.wait_mask | (1u64 << id);
        proof {
            assert forall|j: int| 0 <= j < 64 implies (#[trigger] bit_set(self.wait_mask, j) <==> (j
                < self.vcpus.len() && self.vcpus@[j].state == VcpuState::Waiting)) by {
                lemma_set_bit(old_mask, id, j as u64);
                if j != vcpu_id {
                    assert(bit_set(old_mask, j) == bit_set(self.wait_mask, j));
                }
            }
            lemma_set_bit(old_mask, id, id);
        }
    }

    /// Marks vCPU `vcpu_id` as searching again after its wait: its bit is clear.
    pub fn Unpark(&mut self, vcpu_id: usize)
        requires
            old(self).wf(),
            vcpu_id < old(self).vcpus.len(),
        ensures
            final(self).wf(),
            final(self).ready == old(self).ready,
            final(self).vcpus.len() == old(self).vcpus.len(),
            !final(self).parked(vcpu_id as int),
            final(self).vcpus@[vcpu_id as int].state == VcpuState::Searching,
            final(self).vcpus@[vcpu_id as int].wakeups == old(self).vcpus@[vcpu_id as int].wakeups,
            forall|i: int|
                0 <= i < final(self).vcpus.len() && i != vcpu_id ==> #[trigger] final(self).vcpus@[i]
                    == old(self).vcpus@[i],
    {
        let ghost old_mask = self.wait_mask;
        let id = vcpu_id as u64;
        let mut local = self.vcpus[vcpu_id];
        local.ToSearch();
        self.vcpus.set(vcpu_id, local);
        self.wait_mask = self.wait_mask & !(1u64 << id);
        proof {
            assert forall|j: int| 0 <= j < 64 implies (#[trigger] bit_set(self.wait_mask, j) <==> (j
                < self.vcpus.len() && self.vcpus@[j].state == VcpuState::Waiting)) by {
                lemma_clear_bit(old_mask, id, j as u64);
                if j != vcpu_id {
                    assert(bit_set(old_mask, j) == bit_set(self.wait_mask, j));
                }
            }
            lemma_clear_bit(old_mask, id, id);
        }
    }

    /// Writes one wake-up to parked vCPU `i`.
    fn wake(&mut self, i: usize)
        requires
            old(self).wf(),
            i < old(self).vcpus.len(),
        ensures
            final(self).wf(),
            final(self).ready == old(self).ready,
            final(self).wait_mask == old(self).wait_mask,
            final(self).vcpus.len() == old(self).vcpus.len(),
            final(self).vcpus@[i as int].wakeups > 0,
            final(self).vcpus@[i as int].state == old(self).vcpus@[i as int].state,
            forall|k: int|
                0 <= k < final(self).vcpus.len() && k != i ==> #[trigger] final(self).vcpus@[k]
                    == old(self).vcpus@[k],
    {
        let mut local = self.vcpus[i];
        local.Wakeup();
        self.vcpus.set(i, local);
    }

    /// Records one more ready task for run queue `queue` and wakes a parked
    /// vCPU: that queue's own vCPU if it is parked, else the lowest-numbered
    /// parked one, if any. The vCPU woken is returned.
    pub fn ScheduleQ(&mut self, queue: u64) -> (woken: Option<usize>)
        requires
            old(self).wf(),
            old(self).ready < u64::MAX,
        ensures
            final(self).wf(),
            final(self).ready == old(self).ready + 1,
            final(self).wait_mask == old(self).wait_mask,
            final(self).vcpus.len() == old(self).vcpus.len(),
            woken is None <==> forall|i: int| 0 <= i < old(self).vcpus.len() ==> !old(self).parked(i),
            woken matches Some(w) ==> {
                &&& w < old(self).vcpus.len()
                &&& old(self).parked(w as int)
                &&& if queue < old(self).vcpus.len() && old(self).parked(queue as int) {
                    w == queue
                } else {
                    forall|i: int| 0 <= i < w ==> !old(self).parked(i)
                }
                &&& final(self).vcpus@[w as int].wakeups > 0
                &&& final(self).vcpus@[w as int].state == old(self).vcpus@[w as int].state
            },
            forall|i: int|
                0 <= i < final(self).vcpus.len() && (woken != Some(i as usize))
                    ==> #[trigger] final(self).vcpus@[i] == old(self).vcpus@[i],
    {
        self.ready = self.ready + 1;
        let n = self.vcpus.len();
        if queue < n as u64 && self.vcpus[queue as usize].state == VcpuState::Waiting {
            assert(bit_set(self.wait_mask, queue as int));
            assert(old(self).parked(queue as int));
            self.wake(queue as usize);
            return Some(queue as usize);
        }
        proof {
            if queue < n && old(self).parked(queue as int) {
                assert(bit_set(self.wait_mask, queue as int));
            }
        }
        let mut i: usize = 0;
        while i < n
            invariant
                self.wf(),
                n == self.vcpus.len(),
                i <= n,
                self.ready == old(self).ready + 1,
                self.wait_mask == old(self).wait_mask,
                self.vcpus@ == old(self).vcpus@,
                !(queue < n && old(self).parked(queue as int)),
                forall|k: int| 0 <= k < i ==> !old(self).parked(k),
            decreases n - i,
        {
            if self.vcpus[i].state == VcpuState::Waiting {
                assert(bit_set(self.wait_mask, i as int));
                assert(old(self).parked(i as int));
                self.wake(i);
                return Some(i);
            }
            i = i + 1;
        }
        None
    }
}

} // verus!
