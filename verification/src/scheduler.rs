//! The cooperative M:N scheduler: one FIFO run queue per vCPU, a global
//! ready-task counter, halt bookkeeping, and work stealing.
//!
//! Conservation is part of well-formedness: the global ready count always
//! equals the sum of the per-vCPU queue lengths, and every queued task's
//! home queue id names the queue it sits in. Context switching and vCPU
//! wake-ups are host work; the functions here return what to switch to and
//! whom to wake.
use vstd::prelude::*;

verus! {

/// What a vCPU is doing: blocked in the host, scanning for work, or
/// running a task. Stealing only takes from a running vCPU's queue.
#[derive(Clone, Copy, PartialEq, Eq, Structural, Debug)]
pub enum VcpuState {
    Waiting,
    Searching,
    Running,
}

/// One queued task: its opaque 64-bit handle, its home vCPU, and whether
/// its saved context is complete and may be resumed.
#[derive(Clone, Copy, PartialEq, Eq, Structural, Debug)]
pub struct TaskEntry {
    pub taskId: u64,
    pub queueId: u64,
    pub ready: bool,
}

/// Total number of tasks over all run queues.
pub open spec fn sum_lens(qs: Seq<Vec<TaskEntry>>) -> int
    decreases qs.len(),
{
    if qs.len() == 0 {
        0
    } else {
        qs[0]@.len() + sum_lens(qs.drop_first())
    }
}

pub proof fn lemma_sum_nonneg(qs: Seq<Vec<TaskEntry>>)
    ensures
        sum_lens(qs) >= 0,
    decreases qs.len(),
{
    if qs.len() > 0 {
        lemma_sum_nonneg(qs.drop_first());
    }
}

pub proof fn lemma_sum_push(qs: Seq<Vec<TaskEntry>>, v: Vec<TaskEntry>)
    ensures
        sum_lens(qs.push(v)) == sum_lens(qs) + v@.len(),
    decreases qs.len(),
{
    reveal_with_fuel(sum_lens, 2);
    if qs.len() == 0 {
        assert(qs.push(v)[0] == v);
        assert(qs.push(v).drop_first() =~= Seq::<Vec<TaskEntry>>::empty());
        assert(sum_lens(qs.push(v)) == v@.len() + sum_lens(Seq::<Vec<TaskEntry>>::empty()));
    } else {
        assert(qs.push(v)[0] == qs[0]);
        assert(qs.push(v).drop_first() =~= qs.drop_first().push(v));
        lemma_sum_push(qs.drop_first(), v);
        assert(sum_lens(qs.push(v)) == qs[0]@.len() + sum_lens(qs.drop_first().push(v)));
    }
}

pub proof fn lemma_sum_update(qs: Seq<Vec<TaskEntry>>, i: int, v: Vec<TaskEntry>)
    requires
        0 <= i < qs.len(),
    ensures
        sum_lens(qs.update(i, v)) == sum_lens(qs) - qs[i]@.len() + v@.len(),
    decreases qs.len(),
{
    if i == 0 {
        assert(qs.update(0, v).drop_first() =~= qs.drop_first());
    } else {
        assert(qs.update(i, v).drop_first() =~= qs.drop_first().update(i - 1, v));
        lemma_sum_update(qs.drop_first(), i - 1, v);
    }
}

pub proof fn lemma_sum_skip(qs: Seq<Vec<TaskEntry>>, i: int)
    requires
        0 <= i < qs.len(),
    ensures
        sum_lens(qs.skip(i)) == qs[i]@.len() + sum_lens(qs.skip(i + 1)),
{
    assert(qs.skip(i).drop_first() =~= qs.skip(i + 1));
    assert(qs.skip(i)[0] == qs[i]);
}

pub proof fn lemma_sum_lower(qs: Seq<Vec<TaskEntry>>, i: int)
    requires
        0 <= i < qs.len(),
    ensures
        sum_lens(qs) >= qs[i]@.len(),
    decreases qs.len(),
{
    if i == 0 {
        lemma_sum_nonneg(qs.drop_first());
    } else {
        lemma_sum_lower(qs.drop_first(), i - 1);
    }
}

/// The task handles of a queue, in order.
pub open spec fn task_ids(q: Seq<TaskEntry>) -> Seq<u64> {
    q.map_values(|t: TaskEntry| t.taskId)
}

/// A task the dequeue may return: its register context is ready to be
/// resumed, or it is the very task the calling vCPU is running.
pub open spec fn runnable(t: TaskEntry, currentTaskId: u64) -> bool {
    t.ready || t.taskId == currentTaskId
}

/// Some task in the queue may be handed out.
pub open spec fn has_runnable(q: Seq<TaskEntry>, currentTaskId: u64) -> bool {
    exists|k: int| 0 <= k < q.len() && runnable(#[trigger] q[k], currentTaskId)
}

/// The per-process scheduler state.
pub struct Scheduler {
    /// One FIFO run queue per vCPU.
    pub queue: Vec<Vec<TaskEntry>>,
    pub vcpuCnt: usize,
    /// Global count of ready tasks; always the sum of the queue lengths.
    pub readyTaskCnt: u64,
    /// Number of vCPUs currently halted in the host.
    pub haltVcpuCnt: u64,
    pub vcpuStates: Vec<VcpuState>,
}

impl Scheduler {
    pub open spec fn wf(&self) -> bool {
        &&& 0 < self.vcpuCnt <= 0x1000
        &&& self.queue@.len() == self.vcpuCnt
        &&& self.vcpuStates@.len() == self.vcpuCnt
        &&& self.readyTaskCnt == sum_lens(self.queue@)
        &&& forall|i: int, k: int|
            0 <= i < self.queue@.len() && 0 <= k < self.queue@[i]@.len()
                ==> (#[trigger] self.queue@[i]@[k]).queueId == i
    }

    pub fn New(vcpuCount: usize) -> (r: Scheduler)
        requires
            0 < vcpuCount <= 0x1000,
        ensures
            r.wf(),
            r.vcpuCnt == vcpuCount,
            r.readyTaskCnt == 0,
            r.haltVcpuCnt == 0,
            forall|i: int| 0 <= i < vcpuCount ==> (#[trigger] r.queue@[i])@.len() == 0,
            forall|i: int| 0 <= i < vcpuCount ==> r.vcpuStates@[i] == VcpuState::Waiting,
    {
        let mut queue: Vec<Vec<TaskEntry>> = Vec::new();
        let mut states: Vec<VcpuState> = Vec::new();
        let mut i: usize = 0;
        while i < vcpuCount
            invariant
                0 <= i <= vcpuCount,
                queue@.len() == i,
                states@.len() == i,
                sum_lens(queue@) == 0,
                forall|j: int| 0 <= j < i ==> (#[trigger] queue@[j])@.len() == 0,
                forall|j: int| 0 <= j < i ==> states@[j] == VcpuState::Waiting,
            decreases vcpuCount - i,
        {
            let empty: Vec<TaskEntry> = Vec::new();
            proof {
                lemma_sum_push(queue@, empty);
            }
            queue.push(empty);
            states.push(VcpuState::Waiting);
            i = i + 1;
        }
        Scheduler { queue, vcpuCnt: vcpuCount, readyTaskCnt: 0, haltVcpuCnt: 0, vcpuStates: states }
    }

    pub fn GlobalReadyTaskCnt(&self) -> (r: u64)
        ensures
            r == self.readyTaskCnt,
    {
        self.readyTaskCnt
    }

    pub fn IncreaseHaltVcpuCnt(&mut self) -> (r: u64)
        requires
            old(self).haltVcpuCnt < u64::MAX,
        ensures
            *final(self) == (Scheduler { haltVcpuCnt: final(self).haltVcpuCnt, ..*old(self) }),
            final(self).haltVcpuCnt == old(self).haltVcpuCnt + 1,
            r == old(self).haltVcpuCnt,
    {
        let r = self.haltVcpuCnt;
        self.haltVcpuCnt = self.haltVcpuCnt + 1;
        r
    }

    pub fn DecreaseHaltVcpuCnt(&mut self) -> (r: u64)
        requires
            old(self).haltVcpuCnt > 0,
        ensures
            *final(self) == (Scheduler { haltVcpuCnt: final(self).haltVcpuCnt, ..*old(self) }),
            final(self).haltVcpuCnt == old(self).haltVcpuCnt - 1,
            r == old(self).haltVcpuCnt,
    {
        let r = self.haltVcpuCnt;
        self.haltVcpuCnt = self.haltVcpuCnt - 1;
        r
    }

    /// Record the vCPU's announced state.
    pub fn SetVcpuState(&mut self, vcpuId: usize, state: VcpuState)
        requires
            old(self).wf(),
            vcpuId < old(self).vcpuCnt,
        ensures
            final(self).wf(),
            final(self).vcpuStates@ == old(self).vcpuStates@.update(vcpuId as int, state),
            final(self).queue == old(self).queue,
            final(self).readyTaskCnt == old(self).readyTaskCnt,
            final(self).haltVcpuCnt == old(self).haltVcpuCnt,
            final(self).vcpuCnt == old(self).vcpuCnt,
    {
        self.vcpuStates.set(vcpuId, state);
    }

    /// Enqueue a task on run queue `vcpuId`; its home queue id is
    /// rewritten to match.
    pub fn ScheduleQ(&mut self, task: TaskEntry, vcpuId: u64)
        requires
            old(self).wf(),
            vcpuId < old(self).vcpuCnt,
            old(self).readyTaskCnt < u64::MAX,
        ensures
            final(self).wf(),
            final(self).queue@[vcpuId as int]@ == old(self).queue@[vcpuId as int]@.push(
                TaskEntry { taskId: task.taskId, queueId: vcpuId, ready: task.ready },
            ),
            forall|j: int|
                0 <= j < old(self).queue@.len() && j != vcpuId ==> (#[trigger] final(self).queue@[j]) == old(self).queue@[j],
            final(self).queue@.len() == old(self).queue@.len(),
            final(self).readyTaskCnt == old(self).readyTaskCnt + 1,
            final(self).haltVcpuCnt == old(self).haltVcpuCnt,
            final(self).vcpuCnt == old(self).vcpuCnt,
            final(self).vcpuStates == old(self).vcpuStates,
    {
        let i = vcpuId as usize;
        let mut inner = self.queue.remove(i);
        inner.push(TaskEntry { taskId: task.taskId, queueId: vcpuId, ready: task.ready });
        proof {
            assert(old(self).queue@.remove(i as int).insert(i as int, inner) =~= old(
                self,
            ).queue@.update(i as int, inner));
        }
        self.queue.insert(i, inner);
        proof {
            lemma_sum_update(old(self).queue@, i as int, inner);
        }
        self.readyTaskCnt = self.readyTaskCnt + 1;
    }

    /// Enqueue a task on a given vCPU's queue (kernel-side entry point).
    pub fn KScheduleQ(&mut self, task: TaskEntry, vcpuId: usize)
        requires
            old(self).wf(),
            vcpuId < old(self).vcpuCnt,
            old(self).readyTaskCnt < u64::MAX,
        ensures
            final(self).wf(),
            final(self).queue@[vcpuId as int]@ == old(self).queue@[vcpuId as int]@.push(
                TaskEntry { taskId: task.taskId, queueId: vcpuId as u64, ready: task.ready },
            ),
            final(self).readyTaskCnt == old(self).readyTaskCnt + 1,
    {
        self.ScheduleQ(task, vcpuId as u64);
    }

    /// Enqueue a task on its home vCPU's queue.
    pub fn Schedule(&mut self, task: TaskEntry)
        requires
            old(self).wf(),
            task.queueId < old(self).vcpuCnt,
            old(self).readyTaskCnt < u64::MAX,
        ensures
            final(self).wf(),
            final(self).queue@[task.queueId as int]@ == old(self).queue@[task.queueId as int]@.push(
                task,
            ),
            final(self).readyTaskCnt == old(self).readyTaskCnt + 1,
    {
        self.KScheduleQ(task, task.queueId as usize);
    }

    /// A brand-new task starts on vCPU 0's queue.
    pub fn NewTask(&mut self, task: TaskEntry) -> (r: usize)
        requires
            old(self).wf(),
            old(self).readyTaskCnt < u64::MAX,
        ensures
            final(self).wf(),
            final(self).queue@[0]@ == old(self).queue@[0]@.push(
                TaskEntry { taskId: task.taskId, queueId: 0, ready: task.ready },
            ),
            final(self).readyTaskCnt == old(self).readyTaskCnt + 1,
            r == 0,
    {
        self.ScheduleQ(task, 0);
        0
    }

    /// Total queued tasks, counted over the queues; equal to the global
    /// ready count by the conservation invariant.
    pub fn Count(&self) -> (r: u64)
        requires
            self.wf(),
        ensures
            r == self.readyTaskCnt,
            r == sum_lens(self.queue@),
    {
        let n = self.queue.len();
        let mut total: u64 = 0;
        let mut i: usize = 0;
        proof {
            assert(self.queue@.skip(0) =~= self.queue@);
        }
        while i < n
            invariant
                self.wf(),
                n == self.queue@.len(),
                0 <= i <= n,
                total + sum_lens(self.queue@.skip(i as int)) == sum_lens(self.queue@),
            decreases n - i,
        {
            proof {
                lemma_sum_skip(self.queue@, i as int);
                lemma_sum_nonneg(self.queue@.skip(i + 1));
            }
            total = total + self.queue[i].len() as u64;
            i = i + 1;
        }
        proof {
            assert(self.queue@.skip(n as int) =~= Seq::<Vec<TaskEntry>>::empty());
        }
        total
    }

    /// Pop the oldest task of run queue `vcpuId`, if any.
    fn PopFrontQ(&mut self, vcpuId: usize) -> (r: Option<TaskEntry>)
        requires
            old(self).wf(),
            vcpuId < old(self).vcpuCnt,
        ensures
            final(self).wf(),
            final(self).vcpuCnt == old(self).vcpuCnt,
            final(self).haltVcpuCnt == old(self).haltVcpuCnt,
            final(self).vcpuStates == old(self).vcpuStates,
            final(self).queue@.len() == old(self).queue@.len(),
            old(self).queue@[vcpuId as int]@.len() == 0 ==> r is None && final(self).queue@
                == old(self).queue@ && final(self).readyTaskCnt == old(self).readyTaskCnt,
            old(self).queue@[vcpuId as int]@.len() > 0 ==> {
                &&& r == Some(old(self).queue@[vcpuId as int]@[0])
                &&& final(self).queue@[vcpuId as int]@ == old(self).queue@[vcpuId as int]@.subrange(
                    1,
                    old(self).queue@[vcpuId as int]@.len() as int,
                )
                &&& final(self).readyTaskCnt == old(self).readyTaskCnt - 1
            },
            forall|j: int|
                0 <= j < old(self).queue@.len() && j != vcpuId ==> (#[trigger] final(self).queue@[j]) == old(self).queue@[j],
    {
        if self.queue[vcpuId].len() == 0 {
            return None;
        }
        let mut inner = self.queue.remove(vcpuId);
        let task = inner.remove(0);
        proof {
            assert(old(self).queue@.remove(vcpuId as int).insert(vcpuId as int, inner) =~= old(
                self,
            ).queue@.update(vcpuId as int, inner));
            lemma_sum_update(old(self).queue@, vcpuId as int, inner);
            lemma_sum_lower(old(self).queue@, vcpuId as int);
        }
        self.queue.insert(vcpuId, inner);
        self.readyTaskCnt = self.readyTaskCnt - 1;
        Some(task)
    }

    /// Pick the first halted vCPU as the one to wake; the caller signals
    /// it through the host. The scheduler state is unchanged.
    pub fn WakeOne(&self) -> (r: Option<usize>)
        requires
            self.wf(),
        ensures
            match r {
                Some(i) => {
                    &&& i < self.vcpuCnt
                    &&& self.vcpuStates@[i as int] == VcpuState::Waiting
                    &&& forall|j: int|
                        0 <= j < i ==> self.vcpuStates@[j] != VcpuState::Waiting
                },
                None => forall|j: int|
                    0 <= j < self.vcpuCnt ==> self.vcpuStates@[j] != VcpuState::Waiting,
            },
    {
        let n = self.vcpuStates.len();
        let mut i: usize = 0;
        while i < n
            invariant
                self.wf(),
                n == self.vcpuCnt,
                0 <= i <= n,
                forall|j: int| 0 <= j < i ==> self.vcpuStates@[j] != VcpuState::Waiting,
            decreases n - i,
        {
            if self.vcpuStates[i] == VcpuState::Waiting {
                return Some(i);
            }
            i = i + 1;
        }
        None
    }

    /// Take the next runnable task from run queue `vcpuId` on behalf of
    /// `currentCpuId`.
    ///
    /// Stealing (a different, non-zero queue) is allowed only while that
    /// queue's vCPU is running; otherwise nothing is touched. With the
    /// guard passed, a task comes back exactly when the queue holds a
    /// runnable one: tasks whose context is not yet ready (and that are
    /// not the caller's current task) are re-queued at the back of the
    /// same queue and never returned. A stolen task's home queue id is
    /// rewritten to the stealing vCPU. The second result asks the caller
    /// to wake one halted vCPU: exactly when a local dequeue left more
    /// work behind.
    pub fn GetNextForCpu(&mut self, currentCpuId: usize, vcpuId: usize, currentTaskId: u64) -> (r:
        (Option<TaskEntry>, bool))
        requires
            old(self).wf(),
            currentCpuId < old(self).vcpuCnt,
            vcpuId < old(self).vcpuCnt,
        ensures
            final(self).wf(),
            final(self).vcpuCnt == old(self).vcpuCnt,
            final(self).vcpuStates == old(self).vcpuStates,
            final(self).haltVcpuCnt == old(self).haltVcpuCnt,
            forall|j: int|
                0 <= j < old(self).queue@.len() && j != vcpuId ==> (#[trigger] final(self).queue@[j]) == old(self).queue@[j],
            vcpuId != 0 && currentCpuId != vcpuId && old(self).vcpuStates@[vcpuId as int]
                != VcpuState::Running ==> r.0 is None && r.1 == false && *final(self) == *old(
                self,
            ),
            (vcpuId == 0 || currentCpuId == vcpuId || old(self).vcpuStates@[vcpuId as int]
                == VcpuState::Running) ==> (r.0 is Some <==> has_runnable(
                old(self).queue@[vcpuId as int]@,
                currentTaskId,
            )),
            r.0 is None ==> final(self).readyTaskCnt == old(self).readyTaskCnt && final(self).queue@[vcpuId as int]@.len() == old(self).queue@[vcpuId as int]@.len(),
            match r.0 {
                Some(t) => {
                    &&& final(self).readyTaskCnt == old(self).readyTaskCnt - 1
                    &&& t.queueId == currentCpuId
                    &&& runnable(t, currentTaskId)
                    &&& task_ids(old(self).queue@[vcpuId as int]@).contains(t.taskId)
                },
                None => true,
            },
            r.1 == (r.0 is Some && currentCpuId == vcpuId && final(self).queue@[
                vcpuId as int
            ]@.len() > 0),
    {
        if vcpuId != 0 && currentCpuId != vcpuId && self.vcpuStates[vcpuId] != VcpuState::Running {
            return (None, false);
        }
        let ghost old_q = self.queue@[vcpuId as int]@;
        let count = self.queue[vcpuId].len();
        let mut iter: usize = 0;
        while iter < count
            invariant
                old(self).wf(),
                self.wf(),
                vcpuId < self.vcpuCnt,
                currentCpuId < self.vcpuCnt,
                self.vcpuCnt == old(self).vcpuCnt,
                self.vcpuStates == old(self).vcpuStates,
                self.haltVcpuCnt == old(self).haltVcpuCnt,
                self.readyTaskCnt == old(self).readyTaskCnt,
                0 <= iter <= count,
                old_q == old(self).queue@[vcpuId as int]@,
                count == old_q.len(),
                vcpuId == 0 || currentCpuId == vcpuId || old(self).vcpuStates@[vcpuId as int]
                    == VcpuState::Running,
                forall|j: int|
                    0 <= j < old(self).queue@.len() && j != vcpuId ==> (#[trigger] self.queue@[j])
                        == old(self).queue@[j],
                self.queue@[vcpuId as int]@.len() == count,
                // the originals not yet popped still stand at the front,
                // in order; requeued tasks sit behind them
                self.queue@[vcpuId as int]@.subrange(0, count - iter) == old_q.subrange(
                    iter as int,
                    count as int,
                ),
                // everything popped so far was not runnable
                forall|k: int| 0 <= k < iter ==> !runnable(#[trigger] old_q[k], currentTaskId),
            decreases count - iter,
        {
            let ghost prev_q = self.queue@[vcpuId as int]@;
            let ghost entry_qs = self.queue@;
            let popped = self.PopFrontQ(vcpuId);
            let task = match popped {
                None => vstd::pervasive::unreached(),
                Some(t) => t,
            };
            let ghost mid_q = self.queue@[vcpuId as int]@;
            proof {
                assert forall|j: int|
                    0 <= j < old(self).queue@.len() && j != vcpuId implies (
                #[trigger] self.queue@[j]) == old(self).queue@[j] by {
                    assert(self.queue@[j] == entry_qs[j]);
                }
                assert(prev_q.subrange(0, count - iter)[0] == old_q.subrange(
                    iter as int,
                    count as int,
                )[0]);
                assert(task == old_q[iter as int]);
                assert(task_ids(old_q)[iter as int] == old_q[iter as int].taskId);
            }
            if task.ready || task.taskId == currentTaskId {
                proof {
                    assert(runnable(old_q[iter as int], currentTaskId));
                }
                if currentCpuId != vcpuId {
                    // stolen: the task moves home to the stealing vCPU
                    let stolen = TaskEntry {
                        taskId: task.taskId,
                        queueId: currentCpuId as u64,
                        ready: task.ready,
                    };
                    return (Some(stolen), false);
                }
                let more = self.queue[vcpuId].len() > 0;
                return (Some(task), more);
            }
            let ghost mid_qs = self.queue@;
            self.ScheduleQ(task, vcpuId as u64);
            proof {
                assert forall|j: int|
                    0 <= j < old(self).queue@.len() && j != vcpuId implies (
                #[trigger] self.queue@[j]) == old(self).queue@[j] by {
                    assert(self.queue@[j] == mid_qs[j]);
                }
                let cur_q = self.queue@[vcpuId as int]@;
                let requeued = TaskEntry {
                    taskId: task.taskId,
                    queueId: vcpuId as u64,
                    ready: task.ready,
                };
                assert(cur_q == mid_q.push(requeued));
                assert(mid_q == prev_q.subrange(1, count as int));
                assert forall|j: int| #![trigger mid_q[j]] 0 <= j < count - iter - 1 implies cur_q.subrange(
                    0,
                    count - iter - 1,
                )[j] == old_q.subrange(iter + 1, count as int)[j] by {
                    assert(cur_q[j] == mid_q[j]);
                    assert(mid_q[j] == prev_q[j + 1]);
                    assert(prev_q.subrange(0, count - iter)[j + 1] == old_q.subrange(
                        iter as int,
                        count as int,
                    )[j + 1]);
                }
                assert(cur_q.subrange(0, count - iter - 1) =~= old_q.subrange(
                    iter + 1,
                    count as int,
                ));
            }
            iter = iter + 1;
        }
        (None, false)
    }

    /// Find the next task for `vcpuId`: its own queue first, then its
    /// peers' queues in ring order (work stealing; the shared intake
    /// queue 0 is reached in the scan and may always be drained). A
    /// runnable task on the local queue is always found. The second
    /// result asks the caller to wake one halted vCPU.
    pub fn GetNext(&mut self, vcpuId: usize, currentTaskId: u64) -> (r: (Option<TaskEntry>, bool))
        requires
            old(self).wf(),
            vcpuId < old(self).vcpuCnt,
        ensures
            final(self).wf(),
            final(self).vcpuCnt == old(self).vcpuCnt,
            final(self).vcpuStates == old(self).vcpuStates,
            final(self).haltVcpuCnt == old(self).haltVcpuCnt,
            old(self).readyTaskCnt == 0 ==> r.0 is None && *final(self) == *old(self),
            has_runnable(old(self).queue@[vcpuId as int]@, currentTaskId) ==> r.0 is Some,
            r.0 is None ==> final(self).readyTaskCnt == old(self).readyTaskCnt && forall|j: int|
                0 <= j < old(self).queue@.len() ==> (#[trigger] final(self).queue@[j])@.len()
                    == old(self).queue@[j]@.len(),
            match r.0 {
                Some(t) => {
                    &&& final(self).readyTaskCnt == old(self).readyTaskCnt - 1
                    &&& t.queueId == vcpuId
                    &&& runnable(t, currentTaskId)
                },
                None => true,
            },
            r.1 ==> r.0 is Some && final(self).queue@[vcpuId as int]@.len() > 0,
    {
        if self.GlobalReadyTaskCnt() == 0 {
            proof {
                lemma_sum_lower(self.queue@, vcpuId as int);
            }
            return (None, false);
        }
        let (local, wake) = self.GetNextForCpu(vcpuId, vcpuId, currentTaskId);
        if local.is_some() {
            return (local, wake);
        }
        let vcpuCount = self.vcpuCnt;
        let mut i: usize = vcpuId + 1;
        while i < vcpuId + vcpuCount
            invariant
                old(self).wf(),
                self.wf(),
                vcpuId < self.vcpuCnt,
                self.vcpuCnt == old(self).vcpuCnt,
                vcpuCount == self.vcpuCnt,
                self.vcpuStates == old(self).vcpuStates,
                self.haltVcpuCnt == old(self).haltVcpuCnt,
                self.readyTaskCnt == old(self).readyTaskCnt,
                vcpuId + 1 <= i <= vcpuId + vcpuCount,
                forall|j: int|
                    0 <= j < old(self).queue@.len() ==> (#[trigger] self.queue@[j])@.len() == old(
                        self,
                    ).queue@[j]@.len(),
            decreases vcpuId + vcpuCount - i,
        {
            let (next, wake2) = self.GetNextForCpu(vcpuId, i % vcpuCount, currentTaskId);
            if next.is_some() {
                return (next, wake2);
            }
            i = i + 1;
        }
        (None, false)
    }
}

/// Scheduler conservation: the global ready count equals the sum of the
/// run-queue lengths.
pub proof fn lemma_scheduler_conservation(s: Scheduler)
    requires
        s.wf(),
    ensures
        s.readyTaskCnt == sum_lens(s.queue@),
{
}

} // verus!
