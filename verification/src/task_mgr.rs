//! Task-manager entry points around the scheduler: the active-task
//! counter, the enqueue helpers, and the idle-spin deadlines of the I/O
//! wait and task wait loops. The loops themselves block in the host, so
//! the runtime drives them; the decisions stand here.
use vstd::prelude::*;

use crate::scheduler::Scheduler;
use crate::scheduler::TaskEntry;

verus! {

/// TSC cycles the I/O loop spins idle before blocking in the host.
pub const IO_WAIT_CYCLES: i64 = 20_000_000;

/// TSC cycles a vCPU spins for work before switching to its wait task.
pub const WAIT_CYCLES: i64 = 1_000_000;

/// Count one more active task; returns the previous count.
pub fn IncrActiveTask(count: &mut u32) -> (r: u32)
    requires
        *old(count) < u32::MAX,
    ensures
        *final(count) == *old(count) + 1,
        r == *old(count),
{
    let r = *count;
    *count = *count + 1;
    r
}

/// Count one active task gone; returns the previous count.
pub fn DecrActiveTask(count: &mut u32) -> (r: u32)
    requires
        *old(count) > 0,
    ensures
        *final(count) == *old(count) - 1,
        r == *old(count),
{
    let r = *count;
    *count = *count - 1;
    r
}

/// Hand a brand-new task to the scheduler (it starts on queue 0).
pub fn NewTask(sched: &mut Scheduler, task: TaskEntry)
    requires
        old(sched).wf(),
        old(sched).readyTaskCnt < u64::MAX,
    ensures
        final(sched).wf(),
        final(sched).readyTaskCnt == old(sched).readyTaskCnt + 1,
        final(sched).queue@[0]@ == old(sched).queue@[0]@.push(
            TaskEntry { taskId: task.taskId, queueId: 0, ready: task.ready },
        ),
{
    sched.NewTask(task);
}

/// Requeue a task on its home vCPU's run queue.
pub fn ScheduleQ(sched: &mut Scheduler, task: TaskEntry)
    requires
        old(sched).wf(),
        task.queueId < old(sched).vcpuCnt,
        old(sched).readyTaskCnt < u64::MAX,
    ensures
        final(sched).wf(),
        final(sched).readyTaskCnt == old(sched).readyTaskCnt + 1,
        final(sched).queue@[task.queueId as int]@ == old(sched).queue@[task.queueId as int]@.push(
            task,
        ),
{
    sched.KScheduleQ(task, task.queueId as usize);
}

/// A completion-poll round that drained more than ten entries counts as
/// busy: it restarts the I/O loop's idle clock.
pub fn PollAsyncMsgBusy(processed: usize) -> (r: bool)
    ensures
        r == (processed > 10),
{
    processed > 10
}

/// The I/O loop blocks in the host once it has spun idle for
/// IO_WAIT_CYCLES.
pub fn IoWaitIdle(start: i64, current: i64) -> (r: bool)
    requires
        0 <= start <= current,
    ensures
        r == (current - start >= IO_WAIT_CYCLES),
{
    current - start >= IO_WAIT_CYCLES
}

/// A searching vCPU gives up and switches to its wait task once it has
/// spun idle for WAIT_CYCLES.
pub fn TaskWaitIdle(start: i64, current: i64) -> (r: bool)
    requires
        0 <= start <= current,
    ensures
        r == (current - start >= WAIT_CYCLES),
{
    current - start >= WAIT_CYCLES
}

/// The wait task blocks the vCPU in the host only while no task in the
/// whole system is ready.
pub fn ShouldVcpuWait(sched: &Scheduler) -> (r: bool)
    ensures
        r == (sched.readyTaskCnt == 0),
{
    sched.GlobalReadyTaskCnt() == 0
}

} // verus!
