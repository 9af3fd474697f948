use vstd::prelude::*;
use crate::join::{set_value_spec, JoinHandle};
use crate::scheduler::{wake_by_id_spec, Scheduler};

verus! {

/// A unit of work known to the scheduler by its id; `fut` is what gets polled.
pub struct Task<T> {
    pub id: usize,
    pub fut: T,
}

impl<T> Task<T> {
    pub fn new(id: usize, fut: T) -> (t: Self)
        ensures
            t.id == id,
            t.fut == fut,
    {
        Task { id, fut }
    }

    pub fn id(&self) -> (r: usize)
        ensures
            r == self.id,
    {
        self.id
    }
}

/// A spawned future together with its own id and the id of the task that
/// spawned it, which is woken when the future completes.
pub struct TaskWrapper<F> {
    pub id: usize,
    pub parent_id: usize,
    pub task: F,
}

impl<F> TaskWrapper<F> {
    pub fn new(id: usize, parent_id: usize, task: F) -> (w: Self)
        ensures
            w.id == id,
            w.parent_id == parent_id,
            w.task == task,
    {
        TaskWrapper { id, parent_id, task }
    }

    /// What happens when the wrapped future completes with `value`: the value
    /// is left in the join handle, replacing whatever was there, and the parent
    /// task is woken by its id.
    pub fn complete<R, T>(&self, value: R, result: &mut JoinHandle<R>, scheduler: &mut Scheduler<T>)
        requires
            old(scheduler).wf(),
        ensures
            final(result)@ == set_value_spec(old(result)@, value).0,
            final(scheduler).wf(),
            final(scheduler)@ == wake_by_id_spec(old(scheduler)@, self.parent_id),
    {
        result.set_value(value);
        scheduler.wake_by_id(self.parent_id);
    }
}

/// A child that completes wakes its parent: when the parent is parked, it is
/// back at the end of the run queue and no longer pending.
pub proof fn lemma_completion_wakes_parent<T>(s: crate::scheduler::SchedulerView<T>, parent: usize)
    requires
        crate::scheduler::scheduler_wf(s),
        s.pending.contains_key(parent),
    ensures
        wake_by_id_spec(s, parent).active.len() == s.active.len() + 1,
        wake_by_id_spec(s, parent).active.last().id == parent,
        wake_by_id_spec(s, parent).active.drop_last() == s.active,
        !wake_by_id_spec(s, parent).pending.contains_key(parent),
{
    assert(wake_by_id_spec(s, parent).active.drop_last() =~= s.active);
}

} // verus!
