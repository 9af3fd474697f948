use vstd::prelude::*;
use std::collections::HashMap;
use std::collections::VecDeque;
use crate::task::Task;

verus! {

broadcast use vstd::std_specs::hash::group_hash_axioms;

/// The scheduler as a mathematical value.
///
/// `active` is the run queue, front first. A task that returned `Pending` is
/// parked in the slot of the waker it was polled with: `parked` maps waker ids
/// to the tasks in their slots, and `pending` maps a parked task's id to its
/// waker. `current` is the id of the task being polled (0 between polls), and
/// `polling` the waker handed out with it.
pub struct SchedulerView<T> {
    pub current: usize,
    pub next_waker: u64,
    pub polling: Option<u64>,
    pub active: Seq<Task<T>>,
    pub pending: Map<usize, u64>,
    pub parked: Map<u64, Task<T>>,
}

/// What one scheduling step asks of its caller.
pub enum ScheduleStep<T> {
    /// Poll the task with a new waker of the given id, then call `finish_poll`.
    Poll { task: Task<T>, waker: u64 },
    /// The run queue is empty; `true` when no task is parked either.
    Complete(bool),
}

/// The consistency of a scheduler: every pending entry names a waker whose slot
/// holds that very task; waker ids in use lie below the next fresh one, and the
/// waker of the task being polled holds nothing yet.
pub open spec fn scheduler_wf<T>(s: SchedulerView<T>) -> bool {
    &&& s.parked.dom().finite()
    &&& forall|tid: usize| #[trigger] s.pending.contains_key(tid)
        ==> s.parked.contains_key(s.pending[tid]) && s.parked[s.pending[tid]].id == tid
    &&& forall|w: u64| #[trigger] s.parked.contains_key(w) ==> w < s.next_waker
    &&& (s.polling matches Some(w) ==> w < s.next_waker && !s.parked.contains_key(w))
}

/// `activate`: the task leaves the pending table and joins the back of the run queue.
pub open spec fn activate_spec<T>(s: SchedulerView<T>, task: Task<T>) -> SchedulerView<T> {
    SchedulerView { pending: s.pending.remove(task.id), active: s.active.push(task), ..s }
}

/// Waking the waker `w`: the task in its slot, if any, is taken out and activated.
pub open spec fn wake_spec<T>(s: SchedulerView<T>, w: u64) -> SchedulerView<T> {
    if s.parked.contains_key(w) {
        activate_spec(SchedulerView { parked: s.parked.remove(w), ..s }, s.parked[w])
    } else {
        s
    }
}

/// `wake_by_id`: the pending entry of `tid`, if any, is removed and its waker woken.
pub open spec fn wake_by_id_spec<T>(s: SchedulerView<T>, tid: usize) -> SchedulerView<T> {
    if s.pending.contains_key(tid) {
        wake_spec(SchedulerView { pending: s.pending.remove(tid), ..s }, s.pending[tid])
    } else {
        s
    }
}

/// One scheduling step: the front task is handed out with a fresh waker and
/// becomes the current one; with an empty run queue nothing changes and the
/// answer says whether anything is parked.
pub open spec fn schedule_spec<T>(s: SchedulerView<T>) -> (SchedulerView<T>, ScheduleStep<T>) {
    if s.active.len() == 0 {
        (s, ScheduleStep::Complete(s.pending.is_empty()))
    } else {
        (
            SchedulerView {
                current: s.active[0].id,
                next_waker: (s.next_waker + 1) as u64,
                polling: Some(s.next_waker),
                active: s.active.drop_first(),
                ..s
            },
            ScheduleStep::Poll { task: s.active[0], waker: s.next_waker },
        )
    }
}

/// The end of a poll: a task that is still pending is parked in the slot of the
/// waker it was polled with and recorded as pending under its id; no task is
/// current any more.
pub open spec fn finish_poll_spec<T>(s: SchedulerView<T>, still_pending: Option<Task<T>>) -> SchedulerView<T> {
    let idle = SchedulerView { current: 0, polling: None, ..s };
    match (still_pending, s.polling) {
        (Some(task), Some(w)) => SchedulerView {
            parked: s.parked.insert(w, task),
            pending: s.pending.insert(task.id, w),
            ..idle
        },
        _ => idle,
    }
}

/// Keeps the run queue, the pending table and the parked tasks.
pub struct Scheduler<T> {
    current_taskid: usize,
    next_waker: u64,
    polling: Option<u64>,
    active_tasks: VecDeque<Task<T>>,
    pending_tasks: HashMap<usize, u64>,
    parked: HashMap<u64, Task<T>>,
}

impl<T> View for Scheduler<T> {
    type V = SchedulerView<T>;

    closed spec fn view(&self) -> SchedulerView<T> {
        SchedulerView {
            current: self.current_taskid,
            next_waker: self.next_waker,
            polling: self.polling,
            active: self.active_tasks@,
            pending: self.pending_tasks@,
            parked: self.parked@,
        }
    }
}

impl<T> Scheduler<T> {
    pub open spec fn wf(&self) -> bool {
        scheduler_wf(self@)
    }

    /// An empty scheduler: nothing queued, nothing parked, no task current.
    pub fn new() -> (s: Self)
        ensures
            s.wf(),
            s@.current == 0,
            s@.next_waker == 0,
            s@.polling is None,
            s@.active.len() == 0,
            s@.pending.is_empty(),
            s@.parked.is_empty(),
    {
        Scheduler {
            current_taskid: 0,
            next_waker: 0,
            polling: None,
            active_tasks: VecDeque::new(),
            pending_tasks: HashMap::new(),
            parked: HashMap::new(),
        }
    }

    /// The id of the task being polled, 0 between polls.
    pub fn current_taskid(&self) -> (r: usize)
        ensures
            r == self@.current,
    {
        self.current_taskid
    }

    /// Queues a task at the back of the run queue, dropping any pending entry of its id.
    pub fn activate(&mut self, task: Task<T>)
        requires
            old(self).wf(),
        ensures
            final(self).wf(),
            final(self)@ == activate_spec(old(self)@, task),
    {
        self.enqueue(task);
    }

    fn enqueue(&mut self, task: Task<T>)
        ensures
            final(self)@ == activate_spec(old(self)@, task),
    {
        let tid = task.id;
        self.pending_tasks.remove(&tid);
        self.active_tasks.push_back(task);
        assert(self.active_tasks@ == old(self)@.active.push(task));
    }

    /// Wakes the waker `waker`: the task in its slot, if any, is activated.
    /// A waker whose slot is empty (it never parked a task, or was woken
    /// before) does nothing.
    pub fn wake(&mut self, waker: u64)
        requires
            old(self).wf(),
        ensures
            final(self).wf(),
            final(self)@ == wake_spec(old(self)@, waker),
    {
        match self.parked.remove(&waker) {
            Some(task) => {
                proof {
                    let s0 = old(self)@;
                    assert forall|tid: usize| #[trigger] s0.pending.contains_key(tid) && tid != task.id
                        implies s0.pending[tid] != waker by {}
                }
                self.enqueue(task);
            },
            None => {
                assert(old(self)@.parked.remove(waker) =~= old(self)@.parked);
            },
        }
    }

    /// Wakes the task `taskid` if it is parked; otherwise nothing happens.
    pub fn wake_by_id(&mut self, taskid: usize)
        requires
            old(self).wf(),
        ensures
            final(self).wf(),
            final(self)@ == wake_by_id_spec(old(self)@, taskid),
    {
        let waker = self.pending_tasks.remove(&taskid);
        match waker {
            Some(w) => {
                self.wake(w);
            },
            None => {
                assert(old(self)@.pending.remove(taskid) =~= old(self)@.pending);
            },
        }
    }

    /// One scheduling step: hands out the front task of the run queue with a
    /// fresh waker id and makes it the current task, or, with an empty run
    /// queue, reports whether any task is still parked.
    pub fn schedule(&mut self) -> (step: ScheduleStep<T>)
        requires
            old(self).wf(),
            old(self)@.next_waker < u64::MAX,
        ensures
            final(self).wf(),
            (final(self)@, step) == schedule_spec(old(self)@),
    {
        match self.active_tasks.pop_front() {
            Some(task) => {
                let waker = self.next_waker;
                self.next_waker = self.next_waker + 1;
                self.current_taskid = task.id;
                self.polling = Some(waker);
                ScheduleStep::Poll { task, waker }
            },
            None => ScheduleStep::Complete(self.pending_tasks.is_empty()),
        }
    }

    /// Ends the poll of the current task: pass the task back when it returned
    /// `Pending`, `None` when it completed. A pending task is parked in the slot
    /// of the waker it was polled with; no task is current afterwards. A task
    /// passed back when no poll is under way has no waker to park in and is dropped.
    pub fn finish_poll(&mut self, still_pending: Option<Task<T>>)
        requires
            old(self).wf(),
        ensures
            final(self).wf(),
            final(self)@ == finish_poll_spec(old(self)@, still_pending),
    {
        let polling = self.polling;
        self.polling = None;
        self.current_taskid = 0;
        match (still_pending, polling) {
            (Some(task), Some(w)) => {
                let tid = task.id;
                self.parked.insert(w, task);
                self.pending_tasks.insert(tid, w);
            },
            _ => {},
        }
    }

    /// Whether another scheduling step can hand out a fresh waker id.
    pub fn can_schedule(&self) -> (r: bool)
        ensures
            r == (self@.next_waker < u64::MAX),
    {
        self.next_waker < u64::MAX
    }
}

/// Every scheduler operation keeps the scheduler consistent.
pub proof fn lemma_operations_keep_wf<T>(
    s: SchedulerView<T>,
    task: Task<T>,
    w: u64,
    tid: usize,
    still_pending: Option<Task<T>>,
)
    requires
        scheduler_wf(s),
    ensures
        scheduler_wf(activate_spec(s, task)),
        scheduler_wf(wake_spec(s, w)),
        scheduler_wf(wake_by_id_spec(s, tid)),
        s.next_waker < u64::MAX ==> scheduler_wf(schedule_spec(s).0),
        scheduler_wf(finish_poll_spec(s, still_pending)),
{
    lemma_wake_keeps_wf(s, w);
    let s1 = SchedulerView { pending: s.pending.remove(tid), ..s };
    assert(scheduler_wf(s1));
    if s.pending.contains_key(tid) {
        lemma_wake_keeps_wf(s1, s.pending[tid]);
    }
}

proof fn lemma_wake_keeps_wf<T>(s: SchedulerView<T>, w: u64)
    requires
        scheduler_wf(s),
    ensures
        scheduler_wf(wake_spec(s, w)),
{
    if s.parked.contains_key(w) {
        let task = s.parked[w];
        assert forall|tid: usize| #[trigger] s.pending.contains_key(tid) && tid != task.id
            implies s.pending[tid] != w by {}
    }
}

/// The run queue is served in the order of activation: of two tasks activated
/// into an idle queue, the first is handed out first and the second next.
pub proof fn lemma_fifo_order<T>(s: SchedulerView<T>, a: Task<T>, b: Task<T>)
    requires
        scheduler_wf(s),
        s.active.len() == 0,
        s.next_waker + 1 < u64::MAX,
    ensures
        ({
            let queued = activate_spec(activate_spec(s, a), b);
            let (after_first, first) = schedule_spec(queued);
            let (_, second) = schedule_spec(finish_poll_spec(after_first, None));
            &&& first == ScheduleStep::Poll { task: a, waker: s.next_waker }
            &&& second == ScheduleStep::Poll { task: b, waker: (s.next_waker + 1) as u64 }
        }),
{
    let queued = activate_spec(activate_spec(s, a), b);
    assert(queued.active =~= seq![a, b]);
    assert(queued.active.drop_first() =~= seq![b]);
}

/// A task parked at the end of its poll comes back to the end of the run queue
/// when its waker is woken, and equally when it is woken by its id; either way
/// its pending entry goes and the other parked tasks stay.
pub proof fn lemma_park_then_wake<T>(s: SchedulerView<T>, task: Task<T>, w: u64)
    requires
        scheduler_wf(s),
        s.polling == Some(w),
    ensures
        ({
            let parked = finish_poll_spec(s, Some(task));
            let woken = wake_spec(parked, w);
            &&& woken.active == s.active.push(task)
            &&& !woken.pending.contains_key(task.id)
            &&& woken.parked == s.parked
            &&& wake_by_id_spec(parked, task.id) == woken
        }),
{
    let parked = finish_poll_spec(s, Some(task));
    assert(parked.parked.remove(w) =~= s.parked);
    assert(parked.pending.remove(task.id).remove(task.id) =~= parked.pending.remove(task.id));
}

/// A waker whose slot is empty does nothing, so waking a waker a second time,
/// or a waker of an earlier poll, leaves the scheduler as it is.
pub proof fn lemma_stale_wake_is_noop<T>(s: SchedulerView<T>, w: u64)
    requires
        scheduler_wf(s),
    ensures
        !s.parked.contains_key(w) ==> wake_spec(s, w) == s,
        wake_spec(wake_spec(s, w), w) == wake_spec(s, w),
{
}

/// Waking never loses or duplicates a task: the queued and the parked tasks
/// together are as many before as after.
pub proof fn lemma_wake_keeps_tasks<T>(s: SchedulerView<T>, w: u64, tid: usize)
    requires
        scheduler_wf(s),
    ensures
        wake_spec(s, w).active.len() + wake_spec(s, w).parked.dom().len()
            == s.active.len() + s.parked.dom().len(),
        wake_by_id_spec(s, tid).active.len() + wake_by_id_spec(s, tid).parked.dom().len()
            == s.active.len() + s.parked.dom().len(),
{
    if s.pending.contains_key(tid) {
        let s1 = SchedulerView { pending: s.pending.remove(tid), ..s };
        assert(s1.parked.contains_key(s.pending[tid]));
    }
}

/// Scheduling serves the run queue from its front, whatever its length: the
/// first task is handed out with the next fresh waker id and becomes current,
/// the rest of the queue keeps its order, pending and parked tasks stay; and a
/// task activated before the step does not overtake the queued ones.
pub proof fn lemma_schedule_serves_front<T>(s: SchedulerView<T>, t: Task<T>)
    requires
        s.active.len() > 0,
        s.next_waker < u64::MAX,
    ensures
        schedule_spec(s).1 == (ScheduleStep::Poll { task: s.active[0], waker: s.next_waker }),
        schedule_spec(s).0.active == s.active.drop_first(),
        schedule_spec(s).0.current == s.active[0].id,
        schedule_spec(s).0.polling == Some(s.next_waker),
        schedule_spec(s).0.next_waker == s.next_waker + 1,
        schedule_spec(s).0.pending == s.pending,
        schedule_spec(s).0.parked == s.parked,
        schedule_spec(activate_spec(s, t)).1 == schedule_spec(s).1,
        schedule_spec(activate_spec(s, t)).0.active == schedule_spec(s).0.active.push(t),
{
    assert(activate_spec(s, t).active.drop_first() =~= s.active.drop_first().push(t));
}

/// With an empty run queue a scheduling step changes nothing and reports
/// completion exactly when no task is pending: any pending task makes it report
/// `false`.
pub proof fn lemma_schedule_complete_iff_nothing_pending<T>(s: SchedulerView<T>, tid: usize)
    requires
        s.active.len() == 0,
    ensures
        schedule_spec(s).0 == s,
        s.pending.contains_key(tid) ==> schedule_spec(s).1 == ScheduleStep::<T>::Complete(false),
        s.pending.dom() == Set::<usize>::empty() ==> schedule_spec(s).1 == ScheduleStep::<T>::Complete(true),
{
    if s.pending.contains_key(tid) {
        assert(s.pending.dom().contains(tid));
        assert(!s.pending.dom().is_empty());
    }
}

/// Waking the waker of a parked task always activates that task, whether or
/// not a poll is under way: it leaves the slot, loses its pending entry and
/// joins the back of the run queue; nothing else changes.
pub proof fn lemma_wake_activates_parked<T>(s: SchedulerView<T>, w: u64)
    requires
        s.parked.contains_key(w),
    ensures
        wake_spec(s, w).active == s.active.push(s.parked[w]),
        wake_spec(s, w).parked == s.parked.remove(w),
        !wake_spec(s, w).parked.contains_key(w),
        wake_spec(s, w).pending == s.pending.remove(s.parked[w].id),
        wake_spec(s, w).current == s.current,
        wake_spec(s, w).polling == s.polling,
        wake_spec(s, w).next_waker == s.next_waker,
{
}

/// Ending a poll whose task completed touches nothing but the current task:
/// the run queue, the pending table and the parked tasks stay as they are.
/// Ending a poll whose task is still pending adds exactly that task, under the
/// waker of the poll, and its pending entry.
pub proof fn lemma_finish_poll_effects<T>(s: SchedulerView<T>, task: Task<T>, w: u64)
    ensures
        finish_poll_spec(s, None).active == s.active,
        finish_poll_spec(s, None).pending == s.pending,
        finish_poll_spec(s, None).parked == s.parked,
        finish_poll_spec(s, None).next_waker == s.next_waker,
        finish_poll_spec(s, None).current == 0,
        (finish_poll_spec(s, None).polling is None),
        s.polling == Some(w) ==> ({
            &&& finish_poll_spec(s, Some(task)).active == s.active
            &&& finish_poll_spec(s, Some(task)).parked == s.parked.insert(w, task)
            &&& finish_poll_spec(s, Some(task)).pending == s.pending.insert(task.id, w)
            &&& finish_poll_spec(s, Some(task)).current == 0
            &&& finish_poll_spec(s, Some(task)).polling is None
        }),
{
}

} // verus!
