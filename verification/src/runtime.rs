use vstd::prelude::*;
use crate::executor::{next_id, Executor};
use crate::scheduler::{activate_spec, Scheduler};
use crate::task::Task;

verus! {

/// The runtime: the counter of task ids, the scheduler of the tasks (of
/// payload `T`) and the executor of the wakers (of type `W`) that wait for
/// readiness events.
pub struct Runtime<T, W> {
    pub next_taskid: usize,
    pub scheduler: Scheduler<T>,
    pub executor: Executor<W>,
}

impl<T, W> Runtime<T, W> {
    /// The id the next spawned task gets.
    pub open spec fn next_task_id(&self) -> usize {
        self.next_taskid
    }

    pub open spec fn wf(&self) -> bool {
        self.scheduler.wf()
    }

    /// A runtime with no task and no waiting waker; the first task gets id 0.
    pub fn new() -> (rt: Self)
        ensures
            rt.wf(),
            rt.next_task_id() == 0,
            rt.scheduler@.current == 0,
            rt.scheduler@.next_waker == 0,
            rt.scheduler@.polling is None,
            rt.scheduler@.active.len() == 0,
            rt.scheduler@.pending.is_empty(),
            rt.scheduler@.parked.is_empty(),
            rt.executor@.next_token == 0,
            rt.executor@.waitings.is_empty(),
    {
        Runtime { next_taskid: 0, scheduler: Scheduler::new(), executor: Executor::new() }
    }

    /// Spawns a task: it gets the next id, its parent is the task being polled
    /// (0 outside any poll), `make` builds its payload from the two, and the
    /// task joins the back of the run queue. Returns the new id.
    pub fn spawn<M: FnOnce(usize, usize) -> T>(&mut self, make: M) -> (tid: usize)
        requires
            old(self).wf(),
            call_requires(make, (old(self).next_task_id(), old(self).scheduler@.current)),
        ensures
            final(self).wf(),
            tid == old(self).next_task_id(),
            final(self).next_task_id() == next_id(tid),
            final(self).executor@ == old(self).executor@,
            final(self).scheduler@.active.len() > 0,
            final(self).scheduler@.active.last().id == tid,
            call_ensures(make, (tid, old(self).scheduler@.current), final(self).scheduler@.active.last().fut),
            final(self).scheduler@ == activate_spec(old(self).scheduler@, final(self).scheduler@.active.last()),
    {
        let tid = self.next_taskid;
        self.next_taskid = self.next_taskid.wrapping_add(1);
        let parent = self.scheduler.current_taskid();
        let fut = make(tid, parent);
        let task = Task::new(tid, fut);
        self.scheduler.activate(task);
        tid
    }
}

/// Spawns a task on `runtime`; see `Runtime::spawn`.
pub fn spawn<T, W, M: FnOnce(usize, usize) -> T>(runtime: &mut Runtime<T, W>, make: M) -> (tid: usize)
    requires
        old(runtime).wf(),
        call_requires(make, (old(runtime).next_task_id(), old(runtime).scheduler@.current)),
    ensures
        final(runtime).wf(),
        tid == old(runtime).next_task_id(),
        final(runtime).next_task_id() == next_id(tid),
        final(runtime).executor@ == old(runtime).executor@,
        final(runtime).scheduler@.active.len() > 0,
        final(runtime).scheduler@.active.last().id == tid,
        call_ensures(make, (tid, old(runtime).scheduler@.current), final(runtime).scheduler@.active.last().fut),
        final(runtime).scheduler@ == activate_spec(old(runtime).scheduler@, final(runtime).scheduler@.active.last()),
{
    runtime.spawn(make)
}

/// What the driver of `block_on` reports back.
pub enum BlockOnEvent {
    /// The driver starts blocking on a main future.
    Start,
    /// The main future was polled; `true` when it returned its value.
    MainPolled(bool),
    /// The scheduler ran until its run queue was empty; `true` when no task is parked.
    Scheduled(bool),
    /// The executor dispatched the ready events; `true` when no waker waits any more.
    Executed(bool),
}

/// What `block_on` asks the driver to do next.
pub enum BlockOnAction {
    /// Poll the main future.
    PollMain,
    /// Run the scheduler until its run queue is empty.
    Schedule,
    /// Wait for readiness events, if any waker waits, and dispatch them.
    Execute,
    /// Return the main future's value.
    Return,
}

/// What `block_on` remembers between steps: whether the main future has
/// returned, and whether the last scheduler round left no task parked.
pub struct BlockOn {
    pub main_ready: bool,
    pub scheduler_complete: bool,
}

impl BlockOn {
    pub fn new() -> (s: Self)
        ensures
            !s.main_ready,
            !s.scheduler_complete,
    {
        BlockOn { main_ready: false, scheduler_complete: false }
    }
}

/// One step of blocking on a main future: poll the main future, then run the
/// scheduler and the executor in turn until both are complete in the same
/// round, then return if the main future is ready or poll it again otherwise.
pub open spec fn block_on_spec(s: BlockOn, event: BlockOnEvent) -> (BlockOn, BlockOnAction) {
    match event {
        BlockOnEvent::Start => (BlockOn { main_ready: false, scheduler_complete: false }, BlockOnAction::PollMain),
        BlockOnEvent::MainPolled(ready) => (BlockOn { main_ready: ready, ..s }, BlockOnAction::Schedule),
        BlockOnEvent::Scheduled(complete) => (BlockOn { scheduler_complete: complete, ..s }, BlockOnAction::Execute),
        BlockOnEvent::Executed(complete) => {
            if s.scheduler_complete && complete {
                if s.main_ready {
                    (s, BlockOnAction::Return)
                } else {
                    (s, BlockOnAction::PollMain)
                }
            } else {
                (s, BlockOnAction::Schedule)
            }
        },
    }
}

/// The decisions of blocking on a main future, one event at a time; see `block_on_spec`.
pub fn block_on(state: BlockOn, event: BlockOnEvent) -> (r: (BlockOn, BlockOnAction))
    ensures
        r == block_on_spec(state, event),
{
    match event {
        BlockOnEvent::Start => (BlockOn::new(), BlockOnAction::PollMain),
        BlockOnEvent::MainPolled(ready) => (BlockOn { main_ready: ready, ..state }, BlockOnAction::Schedule),
        BlockOnEvent::Scheduled(complete) => (BlockOn { scheduler_complete: complete, ..state }, BlockOnAction::Execute),
        BlockOnEvent::Executed(complete) => {
            if state.scheduler_complete && complete {
                if state.main_ready {
                    (state, BlockOnAction::Return)
                } else {
                    (state, BlockOnAction::PollMain)
                }
            } else {
                (state, BlockOnAction::Schedule)
            }
        },
    }
}

/// `block_on` returns exactly when the main future has returned and, after it
/// did, a scheduler round left no task parked and the executor round after it
/// left no waker waiting: spawned tasks and timers run to completion first.
pub proof fn lemma_block_on_returns_when_all_done(s: BlockOn, event: BlockOnEvent)
    ensures
        block_on_spec(s, event).1 is Return <==> (
            event == BlockOnEvent::Executed(true) && s.main_ready && s.scheduler_complete
        ),
{
}

/// Every poll of the main future is followed by a scheduler round, every
/// scheduler round by an executor round, and an unfinished round by another
/// scheduler round; the state only records what the events reported.
pub proof fn lemma_block_on_round_order(s: BlockOn, ready: bool, complete: bool)
    ensures
        block_on_spec(s, BlockOnEvent::MainPolled(ready)) == (BlockOn { main_ready: ready, ..s }, BlockOnAction::Schedule),
        block_on_spec(s, BlockOnEvent::Scheduled(complete)) == (BlockOn { scheduler_complete: complete, ..s }, BlockOnAction::Execute),
        !(s.scheduler_complete && complete) ==> block_on_spec(s, BlockOnEvent::Executed(complete)).1 is Schedule,
        block_on_spec(s, BlockOnEvent::Executed(complete)).0 == s,
{
}

/// Two spawns in a row give different ids, and until the counter wraps the ids
/// increase.
pub proof fn lemma_spawn_ids_differ(n: usize)
    ensures
        next_id(n) != n,
        n < usize::MAX ==> next_id(n) == n + 1,
{
}

} // verus!
