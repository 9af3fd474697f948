use rsart::{ScheduleStep, Scheduler, Task, TaskWrapper, JoinHandle};

fn poll_next(s: &mut Scheduler<&'static str>) -> Option<(usize, &'static str, u64)> {
    match s.schedule() {
        ScheduleStep::Poll { task, waker } => Some((task.id, task.fut, waker)),
        ScheduleStep::Complete(_) => None,
    }
}

fn complete_flag(s: &mut Scheduler<&'static str>) -> Option<bool> {
    match s.schedule() {
        ScheduleStep::Poll { .. } => None,
        ScheduleStep::Complete(b) => Some(b),
    }
}

#[test]
fn empty_scheduler_is_complete() {
    let mut s: Scheduler<&'static str> = Scheduler::new();
    assert_eq!(s.current_taskid(), 0);
    assert_eq!(complete_flag(&mut s), Some(true));
}

#[test]
fn tasks_are_polled_in_activation_order() {
    let mut s = Scheduler::new();
    s.activate(Task::new(1, "a"));
    s.activate(Task::new(2, "b"));
    s.activate(Task::new(3, "c"));
    let (id, fut, w) = poll_next(&mut s).unwrap();
    assert_eq!((id, fut, w), (1, "a", 0));
    assert_eq!(s.current_taskid(), 1);
    s.finish_poll(None);
    assert_eq!(s.current_taskid(), 0);
    assert_eq!(poll_next(&mut s).unwrap(), (2, "b", 1));
    s.finish_poll(None);
    assert_eq!(poll_next(&mut s).unwrap(), (3, "c", 2));
    s.finish_poll(None);
    assert_eq!(complete_flag(&mut s), Some(true));
}

#[test]
fn pending_task_is_parked_until_woken() {
    let mut s = Scheduler::new();
    s.activate(Task::new(7, "x"));
    let (id, fut, w) = poll_next(&mut s).unwrap();
    s.finish_poll(Some(Task::new(id, fut)));
    // nothing runnable, but a task is parked
    assert_eq!(complete_flag(&mut s), Some(false));
    s.wake(w);
    assert_eq!(poll_next(&mut s).unwrap(), (7, "x", 1));
    s.finish_poll(None);
    assert_eq!(complete_flag(&mut s), Some(true));
}

#[test]
fn wake_by_id_requeues_parked_task() {
    let mut s = Scheduler::new();
    s.activate(Task::new(4, "p"));
    let (id, fut, _) = poll_next(&mut s).unwrap();
    s.finish_poll(Some(Task::new(id, fut)));
    s.wake_by_id(99);
    assert_eq!(complete_flag(&mut s), Some(false));
    s.wake_by_id(4);
    assert_eq!(poll_next(&mut s).unwrap().0, 4);
    s.finish_poll(None);
    assert_eq!(complete_flag(&mut s), Some(true));
}

#[test]
fn stale_and_repeated_wakes_do_nothing() {
    let mut s = Scheduler::new();
    s.activate(Task::new(5, "q"));
    let (id, fut, w0) = poll_next(&mut s).unwrap();
    // a wake during the poll itself finds the slot empty
    s.wake(w0);
    s.finish_poll(Some(Task::new(id, fut)));
    s.wake(w0);
    let (id, fut, w1) = poll_next(&mut s).unwrap();
    assert_eq!((id, w1), (5, 1));
    s.finish_poll(Some(Task::new(id, fut)));
    // the waker of the first poll is stale now
    s.wake(w0);
    assert_eq!(complete_flag(&mut s), Some(false));
    s.wake(w1);
    s.wake(w1);
    assert_eq!(poll_next(&mut s).unwrap().0, 5);
    s.finish_poll(None);
    assert_eq!(complete_flag(&mut s), Some(true));
}

#[test]
fn activate_drops_pending_entry() {
    let mut s = Scheduler::new();
    s.activate(Task::new(8, "r"));
    let (id, fut, _) = poll_next(&mut s).unwrap();
    s.finish_poll(Some(Task::new(id, fut)));
    s.activate(Task::new(9, "s"));
    s.activate(Task::new(8, "r2"));
    assert_eq!(poll_next(&mut s).unwrap().1, "s");
    s.finish_poll(None);
    assert_eq!(poll_next(&mut s).unwrap().1, "r2");
    s.finish_poll(None);
    // the pending entry of task 8 is gone, so the scheduler counts as complete
    assert_eq!(complete_flag(&mut s), Some(true));
}

#[test]
fn completed_child_stores_result_and_wakes_parent() {
    let mut s = Scheduler::new();
    s.activate(Task::new(0, "parent"));
    let (id, fut, _) = poll_next(&mut s).unwrap();
    s.finish_poll(Some(Task::new(id, fut)));
    let child = TaskWrapper::new(1, 0, ());
    assert_eq!((child.id, child.parent_id), (1, 0));
    let mut handle: JoinHandle<i32> = JoinHandle::new();
    child.complete(123, &mut handle, &mut s);
    assert_eq!(handle.take_value(), Some(123));
    assert_eq!(poll_next(&mut s).unwrap().1, "parent");
}
