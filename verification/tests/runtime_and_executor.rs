use rsart::{block_on, spawn, BlockOn, BlockOnAction, BlockOnEvent, Executor, Runtime, ScheduleStep};

#[test]
fn executor_tokens_count_up() {
    let mut e: Executor<&'static str> = Executor::new();
    assert!(e.is_idle());
    assert_eq!(e.submit("a"), 0);
    assert_eq!(e.submit("b"), 1);
    assert_eq!(e.submit("c"), 2);
    assert!(!e.is_idle());
}

#[test]
fn executor_wakes_fired_tokens_once_in_order() {
    let mut e: Executor<&'static str> = Executor::new();
    e.submit("a");
    e.submit("b");
    e.submit("c");
    let woken = e.execute(&vec![2, 7, 0, 2]);
    assert_eq!(woken, vec!["c", "a"]);
    assert!(!e.is_idle());
    assert_eq!(e.execute(&vec![0, 2]), Vec::<&str>::new());
    assert_eq!(e.execute(&vec![1]), vec!["b"]);
    assert!(e.is_idle());
    assert_eq!(e.submit("d"), 3);
}

#[test]
fn spawn_numbers_tasks_and_records_parent() {
    let mut rt: Runtime<(usize, usize), ()> = Runtime::new();
    assert_eq!(rt.next_taskid, 0);
    let a = rt.spawn(|tid, parent| (tid, parent));
    let b = spawn(&mut rt, |tid, parent| (tid, parent));
    assert_eq!((a, b), (0, 1));
    assert_eq!(rt.next_taskid, 2);
    match rt.scheduler.schedule() {
        ScheduleStep::Poll { task, .. } => {
            assert_eq!(task.fut, (0, 0));
            // a task spawned while task 0 is polled has parent 0's id
        },
        ScheduleStep::Complete(_) => panic!("task expected"),
    }
    rt.scheduler.finish_poll(None);
    match rt.scheduler.schedule() {
        ScheduleStep::Poll { task, .. } => {
            assert_eq!(task.fut, (1, 0));
            let c = rt.spawn(|tid, parent| (tid, parent));
            assert_eq!(c, 2);
        },
        ScheduleStep::Complete(_) => panic!("task expected"),
    }
    rt.scheduler.finish_poll(None);
    match rt.scheduler.schedule() {
        ScheduleStep::Poll { task, .. } => assert_eq!(task.fut, (2, 1)),
        ScheduleStep::Complete(_) => panic!("task expected"),
    }
}

#[test]
fn block_on_runs_rounds_until_everything_is_done() {
    let (s, a) = block_on(BlockOn::new(), BlockOnEvent::Start);
    assert!(matches!(a, BlockOnAction::PollMain));
    let (s, a) = block_on(s, BlockOnEvent::MainPolled(false));
    assert!(matches!(a, BlockOnAction::Schedule));
    let (s, a) = block_on(s, BlockOnEvent::Scheduled(true));
    assert!(matches!(a, BlockOnAction::Execute));
    // everything idle but main not ready: poll main again
    let (s, a) = block_on(s, BlockOnEvent::Executed(true));
    assert!(matches!(a, BlockOnAction::PollMain));
    let (s, a) = block_on(s, BlockOnEvent::MainPolled(true));
    assert!(matches!(a, BlockOnAction::Schedule));
    // a task is still parked: keep running
    let (s, a) = block_on(s, BlockOnEvent::Scheduled(false));
    assert!(matches!(a, BlockOnAction::Execute));
    let (s, a) = block_on(s, BlockOnEvent::Executed(true));
    assert!(matches!(a, BlockOnAction::Schedule));
    // a timer still waits: keep running
    let (s, a) = block_on(s, BlockOnEvent::Scheduled(true));
    assert!(matches!(a, BlockOnAction::Execute));
    let (s, a) = block_on(s, BlockOnEvent::Executed(false));
    assert!(matches!(a, BlockOnAction::Schedule));
    let (s, _) = block_on(s, BlockOnEvent::Scheduled(true));
    let (s, a) = block_on(s, BlockOnEvent::Executed(true));
    assert!(matches!(a, BlockOnAction::Return));
    assert!(s.main_ready && s.scheduler_complete);
}
