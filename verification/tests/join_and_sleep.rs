use rsart::{JoinHandle, Poll, SleepState};

#[test]
fn join_handle_round_trip() {
    let mut h: JoinHandle<String> = JoinHandle::new();
    assert!(matches!(h.poll(), Poll::Pending));
    assert_eq!(h.take_value(), None);
    assert_eq!(h.set_value("first".to_string()), None);
    assert_eq!(h.set_value("second".to_string()), Some("first".to_string()));
    match h.poll() {
        Poll::Ready(v) => assert_eq!(v, "second"),
        Poll::Pending => panic!("value expected"),
    }
    assert!(matches!(h.poll(), Poll::Pending));
    assert_eq!(h.take_value(), None);
}

#[test]
fn sleep_is_pending_until_woken() {
    let mut s: SleepState<u32> = SleepState::new();
    assert_eq!(s.waker(), None);
    assert!(!s.poll(1));
    assert!(!s.poll(2));
    assert_eq!(s.waker(), Some(&2));
    assert!(s.wake());
    assert_eq!(s.waker(), Some(&2));
    assert!(s.poll(3));
    assert_eq!(s.waker(), Some(&2));
}

#[test]
fn sleep_woken_before_any_poll() {
    let mut s: SleepState<u32> = SleepState::new();
    assert!(!s.wake());
    assert!(s.poll(1));
    assert_eq!(s.waker(), None);
}
