use rsart::{disarmed, one_shot, periodic, timer_read_result};

#[test]
fn timer_settings() {
    let t = one_shot(3, 500);
    assert_eq!((t.interval_sec, t.interval_nsec, t.value_sec, t.value_nsec), (0, 0, 3, 500));
    let t = periodic(0, 60_000_000);
    assert_eq!((t.interval_sec, t.interval_nsec, t.value_sec, t.value_nsec), (0, 60_000_000, 0, 60_000_000));
    let t = disarmed();
    assert_eq!((t.interval_sec, t.interval_nsec, t.value_sec, t.value_nsec), (0, 0, 0, 0));
}

#[test]
fn timer_read_outcomes() {
    assert_eq!(timer_read_result(8, 2, 0), Ok(2));
    assert_eq!(timer_read_result(8, 0, 11), Ok(0));
    assert_eq!(timer_read_result(-1, 5, 11), Ok(0));
    assert_eq!(timer_read_result(-1, 5, 9), Err(9));
}
