use vstd::prelude::*;

verus! {

/// The settings of a timer file descriptor, as `timerfd_settime` takes them:
/// the period (zero for a one-shot timer) and the time to the first expiry,
/// each in seconds and nanoseconds. All zero disarms the timer.
pub struct TimerSpec {
    pub interval_sec: i64,
    pub interval_nsec: i64,
    pub value_sec: i64,
    pub value_nsec: i64,
}

/// A single expiry after `secs` seconds and `nanos` nanoseconds.
pub fn one_shot(secs: u64, nanos: u32) -> (t: TimerSpec)
    ensures
        t.interval_sec == 0,
        t.interval_nsec == 0,
        t.value_sec == secs as i64,
        t.value_nsec == nanos as i64,
{
    TimerSpec { interval_sec: 0, interval_nsec: 0, value_sec: secs as i64, value_nsec: nanos as i64 }
}

/// An expiry every `secs` seconds and `nanos` nanoseconds, the first one that
/// long from now.
pub fn periodic(secs: u64, nanos: u32) -> (t: TimerSpec)
    ensures
        t.interval_sec == secs as i64,
        t.interval_nsec == nanos as i64,
        t.value_sec == secs as i64,
        t.value_nsec == nanos as i64,
{
    TimerSpec {
        interval_sec: secs as i64,
        interval_nsec: nanos as i64,
        value_sec: secs as i64,
        value_nsec: nanos as i64,
    }
}

/// The settings that disarm a timer: a one-shot timer of zero duration.
pub fn disarmed() -> (t: TimerSpec)
    ensures
        t.interval_sec == 0,
        t.interval_nsec == 0,
        t.value_sec == 0,
        t.value_nsec == 0,
{
    one_shot(0, 0)
}

/// `EAGAIN` of the C library.
///
/// Reads `libc::EAGAIN`; the claim that it is 11 is what the libc crate
/// defines for Linux, the only target of this timer.
#[verifier::external_body]
fn eagain() -> (e: i32)
    ensures
        e == 11,
{
    libc::EAGAIN
}

/// What reading a timer descriptor yields, from the byte count `ret` that
/// `read` returned, the expiration count decoded from the 8 bytes read, and the
/// `errno` of a failed read: the count after a full read, 0 when the read would
/// block (no expiry since the last read), and the error code otherwise.
/// Any other byte count is impossible for a timer descriptor.
pub fn timer_read_result(ret: isize, expirations: u64, errno: i32) -> (r: Result<u64, i32>)
    requires
        ret == 8 || ret == -1,
    ensures
        ret == 8 ==> r == Ok::<u64, i32>(expirations),
        ret == -1 && errno == 11 ==> r == Ok::<u64, i32>(0),
        ret == -1 && errno != 11 ==> r == Err::<u64, i32>(errno),
{
    if ret == 8 {
        Ok(expirations)
    } else if errno == eagain() {
        Ok(0)
    } else {
        Err(errno)
    }
}

} // verus!
