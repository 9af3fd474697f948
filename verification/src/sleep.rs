use vstd::prelude::*;

verus! {

/// The state shared by a sleeping future and the waker that its timer fires:
/// whether the timer has fired, and the waker of the last poll.
pub struct SleepState<W> {
    completed: bool,
    waker: Option<W>,
}

impl<W> View for SleepState<W> {
    type V = (bool, Option<W>);

    closed spec fn view(&self) -> (bool, Option<W>) {
        (self.completed, self.waker)
    }
}

/// Polling the sleep: ready once the timer has fired; before that the poll's
/// waker replaces the stored one.
pub open spec fn sleep_poll_spec<W>(s: (bool, Option<W>), waker: W) -> ((bool, Option<W>), bool) {
    if s.0 {
        (s, true)
    } else {
        ((false, Some(waker)), false)
    }
}

/// The timer firing: the sleep is complete from now on; the stored waker, if
/// any, is the one to wake.
pub open spec fn sleep_wake_spec<W>(s: (bool, Option<W>)) -> ((bool, Option<W>), bool) {
    ((true, s.1), s.1 is Some)
}

impl<W> SleepState<W> {
    /// Not fired, no waker stored.
    pub fn new() -> (s: Self)
        ensures
            s@ == (false, None::<W>),
    {
        SleepState { completed: false, waker: None }
    }

    /// Returns true when the sleep is over; otherwise stores `waker` for the timer to wake.
    pub fn poll(&mut self, waker: W) -> (ready: bool)
        ensures
            (final(self)@, ready) == sleep_poll_spec(old(self)@, waker),
    {
        if self.completed {
            true
        } else {
            self.waker = Some(waker);
            false
        }
    }

    /// Marks the sleep complete; returns whether a waker is stored, which the
    /// caller then wakes.
    pub fn wake(&mut self) -> (has_waker: bool)
        ensures
            (final(self)@, has_waker) == sleep_wake_spec(old(self)@),
    {
        self.completed = true;
        self.waker.is_some()
    }

    /// The stored waker.
    pub fn waker(&self) -> (r: Option<&W>)
        ensures
            r is Some == self@.1 is Some,
            r matches Some(w) ==> self@.1 == Some(*w),
    {
        self.waker.as_ref()
    }
}

/// A sleep polled before its timer fires is pending and the timer's firing
/// wakes the waker of that poll; every poll after the firing is ready.
pub proof fn lemma_sleep_wakes_poller<W>(waker: W, later: W)
    ensures
        ({
            let (s1, ready1) = sleep_poll_spec((false, None::<W>), waker);
            let (s2, has_waker) = sleep_wake_spec(s1);
            &&& !ready1
            &&& has_waker && s2.1 == Some(waker)
            &&& sleep_poll_spec(s2, later).1
        }),
{
}

/// Once fired, a sleep stays complete whatever is polled or fired after.
pub proof fn lemma_sleep_stays_complete<W>(s: (bool, Option<W>), waker: W)
    requires
        s.0,
    ensures
        sleep_poll_spec(s, waker).0.0,
        sleep_poll_spec(s, waker).1,
        sleep_wake_spec(s).0.0,
{
}

} // verus!
