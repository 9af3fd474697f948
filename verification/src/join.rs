use vstd::prelude::*;

verus! {

/// The answer of a poll: the value is there, or not yet.
pub enum Poll<T> {
    Ready(T),
    Pending,
}

/// The slot in which a finished task leaves its result for whoever joins it.
pub struct JoinHandle<T> {
    value: Option<T>,
}

/// What `set_value` does to a slot: the slot now holds `v`; the old content is returned.
pub open spec fn set_value_spec<T>(slot: Option<T>, v: T) -> (Option<T>, Option<T>) {
    (Some(v), slot)
}

/// What `take_value` does to a slot: the slot is emptied; its content is returned.
pub open spec fn take_value_spec<T>(slot: Option<T>) -> (Option<T>, Option<T>) {
    (None, slot)
}

/// What `poll` answers for a slot, and the slot afterwards.
pub open spec fn poll_spec<T>(slot: Option<T>) -> (Option<T>, Poll<T>) {
    match slot {
        Some(v) => (None, Poll::Ready(v)),
        None => (None, Poll::Pending),
    }
}

impl<T> View for JoinHandle<T> {
    type V = Option<T>;

    closed spec fn view(&self) -> Option<T> {
        self.value
    }
}

impl<T> JoinHandle<T> {
    /// An empty slot.
    pub fn new() -> (h: Self)
        ensures
            h@ is None,
    {
        JoinHandle { value: None }
    }

    /// Removes the stored result, if any, and returns it.
    pub fn take_value(&mut self) -> (r: Option<T>)
        ensures
            (final(self)@, r) == take_value_spec(old(self)@),
    {
        self.value.take()
    }

    /// Stores a result, returning the one it replaces.
    pub fn set_value(&mut self, value: T) -> (r: Option<T>)
        ensures
            (final(self)@, r) == set_value_spec(old(self)@, value),
    {
        let previous = self.value.take();
        self.value = Some(value);
        previous
    }

    /// `Ready` with the result, which leaves the slot, or `Pending` while there is none.
    pub fn poll(&mut self) -> (r: Poll<T>)
        ensures
            (final(self)@, r) == poll_spec(old(self)@),
    {
        match self.take_value() {
            Some(rv) => Poll::Ready(rv),
            None => Poll::Pending,
        }
    }
}

/// A result stored in a slot is handed back by the next take, once: a second
/// take finds the slot empty.
pub proof fn lemma_set_then_take<T>(slot: Option<T>, v: T)
    ensures
        take_value_spec(set_value_spec(slot, v).0).1 == Some(v),
        take_value_spec(take_value_spec(set_value_spec(slot, v).0).0).1 is None,
{
}

/// Joining polls `Pending` until a result is stored, then `Ready` with that result.
pub proof fn lemma_poll_after_set<T>(slot: Option<T>, v: T)
    ensures
        poll_spec(None::<T>).1 is Pending,
        poll_spec(set_value_spec(slot, v).0).1 == Poll::Ready(v),
        poll_spec(poll_spec(set_value_spec(slot, v).0).0).1 is Pending,
{
}

} // verus!
