use vstd::prelude::*;
use std::collections::HashMap;

verus! {

broadcast use vstd::std_specs::hash::group_hash_axioms;

/// The next value of a counter that wraps around at `usize::MAX`.
pub open spec fn next_id(n: usize) -> usize {
    if n == usize::MAX {
        0
    } else {
        (n + 1) as usize
    }
}

/// The executor as a mathematical value: the next token to hand out, and the
/// wakers waiting for readiness, by token.
pub struct ExecutorView<W> {
    pub next_token: usize,
    pub waitings: Map<usize, W>,
}

/// Tokens in use lie below the next fresh one.
pub open spec fn executor_wf<W>(e: ExecutorView<W>) -> bool {
    forall|t: usize| #[trigger] e.waitings.contains_key(t) ==> t < e.next_token
}

/// `submit`: the waker waits under the next token, and the counter moves on.
pub open spec fn submit_spec<W>(e: ExecutorView<W>, waker: W) -> (ExecutorView<W>, usize) {
    (
        ExecutorView {
            next_token: next_id(e.next_token),
            waitings: e.waitings.insert(e.next_token, waker),
        },
        e.next_token,
    )
}

/// Dispatching fired tokens in order: the waker of each token that still waits
/// is taken out of the table and appended to the wakers to wake; a token that
/// waits for nothing, or fires a second time, adds nothing.
pub open spec fn take_fired<W>(waitings: Map<usize, W>, fired: Seq<usize>) -> (Map<usize, W>, Seq<W>)
    decreases fired.len(),
{
    if fired.len() == 0 {
        (waitings, Seq::empty())
    } else {
        let (rest, woken) = take_fired(waitings, fired.drop_last());
        let t = fired.last();
        if rest.contains_key(t) {
            (rest.remove(t), woken.push(rest[t]))
        } else {
            (rest, woken)
        }
    }
}

/// Holds the wakers of the tasks that wait for readiness events.
pub struct Executor<W> {
    next_token: usize,
    waitings: HashMap<usize, W>,
}

impl<W> View for Executor<W> {
    type V = ExecutorView<W>;

    closed spec fn view(&self) -> ExecutorView<W> {
        ExecutorView { next_token: self.next_token, waitings: self.waitings@ }
    }
}

impl<W> Executor<W> {
    /// No waker waits; the first token is 0.
    pub fn new() -> (e: Self)
        ensures
            e@.next_token == 0,
            e@.waitings.is_empty(),
    {
        Executor { next_token: 0, waitings: HashMap::new() }
    }

    /// Records `waker` as waiting and returns the token under which the event
    /// source is to be registered.
    pub fn submit(&mut self, waker: W) -> (token: usize)
        ensures
            (final(self)@, token) == submit_spec(old(self)@, waker),
    {
        let token = self.next_token;
        self.next_token = self.next_token.wrapping_add(1);
        self.waitings.insert(token, waker);
        token
    }

    /// True when no waker waits, so that there is nothing to wait for.
    pub fn is_idle(&self) -> (r: bool)
        ensures
            r == self@.waitings.is_empty(),
    {
        self.waitings.is_empty()
    }

    /// Takes out the wakers of the fired tokens, in the order of the events,
    /// for the caller to wake.
    pub fn execute(&mut self, fired: &Vec<usize>) -> (woken: Vec<W>)
        ensures
            final(self)@.next_token == old(self)@.next_token,
            (final(self)@.waitings, woken@) == take_fired(old(self)@.waitings, fired@),
    {
        let mut woken: Vec<W> = Vec::new();
        let n = fired.len();
        for i in 0..n
            invariant
                n == fired@.len(),
                self@.next_token == old(self)@.next_token,
                (self@.waitings, woken@) == take_fired(old(self)@.waitings, fired@.take(i as int)),
        {
            let t = fired[i];
            proof {
                assert(fired@.take(i + 1).drop_last() =~= fired@.take(i as int));
            }
            match self.waitings.remove(&t) {
                Some(w) => {
                    woken.push(w);
                },
                None => {
                    assert(self@.waitings.remove(t) =~= self@.waitings);
                },
            }
        }
        assert(fired@.take(n as int) =~= fired@);
        woken
    }
}

/// Until the counter wraps, every submitted waker gets a token that is not in
/// use, and the table stays consistent.
pub proof fn lemma_submit_fresh<W>(e: ExecutorView<W>, waker: W)
    requires
        executor_wf(e),
        e.next_token < usize::MAX,
    ensures
        !e.waitings.contains_key(submit_spec(e, waker).1),
        executor_wf(submit_spec(e, waker).0),
{
}

/// A submitted waker is handed back when its token fires, once however often
/// the token fires, and the table is left as it was before the submission.
pub proof fn lemma_submit_then_fire<W>(e: ExecutorView<W>, waker: W)
    requires
        executor_wf(e),
        e.next_token < usize::MAX,
    ensures
        ({
            let (e1, token) = submit_spec(e, waker);
            take_fired(e1.waitings, seq![token, token]) == (e.waitings, seq![waker])
        }),
{
    let (e1, token) = submit_spec(e, waker);
    assert(seq![token, token].drop_last() =~= seq![token]);
    assert(seq![token].drop_last() =~= Seq::<usize>::empty());
    assert(e1.waitings.remove(token) =~= e.waitings);
    assert(take_fired(e1.waitings, Seq::<usize>::empty()) == (e1.waitings, Seq::<W>::empty()));
    assert(take_fired(e1.waitings, seq![token]) == (e.waitings, Seq::<W>::empty().push(waker)));
    assert(Seq::<W>::empty().push(waker) =~= seq![waker]);
}

/// After dispatch no fired token waits any more, every other waker still
/// waits, and no more wakers are woken than tokens fired.
pub proof fn lemma_fired_tokens_removed<W>(waitings: Map<usize, W>, fired: Seq<usize>)
    ensures
        take_fired(waitings, fired).0 == waitings.remove_keys(fired.to_set()),
        take_fired(waitings, fired).1.len() <= fired.len(),
    decreases fired.len(),
{
    if fired.len() > 0 {
        let init = fired.drop_last();
        lemma_fired_tokens_removed(waitings, init);
        assert(fired.to_set() =~= init.to_set().insert(fired.last())) by {
            assert(fired =~= init.push(fired.last()));
            init.lemma_push_to_set_commute(fired.last());
        }
        assert(waitings.remove_keys(fired.to_set()) =~= waitings.remove_keys(init.to_set()).remove(fired.last()));
    } else {
        assert(fired.to_set() =~= Set::<usize>::empty());
        assert(waitings.remove_keys(fired.to_set()) =~= waitings);
    }
}

/// `w` is the waker of a fired token that was waiting.
pub open spec fn is_fired_waker<W>(waitings: Map<usize, W>, fired: Seq<usize>, w: W) -> bool {
    exists|t: usize| #![trigger waitings[t]] waitings.contains_key(t) && fired.contains(t) && waitings[t] == w
}

proof fn lemma_fired_waker_grows<W>(waitings: Map<usize, W>, init: Seq<usize>, fired: Seq<usize>, w: W)
    requires
        is_fired_waker(waitings, init, w),
        forall|u: usize| init.contains(u) ==> #[trigger] fired.contains(u),
    ensures
        is_fired_waker(waitings, fired, w),
{
    let t = choose|t: usize| #![trigger waitings[t]] waitings.contains_key(t) && init.contains(t) && waitings[t] == w;
    assert(fired.contains(t));
}

/// Every fired token that has a waiting waker yields that waker: the woken
/// wakers are exactly as many as the distinct fired tokens that were waiting,
/// the waker of each such token is among them, and each of them is the waker
/// of such a token.
pub proof fn lemma_fired_waiting_wakers_all_woken<W>(waitings: Map<usize, W>, fired: Seq<usize>)
    ensures
        ({
            let woken = take_fired(waitings, fired).1;
            &&& woken.len() == waitings.dom().intersect(fired.to_set()).len()
            &&& forall|t: usize| waitings.contains_key(t) && fired.contains(t) ==> woken.contains(#[trigger] waitings[t])
            &&& forall|i: int| 0 <= i < woken.len() ==> is_fired_waker(waitings, fired, #[trigger] woken[i])
        }),
    decreases fired.len(),
{
    broadcast use vstd::seq_lib::seq_to_set_is_finite;
    broadcast use vstd::set::axiom_set_intersect_finite;
    if fired.len() == 0 {
        assert(waitings.dom().intersect(fired.to_set()) =~= Set::<usize>::empty());
    } else {
        let init = fired.drop_last();
        let t = fired.last();
        lemma_fired_waiting_wakers_all_woken(waitings, init);
        lemma_fired_tokens_removed(waitings, init);
        let (rest, woken) = take_fired(waitings, init);
        assert(fired =~= init.push(t));
        init.lemma_push_to_set_commute(t);
        assert(fired.to_set() =~= init.to_set().insert(t));
        assert forall|u: usize| #[trigger] fired.contains(u) <==> (init.contains(u) || u == t) by {
            assert(fired.to_set().contains(u) == fired.contains(u));
            assert(init.to_set().contains(u) == init.contains(u));
        }
        let d = waitings.dom();
        let new_woken = take_fired(waitings, fired).1;
        assert forall|i: int| 0 <= i < woken.len() implies is_fired_waker(waitings, fired, #[trigger] woken[i]) by {
            lemma_fired_waker_grows(waitings, init, fired, woken[i]);
        }
        if rest.contains_key(t) {
            assert(!init.contains(t)) by {
                assert(!init.to_set().contains(t));
            }
            assert(rest[t] == waitings[t]);
            assert(new_woken == woken.push(waitings[t]));
            assert(d.intersect(fired.to_set()) =~= d.intersect(init.to_set()).insert(t));
            assert(!d.intersect(init.to_set()).contains(t));
            assert forall|u: usize| waitings.contains_key(u) && fired.contains(u)
                implies new_woken.contains(#[trigger] waitings[u]) by {
                if u == t {
                    assert(new_woken[new_woken.len() - 1] == waitings[u]);
                } else {
                    assert(init.contains(u));
                    assert(woken.contains(waitings[u]));
                    let k = choose|k: int| 0 <= k < woken.len() && woken[k] == waitings[u];
                    assert(new_woken[k] == waitings[u]);
                }
            }
            assert forall|i: int| 0 <= i < new_woken.len() implies is_fired_waker(waitings, fired, #[trigger] new_woken[i]) by {
                if i == new_woken.len() - 1 {
                    assert(fired.contains(t));
                    assert(waitings.contains_key(t) && fired.contains(t) && waitings[t] == new_woken[i]);
                } else {
                    assert(new_woken[i] == woken[i]);
                }
            }
        } else {
            assert(new_woken == woken);
            assert(d.intersect(fired.to_set()) =~= d.intersect(init.to_set())) by {
                if d.contains(t) {
                    assert(init.to_set().contains(t));
                }
            }
            assert forall|u: usize| waitings.contains_key(u) && fired.contains(u)
                implies new_woken.contains(#[trigger] waitings[u]) by {
                if u == t {
                    assert(init.to_set().contains(t));
                }
                assert(init.contains(u));
            }
        }
    }
}

} // verus!
