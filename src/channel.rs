//! The message bus: an unbounded first-in, first-out queue of events.
use vstd::prelude::*;
use std::collections::VecDeque;

verus! {

/// A queue that producers append to and one consumer drains, oldest first.
pub struct Channel<T> {
    queue: VecDeque<T>,
}

impl<T> View for Channel<T> {
    type V = Seq<T>;

    /// The queued events, oldest first.
    closed spec fn view(&self) -> Seq<T> {
        self.queue@
    }
}

impl<T> Channel<T> {
    pub fn new() -> (r: Self)
        ensures
            r@ == Seq::<T>::empty(),
    {
        Channel { queue: VecDeque::new() }
    }

    /// Appends `msg` at the tail; never blocks.
    pub fn send(&mut self, msg: T)
        ensures
            final(self)@ == old(self)@.push(msg),
    {
        self.queue.push_back(msg);
    }

    /// Takes the oldest event, if any.
    pub fn try_recv(&mut self) -> (r: Option<T>)
        ensures
            old(self)@.len() == 0 ==> r is None && final(self)@ == old(self)@,
            old(self)@.len() > 0 ==> r == Some(old(self)@[0]) && final(self)@
                == old(self)@.drop_first(),
    {
        self.queue.pop_front()
    }

    /// Takes every queued event, in the order they were sent; returns at once,
    /// with nothing when the queue is empty.
    pub fn try_receive_all(&mut self) -> (r: Vec<T>)
        ensures
            r@ == old(self)@,
            final(self)@ == Seq::<T>::empty(),
    {
        let ghost start = self@;
        let mut r: Vec<T> = Vec::new();
        while self.queue.len() > 0
            invariant
                r@ + self@ == start,
            decreases self@.len(),
        {
            let ghost before = self@;
            match self.queue.pop_front() {
                Some(msg) => {
                    r.push(msg);
                    assert(r@ + self@ =~= start) by {
                        assert(before =~= seq![msg] + self@);
                        assert(r@ + self@ =~= r@.drop_last() + before);
                    }
                },
                None => {},
            }
        }
        assert(r@ =~= start);
        r
    }

    pub fn len(&self) -> (r: usize)
        ensures
            r == self@.len(),
    {
        self.queue.len()
    }

    pub fn is_empty(&self) -> (r: bool)
        ensures
            r == (self@.len() == 0),
    {
        self.queue.len() == 0
    }
}

/// The queue after sending each of `sent` in turn, as `send` states it.
pub open spec fn after_sends<T>(queued: Seq<T>, sent: Seq<T>) -> Seq<T>
    decreases sent.len(),
{
    if sent.len() == 0 {
        queued
    } else {
        after_sends(queued, sent.drop_last()).push(sent.last())
    }
}

/// Events sent one after another onto a queue come out of the next drain in
/// the order they were sent, after the events already queued; the drain then
/// leaves the queue empty (`try_receive_all`).
pub proof fn lemma_drain_after_sends<T>(queued: Seq<T>, sent: Seq<T>)
    ensures
        after_sends(queued, sent) == queued + sent,
    decreases sent.len(),
{
    if sent.len() > 0 {
        lemma_drain_after_sends(queued, sent.drop_last());
        assert(queued + sent =~= (queued + sent.drop_last()).push(sent.last()));
    } else {
        assert(queued + sent =~= queued);
    }
}

} // verus!
