//! The dispatch service: a background loop that takes events from its own
//! two queues and passes some of them on to the render loop's queue.
use vstd::prelude::*;
use crate::channel::Channel;
use crate::message::Message;

verus! {

/// Events that the service passes on; it keeps the others to itself.
pub open spec fn forwards<C>(msg: Message<C>) -> bool {
    msg is LoginDone
}

/// What one iteration passes on from a queue: its oldest event, if that
/// event is one the service forwards.
pub open spec fn passed_on<C>(queue: Seq<Message<C>>) -> Seq<Message<C>> {
    if queue.len() > 0 && forwards(queue[0]) {
        seq![queue[0]]
    } else {
        Seq::empty()
    }
}

/// A queue after one iteration took its oldest event, if any.
pub open spec fn after_take<T>(queue: Seq<T>) -> Seq<T> {
    if queue.len() > 0 {
        queue.drop_first()
    } else {
        queue
    }
}

/// The service's two inbound queues: events from elsewhere, and events it
/// schedules for itself.
pub struct Service<C> {
    pub channel: Channel<Message<C>>,
    pub self_loop: Channel<Message<C>>,
}

impl<C> Service<C> {
    /// What handling one event gives: the event to pass on, or nothing.
    pub fn handle_message(msg: Message<C>) -> (r: Option<Message<C>>)
        ensures
            r == (if forwards(msg) {
                Some(msg)
            } else {
                None
            }),
    {
        match msg {
            Message::LoginDone(token) => Some(Message::LoginDone(token)),
            _ => None,
        }
    }

    pub fn new() -> (r: Self)
        ensures
            r.channel@.len() == 0,
            r.self_loop@.len() == 0,
    {
        Service { channel: Channel::new(), self_loop: Channel::new() }
    }

    /// One iteration of the loop: takes at most one event from each queue,
    /// inbound first, and returns those to pass on, in that order.
    pub fn step(&mut self) -> (r: Vec<Message<C>>)
        ensures
            final(self).channel@ == after_take(old(self).channel@),
            final(self).self_loop@ == after_take(old(self).self_loop@),
            r@ == passed_on(old(self).channel@) + passed_on(old(self).self_loop@),
    {
        let mut r: Vec<Message<C>> = Vec::new();
        if let Some(msg) = self.channel.try_recv() {
            if let Some(out) = Self::handle_message(msg) {
                r.push(out);
            }
        }
        if let Some(msg) = self.self_loop.try_recv() {
            if let Some(out) = Self::handle_message(msg) {
                r.push(out);
            }
        }
        assert(r@ =~= passed_on(old(self).channel@) + passed_on(old(self).self_loop@));
        r
    }
}

} // verus!
