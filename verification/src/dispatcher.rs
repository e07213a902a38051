//! The merge point between the producers and the single consumer.
//!
//! Both the input thread and the command worker send their events here; the
//! render loop is the only reader.  The queue is strictly first-in-first-out:
//! events come out in the order they were sent, none is duplicated and none
//! is dropped.  Which of two concurrent producers sends first is not decided
//! here — but once an event is queued its place in the order is final.

use vstd::prelude::*;

use crate::event::UiEvent;

verus! {

/// A first-in-first-out queue of pending events with a single consumer.
#[derive(Debug)]
pub struct Dispatcher {
    pub events: Vec<UiEvent>,
}

impl View for Dispatcher {
    type V = Seq<UiEvent>;

    open spec fn view(&self) -> Seq<UiEvent> {
        self.events@
    }
}

impl Dispatcher {
    /// A dispatcher with no pending events.
    pub fn new() -> (r: Self)
        ensures
            r@ == Seq::<UiEvent>::empty(),
    {
        Dispatcher { events: Vec::new() }
    }

    /// How many events are pending.
    pub fn len(&self) -> (n: usize)
        ensures
            n == self@.len(),
    {
        self.events.len()
    }

    /// A producer queues one event behind everything already pending.  The
    /// events that were pending keep their order and none is lost.
    pub fn send(&mut self, event: UiEvent)
        ensures
            final(self)@ == old(self)@.push(event),
    {
        self.events.push(event);
    }

    /// The consumer takes the oldest pending event; the rest keep their
    /// order.  `None` only when nothing is pending.
    pub fn try_recv(&mut self) -> (r: Option<UiEvent>)
        ensures
            old(self)@.len() == 0 ==> r is None && final(self)@ == old(self)@,
            old(self)@.len() > 0 ==> r == Some(old(self)@[0]) && final(self)@ == old(self)@.skip(
                1,
            ),
    {
        if self.events.len() == 0 {
            None
        } else {
            let e = self.events.remove(0);
            proof {
                assert(self.events@ =~= old(self).events@.skip(1));
            }
            Some(e)
        }
    }
}

} // verus!
