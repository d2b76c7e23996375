//! The buffer that one wait on the event queue fills.

use vstd::prelude::*;
use crate::event::IoEvent;

verus! {

/// The notifications of one wait, in the order in which the operating system
/// reported them. The next wait overwrites them.
#[derive(Debug)]
pub struct Events {
    events: Vec<IoEvent>,
}

impl View for Events {
    type V = Seq<IoEvent>;

    closed spec fn view(&self) -> Seq<IoEvent> {
        self.events@
    }
}

impl Events {
    /// An empty buffer.
    pub fn new() -> (r: Events)
        ensures
            r@ == Seq::<IoEvent>::empty(),
    {
        Events { events: Vec::new() }
    }

    /// The number of notifications in the buffer.
    pub fn len(&self) -> (r: usize)
        ensures
            r == self@.len(),
    {
        self.events.len()
    }

    /// Whether the buffer holds no notification.
    pub fn is_empty(&self) -> (r: bool)
        ensures
            r == (self@.len() == 0),
    {
        self.events.len() == 0
    }

    /// The notification at `idx`. An index at or past `len()` is not accepted.
    pub fn get(&self, idx: usize) -> (r: IoEvent)
        requires
            idx < self@.len(),
        ensures
            r == self@[idx as int],
    {
        self.events[idx]
    }

    /// Empties the buffer.
    pub(crate) fn clear(&mut self)
        ensures
            final(self)@ == Seq::<IoEvent>::empty(),
    {
        self.events.clear();
    }

    /// Appends one notification.
    pub(crate) fn push(&mut self, event: IoEvent)
        ensures
            final(self)@ == old(self)@.push(event),
    {
        self.events.push(event);
    }
}

} // verus!
