//! The event listener: it drains the daemon's status events for as long as the session
//! lasts, so that unread events never hold up the driver loop. Events are observed and
//! nothing more: they change no operation's course.

use vstd::prelude::*;

verus! {

/// A status event of the daemon.
#[derive(Debug, Clone, PartialEq, Eq)]
pub enum Broadcast {
    Connected,
    Disconnected,
    NetworkNotFound,
    WrongPsk,
    Ready,
    Unknown(String),
}

/// A listener as plain values.
pub struct ListenerView {
    /// How many events were observed, as far as the counter reaches.
    pub observed: usize,
    /// The event channel has closed.
    pub closed: bool,
}

impl ListenerView {
    /// The listener after one more receive: `received` says whether an event came, or the
    /// channel was found closed. A closed listener stays as it is.
    pub open spec fn after(self, received: bool) -> ListenerView {
        if self.closed {
            self
        } else if received {
            ListenerView {
                observed: if self.observed < usize::MAX {
                    (self.observed + 1) as usize
                } else {
                    self.observed
                },
                closed: false,
            }
        } else {
            ListenerView { observed: self.observed, closed: true }
        }
    }
}

/// The consumer of a session's status events.
#[derive(Debug)]
pub struct EventListener {
    observed: usize,
    closed: bool,
}

impl View for EventListener {
    type V = ListenerView;

    closed spec fn view(&self) -> ListenerView {
        ListenerView { observed: self.observed, closed: self.closed }
    }
}

impl EventListener {
    /// A listener that has observed nothing yet.
    pub fn new() -> (listener: Self)
        ensures
            listener@ == (ListenerView { observed: 0, closed: false }),
    {
        EventListener { observed: 0, closed: false }
    }

    /// Takes what the last receive gave: an event, or `None` when the channel has closed.
    /// Says whether to receive again. The end of the channel is the expected end of the
    /// session, not a failure.
    pub fn observe(&mut self, event: Option<Broadcast>) -> (listening: bool)
        ensures
            final(self)@ == old(self)@.after(event is Some),
            listening == !final(self)@.closed,
    {
        if self.closed {
            return false;
        }
        match event {
            Some(_) => {
                if self.observed < usize::MAX {
                    self.observed = self.observed + 1;
                }
                true
            },
            None => {
                self.closed = true;
                false
            },
        }
    }

    /// Stops the listener before the channel has closed. It then stands as if the channel
    /// had closed.
    pub fn cancel(&mut self)
        ensures
            final(self)@ == (ListenerView { observed: old(self)@.observed, closed: true }),
    {
        self.closed = true;
    }

    /// How many events were observed, as far as the counter reaches.
    pub fn observed(&self) -> (count: usize)
        ensures
            count == self@.observed,
    {
        self.observed
    }

    /// Whether the event channel has closed.
    pub fn is_closed(&self) -> (closed: bool)
        ensures
            closed == self@.closed,
    {
        self.closed
    }
}

/// Once the channel has closed the listener is done: nothing that comes later changes it.
pub proof fn lemma_closed_listener_stays_closed(listener: ListenerView, received: bool)
    requires
        listener.closed,
    ensures
        listener.after(received) == listener,
{
}

} // verus!
