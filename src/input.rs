//! Input strategies and the first-in, first-out queue of pending events.
use crate::time::{TimeSpan, NANOS_PER_MILLI};
use std::collections::VecDeque;
use vstd::prelude::*;

verus! {

/// How long each frame waits for input before moving on.
#[derive(Clone, Copy, Debug, PartialEq, Eq, Structural)]
pub enum InputStrategy {
    /// Take whatever is already queued, waiting about one millisecond.
    NonBlocking,
    /// Wait up to about one frame at sixty frames per second.
    FrameBudgeted,
    /// Wait up to the given span.
    Timeout(TimeSpan),
}

/// The poll timeout that each strategy stands for, in nanoseconds.
pub open spec fn timeout_nanos(s: InputStrategy) -> nat {
    match s {
        InputStrategy::NonBlocking => NANOS_PER_MILLI as nat,
        InputStrategy::FrameBudgeted => 16 * NANOS_PER_MILLI as nat,
        InputStrategy::Timeout(t) => t.nanos as nat,
    }
}

impl InputStrategy {
    /// The longest time one poll may wait for input.
    pub fn timeout(&self) -> (r: TimeSpan)
        ensures
            r.nanos == timeout_nanos(*self),
    {
        match self {
            InputStrategy::NonBlocking => TimeSpan::from_millis(1),
            InputStrategy::FrameBudgeted => TimeSpan::from_millis(16),
            InputStrategy::Timeout(t) => *t,
        }
    }
}

impl Default for InputStrategy {
    fn default() -> (r: InputStrategy)
        ensures
            r == InputStrategy::NonBlocking,
    {
        InputStrategy::NonBlocking
    }
}

/// Pending input events in arrival order.
pub struct EventQueue<E> {
    events: VecDeque<E>,
}

impl<E> View for EventQueue<E> {
    type V = Seq<E>;

    closed spec fn view(&self) -> Seq<E> {
        self.events@
    }
}

impl<E> EventQueue<E> {
    pub fn new() -> (r: EventQueue<E>)
        ensures
            r@ == Seq::<E>::empty(),
    {
        EventQueue { events: VecDeque::new() }
    }

    /// Appends an event behind every event already queued.
    pub fn push(&mut self, event: E)
        ensures
            final(self)@ == old(self)@.push(event),
    {
        self.events.push_back(event);
    }

    pub fn len(&self) -> (r: usize)
        ensures
            r == self@.len(),
    {
        self.events.len()
    }

    pub fn is_empty(&self) -> (r: bool)
        ensures
            r == (self@.len() == 0),
    {
        self.events.len() == 0
    }

    /// Removes and returns every queued event, oldest first.
    pub fn drain(&mut self) -> (r: Vec<E>)
        ensures
            r@ == old(self)@,
            final(self)@ == Seq::<E>::empty(),
    {
        let ghost queued = self.events@;
        let mut taken: Vec<E> = Vec::new();
        loop
            invariant
                taken@ + self.events@ == queued,
            ensures
                taken@ == queued,
                self.events@.len() == 0,
            decreases self.events@.len(),
        {
            match self.events.pop_front() {
                Some(e) => {
                    proof {
                        assert(taken@.push(e) + self.events@ =~= queued);
                    }
                    taken.push(e);
                },
                None => {
                    assert(taken@ + self.events@ =~= taken@);
                    break;
                },
            }
        }
        taken
    }
}

} // verus!
