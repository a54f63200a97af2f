//! Observer-facing reporting surface.
//!
//! The engines report three independent signals — a run state, a status
//! line, and a progress fraction. Each travels through a latest-wins slot:
//! a new value overwrites whatever the observer never read, and a poll
//! drains the slot. Only the most recent value is ever meaningful to the
//! observer, so lost intermediate values are by design.

use vstd::prelude::*;

verus! {

/// Run state of an engine, as the observer sees it.
#[derive(Clone, Copy, Debug, PartialEq, Eq, Structural)]
pub enum RunSignal {
    /// No run has been started.
    Idle,
    /// A run is in flight.
    Running,
    /// The last run finished successfully.
    DoneOk,
    /// The last run stopped on an error.
    DoneErr,
}

/// A latest-wins slot: writers overwrite, the single reader drains.
pub struct Latest<T> {
    slot: Option<T>,
}

impl<T> Latest<T> {
    /// What the slot currently holds.
    pub closed spec fn current(self) -> Option<T> {
        self.slot
    }

    /// An empty slot.
    pub fn empty() -> (r: Self)
        ensures
            r.current() is None,
    {
        Latest { slot: None }
    }

    /// Publishes a value, discarding any unread predecessor.
    pub fn post(&mut self, v: T)
        ensures
            final(self).current() == Some(v),
    {
        self.slot = Some(v);
    }

    /// Drains and returns the latest published value, if any arrived since
    /// the last poll.
    pub fn poll(&mut self) -> (r: Option<T>)
        ensures
            r == old(self).current(),
            final(self).current() is None,
    {
        self.slot.take()
    }
}

} // verus!
