//! Work that has not been performed yet.
//!
//! A deferred action holds what is to be done in a slot. Resolving it, by
//! `run`, `wait` or `poll`, empties the slot and hands the work out, so the
//! work can be had once only.

use vstd::prelude::*;

verus! {

/// What one poll step reports.
#[derive(Debug, PartialEq, Eq)]
pub enum Poll<T> {
    Ready(T),
    Pending,
}

/// A value that stands for work not yet performed. It is resolved at most
/// once.
#[must_use]
#[derive(Debug)]
pub struct Deferred<T> {
    slot: Option<T>,
}

impl<T> Deferred<T> {
    /// What is still to be done: `None` once the action was resolved.
    pub closed spec fn slot(&self) -> Option<T> {
        self.slot
    }

    /// An action that will hand out `work`.
    pub fn new(work: T) -> (r: Self)
        ensures
            r.slot() == Some(work),
    {
        Deferred { slot: Some(work) }
    }

    /// An action with nothing left to do.
    pub fn resolved() -> (r: Self)
        ensures
            r.slot() is None,
    {
        Deferred { slot: None }
    }

    /// Whether the action has not been resolved yet.
    pub fn is_pending(&self) -> (r: bool)
        ensures
            r == self.slot() is Some,
    {
        self.slot.is_some()
    }

    /// Resolves the action: hands the work out and leaves the slot empty.
    pub fn run(&mut self) -> (work: T)
        requires
            old(self).slot() is Some,
        ensures
            old(self).slot() == Some(work),
            final(self).slot() is None,
    {
        self.slot.take().unwrap()
    }

    /// Resolves the action on the calling thread.
    pub fn wait(self) -> (work: T)
        requires
            self.slot() is Some,
        ensures
            self.slot() == Some(work),
    {
        let mut action = self;
        action.run()
    }

    /// Resolves the action in one poll step: the step does the same as
    /// `run` and reports completion at once.
    pub fn poll(&mut self) -> (r: Poll<T>)
        requires
            old(self).slot() is Some,
        ensures
            r matches Poll::Ready(work) && old(self).slot() == Some(work),
            final(self).slot() is None,
    {
        Poll::Ready(self.run())
    }
}

} // verus!
