//! A value that is computed in the background and looked at until it is
//! ready. The work itself is done by a [`Pending`] computation.
use vstd::prelude::*;

verus! {

/// A computation that may be advanced a step at a time; each step either
/// finishes it with its output or leaves it pending.
pub trait Pending<T> {
    fn poll_once(&mut self) -> Option<T>;
}

/// An easy to use wrapper around a pending computation: it is advanced
/// every time it is looked at, until it yields its output.
#[derive(Debug)]
pub enum Promise<T, F> {
    Ready(T),
    Future(F),
}

impl<T, F: Pending<T>> Promise<T, F> {
    /// Records the outcome of one step of the computation: an output makes
    /// the promise ready; otherwise nothing changes.
    pub fn settle(&mut self, outcome: Option<T>)
        ensures
            match (*old(self), outcome) {
                (Promise::Future(_), Some(o)) => *final(self) == Promise::<T, F>::Ready(o),
                _ => *final(self) == *old(self),
            },
    {
        if let Some(o) = outcome {
            if let Promise::Future(_) = self {
                *self = Promise::Ready(o);
            }
        }
    }

    /// Advances the computation once, if it is not ready yet. A ready
    /// promise stays as it is.
    pub fn poll(&mut self)
        ensures
            *old(self) is Ready ==> *final(self) == *old(self),
    {
        let outcome = match self {
            Promise::Future(f) => f.poll_once(),
            Promise::Ready(_) => None,
        };
        self.settle(outcome);
    }

    /// Starts a promise on `f` and advances it once. Whether it is ready
    /// afterwards depends on the computation.
    pub fn make(f: F) -> Self {
        let mut promise = Promise::Future(f);
        promise.poll();
        promise
    }

    /// Advances the computation once and answers its output when it is ready.
    pub fn get(&mut self) -> (output: Option<&T>)
        ensures
            *old(self) is Ready ==> *final(self) == *old(self),
            match *final(self) {
                Promise::Ready(o) => output == Some(&o),
                Promise::Future(_) => output is None,
            },
    {
        self.poll();
        match self {
            Promise::Ready(o) => Some(o),
            Promise::Future(_) => None,
        }
    }
}

} // verus!
