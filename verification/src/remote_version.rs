//! The latest released version, fetched in the background.
use vstd::prelude::*;

use std::rc::Rc;

use crate::error::CheeseError;
use crate::promise::{Pending, Promise};

verus! {

/// `Rc::clone`: another pointer to the same allocation. Claimed: the copy
/// holds the same value.
#[verifier::external_body]
fn rc_clone(r: &Rc<String>) -> (copy: Rc<String>)
    ensures
        copy == *r,
{
    Rc::clone(r)
}

/// Keeps the request for the latest release text until it is answered.
#[derive(Debug)]
pub struct Version<F> {
    l: Promise<Result<Rc<String>, CheeseError>, F>,
}

impl<F: Pending<Result<Rc<String>, CheeseError>>> Version<F> {
    /// The request being answered.
    pub closed spec fn request(self) -> Promise<Result<Rc<String>, CheeseError>, F> {
        self.l
    }

    /// Starts following the request `fetch`.
    pub fn from_pending(fetch: F) -> Self {
        Version { l: Promise::make(fetch) }
    }

    /// The version of this build of the editor.
    pub fn current() -> (version: &'static str)
        ensures
            version@ == crate::release::current_version(),
    {
        crate::release::current()
    }

    /// The latest release text, once the request has been answered
    /// successfully; `None` while it is under way or when it failed.
    pub fn latest(&mut self) -> (latest: Option<Rc<String>>)
        ensures
            old(self).request() is Ready ==> final(self).request() == old(self).request(),
            match final(self).request() {
                Promise::Ready(Ok(text)) => latest == Some(text),
                _ => latest is None,
            },
    {
        match self.l.get() {
            Some(Ok(text)) => Some(rc_clone(text)),
            _ => None,
        }
    }
}

} // verus!
