//! Hands keyboard focus to a widget on a later frame.
use vstd::prelude::*;

use crate::text::str_eq;

verus! {

/// Something that can receive keyboard focus: an open page (by its
/// identifier) or a widget named by a static identifier.
#[derive(Debug)]
pub enum FocusTarget {
    Page(u64),
    Id(&'static str),
}

impl FocusTarget {
    /// Two targets designate the same widget.
    pub open spec fn same_as(self, other: FocusTarget) -> bool {
        match (self, other) {
            (FocusTarget::Page(a), FocusTarget::Page(b)) => a == b,
            (FocusTarget::Id(a), FocusTarget::Id(b)) => a@ == b@,
            _ => false,
        }
    }

    /// Executable form of [`Self::same_as`].
    pub fn is_same(&self, other: &FocusTarget) -> (same: bool)
        ensures
            same == self.same_as(*other),
    {
        match (self, other) {
            (FocusTarget::Page(a), FocusTarget::Page(b)) => *a == *b,
            (FocusTarget::Id(a), FocusTarget::Id(b)) => str_eq(a, b),
            _ => false,
        }
    }
}

/// Remembers at most one focus request until the target widget asks for it.
#[derive(Debug)]
pub struct FocusJumper {
    target: Option<FocusTarget>,
}

/// The pending request after `send(target)`.
pub open spec fn sent(target: FocusTarget) -> Option<FocusTarget> {
    Some(target)
}

/// Whether `recieve(current)` answers `true` with `pending` as the request.
pub open spec fn received(pending: Option<FocusTarget>, current: FocusTarget) -> bool {
    match pending {
        Some(t) => t.same_as(current),
        None => false,
    }
}

/// The pending request after `recieve(current)`.
pub open spec fn after_receive(pending: Option<FocusTarget>, current: FocusTarget) -> Option<FocusTarget> {
    if received(pending, current) {
        None
    } else {
        pending
    }
}

impl FocusJumper {
    /// The focus request that has not been received yet.
    pub closed spec fn pending(self) -> Option<FocusTarget> {
        self.target
    }

    /// A jumper with no pending request.
    pub fn new() -> (jumper: Self)
        ensures
            jumper.pending() is None,
    {
        FocusJumper { target: None }
    }

    /// Asks for `target` to take the focus; replaces any earlier request.
    pub fn send(&mut self, target: FocusTarget)
        ensures
            final(self).pending() == sent(target),
    {
        self.target = Some(target);
    }

    /// Called by a widget every frame: answers whether the pending request
    /// is for `current`, and consumes the request when it is.
    pub fn recieve(&mut self, current: &FocusTarget) -> (take_focus: bool)
        ensures
            take_focus == received(old(self).pending(), *current),
            final(self).pending() == after_receive(old(self).pending(), *current),
    {
        let hit = match &self.target {
            Some(target) => target.is_same(current),
            None => false,
        };
        if hit {
            self.target = None;
        }
        hit
    }
}

impl Default for FocusJumper {
    fn default() -> (jumper: Self)
        ensures
            jumper.pending() is None,
    {
        FocusJumper::new()
    }
}

/// A request that was sent is received once by its target: the first
/// `recieve` with the same target answers `true`, and any later one `false`
/// until something is sent again.
pub proof fn lemma_sent_target_received_once(target: FocusTarget)
    ensures
        received(sent(target), target),
        after_receive(sent(target), target) is None,
        !received(after_receive(sent(target), target), target),
{
}

/// A target that is not the requested one does not take the focus, and the
/// request stays pending for its own target.
pub proof fn lemma_other_target_keeps_request(target: FocusTarget, other: FocusTarget)
    requires
        !target.same_as(other),
    ensures
        !received(sent(target), other),
        after_receive(sent(target), other) == sent(target),
{
}

} // verus!
