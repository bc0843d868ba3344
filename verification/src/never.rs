use vstd::prelude::*;
use crate::token::{Callback, CallbackState, ChangeToken, Registration};

verus! {

/// Represents a change token that never changes.
///
/// Used as a sentinel for "no further changes will ever be signaled":
/// `changed` is always `false`, consumers must poll, and registering a
/// callback is a no-op that returns an empty registration.
pub struct NeverChangeToken;

impl NeverChangeToken {
    /// Initializes a new change token.
    pub fn new() -> (r: Self)
        ensures
            r.wf(),
            !r.changed_spec(),
            r.must_poll_spec(),
    {
        Self
    }

    /// The constant value of the `changed` flag: a never token has none to
    /// raise.
    pub open spec fn changed_spec(&self) -> bool {
        false
    }
}

impl Default for NeverChangeToken {
    fn default() -> (r: Self)
        ensures
            r.wf(),
            !r.changed_spec(),
            r.must_poll_spec(),
    {
        Self
    }
}

impl ChangeToken for NeverChangeToken {
    open spec fn wf(&self) -> bool {
        true
    }

    open spec fn must_poll_spec(&self) -> bool {
        true
    }

    fn changed(&self) -> (r: bool)
        ensures
            r == self.changed_spec(),
    {
        false
    }

    fn must_poll(&self) -> (r: bool) {
        true
    }

    fn register(&mut self, _callback: Callback, _state: Option<CallbackState>) -> (r: Registration)
        ensures
            *final(self) == *old(self),
            r.id_spec() is None,
    {
        Registration::none()
    }

    fn unregister(&mut self, _registration: Registration)
        ensures
            *final(self) == *old(self),
    {
    }
}

} // verus!
