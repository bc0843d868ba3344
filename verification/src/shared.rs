use vstd::prelude::*;
use vstd::rwlock::{RwLock, RwLockPredicate};
use std::sync::Arc;
use std::sync::Weak;
use crate::default::DefaultChangeToken;
use crate::single::SingleChangeToken;
use crate::token::{Callback, CallbackState, ChangeToken, ProactiveToken, Registration,
    RELAY_DEPTH};

verus! {

/// The invariant on every value stored behind a shared token's lock: the
/// token is well-formed and its polling capability is the one fixed when
/// the shared instance was created.
pub struct TokenPred {
    pub poll: bool,
}

impl<T: ChangeToken> RwLockPredicate<T> for TokenPred {
    open spec fn inv(self, v: T) -> bool {
        &&& v.wf()
        &&& v.must_poll_spec() == self.poll
    }
}

/// Represents a shared change token.
///
/// The wrapper is a reference-counted handle to one token instance behind
/// a reader/writer lock; cloning the wrapper yields another handle to the
/// *same* instance (same registry, same `changed` flag), not a new token,
/// so multiple independent consumers can observe one token.
pub struct SharedChangeToken<T: ChangeToken = DefaultChangeToken> {
    inner: Arc<RwLock<T, TokenPred>>,
}

impl<T: ChangeToken> SharedChangeToken<T> {
    /// Initializes a new shared change token wrapping `token`.
    pub fn new(token: T) -> (r: Self)
        requires
            token.wf(),
        ensures
            r.wf(),
            r.must_poll_spec() == token.must_poll_spec(),
    {
        let poll = token.must_poll();
        Self { inner: Arc::new(RwLock::new(token, Ghost(TokenPred { poll }))) }
    }
}

impl<T: ChangeToken> Clone for SharedChangeToken<T> {
    /// Yields another handle to the same underlying token instance.
    fn clone(&self) -> (r: Self)
        ensures
            r == *self,
    {
        Self { inner: self.inner.clone() }
    }
}

impl<T: ChangeToken> ChangeToken for SharedChangeToken<T> {
    open spec fn wf(&self) -> bool {
        true
    }

    closed spec fn must_poll_spec(&self) -> bool {
        (*self.inner).pred().poll
    }

    /// Gets a value that indicates if a change has occurred on the shared
    /// instance. The read races with concurrent notification cycles, so it
    /// is informational only.
    fn changed(&self) -> (r: bool) {
        let handle = self.inner.acquire_read();
        let r = handle.borrow().changed();
        handle.release_read();
        r
    }

    fn must_poll(&self) -> (r: bool) {
        let handle = self.inner.acquire_read();
        let r = handle.borrow().must_poll();
        handle.release_read();
        r
    }

    /// Registers a callback on the shared instance, under the registry
    /// lock, and returns the registration.
    fn register(&mut self, callback: Callback, state: Option<CallbackState>) -> (r: Registration)
        ensures
            *final(self) == *old(self),
    {
        let (mut token, handle) = self.inner.acquire_write();
        let r = token.register(callback, state);
        handle.release_write(token);
        r
    }

    /// Hands a registration back to the shared instance, under the
    /// registry lock.
    fn unregister(&mut self, registration: Registration)
        ensures
            *final(self) == *old(self),
    {
        let (mut token, handle) = self.inner.acquire_write();
        token.unregister(registration);
        handle.release_write(token);
    }
}

impl<T: ProactiveToken> SharedChangeToken<T> {
    /// Notifies any registered callbacks of a change on the shared
    /// instance.
    pub fn notify(&self) {
        self.notify_within(RELAY_DEPTH);
    }

    /// The notification cycle behind `notify`: the live callbacks are
    /// snapshotted under the lock, the lock is released, and only then are
    /// the callbacks invoked, so a callback may register on the very token
    /// it is being invoked from without deadlocking.
    pub(crate) fn notify_within(&self, depth: u64)
        decreases depth, 2int,
    {
        let (mut token, handle) = self.inner.acquire_write();
        let work = token.begin_notify();
        handle.release_write(token);
        match work {
            Some(pairs) => {
                crate::token::invoke_all(&pairs, depth);
                let (mut token, handle) = self.inner.acquire_write();
                token.end_notify();
                handle.release_write(token);
            },
            None => {},
        }
    }
}

impl SharedChangeToken<SingleChangeToken> {
    /// Creates a weak link to this shared once token, to be carried as
    /// relay state.
    ///
    /// Relies on `std::sync::Arc::downgrade`: the link refers to the same
    /// token instance without keeping it alive.
    #[verifier::external_body]
    pub(crate) fn downgrade(&self) -> (r: TokenLink) {
        TokenLink { inner: Arc::downgrade(&self.inner) }
    }
}

impl Default for SharedChangeToken<DefaultChangeToken> {
    fn default() -> (r: Self)
        ensures
            r.wf(),
            !r.must_poll_spec(),
    {
        SharedChangeToken::new(DefaultChangeToken::new())
    }
}

impl Default for SharedChangeToken<SingleChangeToken> {
    fn default() -> (r: Self)
        ensures
            r.wf(),
            !r.must_poll_spec(),
    {
        SharedChangeToken::new(SingleChangeToken::new())
    }
}

/// A weak handle to a shared once token, carried as the state of a relay
/// callback so that forwarding stops silently once the target is dropped.
///
/// The handle holds a `std::sync::Weak`, which Verus cannot declare here:
/// the weak type parameter would close a cycle back through the registry
/// entries that hold these links. The struct is therefore opaque, and the
/// three operations on it are trusted.
#[verifier::external_body]
pub struct TokenLink {
    inner: Weak<RwLock<SingleChangeToken, TokenPred>>,
}

impl TokenLink {
    /// Relies on `std::sync::Weak::upgrade`: yields a strong handle to the
    /// same token instance while it is still alive, and `None` once every
    /// strong handle has been dropped.
    #[verifier::external_body]
    pub(crate) fn upgrade(&self) -> (r: Option<SharedChangeToken<SingleChangeToken>>) {
        self.inner.upgrade().map(|arc| SharedChangeToken { inner: arc })
    }

    /// Relies on `std::sync::Weak::clone`: the clone refers to the same
    /// target, which is all the abstract value records.
    #[verifier::external_body]
    pub(crate) fn duplicate(&self) -> (r: TokenLink)
        ensures
            r == *self,
    {
        TokenLink { inner: self.inner.clone() }
    }
}

} // verus!
