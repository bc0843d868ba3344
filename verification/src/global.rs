use vstd::prelude::*;
use vstd::rwlock::{RwLock, RwLockPredicate};
use std::sync::Arc;
use std::sync::Weak;
use crate::default::DefaultChangeToken;
use crate::never::NeverChangeToken;
use crate::shared::SharedChangeToken;
use crate::single::SingleChangeToken;
use crate::token::{AnyToken, Callback, CallbackState, ChangeToken, Registration};
use crate::Subscription;

verus! {

/// Produces the succession of change tokens a subscription observes.
pub enum TokenProducer {
    /// Yields a fresh handle to one shared repeatable token on every call.
    Shared(SharedChangeToken<DefaultChangeToken>),
    /// Yields a fresh handle to one shared once token on every call.
    SharedOnce(SharedChangeToken<SingleChangeToken>),
    /// Yields the given tokens in order, then never tokens once the
    /// series is exhausted.
    Series(Vec<AnyToken>),
}

impl TokenProducer {
    /// Well-formedness: every token still to be yielded is well-formed.
    pub open spec fn wf(&self) -> bool {
        match self {
            TokenProducer::Shared(_) => true,
            TokenProducer::SharedOnce(_) => true,
            TokenProducer::Series(v) => forall|i: int|
                0 <= i < v@.len() ==> (#[trigger] v@[i]).wf(),
        }
    }

    /// Produces the next change token: a handle to the shared token, or
    /// the next token of the series, or a never token once the series is
    /// exhausted.
    fn produce(&mut self) -> (r: AnyToken)
        requires
            old(self).wf(),
        ensures
            final(self).wf(),
            r.wf(),
            ({
                let pre = *old(self);
                let post = *final(self);
                match pre {
                    TokenProducer::Shared(h) => r == AnyToken::Shared(h) && post == pre,
                    TokenProducer::SharedOnce(h) => r == AnyToken::SharedOnce(h) && post == pre,
                    TokenProducer::Series(v) => if v@.len() > 0 {
                        r == v@[0] && (post matches TokenProducer::Series(w) && w@ == v@.skip(1))
                    } else {
                        (r matches AnyToken::Never(_)) && post == pre
                    },
                }
            }),
    {
        match self {
            TokenProducer::Shared(h) => AnyToken::Shared(h.clone()),
            TokenProducer::SharedOnce(h) => AnyToken::SharedOnce(h.clone()),
            TokenProducer::Series(v) => {
                if v.len() > 0 {
                    let t = v.remove(0);
                    proof {
                        assert(t.wf());
                    }
                    t
                } else {
                    AnyToken::Never(NeverChangeToken::new())
                }
            },
        }
    }
}

/// The invariant on the driver state behind its lock.
pub struct DriverPred {}

impl RwLockPredicate<ChangeTokenRegistration> for DriverPred {
    open spec fn inv(self, v: ChangeTokenRegistration) -> bool {
        v.wf()
    }
}

/// Mediates between the token producer and the consumer: holds the
/// current `(token, registration)` pair so both are dropped when this
/// driver is itself dropped, and re-subscribes to a freshly produced token
/// every time the current one fires.
pub struct ChangeTokenRegistration {
    producer: TokenProducer,
    consumer: Callback,
    state: Option<CallbackState>,
    me: Option<DriverLink>,
    registration: (Option<AnyToken>, Registration),
    consumer_fires: Ghost<nat>,
}

impl ChangeTokenRegistration {
    /// Well-formedness: the producer and the retained token are
    /// well-formed.
    pub closed spec fn wf(&self) -> bool {
        &&& self.producer.wf()
        &&& match self.registration.0 {
            Some(t) => t.wf(),
            None => true,
        }
    }

    /// How many times the consumer has been invoked through this driver.
    pub closed spec fn consumer_fires_spec(&self) -> nat {
        self.consumer_fires@
    }

    /// Initializes the driver: produces an initial token, publishes the
    /// driver behind its lock with a weak handle to itself (allocated
    /// first, wired second, since the relay state must refer to the
    /// not-yet-observable driver), and registers on the initial token.
    pub(crate) fn new(
        producer: TokenProducer,
        consumer: Callback,
        state: Option<CallbackState>,
    ) -> (r: Arc<RwLock<ChangeTokenRegistration, DriverPred>>)
        requires
            producer.wf(),
    {
        let mut producer = producer;
        let token = producer.produce();
        let core = ChangeTokenRegistration {
            producer,
            consumer,
            state,
            me: None,
            registration: (None, Registration::none()),
            consumer_fires: Ghost(0nat),
        };
        let lock = Arc::new(RwLock::new(core, Ghost(DriverPred {  })));
        let link = DriverLink::attach(&lock);
        let (mut core, handle) = lock.acquire_write();
        core.me = Some(link);
        handle.release_write(core);
        Self::register(&lock, token);
        lock
    }

    /// Registers a relay on `token` through the driver's weak self
    /// handle, then retains the `(token, registration)` pair — unless the
    /// token has already changed and can proactively call back, in which
    /// case the pair is useless and dropped at once.
    pub(crate) fn register(lock: &Arc<RwLock<ChangeTokenRegistration, DriverPred>>, token: AnyToken)
        requires
            token.wf(),
    {
        let mut token = token;
        let link = {
            let handle = lock.acquire_read();
            let l = match &handle.borrow().me {
                Some(l) => Some(l.duplicate()),
                None => None,
            };
            handle.release_read();
            l
        };
        let link = match link {
            Some(l) => l,
            None => {
                return ;
            },
        };
        let registration = token.register(Callback::Relay, Some(CallbackState::Driver(link)));
        let already_changed = token.changed();
        let poll_required = token.must_poll();
        let (mut core, handle) = lock.acquire_write();
        let displaced = core.retain(token, registration, already_changed, poll_required);
        handle.release_write(core);
        match displaced {
            (Some(mut stale), stale_registration) => {
                stale.unregister(stale_registration);
            },
            (None, _stale_registration) => {},
        }
    }

    /// The retention rule for a freshly produced token: the pair is
    /// stored, replacing whatever pair was stored before, unless the token
    /// has already changed and does not require polling — a token that has
    /// already fired and cannot proactively call back again is useless to
    /// retain, so exactly then the new pair is displaced instead and the
    /// old pair stays. The displaced pair is handed back, to be dropped by
    /// the caller with its registration cancelled.
    fn retain(
        &mut self,
        token: AnyToken,
        registration: Registration,
        already_changed: bool,
        poll_required: bool,
    ) -> (r: (Option<AnyToken>, Registration))
        requires
            old(self).wf(),
            token.wf(),
        ensures
            final(self).wf(),
            (!already_changed || poll_required) ==> final(self).registration == (
                Some(token),
                registration,
            ) && r == old(self).registration,
            (already_changed && !poll_required) ==> final(self).registration == old(
                self,
            ).registration && r == (Some(token), registration),
            final(self).consumer_fires_spec() == old(self).consumer_fires_spec(),
            final(self).producer == old(self).producer,
            final(self).consumer == old(self).consumer,
            final(self).state == old(self).state,
            r.0 matches Some(t) ==> t.wf(),
    {
        if !already_changed || poll_required {
            let mut displaced = (Some(token), registration);
            core::mem::swap(&mut self.registration, &mut displaced);
            displaced
        } else {
            (Some(token), registration)
        }
    }

    /// Bumps the delivery count and hands out the consumer with a clone
    /// of its state payload, to be invoked outside the driver's lock.
    fn take_consumer(&mut self) -> (r: (Callback, Option<CallbackState>))
        requires
            old(self).wf(),
        ensures
            final(self).wf(),
            final(self).consumer_fires_spec() == old(self).consumer_fires_spec() + 1,
            final(self).producer == old(self).producer,
            final(self).consumer == old(self).consumer,
            final(self).state == old(self).state,
            final(self).registration == old(self).registration,
            r.0 == old(self).consumer,
            r.1 == old(self).state,
    {
        let ghost fired = self.consumer_fires@;
        self.consumer_fires = Ghost(fired + 1);
        (self.consumer, crate::token::clone_state(&self.state))
    }

    /// The relay entry point: follows the driver's weak handle; if the
    /// driver is still alive, one change is delivered to it, and silently
    /// nothing happens otherwise.
    pub(crate) fn on_changed(link: &DriverLink, depth: u64)
        decreases depth, 3int,
    {
        match link.follow() {
            Some(lock) => Self::on_notified(&lock, depth),
            None => {},
        }
    }

    /// One observed change: produces the next token, invokes the consumer
    /// exactly once, outside the driver's lock and on the firing thread,
    /// and re-registers on the fresh token — the resubscribe-on-fire
    /// cycle.
    pub(crate) fn on_notified(lock: &Arc<RwLock<ChangeTokenRegistration, DriverPred>>, depth: u64)
        decreases depth, 2int,
    {
        let (mut core, handle) = lock.acquire_write();
        let token = core.producer.produce();
        let pair = core.take_consumer();
        handle.release_write(core);
        crate::token::invoke_callback(&pair.0, &pair.1, depth);
        Self::register(lock, token);
    }
}

/// The opaque handle returned by [`on_change`]: it holds the only strong
/// reference to the driver, so dropping it guarantees that no further
/// consumer invocation can happen, race-free with an in-flight
/// notification — the relay's weak handle simply stops resolving.
pub struct SubscriptionImpl {
    driver: Arc<RwLock<ChangeTokenRegistration, DriverPred>>,
}

impl Subscription for SubscriptionImpl {

}

/// Registers a consumer action to be invoked whenever the token produced
/// changes.
///
/// # Arguments
///
/// * `producer` - Produces the change token observed next
/// * `consumer` - The callback invoked when the current change token fires
/// * `state` - The optional state payload supplied to the consumer, if any
pub fn on_change(
    producer: TokenProducer,
    consumer: Callback,
    state: Option<CallbackState>,
) -> (r: SubscriptionImpl)
    requires
        producer.wf(),
{
    SubscriptionImpl { driver: ChangeTokenRegistration::new(producer, consumer, state) }
}

/// A weak handle to a subscription driver, carried as the state of the
/// relay registered on each produced token, so that a dropped
/// subscription silences every later relay.
///
/// The handle holds a `std::sync::Weak`, which Verus cannot declare here:
/// the weak type parameter would close a cycle back through the registry
/// entries that hold these links. The struct is therefore opaque, and the
/// three operations on it are trusted.
#[verifier::external_body]
pub struct DriverLink {
    inner: Weak<RwLock<ChangeTokenRegistration, DriverPred>>,
}

impl DriverLink {
    /// Relies on `std::sync::Arc::downgrade`: the link refers to the same
    /// driver without keeping it alive.
    #[verifier::external_body]
    pub(crate) fn attach(lock: &Arc<RwLock<ChangeTokenRegistration, DriverPred>>) -> (r:
        DriverLink) {
        DriverLink { inner: Arc::downgrade(lock) }
    }

    /// Relies on `std::sync::Weak::upgrade`: yields a strong handle to
    /// the same driver while it is still alive, and `None` once its
    /// subscription handle has been dropped.
    #[verifier::external_body]
    pub(crate) fn follow(&self) -> (r: Option<Arc<RwLock<ChangeTokenRegistration, DriverPred>>>) {
        self.inner.upgrade()
    }

    /// Relies on `std::sync::Weak::clone`: the clone refers to the same
    /// target, which is all the abstract value records.
    #[verifier::external_body]
    pub(crate) fn duplicate(&self) -> (r: DriverLink)
        ensures
            r == *self,
    {
        DriverLink { inner: self.inner.clone() }
    }
}

} // verus!
