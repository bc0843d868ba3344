use vstd::prelude::*;
use std::sync::atomic::{AtomicBool, AtomicU8, Ordering};
use std::sync::Arc;

verus! {

/// Upper bound on how many relay hops a single notification may traverse.
/// Relay chains arise when composites or subscription drivers forward a
/// child token's notification; the bound makes delivery provably finite.
pub const RELAY_DEPTH: u64 = 32;

/// The work a registered callback performs when a token fires.
///
/// A callback is bound together with its optional state payload at
/// registration time; the pair forms one unit in the registry.
#[derive(Clone, Copy)]
pub enum Callback {
    /// Add one to the counter carried in the state payload.
    Increment,
    /// Set the flag carried in the state payload.
    Raise,
    /// Forward the notification to the relay target carried in the state
    /// payload (a composite's internal token or a subscription driver).
    Relay,
}

/// The state payload handed to a callback when it is invoked.
pub enum CallbackState {
    /// A shared counter, incremented by [`Callback::Increment`].
    Counter(Arc<AtomicU8>),
    /// A shared flag, set by [`Callback::Raise`].
    Flag(Arc<AtomicBool>),
    /// A weak link to a composite's internal token, followed by
    /// [`Callback::Relay`].
    Parent(crate::shared::TokenLink),
    /// A weak link to a subscription driver, followed by
    /// [`Callback::Relay`].
    Driver(crate::global::DriverLink),
}

/// Represents a change token registration.
///
/// Passing the registration back to the token's `unregister` method is the
/// sole cancellation mechanism: afterwards the callback can never be
/// invoked again, while other callbacks on the same token are unaffected.
pub struct Registration {
    id: Option<u64>,
}

impl Registration {
    /// The identifier of the registry entry this registration controls,
    /// or `None` for an empty registration.
    pub closed spec fn id_spec(&self) -> Option<u64> {
        self.id
    }

    /// The identifier of the registry entry this registration controls.
    pub fn id(&self) -> (r: Option<u64>)
        ensures
            r == self.id_spec(),
    {
        self.id
    }

    /// Initializes a new change token registration for the entry `id`.
    pub fn new(id: u64) -> (r: Self)
        ensures
            r.id_spec() == Some(id),
    {
        Self { id: Some(id) }
    }

    /// Initializes a new, empty change token registration.
    pub fn none() -> (r: Self)
        ensures
            r.id_spec() is None,
    {
        Self { id: None }
    }
}

impl Default for Registration {
    fn default() -> (r: Self)
        ensures
            r.id_spec() is None,
    {
        Self::none()
    }
}

/// The ghost image of one registry entry: its identifier, whether its
/// registration is still held, the bound callback and payload, and how many
/// deliveries have been handed to it.
pub struct EntryModel {
    pub id: u64,
    pub live: bool,
    pub callback: Callback,
    pub state: Option<CallbackState>,
    pub fires: nat,
}

/// Propagates notifications that a change has occurred.
pub trait ChangeToken: Sized {
    /// Well-formedness of the token's internal state.
    spec fn wf(&self) -> bool;

    /// Whether consumers must poll `changed` to observe changes; a token
    /// never changes this capability after construction.
    spec fn must_poll_spec(&self) -> bool;

    /// Gets a value that indicates if a change has occurred.
    fn changed(&self) -> bool
        requires
            self.wf(),
    ;

    /// Indicates if this token is unable to proactively raise callbacks.
    ///
    /// If the result is `true`, the token consumer must poll `changed` to
    /// detect changes; otherwise registered callbacks are invoked when a
    /// change occurs.
    fn must_poll(&self) -> (r: bool)
        requires
            self.wf(),
        ensures
            r == self.must_poll_spec(),
    ;

    /// Registers a callback that will be invoked when the token has changed,
    /// bound together with its optional state payload.
    ///
    /// Returns an opaque change token registration; handing it back to the
    /// token's `unregister` method unregisters the callback.
    fn register(&mut self, callback: Callback, state: Option<CallbackState>) -> (r: Registration)
        requires
            old(self).wf(),
        ensures
            final(self).wf(),
            final(self).must_poll_spec() == old(self).must_poll_spec(),
    ;

    /// Hands a registration back: the callback it controls can never be
    /// invoked again, while every other callback on the same token is
    /// unaffected. This is the sole cancellation mechanism.
    fn unregister(&mut self, registration: Registration)
        requires
            old(self).wf(),
        ensures
            final(self).wf(),
            final(self).must_poll_spec() == old(self).must_poll_spec(),
    ;
}

/// A change token that can proactively raise callbacks: its notification
/// cycle can be driven in two halves, so that a holder keeping the token
/// behind a lock can snapshot the callbacks under the lock and invoke them
/// after releasing it.
pub trait ProactiveToken: ChangeToken {
    /// Opens a notification cycle: raises the `changed` flag and snapshots
    /// the live `(callback, state)` pairs in registration order, or
    /// returns `None` when a cycle is already in flight.
    fn begin_notify(&mut self) -> (r: Option<Vec<(Callback, Option<CallbackState>)>>)
        requires
            old(self).wf(),
        ensures
            final(self).wf(),
            final(self).must_poll_spec() == old(self).must_poll_spec(),
    ;

    /// Closes a notification cycle, re-opening it unless the token only
    /// ever fires once.
    fn end_notify(&mut self)
        requires
            old(self).wf(),
        ensures
            final(self).wf(),
            final(self).must_poll_spec() == old(self).must_poll_spec(),
    ;
}

/// One change token of any of the library's kinds, so that heterogeneous
/// tokens can stand side by side as composite children or flow out of a
/// subscription producer.
pub enum AnyToken {
    /// A token that never changes.
    Never(crate::never::NeverChangeToken),
    /// An owned repeatable token.
    Default(crate::default::DefaultChangeToken),
    /// An owned once token.
    Single(crate::single::SingleChangeToken),
    /// A handle to a shared repeatable token.
    Shared(crate::shared::SharedChangeToken<crate::default::DefaultChangeToken>),
    /// A handle to a shared once token.
    SharedOnce(crate::shared::SharedChangeToken<crate::single::SingleChangeToken>),
}

impl AnyToken {
    /// What this token's `changed` flag is known to read: a definite value
    /// for owned tokens, and `None` for shared handles, whose flag other
    /// holders may move at any time.
    pub open spec fn known_changed(&self) -> Option<bool> {
        match self {
            AnyToken::Never(_) => Some(false),
            AnyToken::Default(t) => Some(t.changed_spec()),
            AnyToken::Single(t) => Some(t.changed_spec()),
            AnyToken::Shared(_) => None,
            AnyToken::SharedOnce(_) => None,
        }
    }

    /// What this token's registry is known to hold: the ghost image for
    /// an owned token, the empty registry for a never token (which
    /// retains nothing), and `None` for shared handles.
    pub open spec fn known_entries(&self) -> Option<Seq<EntryModel>> {
        match self {
            AnyToken::Never(_) => Some(Seq::empty()),
            AnyToken::Default(t) => Some(t.entries()),
            AnyToken::Single(t) => Some(t.entries()),
            AnyToken::Shared(_) => None,
            AnyToken::SharedOnce(_) => None,
        }
    }
}

impl ChangeToken for AnyToken {
    open spec fn wf(&self) -> bool {
        match self {
            AnyToken::Never(t) => t.wf(),
            AnyToken::Default(t) => t.wf(),
            AnyToken::Single(t) => t.wf(),
            AnyToken::Shared(t) => t.wf(),
            AnyToken::SharedOnce(t) => t.wf(),
        }
    }

    open spec fn must_poll_spec(&self) -> bool {
        match self {
            AnyToken::Never(t) => t.must_poll_spec(),
            AnyToken::Default(t) => t.must_poll_spec(),
            AnyToken::Single(t) => t.must_poll_spec(),
            AnyToken::Shared(t) => t.must_poll_spec(),
            AnyToken::SharedOnce(t) => t.must_poll_spec(),
        }
    }

    /// Gets a value that indicates if a change has occurred; for an owned
    /// token the result is exactly its `changed` flag.
    fn changed(&self) -> (r: bool)
        ensures
            self.known_changed() matches Some(b) ==> r == b,
    {
        match self {
            AnyToken::Never(t) => t.changed(),
            AnyToken::Default(t) => t.changed(),
            AnyToken::Single(t) => t.changed(),
            AnyToken::Shared(t) => t.changed(),
            AnyToken::SharedOnce(t) => t.changed(),
        }
    }

    fn must_poll(&self) -> (r: bool) {
        match self {
            AnyToken::Never(t) => t.must_poll(),
            AnyToken::Default(t) => t.must_poll(),
            AnyToken::Single(t) => t.must_poll(),
            AnyToken::Shared(t) => t.must_poll(),
            AnyToken::SharedOnce(t) => t.must_poll(),
        }
    }

    /// Registers a callback on the underlying token; registering never
    /// moves the `changed` flag of an owned token, a never token stays
    /// untouched, and an owned token's registry is pruned and appended
    /// exactly as the engine prescribes.
    fn register(&mut self, callback: Callback, state: Option<CallbackState>) -> (r: Registration)
        ensures
            final(self).known_changed() == old(self).known_changed(),
            (old(self) matches AnyToken::Never(_)) ==> *final(self) == *old(self)
                && r.id_spec() is None,
            old(self).known_entries() matches Some(es) ==> !(old(self)
                matches AnyToken::Never(_)) ==> r.id_spec() is Some && final(self).known_entries()
                == Some(
                crate::default::retained(es).push(
                    (EntryModel {
                        id: r.id_spec().unwrap(),
                        live: true,
                        callback: callback,
                        state: state,
                        fires: 0nat,
                    }),
                ),
            ),
    {
        match self {
            AnyToken::Never(t) => t.register(callback, state),
            AnyToken::Default(t) => t.register(callback, state),
            AnyToken::Single(t) => t.register(callback, state),
            AnyToken::Shared(t) => t.register(callback, state),
            AnyToken::SharedOnce(t) => t.register(callback, state),
        }
    }

    /// Hands a registration back to the underlying token.
    fn unregister(&mut self, registration: Registration)
        ensures
            final(self).known_changed() == old(self).known_changed(),
    {
        match self {
            AnyToken::Never(t) => t.unregister(registration),
            AnyToken::Default(t) => t.unregister(registration),
            AnyToken::Single(t) => t.unregister(registration),
            AnyToken::Shared(t) => t.unregister(registration),
            AnyToken::SharedOnce(t) => t.unregister(registration),
        }
    }
}

/// Clones a `(callback, state)` payload so a notification cycle can snapshot
/// the registry and invoke the callbacks after the registry is released.
pub(crate) fn clone_state(state: &Option<CallbackState>) -> (r: Option<CallbackState>)
    ensures
        r == *state,
{
    match state {
        None => None,
        Some(CallbackState::Counter(counter)) => Some(CallbackState::Counter(counter.clone())),
        Some(CallbackState::Flag(flag)) => Some(CallbackState::Flag(flag.clone())),
        Some(CallbackState::Parent(link)) => Some(CallbackState::Parent(link.duplicate())),
        Some(CallbackState::Driver(link)) => Some(CallbackState::Driver(link.duplicate())),
    }
}

pub(crate) fn invoke_callback(callback: &Callback, state: &Option<CallbackState>, depth: u64)
    decreases depth, 0int,
{
    match callback {
        Callback::Increment => {
            if let Some(CallbackState::Counter(counter)) = state {
                counter.fetch_add(1, Ordering::SeqCst);
            }
        },
        Callback::Raise => {
            if let Some(CallbackState::Flag(flag)) = state {
                flag.store(true, Ordering::SeqCst);
            }
        },
        Callback::Relay => {
            if depth > 0 {
                match state {
                    Some(CallbackState::Parent(link)) => {
                        if let Some(target) = link.upgrade() {
                            target.notify_within(depth - 1);
                        }
                    },
                    Some(CallbackState::Driver(link)) => {
                        crate::global::ChangeTokenRegistration::on_changed(link, depth - 1);
                    },
                    _ => {},
                }
            }
        },
    }
}

/// Invokes each collected `(callback, state)` pair in order, outside any
/// lock, on the calling thread.
pub(crate) fn invoke_all(pairs: &Vec<(Callback, Option<CallbackState>)>, depth: u64)
    decreases depth, 1int,
{
    let mut i: usize = 0;
    while i < pairs.len()
        decreases pairs.len() - i,
    {
        let pair = &pairs[i];
        invoke_callback(&pair.0, &pair.1, depth);
        i = i + 1;
    }
}

} // verus!
