use vstd::prelude::*;
use crate::shared::SharedChangeToken;
use crate::single::SingleChangeToken;
use crate::token::{AnyToken, Callback, CallbackState, ChangeToken, EntryModel, Registration};

verus! {

/// Bridges the child tokens' notifications into the composite's internal
/// token: it owns the children, and retains the relay registrations taken
/// on every child capable of proactive callbacks for the composite's own
/// lifetime.
struct Mediator {
    children: Vec<AnyToken>,
    registrations: Vec<Registration>,
}

impl Mediator {
    /// Initializes the mediator: wires a relay from each capable child
    /// into `parent` and takes ownership of the children.
    fn new(parent: &SharedChangeToken<SingleChangeToken>, tokens: Vec<AnyToken>) -> (r: Mediator)
        requires
            forall|i: int| 0 <= i < tokens@.len() ==> (#[trigger] tokens@[i]).wf(),
        ensures
            r.children@.len() == tokens@.len(),
            forall|i: int|
                0 <= i < tokens@.len() ==> {
                    &&& (#[trigger] r.children@[i]).wf()
                    &&& r.children@[i].must_poll_spec() == tokens@[i].must_poll_spec()
                    &&& r.children@[i].known_changed() == tokens@[i].known_changed()
                    &&& (tokens@[i].must_poll_spec() ==> r.children@[i] == tokens@[i])
                    &&& (tokens@[i].known_entries() matches Some(es) ==> !tokens@[i].must_poll_spec()
                        ==> (exists|e: EntryModel| #![auto]
                        r.children@[i].known_entries() == Some(crate::default::retained(es).push(e))
                            && e.callback is Relay && e.live && e.fires == 0 && (
                        e.state matches Some(CallbackState::Parent(_)))))
                },
    {
        let (children, registrations) = Self::register(parent, tokens);
        Self { children, registrations }
    }

    /// Registers a relay callback on every child whose `must_poll` is
    /// `false`; a child that must be polled is skipped, since nothing
    /// would ever invoke its relay — the composite polls its `changed`
    /// directly instead. The relay state holds only a weak link to the
    /// parent's internal token, so a dropped composite is forwarded to no
    /// longer.
    fn register(parent: &SharedChangeToken<SingleChangeToken>, tokens: Vec<AnyToken>) -> (r: (
        Vec<AnyToken>,
        Vec<Registration>,
    ))
        requires
            forall|i: int| 0 <= i < tokens@.len() ==> (#[trigger] tokens@[i]).wf(),
        ensures
            r.0@.len() == tokens@.len(),
            forall|i: int|
                0 <= i < tokens@.len() ==> {
                    &&& (#[trigger] r.0@[i]).wf()
                    &&& r.0@[i].must_poll_spec() == tokens@[i].must_poll_spec()
                    &&& r.0@[i].known_changed() == tokens@[i].known_changed()
                    &&& (tokens@[i].must_poll_spec() ==> r.0@[i] == tokens@[i])
                    &&& (tokens@[i].known_entries() matches Some(es) ==> !tokens@[i].must_poll_spec()
                        ==> (exists|e: EntryModel| #![auto]
                        r.0@[i].known_entries() == Some(crate::default::retained(es).push(e))
                            && e.callback is Relay && e.live && e.fires == 0 && (
                        e.state matches Some(CallbackState::Parent(_)))))
                },
    {
        let ghost orig = tokens@;
        let mut remaining = tokens;
        let mut children: Vec<AnyToken> = Vec::new();
        let mut registrations: Vec<Registration> = Vec::new();
        while remaining.len() > 0
            invariant
                forall|i: int| 0 <= i < orig.len() ==> (#[trigger] orig[i]).wf(),
                children@.len() + remaining@.len() == orig.len(),
                remaining@ == orig.skip(children@.len() as int),
                forall|i: int|
                    0 <= i < children@.len() ==> {
                        &&& (#[trigger] children@[i]).wf()
                        &&& children@[i].must_poll_spec() == orig[i].must_poll_spec()
                        &&& children@[i].known_changed() == orig[i].known_changed()
                        &&& (orig[i].must_poll_spec() ==> children@[i] == orig[i])
                    &&& (orig[i].known_entries() matches Some(es) ==> !orig[i].must_poll_spec()
                        ==> (exists|e: EntryModel| #![auto]
                        children@[i].known_entries() == Some(crate::default::retained(es).push(e))
                            && e.callback is Relay && e.live && e.fires == 0 && (
                        e.state matches Some(CallbackState::Parent(_)))))
                    },
            decreases remaining@.len(),
        {
            let mut token = remaining.remove(0);
            proof {
                assert(orig.skip(children@.len() as int)[0] == orig[children@.len() as int]);
                assert(token == orig[children@.len() as int]);
                assert(token.wf());
                assert(remaining@ =~= orig.skip(children@.len() as int + 1));
            }
            if !token.must_poll() {
                let ghost pre_entries = token.known_entries();
                let relay_state = Some(CallbackState::Parent(parent.downgrade()));
                let ghost st = relay_state;
                let registration = token.register(Callback::Relay, relay_state);
                proof {
                    match pre_entries {
                        Some(es) => {
                            assert(token.known_entries() == Some(
                                crate::default::retained(es).push(
                                    (EntryModel {
                                        id: registration.id_spec().unwrap(),
                                        live: true,
                                        callback: Callback::Relay,
                                        state: st,
                                        fires: 0nat,
                                    }),
                                ),
                            ));
                        },
                        None => {
                        },
                    }
                }
                registrations.push(registration);
            }
            children.push(token);
        }
        (children, registrations)
    }
}

/// Represents a composition of zero or more change tokens.
///
/// The composite owns an ordered sequence of child tokens and one internal
/// once token. Children capable of proactive callbacks relay their
/// notification into the internal token, whose own atomic transition
/// serializes delivery, so the composite's registered consumers fire at
/// most once even when several children fire.
pub struct CompositeChangeToken {
    inner: SharedChangeToken<SingleChangeToken>,
    mediator: Mediator,
}

impl CompositeChangeToken {
    /// The composite's children, in the order they were supplied.
    pub closed spec fn children(&self) -> Seq<AnyToken> {
        self.mediator.children@
    }

    /// Initializes a new composite change token.
    ///
    /// # Arguments
    ///
    /// * `tokens` - An ordered sequence of change tokens.
    pub fn new(tokens: Vec<AnyToken>) -> (r: Self)
        requires
            forall|i: int| 0 <= i < tokens@.len() ==> (#[trigger] tokens@[i]).wf(),
        ensures
            r.wf(),
            r.children().len() == tokens@.len(),
            forall|i: int|
                0 <= i < tokens@.len() ==> {
                    &&& #[trigger] r.children()[i].must_poll_spec() == tokens@[
                        i
                    ].must_poll_spec()
                    &&& r.children()[i].known_changed() == tokens@[i].known_changed()
                    &&& (tokens@[i].must_poll_spec() ==> r.children()[i] == tokens@[i])
                    &&& (tokens@[i].known_entries() matches Some(es) ==> !tokens@[
                        i
                    ].must_poll_spec() ==> (exists|e: EntryModel| #![auto]
                    r.children()[i].known_entries() == Some(
                        crate::default::retained(es).push(e),
                    ) && e.callback is Relay && e.live && e.fires == 0 && (
                    e.state matches Some(CallbackState::Parent(_)))))
                },
    {
        let inner = SharedChangeToken::<SingleChangeToken>::default();
        let mediator = Mediator::new(&inner, tokens);
        Self { inner, mediator }
    }

    /// Notifies any registered callbacks of a change, through the
    /// composite's internal token; useful when composing zero children.
    pub fn notify(&self) {
        self.inner.notify()
    }
}

impl ChangeToken for CompositeChangeToken {
    closed spec fn wf(&self) -> bool {
        forall|i: int| 0 <= i < self.mediator.children@.len() ==> (#[trigger] self.mediator.children@[i]).wf()
    }

    closed spec fn must_poll_spec(&self) -> bool {
        forall|i: int|
            0 <= i < self.mediator.children@.len() ==> (#[trigger] self.mediator.children@[i]).must_poll_spec()
    }

    /// Gets a value that indicates if a change has occurred: true when the
    /// composite's internal token fired or any child currently reports a
    /// change — re-evaluated fresh on each call, so it also reflects
    /// children that require polling.
    fn changed(&self) -> (r: bool)
        ensures
            (exists|i: int|
                0 <= i < self.children().len() && #[trigger] self.children()[i].known_changed()
                    == Some(true)) ==> r,
    {
        if self.inner.changed() {
            return true;
        }
        let mut i: usize = 0;
        while i < self.mediator.children.len()
            invariant
                self.wf(),
                i <= self.children().len(),
                self.children() == self.mediator.children@,
                forall|k: int|
                    0 <= k < i ==> #[trigger] self.children()[k].known_changed() != Some(true),
            decreases self.children().len() - i,
        {
            let child = &self.mediator.children[i];
            if child.changed() {
                return true;
            }
            i = i + 1;
        }
        false
    }

    /// Indicates if the composite can only be observed by polling: true
    /// exactly when every child must be polled, since then no child can
    /// proactively relay into the composite.
    fn must_poll(&self) -> (r: bool)
        ensures
            r == (forall|i: int|
                0 <= i < self.children().len() ==> (#[trigger] self.children()[
                    i
                ]).must_poll_spec()),
    {
        let mut i: usize = 0;
        while i < self.mediator.children.len()
            invariant
                self.wf(),
                i <= self.children().len(),
                self.children() == self.mediator.children@,
                forall|k: int|
                    0 <= k < i ==> (#[trigger] self.children()[k]).must_poll_spec(),
            decreases self.children().len() - i,
        {
            let child = &self.mediator.children[i];
            if !child.must_poll() {
                return false;
            }
            i = i + 1;
        }
        true
    }

    /// Registers a callback on the composite's internal token, so a
    /// composite can also be observed and notified directly.
    fn register(&mut self, callback: Callback, state: Option<CallbackState>) -> (r: Registration)
        ensures
            final(self).children() == old(self).children(),
    {
        self.inner.register(callback, state)
    }

    /// Hands a registration back to the composite's internal token.
    fn unregister(&mut self, registration: Registration)
        ensures
            final(self).children() == old(self).children(),
    {
        self.inner.unregister(registration)
    }
}

} // verus!
