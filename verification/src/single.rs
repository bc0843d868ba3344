use vstd::prelude::*;
use crate::default::{notify_rel, unregister_rel, DefaultChangeToken};
use crate::token::{Callback, CallbackState, ChangeToken, EntryModel, ProactiveToken, Registration};

verus! {

/// Represents a change token that changes at most once.
///
/// The engine is a once-mode [`DefaultChangeToken`]: its callbacks fire
/// during at most one notification cycle over the token's entire lifetime,
/// and `changed` stays raised forever after that cycle.
pub struct SingleChangeToken {
    inner: DefaultChangeToken,
}

impl SingleChangeToken {
    /// The underlying notification engine, fixed in once mode.
    pub closed spec fn inner_spec(&self) -> DefaultChangeToken {
        self.inner
    }

    /// The current value of the `changed` flag.
    pub open spec fn changed_spec(&self) -> bool {
        self.inner_spec().changed_spec()
    }

    /// The ghost image of the callback registry, in registration order.
    pub open spec fn entries(&self) -> Seq<EntryModel> {
        self.inner_spec().entries()
    }

    /// Initializes a new single change token.
    pub fn new() -> (r: Self)
        ensures
            r.wf(),
            !r.changed_spec(),
            r.entries().len() == 0,
    {
        Self { inner: DefaultChangeToken::once() }
    }

    /// Notifies any registered callbacks of a change.
    ///
    /// Registered callbacks are invoked at most once over the token's
    /// lifetime: the first call delivers to every live callback and leaves
    /// the `changed` flag raised; every later call performs no action.
    pub fn notify(&mut self)
        requires
            old(self).wf(),
        ensures
            final(self).wf(),
            notify_rel(old(self).inner_spec(), final(self).inner_spec()),
            final(self).changed_spec(),
    {
        self.inner.notify();
    }

}

/// A sequence of single-token states linked by successive calls of the
/// notify path: each adjacent pair of engine states satisfies
/// [`notify_rel`].
pub open spec fn single_notify_chain(s: Seq<SingleChangeToken>) -> bool {
    forall|i: int|
        0 <= i < s.len() - 1 ==> notify_rel((#[trigger] s[i]).inner_spec(), s[i + 1].inner_spec())
}

/// Law of fan-in serialization: however many relays or direct calls drive
/// a single change token's notify path, every entry that was live at the
/// start is delivered to exactly once in total, and no other entry is
/// delivered to at all. This is what caps a composite's consumers at one
/// delivery even when several children fire.
pub proof fn lemma_single_token_delivers_at_most_once(s: Seq<SingleChangeToken>)
    requires
        s.len() >= 2,
        s[0].wf(),
        !s[0].changed_spec(),
        single_notify_chain(s),
    ensures
        s.last().entries().len() == s[0].entries().len(),
        forall|k: int|
            0 <= k < s[0].entries().len() ==> #[trigger] s.last().entries()[k].fires == s[0].entries()[k].fires
                + (if s[0].entries()[k].live {
                1nat
            } else {
                0nat
            }),
{
    let inner = Seq::new(s.len(), |i: int| s[i].inner_spec());
    assert forall|i: int| 0 <= i < inner.len() - 1 implies notify_rel(
        #[trigger] inner[i],
        inner[i + 1],
    ) by {
        assert(notify_rel(s[i].inner_spec(), s[i + 1].inner_spec()));
    }
    assert(crate::default::notify_chain(inner));
    crate::default::lemma_once_token_delivers_at_most_once(inner);
    assert(inner.last() == s.last().inner_spec());
}

impl Default for SingleChangeToken {
    fn default() -> (r: Self)
        ensures
            r.wf(),
            !r.changed_spec(),
            r.entries().len() == 0,
    {
        Self { inner: DefaultChangeToken::once() }
    }
}

impl ChangeToken for SingleChangeToken {
    /// Well-formed when the engine is well-formed and pinned to once mode.
    open spec fn wf(&self) -> bool {
        &&& self.inner_spec().wf()
        &&& self.inner_spec().once_spec()
    }

    open spec fn must_poll_spec(&self) -> bool {
        false
    }

    /// Gets a value that indicates if a change has occurred.
    fn changed(&self) -> (r: bool)
        ensures
            r == self.changed_spec(),
    {
        self.inner.changed()
    }

    fn must_poll(&self) -> (r: bool) {
        false
    }

    /// Registers a callback, bound with its optional state payload, to be
    /// invoked when the token changes; pruned and appended exactly as on
    /// the underlying engine.
    fn register(&mut self, callback: Callback, state: Option<CallbackState>) -> (r: Registration)
        ensures
            final(self).changed_spec() == old(self).changed_spec(),
            r.id_spec() is Some,
            final(self).entries() == crate::default::retained(old(self).entries()).push(
                (EntryModel {
                    id: r.id_spec().unwrap(),
                    live: true,
                    callback: callback,
                    state: state,
                    fires: 0nat,
                }),
            ),
    {
        self.inner.register(callback, state)
    }

    /// Hands a registration back: entries it controls are no longer live,
    /// so the callback can never be invoked again, while every other entry
    /// is untouched. An empty registration does nothing.
    fn unregister(&mut self, registration: Registration)
        ensures
            unregister_rel(
                old(self).inner_spec(),
                final(self).inner_spec(),
                registration.id_spec(),
            ),
    {
        self.inner.unregister(registration);
    }
}

impl ProactiveToken for SingleChangeToken {
    fn begin_notify(&mut self) -> (r: Option<Vec<(Callback, Option<CallbackState>)>>)
        ensures
            old(self).changed_spec() ==> r is None && *final(self) == *old(self),
            !old(self).changed_spec() ==> {
                &&& r matches Some(pairs) && pairs@ == crate::default::collected(
                    old(self).entries(),
                )
                &&& final(self).changed_spec()
                &&& final(self).entries() == crate::default::delivered(old(self).entries())
            },
    {
        self.inner.begin_notify()
    }

    fn end_notify(&mut self)
        ensures
            final(self).entries() == old(self).entries(),
            final(self).changed_spec() == old(self).changed_spec(),
    {
        self.inner.end_notify()
    }
}

} // verus!
