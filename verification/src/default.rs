use vstd::prelude::*;
use crate::token::{Callback, CallbackState, ChangeToken, EntryModel, ProactiveToken, Registration};

verus! {

/// One slot of the callback registry: the entry identifier, a liveness flag
/// cleared when the owning registration is handed back, and the registered
/// callback bound with its state payload.
struct CallbackEntry {
    id: u64,
    live: bool,
    callback: Callback,
    state: Option<CallbackState>,
}

/// Represents a default change token that may change zero or more times.
///
/// The token is a notification engine: `notify` transitions the `changed`
/// flag, collects the live callbacks in registration order, and invokes
/// them after the collection is complete, so that a callback may register
/// on the very token it is being invoked from. A *once* token keeps
/// `changed` raised forever after its first cycle; a repeatable token
/// lowers it again when the cycle completes.
pub struct DefaultChangeToken {
    once: bool,
    changed: bool,
    callbacks: Vec<CallbackEntry>,
    next_id: u64,
    fire_counts: Ghost<Seq<nat>>,
}

/// The `(callback, state)` pairs of the live entries of `s`, in order:
/// exactly what one notification cycle delivers.
pub open spec fn collected(s: Seq<EntryModel>) -> Seq<(Callback, Option<CallbackState>)>
    decreases s.len(),
{
    if s.len() == 0 {
        Seq::empty()
    } else {
        (if s[0].live {
            seq![(s[0].callback, s[0].state)]
        } else {
            Seq::empty()
        }) + collected(s.skip(1))
    }
}

/// The registry after one delivery: each live entry's delivery count grows
/// by one; everything else is unchanged.
pub open spec fn delivered(s: Seq<EntryModel>) -> Seq<EntryModel> {
    Seq::new(
        s.len(),
        |i: int|
            EntryModel {
                fires: s[i].fires + (if s[i].live {
                    1nat
                } else {
                    0nat
                }),
                ..s[i]
            },
    )
}

/// The registry after pruning: only the live entries remain, in order.
pub open spec fn retained(s: Seq<EntryModel>) -> Seq<EntryModel>
    decreases s.len(),
{
    if s.len() == 0 {
        Seq::empty()
    } else {
        (if s[0].live {
            seq![s[0]]
        } else {
            Seq::empty()
        }) + retained(s.skip(1))
    }
}

/// How one `notify` call relates the token state before and after: a no-op
/// when a cycle is already in flight, and otherwise one delivery to every
/// live entry, with the `changed` flag left raised exactly when the token
/// is a once token.
pub open spec fn notify_rel(pre: DefaultChangeToken, post: DefaultChangeToken) -> bool {
    &&& post.once_spec() == pre.once_spec()
    &&& (pre.changed_spec() ==> post == pre)
    &&& (!pre.changed_spec() ==> {
        &&& post.changed_spec() == pre.once_spec()
        &&& post.entries() == delivered(pre.entries())
    })
}

/// How handing back a registration relates the token state before and
/// after: entries whose identifier matches are no longer live; everything
/// else is unchanged.
pub open spec fn unregister_rel(
    pre: DefaultChangeToken,
    post: DefaultChangeToken,
    id: Option<u64>,
) -> bool {
    &&& post.once_spec() == pre.once_spec()
    &&& post.changed_spec() == pre.changed_spec()
    &&& post.entries().len() == pre.entries().len()
    &&& forall|j: int|
        0 <= j < pre.entries().len() ==> #[trigger] post.entries()[j] == (if id == Some(
            pre.entries()[j].id,
        ) {
            EntryModel { live: false, ..pre.entries()[j] }
        } else {
            pre.entries()[j]
        })
}

impl DefaultChangeToken {
    /// Whether this token is a once token: after its first notification
    /// cycle it never fires again.
    pub closed spec fn once_spec(&self) -> bool {
        self.once
    }

    /// The current value of the `changed` flag.
    pub closed spec fn changed_spec(&self) -> bool {
        self.changed
    }

    /// The ghost image of the callback registry, in registration order.
    pub closed spec fn entries(&self) -> Seq<EntryModel> {
        Seq::new(
            self.callbacks@.len() as nat,
            |i: int|
                EntryModel {
                    id: self.callbacks@[i].id,
                    live: self.callbacks@[i].live,
                    callback: self.callbacks@[i].callback,
                    state: self.callbacks@[i].state,
                    fires: self.fire_counts@[i],
                },
        )
    }

    /// Initializes a new, repeatable default change token.
    pub fn new() -> (r: Self)
        ensures
            r.wf(),
            !r.once_spec(),
            !r.changed_spec(),
            r.entries().len() == 0,
    {
        Self {
            once: false,
            changed: false,
            callbacks: Vec::new(),
            next_id: 0,
            fire_counts: Ghost(Seq::empty()),
        }
    }

    /// Initializes a once token: its callbacks fire during at most one
    /// notification cycle over its entire lifetime.
    pub(crate) fn once() -> (r: Self)
        ensures
            r.wf(),
            r.once_spec(),
            !r.changed_spec(),
            r.entries().len() == 0,
    {
        Self {
            once: true,
            changed: false,
            callbacks: Vec::new(),
            next_id: 0,
            fire_counts: Ghost(Seq::empty()),
        }
    }

    /// Notifies any registered callbacks of a change.
    ///
    /// Only a call that finds the `changed` flag lowered delivers: it
    /// snapshots the live callbacks in registration order, invokes each of
    /// them exactly once outside the registry, and then lowers the flag
    /// again unless the token is a once token. Any other call is a no-op,
    /// so at most one delivery is in flight per cycle.
    pub fn notify(&mut self)
        requires
            old(self).wf(),
        ensures
            final(self).wf(),
            notify_rel(*old(self), *final(self)),
    {
        if let Some(pairs) = self.begin_notify() {
            crate::token::invoke_all(&pairs, crate::token::RELAY_DEPTH);
            self.end_notify();
        }
    }
}

impl Default for DefaultChangeToken {
    fn default() -> (r: Self)
        ensures
            r.wf(),
            !r.once_spec(),
            !r.changed_spec(),
            r.entries().len() == 0,
    {
        Self::new()
    }
}

impl ChangeToken for DefaultChangeToken {
    /// Well-formedness: the ghost delivery counts mirror the registry, and
    /// entry identifiers are unique (the identifier space can saturate at
    /// `u64::MAX`, where uniqueness is no longer claimed).
    closed spec fn wf(&self) -> bool {
        &&& self.fire_counts@.len() == self.callbacks@.len()
        &&& forall|i: int|
            0 <= i < self.callbacks@.len() ==> (#[trigger] self.callbacks@[i].id == u64::MAX
                || self.callbacks@[i].id < self.next_id)
        &&& forall|i: int, j: int|
            0 <= i < j < self.callbacks@.len() && #[trigger] self.callbacks@[i].id
                == #[trigger] self.callbacks@[j].id ==> self.callbacks@[i].id == u64::MAX
    }

    open spec fn must_poll_spec(&self) -> bool {
        false
    }

    /// Gets a value that indicates if a change has occurred.
    fn changed(&self) -> (r: bool)
        ensures
            r == self.changed_spec(),
    {
        self.changed
    }

    fn must_poll(&self) -> (r: bool) {
        false
    }

    /// Registers a callback, bound with its optional state payload, to be
    /// invoked when the token changes.
    ///
    /// Entries whose registration was handed back are pruned first (writes
    /// are rare, so this is where the deferred cleanup happens); the new
    /// entry is appended, preserving registration order, under an
    /// identifier no live entry shares (until the identifier space
    /// saturates at `u64::MAX`, which a real process cannot reach).
    fn register(&mut self, callback: Callback, state: Option<CallbackState>) -> (r:
        Registration)
        ensures
            final(self).wf(),
            final(self).once_spec() == old(self).once_spec(),
            final(self).changed_spec() == old(self).changed_spec(),
            r.id_spec() is Some,
            final(self).entries() == retained(old(self).entries()).push(
                (EntryModel {
                    id: r.id_spec().unwrap(),
                    live: true,
                    callback: callback,
                    state: state,
                    fires: 0nat,
                }),
            ),
            forall|j: int| #![auto]
                0 <= j < final(self).entries().len() - 1 && final(self).entries()[j].id
                    == r.id_spec().unwrap() ==> r.id_spec().unwrap() == u64::MAX,
    {
        let ghost orig = self.entries();
        proof {
            assert(orig.skip(orig.len() as int) =~= Seq::<EntryModel>::empty());
            assert(orig.take(orig.len() as int) + retained(orig.skip(orig.len() as int))
                =~= orig);
        }
        let mut i: usize = self.callbacks.len();
        while i > 0
            invariant
                old(self).wf(),
                i <= self.callbacks@.len(),
                i <= orig.len(),
                self.once == old(self).once,
                self.changed == old(self).changed,
                self.next_id == old(self).next_id,
                self.fire_counts@.len() == self.callbacks@.len(),
                forall|k: int|
                    0 <= k < self.callbacks@.len() ==> (#[trigger] self.callbacks@[k].id
                        == u64::MAX || self.callbacks@[k].id < self.next_id),
                forall|k: int, l: int|
                    0 <= k < l < self.callbacks@.len() && #[trigger] self.callbacks@[k].id
                        == #[trigger] self.callbacks@[l].id ==> self.callbacks@[k].id == u64::MAX,
                self.entries() == orig.take(i as int) + retained(orig.skip(i as int)),
            decreases i,
        {
            i = i - 1;
            proof {
                lemma_retained_step(orig, i as int);
            }
            let ghost before = self.entries();
            proof {
                assert(before[i as int] == orig.take(i + 1)[i as int]);
                assert(before[i as int] == orig[i as int]);
            }
            if !self.callbacks[i].live {
                self.callbacks.remove(i);
                self.fire_counts = Ghost(self.fire_counts@.remove(i as int));
                proof {
                    assert(!orig[i as int].live);
                    assert(retained(orig.skip(i as int)) =~= retained(orig.skip(i + 1)));
                    assert(self.entries() =~= before.remove(i as int));
                    let rhs = orig.take(i as int) + retained(orig.skip(i as int));
                    assert forall|k: int|
                        0 <= k < before.remove(i as int).len() implies before.remove(i as int)[k]
                        == rhs[k] by {
                        if k < i as int {
                            assert(before.remove(i as int)[k] == before[k]);
                            assert(before[k] == orig.take(i + 1)[k]);
                        } else {
                            assert(before.remove(i as int)[k] == before[k + 1]);
                            assert(before[k + 1] == retained(orig.skip(i + 1))[k - i as int]);
                            assert(rhs[k] == retained(orig.skip(i + 1))[k - i as int]);
                        }
                    }
                    assert(before.remove(i as int) =~= rhs);
                }
            } else {
                proof {
                    assert(orig[i as int].live);
                    let rhs = orig.take(i as int) + retained(orig.skip(i as int));
                    assert forall|k: int| 0 <= k < before.len() implies before[k] == rhs[k] by {
                        if k < i as int {
                            assert(before[k] == orig.take(i + 1)[k]);
                            assert(rhs[k] == orig.take(i as int)[k]);
                        } else if k == i as int {
                            assert(before[k] == orig.take(i + 1)[k]);
                            assert(rhs[k] == (seq![orig[i as int]] + retained(orig.skip(i + 1)))[
                                0]);
                        } else {
                            assert(before[k] == retained(orig.skip(i + 1))[k - (i + 1)]);
                            assert(rhs[k] == (seq![orig[i as int]] + retained(orig.skip(i + 1)))[
                                k - i as int]);
                        }
                    }
                    assert(before =~= rhs);
                }
            }
        }
        proof {
            assert(orig.skip(0) =~= orig);
            assert(self.entries() =~= retained(orig));
        }
        let ghost pruned = self.entries();
        let id: u64 = self.next_id;
        if self.next_id < u64::MAX {
            self.next_id = self.next_id + 1;
        }
        self.callbacks.push(CallbackEntry { id, live: true, callback, state });
        self.fire_counts = Ghost(self.fire_counts@.push(0nat));
        proof {
            assert(self.entries() =~= pruned.push(
                EntryModel { id, live: true, callback, state, fires: 0nat },
            ));
        }
        Registration::new(id)
    }

    /// Hands a registration back: entries it controls are no longer live,
    /// so the callback can never be invoked again, while every other entry
    /// is untouched. An empty registration does nothing.
    fn unregister(&mut self, registration: Registration)
        ensures
            unregister_rel(*old(self), *final(self), registration.id_spec()),
    {
        let id: u64 = match registration.id() {
            Some(id) => id,
            None => {
                return ;
            },
        };
        let ghost ocb = old(self).callbacks@;
        let mut j: usize = 0;
        while j < self.callbacks.len()
            invariant
                old(self).wf(),
                j <= self.callbacks@.len(),
                self.once == old(self).once,
                self.changed == old(self).changed,
                self.next_id == old(self).next_id,
                self.fire_counts@ == old(self).fire_counts@,
                self.callbacks@.len() == ocb.len(),
                registration.id_spec() == Some(id),
                forall|k: int|
                    0 <= k < ocb.len() ==> #[trigger] self.callbacks@[k] == (if k < j
                        && ocb[k].id == id {
                        CallbackEntry { live: false, ..ocb[k] }
                    } else {
                        ocb[k]
                    }),
            decreases self.callbacks@.len() - j,
        {
            if self.callbacks[j].id == id {
                let ghost before = self.callbacks@;
                let entry = self.callbacks.remove(j);
                self.callbacks.insert(
                    j,
                    CallbackEntry {
                        live: false,
                        id: entry.id,
                        callback: entry.callback,
                        state: entry.state,
                    },
                );
                proof {
                    assert(self.callbacks@ =~= before.update(
                        j as int,
                        CallbackEntry { live: false, ..before[j as int] },
                    ));
                }
            }
            j = j + 1;
        }
        proof {
            assert forall|k: int| 0 <= k < old(self).entries().len() implies self.entries()[k]
                == (if registration.id_spec() == Some(old(self).entries()[k].id) {
                EntryModel { live: false, ..old(self).entries()[k] }
            } else {
                old(self).entries()[k]
            }) by {
                assert(self.callbacks@[k] == (if ocb[k].id == id {
                    CallbackEntry { live: false, ..ocb[k] }
                } else {
                    ocb[k]
                }));
            }
        }
    }
}

impl ProactiveToken for DefaultChangeToken {
    /// Opens a notification cycle: raises the `changed` flag and snapshots
    /// the live `(callback, state)` pairs in registration order, or returns
    /// `None` when a cycle is already in flight. The caller invokes the
    /// snapshot outside the registry and closes the cycle with
    /// [`Self::end_notify`].
    fn begin_notify(&mut self) -> (r: Option<Vec<(Callback, Option<CallbackState>)>>)
        ensures
            final(self).wf(),
            old(self).changed_spec() ==> r is None && *final(self) == *old(self),
            !old(self).changed_spec() ==> {
                &&& r matches Some(pairs) && pairs@ == collected(old(self).entries())
                &&& final(self).once_spec() == old(self).once_spec()
                &&& final(self).changed_spec()
                &&& final(self).entries() == delivered(old(self).entries())
            },
    {
        if self.changed {
            return None;
        }
        self.changed = true;
        let ghost orig = self.entries();
        let mut pairs: Vec<(Callback, Option<CallbackState>)> = Vec::new();
        proof {
            assert(orig.skip(0) =~= orig);
            assert(pairs@ + collected(orig.skip(0)) =~= collected(orig));
        }
        let mut i: usize = 0;
        while i < self.callbacks.len()
            invariant
                i <= self.callbacks@.len(),
                *self == (DefaultChangeToken { changed: true, ..*old(self) }),
                orig == self.entries(),
                pairs@ + collected(orig.skip(i as int)) == collected(orig),
            decreases self.callbacks@.len() - i,
        {
            proof {
                lemma_collected_step(orig, i as int);
            }
            let entry = &self.callbacks[i];
            if entry.live {
                pairs.push((entry.callback, crate::token::clone_state(&entry.state)));
            }
            i = i + 1;
        }
        proof {
            assert(collected(orig.skip(orig.len() as int)) =~= Seq::empty());
            assert(pairs@ + Seq::empty() =~= pairs@);
        }
        self.fire_counts = Ghost(
            Seq::new(
                self.fire_counts@.len(),
                |j: int|
                    self.fire_counts@[j] + (if self.callbacks@[j].live {
                        1nat
                    } else {
                        0nat
                    }),
            ),
        );
        proof {
            assert(self.entries() =~= delivered(orig));
        }
        Some(pairs)
    }

    /// Closes a notification cycle: the `changed` flag stays raised when
    /// the token is a once token and is lowered again otherwise, re-opening
    /// the cycle.
    fn end_notify(&mut self)
        ensures
            final(self).wf(),
            final(self).once_spec() == old(self).once_spec(),
            final(self).entries() == old(self).entries(),
            final(self).changed_spec() == (old(self).changed_spec() && old(self).once_spec()),
    {
        if self.changed {
            self.changed = self.once;
        }
    }
}

/// A sequence of token states linked by successive calls of the notify
/// path: each adjacent pair satisfies [`notify_rel`].
pub open spec fn notify_chain(s: Seq<DefaultChangeToken>) -> bool {
    forall|i: int| 0 <= i < s.len() - 1 ==> notify_rel(#[trigger] s[i], s[i + 1])
}

/// Once the `changed` flag is raised, every further notify call in the
/// chain is a no-op.
proof fn lemma_notify_chain_stable(s: Seq<DefaultChangeToken>)
    requires
        s.len() >= 1,
        s[0].changed_spec(),
        notify_chain(s),
    ensures
        s.last() == s[0],
    decreases s.len(),
{
    if s.len() > 1 {
        assert(notify_rel(s[0], s[1]));
        let t = s.skip(1);
        assert forall|i: int| 0 <= i < t.len() - 1 implies notify_rel(#[trigger] t[i], t[i + 1]) by {
            assert(notify_rel(s[i + 1], s[i + 2]));
        }
        lemma_notify_chain_stable(t);
        assert(s.last() == t.last());
    }
}

/// Law of once-token idempotence: however many times the notify path of a
/// fresh once token is invoked, every entry that was live at the start is
/// delivered to exactly once in total, and no other entry is delivered to
/// at all.
pub proof fn lemma_once_token_delivers_at_most_once(s: Seq<DefaultChangeToken>)
    requires
        s.len() >= 2,
        s[0].once_spec(),
        !s[0].changed_spec(),
        notify_chain(s),
    ensures
        s.last().entries().len() == s[0].entries().len(),
        forall|k: int|
            0 <= k < s[0].entries().len() ==> #[trigger] s.last().entries()[k].fires
                == s[0].entries()[k].fires + (if s[0].entries()[k].live {
                1nat
            } else {
                0nat
            }),
{
    assert(notify_rel(s[0], s[1]));
    assert(s[1].entries() == delivered(s[0].entries()));
    let t = s.skip(1);
    assert forall|i: int| 0 <= i < t.len() - 1 implies notify_rel(#[trigger] t[i], t[i + 1]) by {
        assert(notify_rel(s[i + 1], s[i + 2]));
    }
    lemma_notify_chain_stable(t);
    assert(s.last() == s[1]);
}

/// Law of the repeatable token: a full notification cycle lowers the
/// `changed` flag again, and a second cycle delivers to the live entries a
/// second time, so deliveries count per cycle instead of being capped.
pub proof fn lemma_repeatable_token_delivers_each_cycle(
    t0: DefaultChangeToken,
    t1: DefaultChangeToken,
    t2: DefaultChangeToken,
)
    requires
        !t0.once_spec(),
        !t0.changed_spec(),
        notify_rel(t0, t1),
        notify_rel(t1, t2),
    ensures
        !t1.changed_spec(),
        t2.entries().len() == t0.entries().len(),
        forall|k: int|
            0 <= k < t0.entries().len() ==> #[trigger] t2.entries()[k].fires
                == t0.entries()[k].fires + (if t0.entries()[k].live {
                2nat
            } else {
                0nat
            }),
{
    assert(t1.entries() == delivered(t0.entries()));
    assert(t2.entries() == delivered(t1.entries()));
}

/// Law of cancellation safety: after a registration is handed back, a
/// subsequent notification delivers nothing to the entries it controlled,
/// while every other live entry still receives its delivery.
pub proof fn lemma_dropped_registration_is_never_invoked(
    t0: DefaultChangeToken,
    t1: DefaultChangeToken,
    t2: DefaultChangeToken,
    id: u64,
)
    requires
        unregister_rel(t0, t1, Some(id)),
        notify_rel(t1, t2),
    ensures
        t2.entries().len() == t0.entries().len(),
        forall|k: int|
            0 <= k < t0.entries().len() && #[trigger] t0.entries()[k].id == id ==> t2.entries()[
                k
            ].fires == t0.entries()[k].fires,
        !t0.changed_spec() ==> forall|k: int|
            0 <= k < t0.entries().len() && #[trigger] t0.entries()[k].id != id
                && t0.entries()[k].live ==> t2.entries()[k].fires == t0.entries()[k].fires + 1,
{
    assert(t1.changed_spec() == t0.changed_spec());
    if !t0.changed_spec() {
        assert(t2.entries() == delivered(t1.entries()));
    }
}

/// Unfolds one step of [`collected`] at position `i` of `s`.
proof fn lemma_collected_step(s: Seq<EntryModel>, i: int)
    requires
        0 <= i < s.len(),
    ensures
        collected(s.skip(i)) == (if s[i].live {
            seq![(s[i].callback, s[i].state)]
        } else {
            Seq::empty()
        }) + collected(s.skip(i + 1)),
{
    assert(s.skip(i).skip(1) =~= s.skip(i + 1));
    assert(s.skip(i)[0] == s[i]);
}

/// Unfolds one step of [`retained`] at position `i` of `s`.
proof fn lemma_retained_step(s: Seq<EntryModel>, i: int)
    requires
        0 <= i < s.len(),
    ensures
        retained(s.skip(i)) == (if s[i].live {
            seq![s[i]]
        } else {
            Seq::empty()
        }) + retained(s.skip(i + 1)),
{
    assert(s.skip(i).skip(1) =~= s.skip(i + 1));
    assert(s.skip(i)[0] == s[i]);
}

} // verus!
