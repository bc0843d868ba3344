use vstd::prelude::*;

mod composite;
mod default;
mod global;
mod never;
mod shared;
mod single;
mod token;

pub use composite::CompositeChangeToken;
pub use default::DefaultChangeToken;
pub use default::{
    collected, delivered, lemma_dropped_registration_is_never_invoked,
    lemma_once_token_delivers_at_most_once, lemma_repeatable_token_delivers_each_cycle,
    notify_chain, notify_rel, retained, unregister_rel,
};
pub use global::{on_change, DriverLink, SubscriptionImpl, TokenProducer};
pub use never::NeverChangeToken;
pub use shared::{SharedChangeToken, TokenLink, TokenPred};
pub use single::{lemma_single_token_delivers_at_most_once, single_notify_chain, SingleChangeToken};
pub use token::{AnyToken, Callback, CallbackState, ChangeToken, EntryModel, ProactiveToken, Registration, RELAY_DEPTH};

verus! {

/// Defines the behavior of an opaque subscription.
pub trait Subscription {
}

} // verus!
