use change_token::{
    AnyToken, Callback, CallbackState, ChangeToken, CompositeChangeToken, DefaultChangeToken,
    NeverChangeToken, SharedChangeToken, SingleChangeToken,
};
use std::sync::atomic::{AtomicU8, Ordering};
use std::sync::Arc;

#[test]
fn changed_should_be_false_when_no_changes_have_occurred() {
    // arrange
    let token = CompositeChangeToken::new(Vec::new());

    // act
    let changed = token.changed();

    // assert
    assert_eq!(changed, false);
}

#[test]
fn changed_should_be_true_if_child_has_changed() {
    // arrange
    let mut child = SingleChangeToken::new();

    child.notify();

    let child = AnyToken::Single(child);
    let tokens = vec![child];
    let token = CompositeChangeToken::new(tokens);

    // act
    let changed = token.changed();

    // assert
    assert_eq!(changed, true);
}

#[test]
fn changed_should_be_true_if_ever_notified() {
    // arrange
    let child = AnyToken::Single(SingleChangeToken::new());
    let tokens = vec![child];
    let token = CompositeChangeToken::new(tokens);

    token.notify();

    // act
    let changed = token.changed();

    // assert
    assert_eq!(changed, true);
}

#[test]
fn must_poll_should_be_true_all_tokens_do_not_support_callbacks() {
    // arrange
    let child = AnyToken::Never(NeverChangeToken::new());
    let tokens = vec![child];
    let token = CompositeChangeToken::new(tokens);

    // act
    let poll_required = token.must_poll();

    // assert
    assert_eq!(poll_required, true);
}

#[test]
fn must_poll_should_be_false_if_at_least_one_token_supports_callbacks() {
    // arrange
    let tokens = vec![
        AnyToken::Never(NeverChangeToken::new()),
        AnyToken::Single(SingleChangeToken::new()),
    ];
    let token = CompositeChangeToken::new(tokens);

    // act
    let poll_required = token.must_poll();

    // assert
    assert_eq!(poll_required, false);
}

#[test]
fn child_should_trigger_parent_callbacks() {
    // arrange
    let child = SharedChangeToken::<DefaultChangeToken>::default();
    let tokens = vec![AnyToken::Shared(child.clone())];
    let mut token = CompositeChangeToken::new(tokens);
    let counter = Arc::new(AtomicU8::default());
    let _registration = token.register(
        Callback::Increment,
        Some(CallbackState::Counter(counter.clone())),
    );

    // act
    child.notify();

    // assert
    assert_eq!(counter.load(Ordering::SeqCst), 1);
}

#[test]
fn child_should_not_trigger_callbacks_multiple_times() {
    // arrange
    let child = SharedChangeToken::<DefaultChangeToken>::default();
    let tokens = vec![AnyToken::Shared(child.clone())];
    let mut token = CompositeChangeToken::new(tokens);
    let counter = Arc::new(AtomicU8::default());
    let _registration = token.register(
        Callback::Increment,
        Some(CallbackState::Counter(counter.clone())),
    );

    child.notify();

    // act
    child.notify();

    // assert
    assert_eq!(counter.load(Ordering::SeqCst), 1);
}

#[test]
fn notify_should_not_trigger_callbacks_multiple_times() {
    // arrange
    let child = AnyToken::Never(NeverChangeToken::new());
    let tokens = vec![child];
    let mut token = CompositeChangeToken::new(tokens);
    let counter = Arc::new(AtomicU8::default());
    let _registration = token.register(
        Callback::Increment,
        Some(CallbackState::Counter(counter.clone())),
    );

    token.notify();

    // act
    token.notify();

    // assert
    assert_eq!(counter.load(Ordering::SeqCst), 1);
}

#[test]
fn must_poll_should_be_true_for_two_never_tokens() {
    let tokens = vec![
        AnyToken::Never(NeverChangeToken::new()),
        AnyToken::Never(NeverChangeToken::new()),
    ];
    let token = CompositeChangeToken::new(tokens);

    assert_eq!(token.must_poll(), true);
}

#[test]
fn triggering_one_child_should_not_touch_the_other() {
    // children A and B are once tokens; triggering only A makes the
    // composite changed without B, and the composite's consumer fires
    // exactly once even though A is triggered twice
    let a = SharedChangeToken::<SingleChangeToken>::default();
    let b = SharedChangeToken::<SingleChangeToken>::default();
    let tokens = vec![
        AnyToken::SharedOnce(a.clone()),
        AnyToken::SharedOnce(b.clone()),
    ];
    let mut composite = CompositeChangeToken::new(tokens);
    let counter = Arc::new(AtomicU8::default());
    let _registration = composite.register(
        Callback::Increment,
        Some(CallbackState::Counter(counter.clone())),
    );

    a.notify();
    a.notify();

    assert_eq!(composite.changed(), true);
    assert_eq!(b.changed(), false);
    assert_eq!(counter.load(Ordering::SeqCst), 1);
}

#[test]
fn empty_composite_should_still_deliver_direct_notifications() {
    // a composite of zero children reports no change and requires
    // polling; registering directly on it and notifying still invokes
    // the callback exactly once
    let mut composite = CompositeChangeToken::new(Vec::new());

    assert_eq!(composite.changed(), false);
    assert_eq!(composite.must_poll(), true);

    let counter = Arc::new(AtomicU8::default());
    let _registration = composite.register(
        Callback::Increment,
        Some(CallbackState::Counter(counter.clone())),
    );

    composite.notify();
    composite.notify();

    assert_eq!(counter.load(Ordering::SeqCst), 1);
}

#[test]
fn owned_repeatable_child_should_be_polled_directly() {
    // an owned repeatable child is wired with a relay and polled fresh on
    // every changed() call
    let tokens = vec![AnyToken::Default(DefaultChangeToken::new())];
    let token = CompositeChangeToken::new(tokens);

    assert_eq!(token.must_poll(), false);
    assert_eq!(token.changed(), false);
}
