use change_token::{
    Callback, CallbackState, ChangeToken, DefaultChangeToken, NeverChangeToken, Registration,
    SingleChangeToken,
};
use std::sync::atomic::{AtomicU8, Ordering};
use std::sync::Arc;

#[test]
fn default_change_token_should_be_unchanged() {
    // arrange
    let token = DefaultChangeToken::default();

    // act
    let changed = token.changed();

    // assert
    assert_eq!(changed, false);
}

#[test]
fn default_change_token_should_invoke_callback() {
    // arrange
    let counter = Arc::new(AtomicU8::default());
    let mut token = DefaultChangeToken::default();
    let _registration = token.register(
        Callback::Increment,
        Some(CallbackState::Counter(counter.clone())),
    );

    // act
    token.notify();

    // assert
    assert_eq!(counter.load(Ordering::SeqCst), 1);
}

#[test]
fn default_change_token_should_invoke_callback_multiple_times() {
    // arrange
    let counter = Arc::new(AtomicU8::default());
    let mut token = DefaultChangeToken::default();
    let _registration = token.register(
        Callback::Increment,
        Some(CallbackState::Counter(counter.clone())),
    );
    token.notify();

    // act
    token.notify();

    // assert
    assert_eq!(counter.load(Ordering::SeqCst), 2);
}

#[test]
fn single_change_token_should_be_unchanged() {
    // arrange
    let token = SingleChangeToken::default();

    // act
    let changed = token.changed();

    // assert
    assert_eq!(changed, false);
}

#[test]
fn single_change_token_should_be_changed() {
    // arrange
    let mut token = SingleChangeToken::default();

    // act
    token.notify();

    // assert
    assert_eq!(token.changed(), true);
}

#[test]
fn single_change_token_should_invoke_callback() {
    // arrange
    let counter = Arc::new(AtomicU8::default());
    let mut token = SingleChangeToken::default();
    let _registration = token.register(
        Callback::Increment,
        Some(CallbackState::Counter(counter.clone())),
    );

    // act
    token.notify();

    // assert
    assert_eq!(counter.load(Ordering::SeqCst), 1);
}

#[test]
fn single_change_token_should_not_invoke_callback_more_than_once() {
    // arrange
    let counter = Arc::new(AtomicU8::default());
    let mut token = SingleChangeToken::default();
    let _registration = token.register(
        Callback::Increment,
        Some(CallbackState::Counter(counter.clone())),
    );
    token.notify();

    // act
    token.notify();

    // assert
    assert_eq!(counter.load(Ordering::SeqCst), 1);
}

#[test]
fn never_change_token_should_stay_unchanged_and_require_polling() {
    // arrange
    let mut token = NeverChangeToken::new();

    // act
    let registration = token.register(Callback::Increment, None);

    // assert
    assert_eq!(token.changed(), false);
    assert_eq!(token.must_poll(), true);
    assert!(registration.id().is_none());
}

#[test]
fn two_callbacks_should_each_fire_once_per_cycle() {
    // register C1 then C2 on a fresh repeatable token; one notification
    // increments both exactly once; a second cycle brings both to two
    let first = Arc::new(AtomicU8::default());
    let second = Arc::new(AtomicU8::default());
    let mut token = DefaultChangeToken::new();
    let _c1 = token.register(
        Callback::Increment,
        Some(CallbackState::Counter(first.clone())),
    );
    let _c2 = token.register(
        Callback::Increment,
        Some(CallbackState::Counter(second.clone())),
    );

    token.notify();

    assert_eq!(first.load(Ordering::SeqCst), 1);
    assert_eq!(second.load(Ordering::SeqCst), 1);

    token.notify();

    assert_eq!(first.load(Ordering::SeqCst), 2);
    assert_eq!(second.load(Ordering::SeqCst), 2);
}

#[test]
fn unregistered_callback_should_not_fire_while_others_still_do() {
    // handing a registration back cancels exactly that callback
    let dropped = Arc::new(AtomicU8::default());
    let kept = Arc::new(AtomicU8::default());
    let mut token = DefaultChangeToken::new();
    let first = token.register(
        Callback::Increment,
        Some(CallbackState::Counter(dropped.clone())),
    );
    let _second = token.register(
        Callback::Increment,
        Some(CallbackState::Counter(kept.clone())),
    );

    token.unregister(first);
    token.notify();

    assert_eq!(dropped.load(Ordering::SeqCst), 0);
    assert_eq!(kept.load(Ordering::SeqCst), 1);
}

#[test]
fn empty_registration_should_unregister_nothing() {
    let counter = Arc::new(AtomicU8::default());
    let mut token = DefaultChangeToken::new();
    let _registration = token.register(
        Callback::Increment,
        Some(CallbackState::Counter(counter.clone())),
    );

    token.unregister(Registration::none());
    token.notify();

    assert_eq!(counter.load(Ordering::SeqCst), 1);
}

#[test]
fn callback_registered_after_first_cycle_should_join_the_next() {
    let early = Arc::new(AtomicU8::default());
    let late = Arc::new(AtomicU8::default());
    let mut token = DefaultChangeToken::new();
    let _first = token.register(
        Callback::Increment,
        Some(CallbackState::Counter(early.clone())),
    );
    token.notify();
    let _second = token.register(
        Callback::Increment,
        Some(CallbackState::Counter(late.clone())),
    );

    token.notify();

    assert_eq!(early.load(Ordering::SeqCst), 2);
    assert_eq!(late.load(Ordering::SeqCst), 1);
}
