use change_token::{
    on_change, AnyToken, Callback, CallbackState, DefaultChangeToken, SharedChangeToken,
    SingleChangeToken, TokenProducer,
};
use std::mem::ManuallyDrop;
use std::sync::atomic::{AtomicBool, AtomicU8, Ordering};
use std::sync::Arc;

#[test]
fn changed_should_signal_consumer() {
    // arrange
    let token = SharedChangeToken::<DefaultChangeToken>::default();
    let fired = Arc::new(AtomicBool::default());
    let producer = token.clone();
    let _unused = on_change(
        TokenProducer::Shared(producer),
        Callback::Raise,
        Some(CallbackState::Flag(fired.clone())),
    );

    // act
    token.notify();

    // assert
    assert!(fired.load(Ordering::SeqCst));
}

#[test]
fn changed_should_not_signal_consumer_after_registration_is_dropped() {
    // arrange
    let token = SharedChangeToken::<SingleChangeToken>::default();
    let fired = Arc::new(AtomicBool::default());
    let producer = token.clone();
    let subscription = ManuallyDrop::new(on_change(
        TokenProducer::SharedOnce(producer),
        Callback::Raise,
        Some(CallbackState::Flag(fired.clone())),
    ));

    // act
    let _ = ManuallyDrop::into_inner(subscription);
    token.notify();

    // assert
    assert!(!fired.load(Ordering::SeqCst));
}

#[test]
fn consumer_should_be_invoked_once_per_produced_token() {
    // a producer yielding distinct once tokens: triggering the first
    // invokes the consumer once and re-subscribes to the second;
    // triggering the second invokes it a second time
    let first = SharedChangeToken::<SingleChangeToken>::default();
    let second = SharedChangeToken::<SingleChangeToken>::default();
    let series = vec![
        AnyToken::SharedOnce(first.clone()),
        AnyToken::SharedOnce(second.clone()),
    ];
    let counter = Arc::new(AtomicU8::default());
    let _subscription = on_change(
        TokenProducer::Series(series),
        Callback::Increment,
        Some(CallbackState::Counter(counter.clone())),
    );

    first.notify();
    assert_eq!(counter.load(Ordering::SeqCst), 1);

    second.notify();
    assert_eq!(counter.load(Ordering::SeqCst), 2);
}

#[test]
fn dropping_the_subscription_should_suppress_later_tokens() {
    let first = SharedChangeToken::<SingleChangeToken>::default();
    let second = SharedChangeToken::<SingleChangeToken>::default();
    let series = vec![
        AnyToken::SharedOnce(first.clone()),
        AnyToken::SharedOnce(second.clone()),
    ];
    let counter = Arc::new(AtomicU8::default());
    let subscription = on_change(
        TokenProducer::Series(series),
        Callback::Increment,
        Some(CallbackState::Counter(counter.clone())),
    );

    drop(subscription);
    first.notify();
    second.notify();

    assert_eq!(counter.load(Ordering::SeqCst), 0);
}

#[test]
fn repeatable_producer_should_signal_on_every_cycle() {
    let token = SharedChangeToken::<DefaultChangeToken>::default();
    let counter = Arc::new(AtomicU8::default());
    let _subscription = on_change(
        TokenProducer::Shared(token.clone()),
        Callback::Increment,
        Some(CallbackState::Counter(counter.clone())),
    );

    token.notify();
    token.notify();

    assert_eq!(counter.load(Ordering::SeqCst), 2);
}

#[test]
fn exhausted_series_should_yield_a_poll_only_token() {
    // once the series runs out the producer yields a never token, which
    // is retained for polling; no further consumer invocation happens
    let only = SharedChangeToken::<SingleChangeToken>::default();
    let series = vec![AnyToken::SharedOnce(only.clone())];
    let counter = Arc::new(AtomicU8::default());
    let _subscription = on_change(
        TokenProducer::Series(series),
        Callback::Increment,
        Some(CallbackState::Counter(counter.clone())),
    );

    only.notify();
    only.notify();

    assert_eq!(counter.load(Ordering::SeqCst), 1);
}
