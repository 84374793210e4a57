use bitcoin_da::backoff::{Backoff, BackoffAndCancellable};

#[test]
fn delay_grows_geometrically_and_caps() {
    // base 1s, max 5s: 1s, 2s, 4s, 5s, 5s, ...
    let mut backoff = Backoff::new(1000, 5000);
    assert_eq!(backoff.delay(), 1000);
    assert_eq!(backoff.delay(), 2000);
    assert_eq!(backoff.delay(), 4000);
    assert_eq!(backoff.delay(), 5000);
    assert_eq!(backoff.delay(), 5000);
    assert_eq!(backoff.delay(), 5000);
}

#[test]
fn reset_restores_base_delay_after_growth() {
    let mut backoff = Backoff::new(1000, 5000);
    assert_eq!(backoff.delay(), 1000);
    assert_eq!(backoff.delay(), 2000);
    assert_eq!(backoff.delay(), 4000);
    backoff.reset();
    assert_eq!(backoff.delay(), 1000);
    assert_eq!(backoff.delay(), 2000);
}

#[test]
fn reset_on_fresh_backoff_is_harmless() {
    let mut backoff = Backoff::new(250, 8000);
    backoff.reset();
    assert_eq!(backoff.delay(), 250);
}

#[test]
fn cap_is_exact_when_doubling_overshoots() {
    let mut backoff = Backoff::new(3, 10);
    assert_eq!(backoff.delay(), 3);
    assert_eq!(backoff.delay(), 6);
    assert_eq!(backoff.delay(), 10);
    assert_eq!(backoff.delay(), 10);
}

#[test]
fn equal_base_and_max_stays_constant() {
    let mut backoff = Backoff::new(700, 700);
    assert_eq!(backoff.delay(), 700);
    assert_eq!(backoff.delay(), 700);
}

#[test]
fn default_is_one_to_five_seconds() {
    let mut backoff = Backoff::default();
    assert_eq!(backoff.delay(), 1000);
    assert_eq!(backoff.delay(), 2000);
    assert_eq!(backoff.delay(), 4000);
    assert_eq!(backoff.delay(), 5000);
}

#[test]
fn clone_copies_the_current_state() {
    let mut backoff = Backoff::new(100, 1000);
    assert_eq!(backoff.delay(), 100);
    let mut copy = backoff.clone();
    assert_eq!(copy.delay(), 200);
    assert_eq!(backoff.delay(), 200);
}

#[test]
fn pairing_observes_cancellation() {
    let token = tokio_util::sync::CancellationToken::new();
    let mut pair = BackoffAndCancellable::new(Backoff::new(1000, 5000), token.clone());
    assert!(!pair.is_cancelled());
    assert_eq!(pair.backoff.delay(), 1000);
    token.cancel();
    assert!(pair.is_cancelled());
    // Cancellation is visible through a clone as well, and is irreversible.
    let pair_clone = pair.clone();
    assert!(pair_clone.is_cancelled());
}
