use bitcoin_da::classify::{classify_failure, RpcFailure};
use bitcoin_da::gate::FundingGate;

#[test]
fn gate_starts_empty() {
    let gate = FundingGate::new();
    assert!(gate.get().is_none());
}

#[test]
fn gate_caches_a_successful_resolution() {
    let mut gate = FundingGate::new();
    let granted = gate.resolve(Ok(String::from("sys1qaddr"))).unwrap();
    assert_eq!(granted, "sys1qaddr");
    assert_eq!(gate.get().unwrap(), "sys1qaddr");
}

#[test]
fn gate_never_recomputes_after_success() {
    let mut gate = FundingGate::new();
    gate.resolve(Ok(String::from("first"))).unwrap();
    // A later attempt outcome, whatever it is, is ignored: the cached
    // address is granted again.
    let granted = gate.resolve(Ok(String::from("second"))).unwrap();
    assert_eq!(granted, "first");
    let granted = gate.resolve(Err(String::from("node down"))).unwrap();
    assert_eq!(granted, "first");
    assert_eq!(gate.get().unwrap(), "first");
}

#[test]
fn gate_failure_is_non_retriable_and_not_cached() {
    let mut gate = FundingGate::new();
    let err = gate.resolve(Err(String::from("createwallet failed"))).unwrap_err();
    assert!(!err.is_retriable);
    assert_eq!(
        err.cause,
        "Failed to ensure own wallet and address for label 'da_funding': createwallet failed"
    );
    // The failure was not cached: a following success is granted and cached.
    assert!(gate.get().is_none());
    let granted = gate.resolve(Ok(String::from("later"))).unwrap();
    assert_eq!(granted, "later");
    assert_eq!(gate.get().unwrap(), "later");
}

#[test]
fn connect_timeout_classifies_as_retriable() {
    let err = classify_failure(RpcFailure::ConnectTimeout {
        message: String::from("could not connect"),
    });
    assert!(err.is_retriable);
    assert_eq!(err.cause, "could not connect");
}

#[test]
fn other_transport_failure_classifies_as_non_retriable() {
    let err = classify_failure(RpcFailure::Transport {
        message: String::from("HTTP error: 500 - internal"),
    });
    assert!(!err.is_retriable);
}

#[test]
fn decode_failure_classifies_as_non_retriable() {
    let err = classify_failure(RpcFailure::Decode {
        message: String::from("Invalid JSON response"),
    });
    assert!(!err.is_retriable);
}

#[test]
fn backend_error_classifies_as_non_retriable_by_default() {
    let err = classify_failure(RpcFailure::Backend {
        code: -8,
        message: String::from("Invalid parameter"),
    });
    assert!(!err.is_retriable);
    assert_eq!(err.cause, "Invalid parameter");
}

#[test]
fn backend_error_with_transient_pattern_classifies_as_retriable() {
    let err = classify_failure(RpcFailure::Backend {
        code: -8,
        message: String::from("the request timed out"),
    });
    assert!(err.is_retriable);
}

#[test]
fn transient_pattern_must_match_exactly() {
    let err = classify_failure(RpcFailure::Backend {
        code: -8,
        message: String::from("timedout"),
    });
    assert!(!err.is_retriable);
}
