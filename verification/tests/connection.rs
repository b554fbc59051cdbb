//! Connection establishment and lifecycle: address validation, the
//! bounded retry budget, the capped doubling delay, and idempotent close.

use holochain_client::connect::{
    backoff_delay_ms, connect_step, connect_with_transcript, validate_address, AttemptOutcome,
    ConnectDecision, RetryPolicy,
};
use holochain_client::error::ConductorApiError;
use holochain_client::session::ConnectionState;

#[test]
fn well_formed_address_is_accepted() {
    assert_eq!(validate_address("ws://localhost:30000"), Ok(()));
    assert_eq!(validate_address("ws://127.0.0.1:8888"), Ok(()));
}

#[test]
fn malformed_address_is_rejected_before_any_attempt() {
    assert_eq!(
        validate_address("not a url"),
        Err(ConductorApiError::ValidationError("not a url".to_string()))
    );
    assert_eq!(
        validate_address("127.0.0.1:8888"),
        Err(ConductorApiError::ValidationError("127.0.0.1:8888".to_string()))
    );
}

#[test]
fn connect_succeeds_once_transport_comes_up_within_budget() {
    let policy = RetryPolicy::new(5, 100, 5_000);
    let outcomes = vec![
        AttemptOutcome::Failed("refused".to_string()),
        AttemptOutcome::Failed("refused".to_string()),
        AttemptOutcome::Connected,
        AttemptOutcome::Connected,
        AttemptOutcome::Connected,
    ];
    assert_eq!(connect_with_transcript(&policy, &outcomes), Ok(2));
}

#[test]
fn connect_fails_with_last_transport_error_once_budget_is_exhausted() {
    let policy = RetryPolicy::new(3, 100, 5_000);
    let outcomes = vec![
        AttemptOutcome::Failed("refused early".to_string()),
        AttemptOutcome::Failed("refused again".to_string()),
        AttemptOutcome::Failed("refused last".to_string()),
        AttemptOutcome::Connected,
    ];
    assert_eq!(
        connect_with_transcript(&policy, &outcomes),
        Err(ConductorApiError::TransportError("refused last".to_string()))
    );
}

#[test]
fn retry_delay_doubles_up_to_the_cap() {
    let policy = RetryPolicy::new(10, 100, 5_000);
    assert_eq!(backoff_delay_ms(&policy, 0), 100);
    assert_eq!(backoff_delay_ms(&policy, 1), 200);
    assert_eq!(backoff_delay_ms(&policy, 2), 400);
    assert_eq!(backoff_delay_ms(&policy, 3), 800);
    assert_eq!(backoff_delay_ms(&policy, 4), 1_600);
    assert_eq!(backoff_delay_ms(&policy, 5), 3_200);
    assert_eq!(backoff_delay_ms(&policy, 6), 5_000);
    assert_eq!(backoff_delay_ms(&policy, 7), 5_000);
}

#[test]
fn connect_step_retries_then_gives_up() {
    let policy = RetryPolicy::new(2, 100, 5_000);
    assert_eq!(
        connect_step(&policy, 0, &AttemptOutcome::Connected),
        ConnectDecision::Ready
    );
    assert_eq!(
        connect_step(&policy, 0, &AttemptOutcome::Failed("refused".to_string())),
        ConnectDecision::RetryAfter { delay_ms: 100 }
    );
    assert_eq!(
        connect_step(&policy, 1, &AttemptOutcome::Failed("refused".to_string())),
        ConnectDecision::GiveUp { last_error: "refused".to_string() }
    );
}

#[test]
fn default_policy_is_well_formed() {
    let policy = RetryPolicy::default();
    assert_eq!(policy.max_attempts, 5);
    assert_eq!(policy.base_delay_ms, 100);
    assert_eq!(policy.max_delay_ms, 5_000);
}

#[test]
fn close_is_idempotent() {
    let mut once = ConnectionState::new();
    assert_eq!(once.ensure_open(), Ok(()));
    once.close();
    assert!(once.ensure_open().is_err());

    let mut twice = ConnectionState::new();
    twice.close();
    twice.close();
    assert_eq!(once, twice);
    assert_eq!(
        twice.ensure_open(),
        Err(ConductorApiError::TransportError("connection is closed".to_string()))
    );
}
