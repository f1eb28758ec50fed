use xpub_scan::error::{LookupError, LookupFailure};
use xpub_scan::retry::{retry_step, run_lookup, AttemptOutcome, RetryDecision, RetryState};

const TRANSPORT: AttemptOutcome = AttemptOutcome::Failure { error: LookupError::Transport };
const MALFORMED: AttemptOutcome = AttemptOutcome::Failure { error: LookupError::Malformed };

#[test]
fn backoff_shape_two_failures_then_success() {
    let outcomes = vec![
        TRANSPORT,
        TRANSPORT,
        AttemptOutcome::Success { balance: 1234, tx_count: 7 },
        AttemptOutcome::Success { balance: 0, tx_count: 0 },
        AttemptOutcome::Success { balance: 0, tx_count: 0 },
    ];
    let (result, delays) = run_lookup(&outcomes);
    assert_eq!(result, Ok((1234, 7)));
    assert_eq!(delays, vec![1, 2]);
}

#[test]
fn first_attempt_success_sleeps_never() {
    let outcomes = vec![
        AttemptOutcome::Success { balance: 5, tx_count: 1 },
        TRANSPORT,
        TRANSPORT,
        TRANSPORT,
        TRANSPORT,
    ];
    let (result, delays) = run_lookup(&outcomes);
    assert_eq!(result, Ok((5, 1)));
    assert!(delays.is_empty());
}

#[test]
fn exhausted_attempts_reach_max_retries() {
    let outcomes = vec![TRANSPORT; 5];
    let (result, delays) = run_lookup(&outcomes);
    assert_eq!(result, Err(LookupFailure::MaxRetriesReached));
    // Four delays precede attempts two to five, doubling each time.
    assert_eq!(delays, vec![1, 2, 4, 8]);
}

#[test]
fn malformed_response_fails_at_once_and_is_not_retried() {
    let outcomes = vec![MALFORMED, TRANSPORT, TRANSPORT, TRANSPORT, TRANSPORT];
    let (result, delays) = run_lookup(&outcomes);
    assert_eq!(result, Err(LookupFailure::Malformed));
    assert!(delays.is_empty());

    // Even after transport retries have begun, a malformed response ends
    // the lookup at once.
    let outcomes = vec![TRANSPORT, MALFORMED, TRANSPORT, TRANSPORT, TRANSPORT];
    let (result, delays) = run_lookup(&outcomes);
    assert_eq!(result, Err(LookupFailure::Malformed));
    assert_eq!(delays, vec![1]);
}

#[test]
fn retry_step_decisions_match_the_policy() {
    let start = RetryState::start();
    assert_eq!(start, RetryState { attempts_made: 0, next_backoff: 1 });

    match retry_step(&start, &TRANSPORT) {
        RetryDecision::RetryAfter { delay, next } => {
            assert_eq!(delay, 1);
            assert_eq!(next, RetryState { attempts_made: 1, next_backoff: 2 });
        }
        other => panic!("expected a retry, got {:?}", other),
    }

    let last = RetryState { attempts_made: 4, next_backoff: 16 };
    assert_eq!(
        retry_step(&last, &TRANSPORT),
        RetryDecision::Failed { failure: LookupFailure::MaxRetriesReached }
    );
    assert_eq!(
        retry_step(&start, &AttemptOutcome::Success { balance: 2, tx_count: 3 }),
        RetryDecision::Done { balance: 2, tx_count: 3 }
    );
}
