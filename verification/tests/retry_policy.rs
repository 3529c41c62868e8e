//! The retry policy over recorded attempt outcomes: success after
//! retryable failures, terminal short-circuit, and exhaustion.

use weathr::error::{GeocodingError, NetworkErrorKind};
use weathr::retry::{fetch_with_retry, RetryOutcome, RetryState, RetryStep, MAX_RETRIES};
use weathr::types::GeocodedLocation;

fn berlin() -> GeocodedLocation {
    GeocodedLocation {
        latitude_centi: 5252,
        longitude_centi: 1341,
        name: "Berlin".to_string(),
        country: Some("Germany".to_string()),
    }
}

fn net_fault(tag: &str) -> GeocodingError {
    GeocodingError::Unreachable(NetworkErrorKind::Timeout {
        url: tag.to_string(),
        seconds: 10,
    })
}

#[test]
fn success_on_first_attempt_costs_nothing() {
    let outcomes: Vec<Result<GeocodedLocation, GeocodingError>> =
        vec![Ok(berlin()), Err(net_fault("a")), Err(net_fault("b"))];
    let report = fetch_with_retry(outcomes);
    assert!(matches!(report.outcome, RetryOutcome::Success(loc) if loc == berlin()));
    assert_eq!(report.calls, 1);
    assert_eq!(report.total_delay_ms, 0);
}

#[test]
fn success_after_one_failure_sleeps_500() {
    let outcomes: Vec<Result<GeocodedLocation, GeocodingError>> =
        vec![Err(net_fault("a")), Ok(berlin()), Err(net_fault("b"))];
    let report = fetch_with_retry(outcomes);
    assert!(matches!(report.outcome, RetryOutcome::Success(loc) if loc == berlin()));
    assert_eq!(report.calls, 2);
    assert_eq!(report.total_delay_ms, 500);
}

#[test]
fn success_after_two_failures_sleeps_1500() {
    let outcomes: Vec<Result<GeocodedLocation, GeocodingError>> =
        vec![Err(net_fault("a")), Err(net_fault("b")), Ok(berlin())];
    let report = fetch_with_retry(outcomes);
    assert!(matches!(report.outcome, RetryOutcome::Success(loc) if loc == berlin()));
    assert_eq!(report.calls, 3);
    assert_eq!(report.total_delay_ms, 500 + 1000);
}

#[test]
fn terminal_error_short_circuits_without_sleep() {
    let not_found = GeocodingError::CityNotFound {
        city: "atlantis".to_string(),
    };
    let outcomes: Vec<Result<GeocodedLocation, GeocodingError>> =
        vec![Err(not_found.clone()), Ok(berlin()), Ok(berlin())];
    let report = fetch_with_retry(outcomes);
    assert!(matches!(report.outcome, RetryOutcome::Failed(e) if e == not_found));
    assert_eq!(report.calls, 1, "exactly one call is made");
    assert_eq!(report.total_delay_ms, 0, "no sleep occurs");
}

#[test]
fn exhaustion_wraps_the_final_error() {
    let outcomes: Vec<Result<GeocodedLocation, GeocodingError>> =
        vec![Err(net_fault("a")), Err(net_fault("b")), Err(net_fault("c"))];
    let report = fetch_with_retry(outcomes);
    match report.outcome {
        RetryOutcome::Exhausted { attempts, last } => {
            assert_eq!(attempts, MAX_RETRIES);
            assert_eq!(last, Some(net_fault("c")));
        }
        _ => panic!("expected exhaustion"),
    }
    assert_eq!(report.calls, 3);
    assert_eq!(report.total_delay_ms, 500 + 1000, "no sleep after the final attempt");
}

#[test]
fn step_machine_walks_the_backoff_series() {
    let state = RetryState::begin();
    assert_eq!(state.attempt, 1);
    assert_eq!(state.delay_ms, 500);
    let step: RetryStep<GeocodedLocation, GeocodingError> = state.step(Err(net_fault("a")));
    match step {
        RetryStep::SleepAndRetry { delay_ms, next } => {
            assert_eq!(delay_ms, 500);
            assert_eq!(next.attempt, 2);
            assert_eq!(next.delay_ms, 1000);
            let step2: RetryStep<GeocodedLocation, GeocodingError> =
                next.step(Err(net_fault("b")));
            match step2 {
                RetryStep::SleepAndRetry { delay_ms, next } => {
                    assert_eq!(delay_ms, 1000);
                    assert_eq!(next.attempt, 3);
                    assert_eq!(next.delay_ms, 2000);
                    let step3: RetryStep<GeocodedLocation, GeocodingError> =
                        next.step(Err(net_fault("c")));
                    assert!(matches!(
                        step3,
                        RetryStep::Done(RetryOutcome::Exhausted { attempts: 3, .. })
                    ));
                }
                _ => panic!("second retryable failure must retry"),
            }
        }
        _ => panic!("first retryable failure must retry"),
    }
}
