use uadng_updater::errors::UpdateError;
use uadng_updater::retry::AttemptOutcome;
use uadng_updater::retry::RetryDecision;
use uadng_updater::retry::RunResult;
use uadng_updater::retry::backoff_ms;
use uadng_updater::retry::classify_status;
use uadng_updater::retry::drive_retries;
use uadng_updater::retry::retry_step;

#[test]
fn backoff_follows_schedule() {
    let schedule: [u64; 5] = [1000, 2000, 3000, 5000, 8000];
    for n in 1u32..=5 {
        let index = ((n - 1) as usize).min(4);
        assert_eq!(backoff_ms(n), schedule[index]);
    }
    // the last entry is reused once attempts outrun the schedule
    assert_eq!(backoff_ms(6), 8000);
    assert_eq!(backoff_ms(100), 8000);
}

#[test]
fn status_classification() {
    assert_eq!(classify_status(200), AttemptOutcome::Success);
    assert_eq!(classify_status(204), AttemptOutcome::Success);
    assert_eq!(classify_status(299), AttemptOutcome::Success);
    assert_eq!(classify_status(429), AttemptOutcome::RateLimitResponse);
    assert_eq!(classify_status(300), AttemptOutcome::OtherStatus);
    assert_eq!(classify_status(404), AttemptOutcome::OtherStatus);
    assert_eq!(classify_status(500), AttemptOutcome::OtherStatus);
    assert_eq!(classify_status(199), AttemptOutcome::OtherStatus);
}

#[test]
fn step_success_is_done() {
    assert_eq!(retry_step(1, AttemptOutcome::Success), RetryDecision::Done);
    assert_eq!(retry_step(5, AttemptOutcome::Success), RetryDecision::Done);
}

#[test]
fn step_other_status_fails_at_once() {
    assert_eq!(
        retry_step(1, AttemptOutcome::OtherStatus),
        RetryDecision::Fail(UpdateError::RateLimited)
    );
}

#[test]
fn step_rate_limit_retries_then_fails_rate_limited() {
    assert_eq!(
        retry_step(1, AttemptOutcome::RateLimitResponse),
        RetryDecision::RetryAfter(1000)
    );
    assert_eq!(
        retry_step(4, AttemptOutcome::RateLimitResponse),
        RetryDecision::RetryAfter(5000)
    );
    assert_eq!(
        retry_step(5, AttemptOutcome::RateLimitResponse),
        RetryDecision::Fail(UpdateError::RateLimited)
    );
}

#[test]
fn step_transport_error_retries_then_times_out() {
    assert_eq!(
        retry_step(1, AttemptOutcome::TransportError),
        RetryDecision::RetryAfter(1000)
    );
    assert_eq!(
        retry_step(2, AttemptOutcome::TransportError),
        RetryDecision::RetryAfter(2000)
    );
    assert_eq!(
        retry_step(5, AttemptOutcome::TransportError),
        RetryDecision::Fail(UpdateError::Timeout(5))
    );
}

#[test]
fn all_rate_limited_fails_rate_limited_never_timeout() {
    let outcomes = vec![AttemptOutcome::RateLimitResponse; 5];
    assert_eq!(
        drive_retries(&outcomes),
        RunResult::Failed(UpdateError::RateLimited)
    );
}

#[test]
fn transport_errors_then_final_success_succeeds() {
    let outcomes = vec![
        AttemptOutcome::TransportError,
        AttemptOutcome::TransportError,
        AttemptOutcome::TransportError,
        AttemptOutcome::TransportError,
        AttemptOutcome::Success,
    ];
    assert_eq!(drive_retries(&outcomes), RunResult::Succeeded(5));
}

#[test]
fn transport_error_on_final_attempt_times_out() {
    let outcomes = vec![AttemptOutcome::TransportError; 5];
    assert_eq!(
        drive_retries(&outcomes),
        RunResult::Failed(UpdateError::Timeout(5))
    );
}

#[test]
fn immediate_success_takes_one_attempt() {
    let outcomes = vec![
        AttemptOutcome::Success,
        AttemptOutcome::TransportError,
        AttemptOutcome::TransportError,
        AttemptOutcome::TransportError,
        AttemptOutcome::TransportError,
    ];
    assert_eq!(drive_retries(&outcomes), RunResult::Succeeded(1));
}

#[test]
fn mixed_retryable_outcomes_then_success() {
    let outcomes = vec![
        AttemptOutcome::RateLimitResponse,
        AttemptOutcome::TransportError,
        AttemptOutcome::RateLimitResponse,
        AttemptOutcome::Success,
        AttemptOutcome::Success,
    ];
    assert_eq!(drive_retries(&outcomes), RunResult::Succeeded(4));
}

#[test]
fn other_status_mid_run_fails_rate_limited() {
    let outcomes = vec![
        AttemptOutcome::TransportError,
        AttemptOutcome::OtherStatus,
        AttemptOutcome::Success,
        AttemptOutcome::Success,
        AttemptOutcome::Success,
    ];
    assert_eq!(
        drive_retries(&outcomes),
        RunResult::Failed(UpdateError::RateLimited)
    );
}
