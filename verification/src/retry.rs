//! The shared retry/backoff engine.
//!
//! One network attempt ends in one of four observable ways
//! ([`AttemptOutcome`]). Given the attempt number and that outcome, the
//! engine decides whether the operation is done, has failed terminally, or
//! should be retried after a scheduled delay ([`retry_step`]). The caller
//! performs the attempts and the sleeps; [`drive_retries`] is the same loop
//! run to completion over a pre-recorded sequence of outcomes.

use vstd::prelude::*;

use crate::errors::UpdateError;

verus! {

/// Upper bound on the number of attempts one operation may make.
pub const MAX_ATTEMPTS: u32 = 5;

/// How one network attempt ended, as far as the engine cares.
#[derive(Clone, Copy, Debug, PartialEq, Eq, Structural)]
pub enum AttemptOutcome {
    /// A response with a success status arrived.
    Success,
    /// A response arrived, with the "too many requests" status.
    RateLimitResponse,
    /// A response arrived, with some other non-success status.
    OtherStatus,
    /// No response arrived: a transport-level error.
    TransportError,
}

/// What the engine tells the caller to do after an attempt.
#[derive(Clone, Copy, Debug, PartialEq, Eq, Structural)]
pub enum RetryDecision {
    /// The attempt succeeded; stop.
    Done,
    /// The operation failed terminally with this error; stop.
    Fail(UpdateError),
    /// Sleep this many milliseconds, then make the next attempt.
    RetryAfter(u64),
}

/// Result of driving one operation to completion.
#[derive(Clone, Copy, Debug, PartialEq, Eq, Structural)]
pub enum RunResult {
    /// The attempt with this number (counted from 1) succeeded.
    Succeeded(u32),
    /// The operation failed terminally.
    Failed(UpdateError),
}

/// The fixed backoff schedule, in milliseconds: the delay slept after
/// attempt `n` is entry `min(n - 1, 4)` of `[1000, 2000, 3000, 5000, 8000]`.
pub open spec fn spec_schedule() -> Seq<u64> {
    seq![1000u64, 2000u64, 3000u64, 5000u64, 8000u64]
}

/// The delay slept after attempt number `attempts` (the schedule's last
/// entry is reused once attempts outrun it).
pub open spec fn spec_backoff_ms(attempts: u32) -> u64 {
    if attempts <= 1 {
        1000
    } else if attempts == 2 {
        2000
    } else if attempts == 3 {
        3000
    } else if attempts == 4 {
        5000
    } else {
        8000
    }
}

/// Law: for every attempt number `n` in `1..=MAX_ATTEMPTS`, the delay before
/// attempt `n + 1` is schedule entry `min(n - 1, 4)`.
pub proof fn lemma_backoff_follows_schedule(n: u32)
    requires
        1 <= n <= MAX_ATTEMPTS,
    ensures
        spec_backoff_ms(n) == spec_schedule()[vstd::math::min(n - 1, 4)],
{
}

/// The backoff delay, in milliseconds, to sleep after attempt `attempts`.
pub fn backoff_ms(attempts: u32) -> (r: u64)
    ensures
        r == spec_backoff_ms(attempts),
{
    if attempts <= 1 {
        1000
    } else if attempts == 2 {
        2000
    } else if attempts == 3 {
        3000
    } else if attempts == 4 {
        5000
    } else {
        8000
    }
}

/// How a response status is classified: success for `200..=299`, the
/// rate-limit outcome for `429`, and every other status terminal.
pub open spec fn spec_classify_status(status: u16) -> AttemptOutcome {
    if 200 <= status < 300 {
        AttemptOutcome::Success
    } else if status == 429 {
        AttemptOutcome::RateLimitResponse
    } else {
        AttemptOutcome::OtherStatus
    }
}

/// Classifies the numeric status code of a response that did arrive.
pub fn classify_status(status: u16) -> (r: AttemptOutcome)
    ensures
        r == spec_classify_status(status),
{
    if 200 <= status && status < 300 {
        AttemptOutcome::Success
    } else if status == 429 {
        AttemptOutcome::RateLimitResponse
    } else {
        AttemptOutcome::OtherStatus
    }
}

/// The engine's decision after attempt number `attempts` ended in `outcome`:
/// success stops the operation; any other arrived status fails it as
/// rate-limited at once; a rate-limit response or a transport error is
/// retried while the budget lasts, and once the budget is spent fails as
/// `RateLimited` or `Timeout` respectively.
pub open spec fn spec_retry_step(attempts: u32, outcome: AttemptOutcome) -> RetryDecision {
    match outcome {
        AttemptOutcome::Success => RetryDecision::Done,
        AttemptOutcome::OtherStatus => RetryDecision::Fail(UpdateError::RateLimited),
        AttemptOutcome::RateLimitResponse => if attempts < MAX_ATTEMPTS {
            RetryDecision::RetryAfter(spec_backoff_ms(attempts))
        } else {
            RetryDecision::Fail(UpdateError::RateLimited)
        },
        AttemptOutcome::TransportError => if attempts < MAX_ATTEMPTS {
            RetryDecision::RetryAfter(spec_backoff_ms(attempts))
        } else {
            RetryDecision::Fail(UpdateError::Timeout(attempts))
        },
    }
}

/// Decides what to do after attempt number `attempts` (counted from 1,
/// including the attempt just made) ended in `outcome`.
pub fn retry_step(attempts: u32, outcome: AttemptOutcome) -> (d: RetryDecision)
    requires
        1 <= attempts <= MAX_ATTEMPTS,
    ensures
        d == spec_retry_step(attempts, outcome),
{
    match outcome {
        AttemptOutcome::Success => RetryDecision::Done,
        AttemptOutcome::OtherStatus => RetryDecision::Fail(UpdateError::RateLimited),
        AttemptOutcome::RateLimitResponse => if attempts < MAX_ATTEMPTS {
            RetryDecision::RetryAfter(backoff_ms(attempts))
        } else {
            RetryDecision::Fail(UpdateError::RateLimited)
        },
        AttemptOutcome::TransportError => if attempts < MAX_ATTEMPTS {
            RetryDecision::RetryAfter(backoff_ms(attempts))
        } else {
            RetryDecision::Fail(UpdateError::Timeout(attempts))
        },
    }
}

/// The result of running the engine from attempt number `attempt` onward,
/// when attempt `i` (counted from 1) ends in `outcomes[i - 1]`.
pub open spec fn spec_run_from(outcomes: Seq<AttemptOutcome>, attempt: u32) -> RunResult
    recommends
        1 <= attempt <= MAX_ATTEMPTS,
        outcomes.len() == MAX_ATTEMPTS,
    decreases MAX_ATTEMPTS - attempt,
{
    match spec_retry_step(attempt, outcomes[attempt - 1]) {
        RetryDecision::Done => RunResult::Succeeded(attempt),
        RetryDecision::Fail(e) => RunResult::Failed(e),
        RetryDecision::RetryAfter(_) => if attempt < MAX_ATTEMPTS {
            spec_run_from(outcomes, (attempt + 1) as u32)
        } else {
            // unreachable: the step only asks for a retry below the budget
            RunResult::Failed(UpdateError::Timeout(attempt))
        },
    }
}

/// The result of running one whole operation whose attempts end in
/// `outcomes`, first attempt first.
pub open spec fn spec_run(outcomes: Seq<AttemptOutcome>) -> RunResult
    recommends
        outcomes.len() == MAX_ATTEMPTS,
{
    spec_run_from(outcomes, 1)
}

/// Runs the engine's loop to completion over a pre-recorded sequence of
/// attempt outcomes: attempt `i` (counted from 1) ends in `outcomes[i - 1]`.
/// The result is exactly what the engine decides; at most `MAX_ATTEMPTS`
/// outcomes are ever inspected.
pub fn drive_retries(outcomes: &Vec<AttemptOutcome>) -> (r: RunResult)
    requires
        outcomes@.len() == MAX_ATTEMPTS,
    ensures
        r == spec_run(outcomes@),
{
    let mut attempt: u32 = 1;
    loop
        invariant
            1 <= attempt <= MAX_ATTEMPTS,
            outcomes@.len() == MAX_ATTEMPTS,
            spec_run(outcomes@) == spec_run_from(outcomes@, attempt),
        decreases MAX_ATTEMPTS - attempt,
    {
        let outcome = outcomes[(attempt - 1) as usize];
        match retry_step(attempt, outcome) {
            RetryDecision::Done => {
                return RunResult::Succeeded(attempt);
            },
            RetryDecision::Fail(e) => {
                return RunResult::Failed(e);
            },
            RetryDecision::RetryAfter(_) => {
                attempt = attempt + 1;
            },
        }
    }
}

/// An outcome the engine retries while the budget lasts.
pub open spec fn spec_is_retryable(outcome: AttemptOutcome) -> bool {
    outcome == AttemptOutcome::RateLimitResponse || outcome == AttemptOutcome::TransportError
}

/// Law: if every attempt up to the budget yields a rate-limit response, the
/// operation fails as `RateLimited`, never as `Timeout`.
pub proof fn lemma_all_rate_limited_fails_rate_limited(outcomes: Seq<AttemptOutcome>)
    requires
        outcomes.len() == MAX_ATTEMPTS,
        forall|i: int| 0 <= i < outcomes.len() ==> outcomes[i] == AttemptOutcome::RateLimitResponse,
    ensures
        spec_run(outcomes) == RunResult::Failed(UpdateError::RateLimited),
{
    assert(spec_run_from(outcomes, 5) == RunResult::Failed(UpdateError::RateLimited));
    assert(spec_run_from(outcomes, 4) == spec_run_from(outcomes, 5));
    assert(spec_run_from(outcomes, 3) == spec_run_from(outcomes, 4));
    assert(spec_run_from(outcomes, 2) == spec_run_from(outcomes, 3));
    assert(spec_run_from(outcomes, 1) == spec_run_from(outcomes, 2));
}

/// Law: if the attempts before attempt `k` all end retryably (a rate-limit
/// response or a transport error) and attempt `k` succeeds, the operation
/// succeeds at attempt `k`: bounded retries are never abandoned early. The
/// scenario of transport errors on attempts 1 through 4 and success on
/// attempt 5 is the instance `k == 5`.
pub proof fn lemma_late_success_succeeds(outcomes: Seq<AttemptOutcome>, k: u32)
    requires
        outcomes.len() == MAX_ATTEMPTS,
        1 <= k <= MAX_ATTEMPTS,
        forall|i: int| 0 <= i < k - 1 ==> spec_is_retryable(#[trigger] outcomes[i]),
        outcomes[k - 1] == AttemptOutcome::Success,
    ensures
        spec_run(outcomes) == RunResult::Succeeded(k),
{
    lemma_run_reaches(outcomes, k);
}

/// Law: if attempts 1 through 4 end retryably and attempt 5 itself ends in a
/// transport error, the operation fails as `Timeout` after 5 attempts; it
/// does not loop on.
pub proof fn lemma_final_transport_error_times_out(outcomes: Seq<AttemptOutcome>)
    requires
        outcomes.len() == MAX_ATTEMPTS,
        forall|i: int| 0 <= i < MAX_ATTEMPTS - 1 ==> spec_is_retryable(#[trigger] outcomes[i]),
        outcomes[MAX_ATTEMPTS - 1] == AttemptOutcome::TransportError,
    ensures
        spec_run(outcomes) == RunResult::Failed(UpdateError::Timeout(MAX_ATTEMPTS)),
{
    lemma_run_reaches(outcomes, MAX_ATTEMPTS);
}

/// While every outcome before attempt `k` is retryable, the run from the
/// first attempt behaves as the run from attempt `k`.
proof fn lemma_run_reaches(outcomes: Seq<AttemptOutcome>, k: u32)
    requires
        outcomes.len() == MAX_ATTEMPTS,
        1 <= k <= MAX_ATTEMPTS,
        forall|i: int| 0 <= i < k - 1 ==> spec_is_retryable(#[trigger] outcomes[i]),
    ensures
        spec_run(outcomes) == spec_run_from(outcomes, k),
    decreases k,
{
    if k > 1 {
        lemma_run_reaches(outcomes, (k - 1) as u32);
        assert(spec_run_from(outcomes, (k - 1) as u32) == spec_run_from(outcomes, k));
    }
}

} // verus!

