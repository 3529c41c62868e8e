//! Bounded exponential-backoff retry policy for remote calls.
//!
//! The policy is pure: it maps the sequence of attempt outcomes to a final
//! result, the number of calls made, and the total sleep time. A driver that
//! performs the actual remote calls advances a [`RetryState`] one outcome at
//! a time; [`fetch_with_retry`] runs the same policy over a pre-recorded
//! outcome vector.

use vstd::prelude::*;

verus! {

/// Total attempts allowed per fetch.
pub const MAX_RETRIES: u32 = 3;

/// Sleep before the second attempt; it doubles after every failed attempt.
pub const INITIAL_RETRY_DELAY_MS: u64 = 500;

/// The terminal-error predicate of the retry policy: a terminal error
/// short-circuits the retry loop, every other error is retried.
pub trait RetryPolicyError {
    /// Whether retrying can never change this outcome.
    spec fn terminal(&self) -> bool;

    /// Executable decision, faithful to [`Self::terminal`].
    fn is_terminal(&self) -> (b: bool)
        ensures
            b == self.terminal(),
    ;
}

impl RetryPolicyError for crate::error::WeatherError {
    open spec fn terminal(&self) -> bool {
        !(*self matches crate::error::WeatherError::Network(_))
    }

    fn is_terminal(&self) -> (b: bool) {
        !matches!(self, crate::error::WeatherError::Network(_))
    }
}

impl RetryPolicyError for crate::error::GeocodingError {
    open spec fn terminal(&self) -> bool {
        !(*self matches crate::error::GeocodingError::Unreachable(_))
    }

    fn is_terminal(&self) -> (b: bool) {
        !matches!(self, crate::error::GeocodingError::Unreachable(_))
    }
}

/// What a whole retried fetch resolved to.
pub enum RetryOutcome<T, E> {
    /// An attempt succeeded; the retried call returns its value.
    Success(T),
    /// An attempt failed with a terminal error, surfaced immediately.
    Failed(E),
    /// Every allowed attempt failed with a retryable error; the last
    /// underlying error is preserved.
    Exhausted { attempts: u32, last: Option<E> },
}

/// The resolution of a retried fetch together with its cost.
pub struct RetryReport<T, E> {
    pub outcome: RetryOutcome<T, E>,
    /// How many calls were actually made.
    pub calls: u32,
    /// Total time slept between attempts, in milliseconds.
    pub total_delay_ms: u64,
}

/// The sleep after the `failures`-th failed attempt (0-based): 500ms doubled
/// each time (500, 1000, 2000, ...).
pub open spec fn spec_backoff_ms(failures: nat) -> nat
    decreases failures,
{
    if failures == 0 {
        INITIAL_RETRY_DELAY_MS as nat
    } else {
        2 * spec_backoff_ms((failures - 1) as nat)
    }
}

/// Sum of the geometric backoff series over the first `failures` failed
/// attempts: the total sleep before attempt `failures + 1` begins.
pub open spec fn spec_backoff_total_ms(failures: nat) -> nat
    decreases failures,
{
    if failures == 0 {
        0
    } else {
        spec_backoff_total_ms((failures - 1) as nat) + spec_backoff_ms((failures - 1) as nat)
    }
}

/// The policy's resolution, given the outcome of each attempt in order.
/// `outcomes[0]` answers attempt number `attempt` (1-based).
pub open spec fn spec_retry_outcome<T, E: RetryPolicyError>(
    outcomes: Seq<Result<T, E>>,
    attempt: nat,
) -> RetryOutcome<T, E>
    decreases MAX_RETRIES as nat - attempt when 1 <= attempt <= MAX_RETRIES
{
    if outcomes.len() == 0 {
        RetryOutcome::Exhausted { attempts: MAX_RETRIES, last: None }
    } else {
        match outcomes[0] {
            Result::Ok(v) => RetryOutcome::Success(v),
            Result::Err(e) => if e.terminal() {
                RetryOutcome::Failed(e)
            } else if attempt >= MAX_RETRIES {
                RetryOutcome::Exhausted { attempts: MAX_RETRIES, last: Some(e) }
            } else {
                spec_retry_outcome(outcomes.subrange(1, outcomes.len() as int), attempt + 1)
            },
        }
    }
}

/// How many calls the policy makes, counted the same way.
pub open spec fn spec_retry_calls<T, E: RetryPolicyError>(
    outcomes: Seq<Result<T, E>>,
    attempt: nat,
) -> nat
    decreases MAX_RETRIES as nat - attempt when 1 <= attempt <= MAX_RETRIES
{
    if outcomes.len() == 0 {
        0
    } else {
        match outcomes[0] {
            Result::Ok(v) => 1,
            Result::Err(e) => if e.terminal() || attempt >= MAX_RETRIES {
                1
            } else {
                1 + spec_retry_calls(outcomes.subrange(1, outcomes.len() as int), attempt + 1)
            },
        }
    }
}

/// Total sleep the policy performs, counted the same way. There is a sleep
/// between attempts but none after the final one.
pub open spec fn spec_retry_delay_ms<T, E: RetryPolicyError>(
    outcomes: Seq<Result<T, E>>,
    attempt: nat,
) -> nat
    decreases MAX_RETRIES as nat - attempt when 1 <= attempt <= MAX_RETRIES
{
    if outcomes.len() == 0 {
        0
    } else {
        match outcomes[0] {
            Result::Ok(v) => 0,
            Result::Err(e) => if e.terminal() || attempt >= MAX_RETRIES {
                0
            } else {
                spec_backoff_ms((attempt - 1) as nat) + spec_retry_delay_ms(
                    outcomes.subrange(1, outcomes.len() as int),
                    attempt + 1,
                )
            },
        }
    }
}

/// The per-call state of one retried fetch: the number of the attempt about
/// to be made and the sleep owed if it fails retryably.
pub struct RetryState {
    pub attempt: u32,
    pub delay_ms: u64,
}

/// What the driver must do after one attempt's outcome.
pub enum RetryStep<T, E> {
    /// The fetch is resolved; stop calling.
    Done(RetryOutcome<T, E>),
    /// Sleep for `delay_ms`, then make the attempt described by `next`.
    SleepAndRetry { delay_ms: u64, next: RetryState },
}

impl RetryState {
    /// The state is one the policy can actually reach.
    pub open spec fn wf(&self) -> bool {
        &&& 1 <= self.attempt <= MAX_RETRIES
        &&& self.delay_ms == spec_backoff_ms((self.attempt - 1) as nat)
    }

    /// The state before the first attempt.
    pub fn begin() -> (s: Self)
        ensures
            s.wf(),
            s.attempt == 1,
    {
        RetryState { attempt: 1, delay_ms: INITIAL_RETRY_DELAY_MS }
    }

    /// Advance the policy by one attempt outcome.
    pub fn step<T, E: RetryPolicyError>(self, outcome: Result<T, E>) -> (r: RetryStep<T, E>)
        requires
            self.wf(),
        ensures
            match r {
                RetryStep::Done(out) => {
                    &&& match outcome {
                        Result::Ok(v) => out == RetryOutcome::<T, E>::Success(v),
                        Result::Err(e) => if e.terminal() {
                            out == RetryOutcome::<T, E>::Failed(e)
                        } else {
                            &&& self.attempt == MAX_RETRIES
                            &&& out == (RetryOutcome::<T, E>::Exhausted {
                                attempts: MAX_RETRIES,
                                last: Some(e),
                            })
                        },
                    }
                },
                RetryStep::SleepAndRetry { delay_ms, next } => {
                    &&& outcome matches Result::Err(e) && !e.terminal()
                    &&& self.attempt < MAX_RETRIES
                    &&& delay_ms == self.delay_ms
                    &&& next.wf()
                    &&& next.attempt == self.attempt + 1
                },
            },
    {
        match outcome {
            Result::Ok(v) => RetryStep::Done(RetryOutcome::Success(v)),
            Result::Err(e) => {
                if e.is_terminal() {
                    RetryStep::Done(RetryOutcome::Failed(e))
                } else if self.attempt >= MAX_RETRIES {
                    RetryStep::Done(
                        RetryOutcome::Exhausted { attempts: MAX_RETRIES, last: Some(e) },
                    )
                } else {
                    proof {
                        lemma_backoff_values();
                    }
                    RetryStep::SleepAndRetry {
                        delay_ms: self.delay_ms,
                        next: RetryState {
                            attempt: self.attempt + 1,
                            delay_ms: 2 * self.delay_ms,
                        },
                    }
                }
            },
        }
    }
}

/// Run the whole policy over a pre-recorded vector of attempt outcomes.
/// `outcomes[i]` is what attempt `i + 1` would return; outcomes past the
/// resolution point are ignored.
pub fn fetch_with_retry<T, E: RetryPolicyError>(outcomes: Vec<Result<T, E>>) -> (r: RetryReport<
    T,
    E,
>)
    requires
        outcomes@.len() == MAX_RETRIES,
    ensures
        r.outcome == spec_retry_outcome(outcomes@, 1),
        r.calls == spec_retry_calls(outcomes@, 1),
        r.total_delay_ms == spec_retry_delay_ms(outcomes@, 1),
{
    run_attempts(outcomes, RetryState::begin())
}

/// Recursive core of [`fetch_with_retry`]: resolve the remaining outcomes
/// starting at the attempt `state` describes.
fn run_attempts<T, E: RetryPolicyError>(outcomes: Vec<Result<T, E>>, state: RetryState) -> (r:
    RetryReport<T, E>)
    requires
        state.wf(),
        outcomes@.len() == MAX_RETRIES + 1 - state.attempt,
    ensures
        r.outcome == spec_retry_outcome(outcomes@, state.attempt as nat),
        r.calls == spec_retry_calls(outcomes@, state.attempt as nat),
        r.total_delay_ms == spec_retry_delay_ms(outcomes@, state.attempt as nat),
    decreases MAX_RETRIES - state.attempt,
{
    let mut outcomes = outcomes;
    let first = outcomes.remove(0);
    match state.step::<T, E>(first) {
        RetryStep::Done(outcome) => RetryReport { outcome, calls: 1, total_delay_ms: 0 },
        RetryStep::SleepAndRetry { delay_ms, next } => {
            let sub = run_attempts(outcomes, next);
            proof {
                lemma_delay_bound(outcomes@, next.attempt as nat);
                lemma_backoff_values();
            }
            RetryReport {
                outcome: sub.outcome,
                calls: 1 + sub.calls,
                total_delay_ms: delay_ms + sub.total_delay_ms,
            }
        },
    }
}

/// The policy's cost is small: the calls fit in the remaining attempt
/// budget and the sleep fits in the remaining backoff series.
proof fn lemma_delay_bound<T, E: RetryPolicyError>(outcomes: Seq<Result<T, E>>, attempt: nat)
    requires
        1 <= attempt <= MAX_RETRIES,
    ensures
        spec_retry_delay_ms(outcomes, attempt) + spec_backoff_total_ms((attempt - 1) as nat)
            <= spec_backoff_total_ms(MAX_RETRIES as nat),
        spec_retry_calls(outcomes, attempt) + attempt <= MAX_RETRIES + 1,
    decreases MAX_RETRIES as nat - attempt,
{
    lemma_backoff_values();
    if outcomes.len() > 0 && attempt < MAX_RETRIES {
        match outcomes[0] {
            Result::Ok(_) => {},
            Result::Err(e) => {
                lemma_delay_bound(outcomes.subrange(1, outcomes.len() as int), attempt + 1);
                lemma_backoff_total_step((attempt - 1) as nat);
            },
        }
    }
}

/// The concrete backoff series for the 3-attempt budget.
pub proof fn lemma_backoff_values()
    ensures
        spec_backoff_ms(0) == 500,
        spec_backoff_ms(1) == 1000,
        spec_backoff_ms(2) == 2000,
        spec_backoff_total_ms(0) == 0,
        spec_backoff_total_ms(1) == 500,
        spec_backoff_total_ms(2) == 1500,
        spec_backoff_total_ms(3) == 3500,
{
    assert(spec_backoff_ms(0) == 500);
    assert(spec_backoff_ms(1) == 2 * spec_backoff_ms(0));
    assert(spec_backoff_ms(2) == 2 * spec_backoff_ms(1));
    assert(spec_backoff_total_ms(0) == 0);
    assert(spec_backoff_total_ms(1) == spec_backoff_total_ms(0) + spec_backoff_ms(0));
    assert(spec_backoff_total_ms(2) == spec_backoff_total_ms(1) + spec_backoff_ms(1));
    assert(spec_backoff_total_ms(3) == spec_backoff_total_ms(2) + spec_backoff_ms(2));
}

/// For every run of fewer than `MAX_RETRIES` retryable failures followed by
/// a success, the policy returns that success after exactly one call per
/// outcome, and the total sleep is the sum of the geometric backoff series
/// over the failed attempts.
pub proof fn lemma_retry_success_after_failures<T, E: RetryPolicyError>(
    outcomes: Seq<Result<T, E>>,
    failures: nat,
)
    requires
        outcomes.len() == MAX_RETRIES,
        failures < MAX_RETRIES,
        outcomes[failures as int] is Ok,
        forall|j: int|
            0 <= j < failures ==> outcomes[j] is Err && !(#[trigger] outcomes[j])->Err_0.terminal(),
    ensures
        spec_retry_outcome(outcomes, 1) == RetryOutcome::<T, E>::Success(
            outcomes[failures as int]->Ok_0,
        ),
        spec_retry_calls(outcomes, 1) == failures + 1,
        spec_retry_delay_ms(outcomes, 1) == spec_backoff_total_ms(failures),
{
    lemma_retry_success_from(outcomes, failures, 1);
}

/// Generalisation of [`lemma_retry_success_after_failures`] over the
/// starting attempt, for the induction.
proof fn lemma_retry_success_from<T, E: RetryPolicyError>(
    outcomes: Seq<Result<T, E>>,
    failures: nat,
    attempt: nat,
)
    requires
        1 <= attempt <= MAX_RETRIES,
        outcomes.len() == MAX_RETRIES + 1 - attempt,
        attempt + failures <= MAX_RETRIES,
        outcomes[failures as int] is Ok,
        forall|j: int|
            0 <= j < failures ==> outcomes[j] is Err && !(#[trigger] outcomes[j])->Err_0.terminal(),
    ensures
        spec_retry_outcome(outcomes, attempt) == RetryOutcome::<T, E>::Success(
            outcomes[failures as int]->Ok_0,
        ),
        spec_retry_calls(outcomes, attempt) == failures + 1,
        spec_retry_delay_ms(outcomes, attempt) == spec_backoff_total_ms(
            (attempt - 1 + failures) as nat,
        ) - spec_backoff_total_ms((attempt - 1) as nat),
    decreases failures,
{
    if failures == 0 {
    } else {
        let rest = outcomes.subrange(1, outcomes.len() as int);
        assert(rest[failures - 1] == outcomes[failures as int]);
        assert(forall|j: int| 0 <= j < failures - 1 ==> rest[j] == outcomes[j + 1]);
        lemma_retry_success_from(rest, (failures - 1) as nat, attempt + 1);
        lemma_backoff_total_step((attempt - 1) as nat);
    }
}

/// Unfolding step of the partial backoff sums.
proof fn lemma_backoff_total_step(failures: nat)
    ensures
        spec_backoff_total_ms(failures + 1) == spec_backoff_total_ms(failures) + spec_backoff_ms(
            failures,
        ),
{
}

/// A terminal error on the first attempt short-circuits: exactly one call is
/// made and no sleep occurs.
pub proof fn lemma_retry_terminal_short_circuit<T, E: RetryPolicyError>(
    outcomes: Seq<Result<T, E>>,
)
    requires
        outcomes.len() == MAX_RETRIES,
        outcomes[0] is Err,
        outcomes[0]->Err_0.terminal(),
    ensures
        spec_retry_outcome(outcomes, 1) == RetryOutcome::<T, E>::Failed(outcomes[0]->Err_0),
        spec_retry_calls(outcomes, 1) == 1,
        spec_retry_delay_ms(outcomes, 1) == 0,
{
}

/// When every attempt fails with a retryable error, the policy reports
/// exhaustion after `MAX_RETRIES` attempts, wrapping the final underlying
/// error, with a sleep after every attempt but the last.
pub proof fn lemma_retry_exhaustion<T, E: RetryPolicyError>(outcomes: Seq<Result<T, E>>)
    requires
        outcomes.len() == MAX_RETRIES,
        forall|j: int|
            0 <= j < MAX_RETRIES ==> outcomes[j] is Err && !(
            #[trigger] outcomes[j])->Err_0.terminal(),
    ensures
        spec_retry_outcome(outcomes, 1) == (RetryOutcome::<T, E>::Exhausted {
            attempts: MAX_RETRIES,
            last: Some(outcomes[MAX_RETRIES - 1]->Err_0),
        }),
        spec_retry_calls(outcomes, 1) == MAX_RETRIES,
        spec_retry_delay_ms(outcomes, 1) == spec_backoff_total_ms((MAX_RETRIES - 1) as nat),
{
    let rest1 = outcomes.subrange(1, outcomes.len() as int);
    let rest2 = rest1.subrange(1, rest1.len() as int);
    assert(outcomes[0] is Err && !outcomes[0]->Err_0.terminal());
    assert(rest1.len() == 2 && rest1[0] == outcomes[1] && rest1[1] == outcomes[2]);
    assert(rest2.len() == 1 && rest2[0] == outcomes[2]);
    assert(rest1[0] is Err && !rest1[0]->Err_0.terminal());
    assert(rest2[0] is Err && !rest2[0]->Err_0.terminal());
    assert(spec_retry_outcome(outcomes, 1) == spec_retry_outcome(rest1, 2));
    assert(spec_retry_outcome(rest1, 2) == spec_retry_outcome(rest2, 3));
    assert(spec_retry_calls(outcomes, 1) == 1 + spec_retry_calls(rest1, 2));
    assert(spec_retry_calls(rest1, 2) == 1 + spec_retry_calls(rest2, 3));
    assert(spec_retry_delay_ms(outcomes, 1) == spec_backoff_ms(0) + spec_retry_delay_ms(rest1, 2));
    assert(spec_retry_delay_ms(rest1, 2) == spec_backoff_ms(1) + spec_retry_delay_ms(rest2, 3));
    lemma_backoff_values();
}

} // verus!
