//! The retry/backoff policy: what turns one failed transfer attempt into a
//! scheduled retry or a terminal failure, and how a run of failed attempts
//! exhausts the retry budget.

use vstd::prelude::*;
use crate::errors::DownloadError;
use crate::settings::AppSettings;
use crate::task::DownloadStatus;
use crate::task::bump_attempts;

verus! {

/// The policy's verdict on one failed attempt.
#[derive(Clone, Copy, Debug, PartialEq, Eq, Structural)]
pub enum RetryDecision {
    /// Wait this many seconds, then attempt again.
    RetryAfter { delay_seconds: u64 },
    /// Stop: retrying will not help.
    FailPermanently,
}

/// Errors that no retry can mend: an authorization failure, HTTP 403/404,
/// or a size mismatch found after the stream ended.
pub open spec fn is_permanent_error(e: DownloadError) -> bool {
    ||| e is Authorization
    ||| (e matches DownloadError::Server { status } && (status == 403 || status == 404))
    ||| e is SizeMismatch
}

/// The whole policy, in its decision order: retries disabled, budget spent,
/// a suspiciously fast failure (on any attempt after the first), and a
/// permanent error each end the task; everything else waits out the
/// configured delay and tries again.
pub open spec fn classify_spec(
    e: DownloadError,
    attempts_so_far: u8,
    duration_secs: u64,
    s: AppSettings,
) -> RetryDecision {
    if !s.auto_resume_downloads {
        RetryDecision::FailPermanently
    } else if attempts_so_far >= s.max_resume_attempts {
        RetryDecision::FailPermanently
    } else if attempts_so_far > 0 && duration_secs < s.min_fail_duration_seconds {
        RetryDecision::FailPermanently
    } else if is_permanent_error(e) {
        RetryDecision::FailPermanently
    } else {
        RetryDecision::RetryAfter { delay_seconds: s.resume_delay_seconds }
    }
}

/// Executable counterpart of `is_permanent_error`.
pub fn is_permanent(e: &DownloadError) -> (b: bool)
    ensures
        b == is_permanent_error(*e),
{
    match e {
        DownloadError::Authorization { .. } => true,
        DownloadError::Server { status } => *status == 403 || *status == 404,
        DownloadError::SizeMismatch { .. } => true,
        _ => false,
    }
}

/// Classify one failed attempt, exactly as `classify_spec` says.
///
/// `attempts_so_far` is the task's attempt counter as it stood during the
/// failed attempt; `duration_secs` is the attempt's wall-clock length.
pub fn classify_attempt_failure(
    e: &DownloadError,
    attempts_so_far: u8,
    duration_secs: u64,
    settings: &AppSettings,
) -> (d: RetryDecision)
    ensures
        d == classify_spec(*e, attempts_so_far, duration_secs, *settings),
{
    if !settings.auto_resume_downloads {
        RetryDecision::FailPermanently
    } else if attempts_so_far >= settings.max_resume_attempts {
        RetryDecision::FailPermanently
    } else if attempts_so_far > 0 && duration_secs < settings.min_fail_duration_seconds {
        RetryDecision::FailPermanently
    } else if is_permanent(e) {
        RetryDecision::FailPermanently
    } else {
        RetryDecision::RetryAfter { delay_seconds: settings.resume_delay_seconds }
    }
}

/// A permanent error — HTTP 404 among them — is never retried, whatever
/// attempt budget remains and however long the attempt took.
pub proof fn lemma_permanent_error_never_retried(
    e: DownloadError,
    attempts_so_far: u8,
    duration_secs: u64,
    s: AppSettings,
)
    requires
        is_permanent_error(e),
    ensures
        classify_spec(e, attempts_so_far, duration_secs, s) is FailPermanently,
{
}

/// The part of a task that one failed attempt cycle changes: its status and
/// its attempt counter.
pub struct AttemptCycleState {
    pub status: DownloadStatus,
    pub attempts: u8,
}

/// One whole failed attempt cycle: the task enters `Downloading` — bumping
/// the counter unless it was freshly queued or paused, as
/// `DownloadTask::begin_attempt` does — the attempt fails with `e` after
/// `duration_secs`, and the policy's verdict is applied, as
/// `Registry::on_attempt_failure` applies it.
pub open spec fn failed_cycle(
    st: AttemptCycleState,
    e: DownloadError,
    duration_secs: u64,
    s: AppSettings,
) -> AttemptCycleState {
    let attempts = if st.status is Queued || st.status is Paused {
        st.attempts
    } else {
        bump_attempts(st.attempts)
    };
    if classify_spec(e, attempts, duration_secs, s) is FailPermanently {
        AttemptCycleState { status: DownloadStatus::Failed, attempts }
    } else {
        AttemptCycleState { status: DownloadStatus::Retrying, attempts }
    }
}

/// `n` failed attempt cycles in a row, each failing with `e`.
pub open spec fn failed_cycles(
    st: AttemptCycleState,
    e: DownloadError,
    duration_secs: u64,
    s: AppSettings,
    n: nat,
) -> AttemptCycleState
    decreases n,
{
    if n == 0 {
        st
    } else {
        failed_cycle(failed_cycles(st, e, duration_secs, s, (n - 1) as nat), e, duration_secs, s)
    }
}

/// While the budget lasts, a transient, slow failure leaves the task
/// `Retrying`: after the `n`-th failed cycle of a freshly queued task the
/// counter reads `n - 1`, since the first attempt is free.
pub proof fn lemma_transient_failure_retries(
    st: AttemptCycleState,
    e: DownloadError,
    duration_secs: u64,
    s: AppSettings,
    n: nat,
)
    requires
        st.status is Queued,
        st.attempts == 0,
        s.auto_resume_downloads,
        !is_permanent_error(e),
        duration_secs >= s.min_fail_duration_seconds,
        1 <= n <= s.max_resume_attempts,
    ensures
        failed_cycles(st, e, duration_secs, s, n).status is Retrying,
        failed_cycles(st, e, duration_secs, s, n).attempts == n - 1,
    decreases n,
{
    if n == 1 {
        assert(failed_cycles(st, e, duration_secs, s, 0) == st);
    } else {
        lemma_transient_failure_retries(st, e, duration_secs, s, (n - 1) as nat);
    }
}

/// With `max_resume_attempts = k`, a task whose every attempt fails with a
/// transient error reaches `Failed` after exactly `k` retry cycles — the
/// first `k` failed attempts each schedule a retry, and the attempt after
/// them is terminal, with the counter reading `k`.
pub proof fn lemma_transient_failures_exhaust_budget(
    st: AttemptCycleState,
    e: DownloadError,
    duration_secs: u64,
    s: AppSettings,
)
    requires
        st.status is Queued,
        st.attempts == 0,
        s.auto_resume_downloads,
        !is_permanent_error(e),
        duration_secs >= s.min_fail_duration_seconds,
    ensures
        forall|n: nat|
            1 <= n <= s.max_resume_attempts ==> (#[trigger] failed_cycles(
                st,
                e,
                duration_secs,
                s,
                n,
            )).status is Retrying,
        failed_cycles(st, e, duration_secs, s, (s.max_resume_attempts + 1) as nat).status is Failed,
        failed_cycles(st, e, duration_secs, s, (s.max_resume_attempts + 1) as nat).attempts
            == s.max_resume_attempts,
{
    let k = s.max_resume_attempts;
    assert forall|n: nat| 1 <= n <= k implies (#[trigger] failed_cycles(
        st,
        e,
        duration_secs,
        s,
        n,
    )).status is Retrying by {
        lemma_transient_failure_retries(st, e, duration_secs, s, n);
    }
    if k == 0 {
        assert(failed_cycles(st, e, duration_secs, s, 0) == st);
        assert(failed_cycles(st, e, duration_secs, s, 1) == failed_cycle(st, e, duration_secs, s));
    } else {
        lemma_transient_failure_retries(st, e, duration_secs, s, k as nat);
    }
}

} // verus!
