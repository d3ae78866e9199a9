//! The bounded waits of start and stop.
//!
//! A start waits for the capture task to report before it returns; a stop
//! waits for the parts of the session to be published. Each wait looks,
//! sleeps a fixed interval and looks again, up to a deadline. Times are
//! milliseconds on a clock that never goes back.

use vstd::prelude::*;
use vstd::string::StringExecFns;
use crate::error::{AppError, AppErrorView};

verus! {

/// How long a start waits for the capture task to report.
pub const READY_TIMEOUT_MS: u64 = 3000;

/// The interval at which a start looks for the report.
pub const READY_POLL_MS: u64 = 10;

/// How long a stop waits for the session to be published.
pub const STOP_TIMEOUT_MS: u64 = 5000;

/// The interval at which a stop looks for the session.
pub const STOP_POLL_MS: u64 = 50;

/// What a wait does after a look.
#[derive(Debug, Clone, Copy, PartialEq, Eq, Structural)]
pub enum WaitStep {
    /// What was waited for is there.
    Proceed,
    /// The deadline has passed.
    TimedOut,
    /// Sleep this many milliseconds and look again.
    Sleep(u64),
}

/// The deadline of a wait that begins at `start_ms`.
pub open spec fn deadline_after(start_ms: u64, timeout_ms: u64) -> u64 {
    if start_ms + timeout_ms <= u64::MAX {
        (start_ms + timeout_ms) as u64
    } else {
        u64::MAX
    }
}

/// The deadline of a wait that begins at `start_ms`. A deadline beyond the
/// clock's range is the end of that range.
pub fn deadline(start_ms: u64, timeout_ms: u64) -> (d: u64)
    ensures
        d == deadline_after(start_ms, timeout_ms),
{
    start_ms.saturating_add(timeout_ms)
}

/// The step of a start that waits for the capture task's report.
pub open spec fn ready_wait(ready: bool, now_ms: u64, deadline_ms: u64) -> WaitStep {
    if ready {
        WaitStep::Proceed
    } else if now_ms >= deadline_ms {
        WaitStep::TimedOut
    } else {
        WaitStep::Sleep(READY_POLL_MS)
    }
}

/// One look of a start at the capture task's report: go on once the task
/// has reported, success or failure, or when the deadline is reached.
/// Either way the start goes on; the deadline only bounds the wait.
pub fn ready_wait_step(ready: bool, now_ms: u64, deadline_ms: u64) -> (step: WaitStep)
    ensures
        step == ready_wait(ready, now_ms, deadline_ms),
{
    if ready {
        WaitStep::Proceed
    } else if now_ms >= deadline_ms {
        WaitStep::TimedOut
    } else {
        WaitStep::Sleep(READY_POLL_MS)
    }
}

/// The step of a stop that waits for a part of the session.
pub open spec fn stop_wait(found: bool, now_ms: u64, deadline_ms: u64) -> WaitStep {
    if found {
        WaitStep::Proceed
    } else if now_ms > deadline_ms {
        WaitStep::TimedOut
    } else {
        WaitStep::Sleep(STOP_POLL_MS)
    }
}

/// One look of a stop for a part of the session (the stop signal, then the
/// task handle): go on when it was there to take, give up after the
/// deadline, else sleep and look again.
pub fn stop_wait_step(found: bool, now_ms: u64, deadline_ms: u64) -> (step: WaitStep)
    ensures
        step == stop_wait(found, now_ms, deadline_ms),
{
    if found {
        WaitStep::Proceed
    } else if now_ms > deadline_ms {
        WaitStep::TimedOut
    } else {
        WaitStep::Sleep(STOP_POLL_MS)
    }
}

/// The part of a session that a stop waits for.
#[derive(Debug, Clone, Copy, PartialEq, Eq, Structural)]
pub enum StopPart {
    /// The stop signal.
    Signal,
    /// The handle of the capture task.
    Task,
}

/// The message of the error for a part that never came.
pub open spec fn stop_timeout_text(part: StopPart) -> Seq<char> {
    match part {
        StopPart::Signal => "No recording in progress"@,
        StopPart::Task => "Recording task not ready"@,
    }
}

/// The error of a stop that gave up waiting for `part`.
pub fn stop_timeout_error(part: StopPart) -> (e: AppError)
    ensures
        e@ == AppErrorView::Audio(stop_timeout_text(part)),
{
    match part {
        StopPart::Signal => AppError::Audio(String::from_str("No recording in progress")),
        StopPart::Task => AppError::Audio(String::from_str("Recording task not ready")),
    }
}

/// The most looks that a stop makes before it gives up: one for each
/// interval that fits into the timeout, one at the deadline itself and one
/// after it.
pub open spec fn stop_looks_bound() -> int {
    STOP_TIMEOUT_MS as int / STOP_POLL_MS as int + 2
}

/// A stop with nothing to take gives up: never later than its
/// `stop_looks_bound()`-th look, whatever the clock does between looks as
/// long as each sleep lasts at least the interval asked for.
///
/// `looks` holds the clock at each look of one wait that began at
/// `start_ms`.
pub proof fn lemma_stop_wait_is_bounded(start_ms: u64, looks: Seq<u64>)
    requires
        looks.len() >= stop_looks_bound(),
        looks[0] >= start_ms,
        forall|k: int| 0 < k < looks.len() ==> #[trigger] looks[k] >= looks[k - 1] + STOP_POLL_MS,
    ensures
        exists|k: int|
            0 <= k < stop_looks_bound() && #[trigger] stop_wait(
                false,
                looks[k],
                deadline_after(start_ms, STOP_TIMEOUT_MS),
            ) == WaitStep::TimedOut,
{
    let last = stop_looks_bound() - 1;
    assert(last == 101);
    lemma_clock_advances(looks, STOP_POLL_MS as int, last);
    assert(looks[last] >= looks[0] + 5050);
    assert(stop_wait(false, looks[last], deadline_after(start_ms, STOP_TIMEOUT_MS))
        == WaitStep::TimedOut);
}

/// A start's wait ends: never later than its 301st look, under the same
/// terms.
pub proof fn lemma_ready_wait_is_bounded(start_ms: u64, looks: Seq<u64>)
    requires
        looks.len() > READY_TIMEOUT_MS / READY_POLL_MS,
        looks[0] >= start_ms,
        forall|k: int| 0 < k < looks.len() ==> #[trigger] looks[k] >= looks[k - 1] + READY_POLL_MS,
    ensures
        exists|k: int|
            0 <= k <= READY_TIMEOUT_MS / READY_POLL_MS && #[trigger] ready_wait(
                false,
                looks[k],
                deadline_after(start_ms, READY_TIMEOUT_MS),
            ) == WaitStep::TimedOut,
{
    let last = (READY_TIMEOUT_MS / READY_POLL_MS) as int;
    assert(last == 300);
    lemma_clock_advances(looks, READY_POLL_MS as int, last);
    assert(ready_wait(false, looks[last], deadline_after(start_ms, READY_TIMEOUT_MS))
        == WaitStep::TimedOut);
}

/// Looks that are each at least `interval` after the one before are at
/// least `k * interval` after the first.
pub proof fn lemma_clock_advances(looks: Seq<u64>, interval: int, k: int)
    requires
        0 <= k < looks.len(),
        interval >= 0,
        forall|j: int| 0 < j < looks.len() ==> #[trigger] looks[j] >= looks[j - 1] + interval,
    ensures
        looks[k] >= looks[0] + k * interval,
    decreases k,
{
    if k > 0 {
        lemma_clock_advances(looks, interval, k - 1);
        assert(k * interval == (k - 1) * interval + interval) by (nonlinear_arith);
    }
}

} // verus!
