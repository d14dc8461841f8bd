//! Acquiring a database handle: how often to try, and how long to wait
//! between tries.

use crate::utils::app_message::{OrderError, OrderErrorView};
use vstd::prelude::*;

verus! {

/// Milliseconds by which the wait grows with each failed attempt.
pub const BACKOFF_STEP_MS: u64 = 100;

/// The wait, in milliseconds, before the attempt that follows `failures`
/// failed ones: it grows by the same step with each failure.
pub open spec fn backoff_ms(failures: int) -> int {
    BACKOFF_STEP_MS * failures
}

/// What to do when `failures` attempts to acquire a handle have failed and at
/// most `max_retries` attempts are allowed: try again after a wait, or give
/// up because the attempts are exhausted.
pub open spec fn retry_decision(max_retries: int, failures: int) -> Result<int, OrderErrorView> {
    if failures < max_retries {
        Ok(backoff_ms(failures))
    } else {
        Err(OrderErrorView::ResourceUnavailable)
    }
}

/// The view of a retry decision.
pub open spec fn retry_view(decision: Result<u64, OrderError>) -> Result<int, OrderErrorView> {
    match decision {
        Ok(wait) => Ok(wait as int),
        Err(e) => Err(e@),
    }
}

/// Decides the next move of a caller that wants a database handle and has
/// seen `failures` attempts fail: `Ok` with the milliseconds to wait before
/// the next attempt, or `ResourceUnavailable` once `max_retries` attempts
/// have failed. The caller tries, and comes back with the new count if the
/// attempt failed.
pub fn get_connection_with_retry(max_retries: u32, failures: u32) -> (decision: Result<
    u64,
    OrderError,
>)
    ensures
        retry_view(decision) == retry_decision(max_retries as int, failures as int),
{
    if failures < max_retries {
        Ok(BACKOFF_STEP_MS * (failures as u64))
    } else {
        Err(OrderError::ResourceUnavailable)
    }
}

/// A caller that follows the decisions tries at most `max_retries` times:
/// after that many failures it is told to give up, and before that it is told
/// to try, at once the first time and then with a wait that grows by one step
/// at each failure.
pub proof fn lemma_retries_are_bounded(max_retries: int, failures: int)
    requires
        0 <= failures,
        0 <= max_retries,
    ensures
        retry_decision(max_retries, failures) is Err <==> failures >= max_retries,
        retry_decision(max_retries, failures) is Err ==> retry_decision(max_retries, failures + 1)
            is Err,
        0 < max_retries ==> retry_decision(max_retries, 0) == Ok::<int, OrderErrorView>(0),
        failures + 1 < max_retries ==> retry_decision(max_retries, failures + 1)->Ok_0
            == retry_decision(max_retries, failures)->Ok_0 + BACKOFF_STEP_MS,
{
}

} // verus!
