//! The upload orchestrator's retry policy.
//!
//! Per asset, the orchestrator uploads and, on a rate-limit-class error,
//! waits a fixed configured delay and tries again, up to a configured
//! maximum attempt count — or without limit when none is configured. Any
//! other error is fatal for the batch. The decision lives here; the
//! caller performs the upload and the wait.

use vstd::prelude::*;

use crate::api::RobloxApiError;

verus! {

/// The caller-configured retry policy: how many retries a single asset
/// may use (`None` for no limit), and the fixed delay between attempts.
#[derive(Clone, Copy, PartialEq, Eq, Structural, Debug)]
pub struct RetryPolicy {
    pub max_retries: Option<u32>,
    pub delay_ms: u64,
}

/// How many retries one asset's upload has used so far.
#[derive(Clone, Copy, PartialEq, Eq, Structural, Debug)]
pub struct UploadAttempts {
    pub retries: u32,
}

/// What the orchestrator must do after a failed upload.
#[derive(Clone, Copy, PartialEq, Eq, Structural, Debug)]
pub enum RetryAction {
    /// Wait this long, then upload the same asset again.
    Retry { delay_ms: u64 },
    /// The failure is fatal: abort the batch.
    Abort,
}

/// Whether an error is of the rate-limit class: the host answered 429.
pub open spec fn spec_is_rate_limited(e: RobloxApiError) -> bool {
    match e {
        RobloxApiError::ResponseError { status, .. } => status == 429,
        _ => false,
    }
}

/// Whether an error is of the rate-limit class, executable form.
pub fn is_rate_limited(e: &RobloxApiError) -> (r: bool)
    ensures
        r == spec_is_rate_limited(*e),
{
    match e {
        RobloxApiError::ResponseError { status, .. } => *status == 429,
        _ => false,
    }
}

/// Decides whether a failed upload is retried.
///
/// A rate-limit-class error is retried after the configured delay while
/// retries remain — always, when no maximum is configured — and the
/// retry is counted. Any other error, or an exhausted budget, aborts.
pub fn retry_decision(policy: &RetryPolicy, state: &mut UploadAttempts, e: &RobloxApiError) -> (r:
    RetryAction)
    requires
        old(state).retries < u32::MAX,
    ensures
        !spec_is_rate_limited(*e) ==> r == RetryAction::Abort && *final (state) == *old(state),
        spec_is_rate_limited(*e) ==> match policy.max_retries {
            None => r == (RetryAction::Retry { delay_ms: policy.delay_ms })
                && final (state).retries == old(state).retries + 1,
            Some(m) => {
                if old(state).retries < m {
                    r == (RetryAction::Retry { delay_ms: policy.delay_ms })
                        && final (state).retries == old(state).retries + 1
                } else {
                    r == RetryAction::Abort && *final (state) == *old(state)
                }
            },
        },
{
    if !is_rate_limited(e) {
        return RetryAction::Abort;
    }
    match policy.max_retries {
        None => {
            state.retries = state.retries + 1;
            RetryAction::Retry { delay_ms: policy.delay_ms }
        },
        Some(m) => {
            if state.retries < m {
                state.retries = state.retries + 1;
                RetryAction::Retry { delay_ms: policy.delay_ms }
            } else {
                RetryAction::Abort
            }
        },
    }
}

} // verus!
