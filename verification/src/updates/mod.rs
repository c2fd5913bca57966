//! Update checks: version policy, outcome codes and retry of failed checks.
use vstd::prelude::*;

use crate::text::{contains, contains_str, lower, lower_of};

pub mod policy;
pub mod coordinator;

verus! {

/// The outcome of one update check.
#[derive(Debug, Clone, Copy, PartialEq, Eq)]
pub enum UpdateCode {
    UpToDate,
    Installed,
    Busy,
    Deferred,
    Failed,
}

/// The label sent to the UI for an outcome.
pub open spec fn update_code_label(c: UpdateCode) -> Seq<char> {
    match c {
        UpdateCode::UpToDate => "none"@,
        UpdateCode::Installed => "installed"@,
        UpdateCode::Busy => "busy"@,
        UpdateCode::Deferred => "deferred"@,
        UpdateCode::Failed => "failed"@,
    }
}

impl UpdateCode {
    /// The outcome's label.
    pub fn as_str(self) -> (r: &'static str)
        ensures
            r@ == update_code_label(self),
    {
        match self {
            UpdateCode::UpToDate => "none",
            UpdateCode::Installed => "installed",
            UpdateCode::Busy => "busy",
            UpdateCode::Deferred => "deferred",
            UpdateCode::Failed => "failed",
        }
    }
}

/// Whether the background loop polls for updates: only when enabled and not
/// on a local build.
pub fn should_poll_updates(local_build: bool, auto_enabled: bool) -> (r: bool)
    ensures
        r == (auto_enabled && !local_build),
{
    auto_enabled && !local_build
}

/// A failed update check reads as a transient network problem.
pub open spec fn update_retryable(message: Seq<char>) -> bool {
    let l = lower(message);
    contains(l, "error sending request"@) || contains(l, "timed out"@) || contains(l, "timeout"@)
        || contains(l, "connection"@) || contains(l, "dns"@) || contains(l, "tls"@) || contains(
        l,
        "status code"@,
    ) || contains(l, "failed to check"@)
}

/// Whether a failed update check is worth repeating.
pub fn update_error_retryable(message: &str) -> (r: bool)
    ensures
        r == update_retryable(message@),
{
    let l = lower_of(message);
    let l = l.as_slice();
    contains_str(l, "error sending request") || contains_str(l, "timed out") || contains_str(
        l,
        "timeout",
    ) || contains_str(l, "connection") || contains_str(l, "dns") || contains_str(l, "tls")
        || contains_str(l, "status code") || contains_str(l, "failed to check")
}

/// How many times one update check is tried.
pub const UPDATE_CHECK_ATTEMPTS: u32 = 3;

/// What follows the failed update check attempt number `attempt`: another
/// try after a pause when attempts are left and the failure looks
/// transient, the pause doubling from 400 ms; else the check
/// fails.
pub fn update_check_retry_delay(attempt: u32, message: &str) -> (r: Option<u64>)
    requires
        1 <= attempt,
    ensures
        r is Some == (attempt < UPDATE_CHECK_ATTEMPTS && update_retryable(message@)),
        r matches Some(d) ==> d == if attempt == 1 {
            400u64
        } else {
            800u64
        },
{
    if attempt < UPDATE_CHECK_ATTEMPTS && update_error_retryable(message) {
        let mut delay: u64 = 400;
        let mut k: u32 = 1;
        while k < attempt
            invariant
                1 <= k <= attempt < UPDATE_CHECK_ATTEMPTS,
                delay == if k == 1 {
                    400u64
                } else {
                    800u64
                },
            decreases attempt - k,
        {
            delay = delay * 2;
            k = k + 1;
        }
        Some(delay)
    } else {
        None
    }
}

/// Seconds the background loop sleeps before its next pass, or `None` once
/// an update is installed: six hours after finding none, two minutes after
/// any other outcome, and two minutes while polling is off.
pub fn background_poll_delay_secs(polled: Option<UpdateCode>) -> (r: Option<u64>)
    ensures
        r == match polled {
            Some(UpdateCode::Installed) => None,
            Some(UpdateCode::UpToDate) => Some(21_600u64),
            _ => Some(120u64),
        },
{
    match polled {
        Some(UpdateCode::Installed) => None,
        Some(UpdateCode::UpToDate) => Some(6 * 60 * 60),
        _ => Some(120),
    }
}

} // verus!
