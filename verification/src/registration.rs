//! The federation-registration heartbeat's policy.
//!
//! A background task announces the gateway's routing capability to the
//! federation and renews the announcement before it expires. Each cycle
//! registers with bounded retry — five attempts, a fixed one-second backoff —
//! then sleeps half the announcement's time to live on success (so the
//! registration stays valid with margin) or a quarter of it on failure (so a
//! failed cycle retries sooner). The task itself runs outside the library;
//! these functions decide what it does next.

use vstd::prelude::*;

verus! {

/// How long a gateway announcement stays valid, in seconds.
pub const GW_ANNOUNCEMENT_TTL_SECS: u64 = 600;

/// How many registration attempts one cycle makes before giving up.
pub const REGISTRATION_MAX_ATTEMPTS: u64 = 5;

/// The fixed backoff between registration attempts, in milliseconds.
pub const REGISTRATION_RETRY_DELAY_MS: u64 = 1000;

/// What a bounded-retry loop does after one attempt.
#[derive(Debug, Clone, PartialEq, Eq)]
pub enum RetryDecision {
    /// The attempt succeeded; stop retrying.
    Succeeded,
    /// The attempt failed but attempts remain; wait this long and retry.
    Again { delay_ms: u64 },
    /// The attempt failed and the attempts are used up; give up.
    GaveUp,
}

/// Decides what a bounded-retry loop does after its `attempts_made`-th
/// attempt: stop on success, retry after the fixed delay while attempts
/// remain, give up once `max_attempts` attempts have failed.
pub fn retry_decision(succeeded: bool, attempts_made: u64, max_attempts: u64, delay_ms: u64) -> (d:
    RetryDecision)
    ensures
        succeeded ==> d is Succeeded,
        !succeeded && attempts_made < max_attempts ==> d == (RetryDecision::Again { delay_ms }),
        !succeeded && attempts_made >= max_attempts ==> d is GaveUp,
{
    if succeeded {
        RetryDecision::Succeeded
    } else if attempts_made < max_attempts {
        RetryDecision::Again { delay_ms }
    } else {
        RetryDecision::GaveUp
    }
}

/// How long the registration loop sleeps after a cycle: half the
/// announcement's time to live when the cycle registered, a quarter of it
/// when the cycle gave up, so the next try comes sooner.
pub fn registration_sleep_secs(registered: bool) -> (s: u64)
    ensures
        registered ==> s == GW_ANNOUNCEMENT_TTL_SECS / 2,
        !registered ==> s == GW_ANNOUNCEMENT_TTL_SECS / 4,
{
    if registered {
        GW_ANNOUNCEMENT_TTL_SECS / 2
    } else {
        GW_ANNOUNCEMENT_TTL_SECS / 4
    }
}

} // verus!
